use vstd::prelude::*;

verus! {

/// The bonding curve shared by every pool: the price of supply level `i` is
/// `i ^ pow / frac`, both operations on integers and rounded down.
#[derive(Clone, Copy, Debug, PartialEq, Eq, Structural)]
pub struct Curve {
    pub pow: u64,
    pub frac: u64,
}

impl Curve {
    /// A usable curve divides by a nonzero number.
    pub open spec fn wf(self) -> bool {
        self.frac != 0
    }
}

/// A 32-byte account address.
#[derive(Clone, Copy, Debug)]
pub struct Address {
    pub bytes: [u8; 32],
}

impl View for Address {
    type V = Seq<u8>;

    open spec fn view(&self) -> Seq<u8> {
        self.bytes@
    }
}

impl PartialEq for Address {
    fn eq(&self, o: &Address) -> (r: bool) {
        broadcast use vstd::array::group_array_axioms;

        let mut i: usize = 0;
        while i < 32
            invariant
                i <= 32,
                self.bytes@.len() == 32,
                o.bytes@.len() == 32,
                forall|j: int| 0 <= j < i ==> self.bytes@[j] == o.bytes@[j],
            decreases 32 - i,
        {
            if self.bytes[i] != o.bytes[i] {
                return false;
            }
            i = i + 1;
        }
        assert(self.bytes@ =~= o.bytes@);
        true
    }
}

impl vstd::std_specs::cmp::PartialEqSpecImpl for Address {
    open spec fn obeys_eq_spec() -> bool {
        true
    }

    open spec fn eq_spec(&self, o: &Address) -> bool {
        self@ == o@
    }
}

impl Eq for Address {

}

/// The record of one pool: the accounts it is bound to, the creator whose
/// vault it pays, its fee rates in basis points and the bumps of its derived
/// addresses.
#[derive(Clone, Debug)]
pub struct Pool {
    pub admin: Address,
    pub mint: Address,
    pub curve: Address,
    pub treasury: Address,
    pub creator_id: String,
    pub creator_fee: u16,
    pub banger_fee: u16,
    pub bump: u8,
    pub authority_bump: u8,
}

impl Pool {
    /// The two fees together stay under the whole amount.
    pub open spec fn wf(&self) -> bool {
        self.creator_fee + self.banger_fee < 10_000
    }
}

} // verus!
