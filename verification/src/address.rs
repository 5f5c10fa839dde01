use vstd::prelude::*;

verus! {

broadcast use vstd::array::group_array_axioms;

/// The length in bytes of every account address.
pub const ADDRESS_LENGTH: usize = 32;

/// An account identity: the fixed-length opaque byte string under which the
/// ledger addresses records, balances and signers.
#[derive(Clone, Copy, Debug)]
pub struct Address {
    pub bytes: [u8; ADDRESS_LENGTH],
}

impl View for Address {
    type V = Seq<u8>;

    open spec fn view(&self) -> Seq<u8> {
        self.bytes@
    }
}

impl Address {
    pub fn new(bytes: [u8; ADDRESS_LENGTH]) -> (a: Address)
        ensures
            a@ == bytes@,
    {
        Address { bytes }
    }

    /// Byte-for-byte equality of two addresses.
    pub fn equals(&self, other: &Address) -> (r: bool)
        ensures
            r <==> self@ == other@,
    {
        let mut i: usize = 0;
        while i < ADDRESS_LENGTH
            invariant
                i <= ADDRESS_LENGTH,
                forall|j: int| 0 <= j < i ==> self.bytes@[j] == other.bytes@[j],
            decreases ADDRESS_LENGTH - i,
        {
            if self.bytes[i] != other.bytes[i] {
                return false;
            }
            i += 1;
        }
        proof {
            assert(self@ =~= other@);
        }
        true
    }
}

} // verus!
