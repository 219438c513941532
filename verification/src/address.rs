//! Contract addresses.

use vstd::prelude::*;

verus! {

/// The address of a contract: twenty bytes, most significant first.
#[derive(Clone, Copy, Debug, Eq)]
pub struct Address {
    /// The bytes of the address.
    pub bytes: [u8; 20],
}

impl View for Address {
    type V = Seq<u8>;

    open spec fn view(&self) -> Seq<u8> {
        self.bytes@
    }
}

impl PartialEq for Address {
    fn eq(&self, other: &Address) -> (r: bool) {
        let mut i: usize = 0;
        while i < 20
            invariant
                i <= 20,
                forall|j: int| 0 <= j < i ==> self.bytes[j] == other.bytes[j],
            decreases 20 - i,
        {
            if self.bytes[i] != other.bytes[i] {
                return false;
            }
            i += 1;
        }
        assert(self.bytes =~= other.bytes);
        true
    }
}

impl vstd::std_specs::cmp::PartialEqSpecImpl for Address {
    open spec fn obeys_eq_spec() -> bool {
        true
    }

    open spec fn eq_spec(&self, other: &Address) -> bool {
        *self == *other
    }
}

impl Default for Address {
    /// The address whose bytes are all zero.
    fn default() -> (r: Address)
        ensures
            r.is_zero(),
    {
        Address { bytes: [0u8; 20] }
    }
}

impl Address {
    /// Whether every byte of the address is zero.
    pub open spec fn is_zero(&self) -> bool {
        forall|i: int| 0 <= i < 20 ==> self.bytes[i] == 0
    }

    /// The address made of the given bytes.
    pub fn new(bytes: [u8; 20]) -> (r: Address)
        ensures
            r.bytes == bytes,
    {
        Address { bytes }
    }
}

} // verus!
