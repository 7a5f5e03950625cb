use vstd::prelude::*;
use vstd::std_specs::cmp::PartialEqSpecImpl;

verus! {

/// Who a party is: the 32 bytes under which the ledger knows a creator, a
/// judge or an authority. Two identities are the same party exactly when
/// their bytes agree.
#[derive(Clone, Copy, Debug, Eq)]
pub struct Identity {
    pub bytes: [u8; 32],
}

impl View for Identity {
    type V = Seq<u8>;

    open spec fn view(&self) -> Seq<u8> {
        self.bytes@
    }
}

impl PartialEq for Identity {
    fn eq(&self, other: &Identity) -> (same: bool) {
        let mut i: usize = 0;
        while i < 32
            invariant
                i <= 32,
                forall|k: int| 0 <= k < i ==> self.bytes@[k] == other.bytes@[k],
            decreases 32 - i,
        {
            if self.bytes[i] != other.bytes[i] {
                return false;
            }
            i = i + 1;
        }
        assert(self.bytes@ =~= other.bytes@);
        assert(self.bytes == other.bytes);
        true
    }
}

impl PartialEqSpecImpl for Identity {
    open spec fn obeys_eq_spec() -> bool {
        true
    }

    open spec fn eq_spec(&self, other: &Identity) -> bool {
        *self == *other
    }
}

impl Default for Identity {
    /// The identity whose bytes are all zero, which names nobody yet.
    fn default() -> (id: Identity)
        ensures
            id.is_zero(),
    {
        Identity { bytes: [0u8; 32] }
    }
}

impl Identity {
    /// Whether every byte of this identity is zero.
    pub open spec fn is_zero(&self) -> bool {
        forall|k: int| 0 <= k < 32 ==> self@[k] == 0
    }

    /// The identity that the given bytes name.
    pub fn new(bytes: [u8; 32]) -> (id: Identity)
        ensures
            id.bytes == bytes,
            id@ == bytes@,
    {
        Identity { bytes }
    }

    /// The bytes of this identity.
    pub fn to_bytes(&self) -> (bytes: [u8; 32])
        ensures
            bytes == self.bytes,
            bytes@ == self@,
    {
        self.bytes
    }
}

} // verus!
