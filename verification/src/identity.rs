//! The identity of a party: thirty-two opaque bytes.

use vstd::prelude::*;

verus! {

/// How many bytes an identity has.
pub const IDENTITY_LEN: usize = 32;

/// The identity of a party to a will. Two identities are the same party
/// exactly when their bytes agree.
#[derive(Clone, Copy, Debug)]
pub struct Identity {
    pub bytes: [u8; 32],
}

impl View for Identity {
    type V = Seq<u8>;

    open spec fn view(&self) -> Seq<u8> {
        self.bytes@
    }
}

impl Identity {
    /// The identity with the given bytes.
    pub fn new(bytes: [u8; 32]) -> (id: Identity)
        ensures
            id@ == bytes@,
            id.bytes == bytes,
    {
        Identity { bytes }
    }

    /// The bytes of this identity.
    pub fn to_bytes(&self) -> (bytes: [u8; 32])
        ensures
            bytes@ == self@,
            bytes == self.bytes,
    {
        self.bytes
    }
}

impl PartialEq for Identity {
    fn eq(&self, other: &Identity) -> (r: bool) {
        let mut i: usize = 0;
        while i < 32
            invariant
                i <= 32,
                forall|k: int| 0 <= k < i ==> self.bytes@[k] == other.bytes@[k],
            decreases 32 - i,
        {
            if self.bytes[i] != other.bytes[i] {
                return false;
            }
            i += 1;
        }
        assert(self.bytes@ =~= other.bytes@);
        true
    }
}

impl Eq for Identity {}

impl vstd::std_specs::cmp::PartialEqSpecImpl for Identity {
    open spec fn obeys_eq_spec() -> bool {
        true
    }

    open spec fn eq_spec(&self, other: &Identity) -> bool {
        self@ == other@
    }
}

/// Identities with the same bytes are the same identity.
pub proof fn lemma_identity_by_bytes(a: Identity, b: Identity)
    ensures
        a@ == b@ <==> a == b,
{
    if a@ == b@ {
        assert(a.bytes =~= b.bytes);
    }
}

} // verus!
