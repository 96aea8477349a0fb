//! Caller identities and the authorization guard.

use vstd::prelude::*;

verus! {

/// The identity of a caller, an owner or a creator: thirty-two opaque bytes.
#[derive(Clone, Copy, Debug, Eq)]
pub struct Identity {
    pub bytes: [u8; 32],
}

impl View for Identity {
    type V = Seq<u8>;

    open spec fn view(&self) -> Seq<u8> {
        self.bytes@
    }
}

impl PartialEq for Identity {
    fn eq(&self, other: &Identity) -> (same: bool) {
        let mut i: usize = 0;
        while i < 32
            invariant
                i <= 32,
                forall|j: int| 0 <= j < i ==> self.bytes@[j] == other.bytes@[j],
            decreases 32 - i,
        {
            if self.bytes[i] != other.bytes[i] {
                return false;
            }
            i += 1;
        }
        assert(self.bytes@ =~= other.bytes@);
        true
    }
}

impl vstd::std_specs::cmp::PartialEqSpecImpl for Identity {
    open spec fn obeys_eq_spec() -> bool {
        true
    }

    open spec fn eq_spec(&self, other: &Identity) -> bool {
        self@ == other@
    }
}

impl Identity {
    /// The identity made of the given bytes.
    pub fn new(bytes: [u8; 32]) -> (identity: Identity)
        ensures
            identity@ == bytes@,
    {
        Identity { bytes }
    }
}

/// Whether a caller may act on a resource with the recorded owner. The
/// guard holds no state: it answers from its two arguments alone.
pub open spec fn authorized(caller: Seq<u8>, owner: Seq<u8>) -> bool {
    caller == owner
}

/// The authorization guard: whether the caller is the recorded owner.
pub fn authorize(caller: &Identity, owner: &Identity) -> (allowed: bool)
    ensures
        allowed == authorized(caller@, owner@),
{
    *caller == *owner
}

} // verus!
