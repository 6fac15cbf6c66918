use vstd::prelude::*;

verus! {

/// A 32-byte hash.
pub type Bytes32 = [u8; 32];

/// The proposed new state root of a transition.
#[derive(Clone, Copy, Debug)]
pub struct Commitment(pub Bytes32);

/// The durable protocol state: the current state root and the number of
/// accepted transitions.
#[derive(Clone, Copy, Debug)]
pub struct ProtocolState {
    pub state_root: Bytes32,
    pub nonce: u64,
}

/// The public values a proof is bound to.
#[derive(Clone, Copy, Debug)]
pub struct PublicInputs {
    pub threshold: u64,
    pub old_state_root: Bytes32,
    pub nonce: u64,
}

impl ProtocolState {
    /// The genesis state.
    pub fn genesis() -> (r: ProtocolState)
        ensures
            r.state_root@ == seq![0u8; 32],
            r.nonce == 0,
    {
        ProtocolState { state_root: [0u8; 32], nonce: 0 }
    }
}

/// Compares two hashes byte by byte.
pub fn hash_eq(a: &Bytes32, b: &Bytes32) -> (r: bool)
    ensures
        r == (a@ == b@),
{
    let mut i: usize = 0;
    while i < 32
        invariant
            0 <= i <= 32,
            a@.subrange(0, i as int) == b@.subrange(0, i as int),
        decreases 32 - i,
    {
        if a[i] != b[i] {
            assert(a@[i as int] != b@[i as int]);
            return false;
        }
        assert(a@.subrange(0, i + 1) == a@.subrange(0, i as int).push(a@[i as int]));
        assert(b@.subrange(0, i + 1) == b@.subrange(0, i as int).push(b@[i as int]));
        i += 1;
    }
    assert(a@ == a@.subrange(0, 32));
    assert(b@ == b@.subrange(0, 32));
    true
}

} // verus!
