//! The protocol state machine: it checks that a transition continues the
//! current state, has the proof verified, applies the policy, and only then
//! commits the new state.
use crate::backend::ProofBackend;
use crate::errors::ProtocolError;
use crate::policy::Policy;
use crate::types::{hash_eq, Commitment, ProtocolState, PublicInputs};
use vstd::prelude::*;

verus! {

/// The preconditions of a transition from `state`: it names the current
/// state root, and its nonce is the successor of the current nonce.
pub open spec fn precheck(state: ProtocolState, inputs: PublicInputs) -> Result<(), ProtocolError> {
    if inputs.old_state_root@ != state.state_root@ {
        Err(ProtocolError::StateMismatch)
    } else if inputs.nonce != state.nonce + 1 {
        Err(ProtocolError::InvalidNonce)
    } else {
        Ok(())
    }
}

/// The state after an accepted transition that proposes `commitment`.
pub open spec fn next_state(state: ProtocolState, commitment: Commitment) -> ProtocolState {
    ProtocolState { state_root: commitment.0, nonce: (state.nonce + 1) as u64 }
}

/// The result and the new state of a transition from `state`, given the
/// backend's verdict on the proof.
pub open spec fn transition(
    state: ProtocolState,
    inputs: PublicInputs,
    commitment: Commitment,
    verdict: Result<(), ProtocolError>,
    policy: Policy,
) -> (Result<(), ProtocolError>, ProtocolState) {
    match precheck(state, inputs) {
        Err(e) => (Err(e), state),
        Ok(_) => match verdict {
            Err(e) => (Err(e), state),
            Ok(_) => if policy.allows(inputs) {
                (Ok(()), next_state(state, commitment))
            } else {
                (Err(ProtocolError::PolicyViolation), state)
            },
        },
    }
}

/// Holds the protocol state and is the only place it changes.
pub struct VerifierEngine {
    state: ProtocolState,
    backend: ProofBackend,
    policy: Policy,
}

impl VerifierEngine {
    /// The current protocol state.
    pub closed spec fn current(&self) -> ProtocolState {
        self.state
    }

    /// The configured proof backend.
    pub closed spec fn backend_spec(&self) -> ProofBackend {
        self.backend
    }

    /// The configured policy.
    pub closed spec fn policy_spec(&self) -> Policy {
        self.policy
    }

    /// An engine at `state`, checking proofs with `backend`, with the
    /// policy that allows every input.
    pub fn new(state: ProtocolState, backend: ProofBackend) -> (r: VerifierEngine)
        ensures
            r.current() == state,
            r.backend_spec() == backend,
            forall|inputs: PublicInputs| r.policy_spec().allows(inputs),
    {
        VerifierEngine { state, backend, policy: Policy::permissive() }
    }

    /// An engine at `state`, checking proofs with `backend` and inputs with
    /// `policy`.
    pub fn with_policy(state: ProtocolState, backend: ProofBackend, policy: Policy) -> (r:
        VerifierEngine)
        ensures
            r.current() == state,
            r.backend_spec() == backend,
            r.policy_spec() == policy,
    {
        VerifierEngine { state, backend, policy }
    }

    /// The current protocol state.
    pub fn state(&self) -> (r: &ProtocolState)
        ensures
            *r == self.current(),
    {
        &self.state
    }

    /// Processes a transition: checks the state root and the nonce, has
    /// the backend verify the proof, applies the policy, and commits
    /// `commitment` as the new state root with the next nonce. The first
    /// failing step gives the error, and on any error the state is left
    /// as it was.
    pub fn process_transition(
        &mut self,
        proof_bytes: &[u8],
        public_inputs: PublicInputs,
        commitment: Commitment,
    ) -> (r: Result<(), ProtocolError>)
        ensures
            final(self).backend_spec() == old(self).backend_spec(),
            final(self).policy_spec() == old(self).policy_spec(),
            (r, final(self).current()) == transition(
                old(self).current(),
                public_inputs,
                commitment,
                old(self).backend_spec().verdict(proof_bytes@, public_inputs),
                old(self).policy_spec(),
            ),
            precheck(old(self).current(), public_inputs) matches Err(e) ==> r == Err::<
                (),
                ProtocolError,
            >(e) && final(self).current() == old(self).current(),
            r is Err ==> final(self).current() == old(self).current(),
            r is Ok ==> public_inputs.nonce == old(self).current().nonce + 1 && final(self).current()
                == next_state(old(self).current(), commitment),
    {
        if !hash_eq(&public_inputs.old_state_root, &self.state.state_root) {
            return Err(ProtocolError::StateMismatch);
        }
        if self.state.nonce == u64::MAX || public_inputs.nonce != self.state.nonce + 1 {
            return Err(ProtocolError::InvalidNonce);
        }
        let verdict = self.backend.verify(proof_bytes, &public_inputs);
        match verdict {
            Ok(()) => {},
            Err(e) => {
                return Err(e);
            },
        }
        match self.policy.enforce(&public_inputs) {
            Ok(()) => {},
            Err(e) => {
                return Err(e);
            },
        }
        self.state = ProtocolState { state_root: commitment.0, nonce: self.state.nonce + 1 };
        Ok(())
    }
}

/// A transition from `state` succeeds only with the successor nonce: with
/// the current root named, any other nonce is refused as `InvalidNonce`,
/// whatever the backend and the policy say.
pub proof fn lemma_only_successor_nonce(
    state: ProtocolState,
    inputs: PublicInputs,
    commitment: Commitment,
    verdict: Result<(), ProtocolError>,
    policy: Policy,
)
    requires
        inputs.old_state_root@ == state.state_root@,
    ensures
        inputs.nonce != state.nonce + 1 ==> transition(
            state,
            inputs,
            commitment,
            verdict,
            policy,
        ).0 == Err::<(), ProtocolError>(ProtocolError::InvalidNonce),
        transition(state, inputs, commitment, verdict, policy).0 is Ok ==> inputs.nonce == state.nonce
            + 1,
{
}

/// Any failure, the policy's included after a successful proof check,
/// leaves the state exactly as it was.
pub proof fn lemma_failure_keeps_state(
    state: ProtocolState,
    inputs: PublicInputs,
    commitment: Commitment,
    verdict: Result<(), ProtocolError>,
    policy: Policy,
)
    ensures
        transition(state, inputs, commitment, verdict, policy).0 is Err ==> transition(
            state,
            inputs,
            commitment,
            verdict,
            policy,
        ).1 == state,
{
}

/// Replaying an accepted transition fails, whatever the backend and the
/// policy say the second time: with `InvalidNonce` when the commitment
/// repeats the old root, and otherwise with `StateMismatch`, since the root
/// is checked first.
pub proof fn lemma_replay_rejected(
    state: ProtocolState,
    inputs: PublicInputs,
    commitment: Commitment,
    first: Result<(), ProtocolError>,
    second: Result<(), ProtocolError>,
    policy: Policy,
)
    requires
        transition(state, inputs, commitment, first, policy).0 is Ok,
    ensures
        ({
            let after = transition(state, inputs, commitment, first, policy).1;
            transition(after, inputs, commitment, second, policy).0 == if commitment.0@
                == inputs.old_state_root@ {
                Err::<(), ProtocolError>(ProtocolError::InvalidNonce)
            } else {
                Err::<(), ProtocolError>(ProtocolError::StateMismatch)
            }
        }),
{
}

} // verus!
