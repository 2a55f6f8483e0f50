use vstd::prelude::*;

verus! {

/// The reasons the verification service gives for refusing a proof.
#[derive(Clone, Copy, Debug, PartialEq, Eq, Structural)]
pub enum VerifierError {
    VkParseError,
    ProofParseError,
    VerificationFailed,
    VkNotSet,
}

/// Every way an operation of the engine can fail.
#[derive(Clone, Copy, Debug, PartialEq, Eq, Structural)]
pub enum Error {
    AlreadyInitialized,
    NotInitialized,
    SessionNotFound,
    SessionAlreadySettled,
    CounterOverflow,
    ZkVerificationFailed,
    DuplicatePlayers,
    /// The principal that authenticated is not the one the operation needs.
    Unauthorized,
}

/// What the verification service answered: `None` when the call itself
/// failed, else the service's own result.
pub open spec fn accepts(reply: Option<Result<(), VerifierError>>) -> bool {
    reply matches Some(Ok(_))
}

/// Collapses every failure of the verification service, whatever its
/// reason, into a rejection.
pub fn proof_accepted(reply: &Option<Result<(), VerifierError>>) -> (r: bool)
    ensures
        r == accepts(*reply),
{
    match reply {
        Some(Ok(())) => true,
        _ => false,
    }
}

} // verus!
