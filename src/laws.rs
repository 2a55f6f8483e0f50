//! Properties of the session lifecycle, stated over the same views and spec
//! functions that the engine's operations are specified with. Each operation
//! leaves the state unchanged when its error function names an error, and
//! otherwise moves to the state that its transformer describes.
use vstd::prelude::*;
use crate::principal::Principal;
use crate::error::{Error, VerifierError, accepts};
use crate::game::{GameView, Operation};

verus! {

/// A settled session is terminal. A further proof submission for it fails
/// with `SessionAlreadySettled`, and a timeout decision fails too (with
/// `SessionAlreadySettled` once the administrator authorizes it). Every
/// transition that some operation can take leaves it exactly as it is.
pub proof fn settlement_is_final(g: GameView, id: u32)
    requires
        g.wf(),
        g.has_session(id),
        g.session(id).settled,
    ensures
        forall|signer: Seq<u8>, reply: Option<Result<(), VerifierError>>|
            #[trigger] g.submit_proof_error(id, signer, reply) == Some(Error::SessionAlreadySettled),
        forall|signer: Seq<u8>| #[trigger] g.resolve_timeout_error(id, signer) is Some,
        g.resolve_timeout_error(id, g.config->Some_0.admin) == Some(Error::SessionAlreadySettled),
        forall|other: u32, player1_won: bool, now: u64|
            #![trigger g.settle(other, player1_won, now)]
            other != id && g.has_session(other) ==> g.settle(other, player1_won, now).session(id)
                == g.session(id),
        forall|p1: Seq<u8>, p2: Seq<u8>, now: u64|
            #![trigger g.open_session(p1, p2, now)]
            g.next_id() < u32::MAX ==> g.open_session(p1, p2, now).session(id) == g.session(id),
        forall|hub: Seq<u8>| #[trigger] g.with_hub(hub).session(id) == g.session(id),
        forall|verifier: Seq<u8>| #[trigger] g.with_verifier(verifier).session(id) == g.session(
            id,
        ),
{
}

/// A settlement that an operation performs moves its session from open to
/// settled, so each session settles once.
pub proof fn settlement_happens_once(
    g: GameView,
    id: u32,
    signer: Seq<u8>,
    reply: Option<Result<(), VerifierError>>,
    player1_won: bool,
    now: u64,
)
    requires
        g.wf(),
        g.submit_proof_error(id, signer, reply) is None || g.resolve_timeout_error(id, signer) is None,
    ensures
        g.has_session(id),
        !g.session(id).settled,
        g.settle(id, player1_won, now).session(id).settled,
        g.settle(id, player1_won, now).wf(),
{
}

/// A session whose two players are the same identity is never created:
/// the request fails with `DuplicatePlayers` once the engine is set up.
pub proof fn same_players_are_refused(g: GameView, a: Principal, b: Principal, signer: Seq<u8>)
    requires
        g.wf(),
        g.initialized(),
        a@ == b@,
    ensures
        g.create_session_error(a, b, signer) == Some(Error::DuplicatePlayers),
{
}

/// Ids count up by one from 1: set-up makes 1 the next id, and each created
/// session takes the next id and moves it on by one.
pub proof fn ids_count_up_from_one(
    g: GameView,
    admin: Seq<u8>,
    hub: Seq<u8>,
    verifier: Seq<u8>,
    p1: Seq<u8>,
    p2: Seq<u8>,
    now: u64,
)
    requires
        g.wf(),
        g.initialized(),
        g.next_id() < u32::MAX,
    ensures
        GameView::set_up(admin, hub, verifier).next_id() == 1,
        GameView::set_up(admin, hub, verifier).wf(),
        g.open_session(p1, p2, now).wf(),
        g.open_session(p1, p2, now).next_id() == g.next_id() + 1,
        g.open_session(p1, p2, now).has_session(g.next_id()),
        !g.has_session(g.next_id()),
        g.open_session(p1, p2, now).session(g.next_id()).player1 == p1,
        g.open_session(p1, p2, now).session(g.next_id()).player2 == p2,
        !g.open_session(p1, p2, now).session(g.next_id()).settled,
{
}

/// A proof submitted for an id that names no session fails with
/// `SessionNotFound`, so the state stays as it was and the hub is told
/// nothing.
pub proof fn unknown_session_is_not_found(
    g: GameView,
    id: u32,
    signer: Seq<u8>,
    reply: Option<Result<(), VerifierError>>,
)
    requires
        g.wf(),
        g.initialized(),
        !g.has_session(id),
    ensures
        g.submit_proof_error(id, signer, reply) == Some(Error::SessionNotFound),
{
}

/// A proof that the verification service does not accept never settles a
/// session: the submission fails, so the state stays as it was and the hub
/// is told nothing.
pub proof fn rejected_proof_settles_nothing(
    g: GameView,
    id: u32,
    signer: Seq<u8>,
    reply: Option<Result<(), VerifierError>>,
)
    requires
        g.wf(),
        !accepts(reply),
    ensures
        g.submit_proof_error(id, signer, reply) is Some,
{
}

/// An accepted proof settles the session as a loss for player1 at time
/// `now`, keeping its players and creation time; where the clock has moved
/// on since creation, the end time is after the creation time.
pub proof fn accepted_proof_settles_against_player1(
    g: GameView,
    id: u32,
    signer: Seq<u8>,
    reply: Option<Result<(), VerifierError>>,
    now: u64,
)
    requires
        g.wf(),
        g.submit_proof_error(id, signer, reply) is None,
    ensures
        accepts(reply),
        g.has_session(id),
        g.session(id).player2 == signer,
        g.settle(id, false, now).session(id).settled,
        !g.settle(id, false, now).session(id).player1_won,
        g.settle(id, false, now).session(id).ended_at == now,
        g.settle(id, false, now).session(id).player1 == g.session(id).player1,
        g.settle(id, false, now).session(id).player2 == g.session(id).player2,
        g.settle(id, false, now).session(id).created_at == g.session(id).created_at,
        now > g.session(id).created_at ==> g.settle(id, false, now).session(id).ended_at > g.settle(
            id,
            false,
            now,
        ).session(id).created_at,
{
}

/// The administrator can settle any open session with either outcome,
/// whatever the verification service would say; on a settled session the
/// decision fails with `SessionAlreadySettled` and the outcome stays.
pub proof fn timeout_settles_open_sessions(g: GameView, id: u32, player1_won: bool, now: u64)
    requires
        g.wf(),
        g.initialized(),
        g.has_session(id),
    ensures
        !g.session(id).settled ==> g.resolve_timeout_error(id, g.config->Some_0.admin) is None,
        !g.session(id).settled ==> g.settle(id, player1_won, now).session(id).settled
            && g.settle(id, player1_won, now).session(id).player1_won == player1_won,
        g.session(id).settled ==> g.resolve_timeout_error(id, g.config->Some_0.admin) == Some(
            Error::SessionAlreadySettled,
        ),
{
}

/// An operation authorized by anyone but the principal it requires fails
/// with `Unauthorized`, and so changes nothing.
pub proof fn wrong_signer_changes_nothing(
    g: GameView,
    op: Operation,
    signer: Seq<u8>,
    reply: Option<Result<(), VerifierError>>,
)
    requires
        g.wf(),
        g.required_signer(op) is Ok,
        signer != g.required_signer(op)->Ok_0,
    ensures
        g.gate_error(op, signer) == Some(Error::Unauthorized),
        (op matches Operation::CreateSession { player1, player2 }) ==> g.create_session_error(
            op->player1,
            op->player2,
            signer,
        ) == Some(Error::Unauthorized),
        (op matches Operation::SubmitProof { session_id }) ==> g.submit_proof_error(
            op->SubmitProof_session_id,
            signer,
            reply,
        ) == Some(Error::Unauthorized),
        (op matches Operation::ResolveTimeout { session_id }) ==> g.resolve_timeout_error(
            op->ResolveTimeout_session_id,
            signer,
        ) == Some(Error::Unauthorized),
{
}

/// Before set-up every operation but set-up fails with `NotInitialized`;
/// after it, set-up itself fails with `AlreadyInitialized`.
pub proof fn set_up_comes_first(
    g: GameView,
    op: Operation,
    signer: Seq<u8>,
    reply: Option<Result<(), VerifierError>>,
    p1: Principal,
    p2: Principal,
    id: u32,
)
    requires
        g.wf(),
    ensures
        !g.initialized() && !(op is Initialize) ==> g.gate_error(op, signer) == Some(
            Error::NotInitialized,
        ),
        !g.initialized() ==> g.create_session_error(p1, p2, signer) == Some(Error::NotInitialized),
        !g.initialized() ==> g.submit_proof_error(id, signer, reply) == Some(Error::NotInitialized),
        !g.initialized() ==> g.resolve_timeout_error(id, signer) == Some(Error::NotInitialized),
        !g.initialized() ==> g.admin_gate() == Err::<Seq<u8>, Error>(Error::NotInitialized),
        g.initialized() && (op is Initialize) ==> g.gate_error(op, signer) == Some(
            Error::AlreadyInitialized,
        ),
{
}

} // verus!
