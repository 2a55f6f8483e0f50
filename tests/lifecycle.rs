use cipherforge_game::{
    proof_accepted, CipherForgeGame, Config, Error, HubCall, Operation, Principal, Session,
    VerifierError,
};

fn principal(tag: u8) -> Principal {
    Principal::new(vec![b'G', tag, tag, tag])
}

/// What the reporting hub last heard, as a mock hub would record it.
#[derive(Default)]
struct Hub {
    last_start_session: Option<u32>,
    last_end_session: Option<u32>,
    last_end_winner: Option<bool>,
    calls: usize,
}

impl Hub {
    fn deliver(&mut self, call: &HubCall) {
        self.calls += 1;
        match call {
            HubCall::StartGame { session_id, .. } => self.last_start_session = Some(*session_id),
            HubCall::EndGame { session_id, player1_won } => {
                self.last_end_session = Some(*session_id);
                self.last_end_winner = Some(*player1_won);
            }
        }
    }
}

fn admin() -> Principal {
    principal(1)
}

fn set_up() -> CipherForgeGame {
    let mut game = CipherForgeGame::new();
    let admin = admin();
    game.__constructor(admin.clone(), principal(2), principal(3), &admin)
        .unwrap();
    game
}

fn open(game: &mut CipherForgeGame, hub: &mut Hub, p1: u8, p2: u8, now: u64) -> u32 {
    let player2 = principal(p2);
    let (id, call) = game
        .create_session(principal(p1), player2.clone(), &player2, now)
        .unwrap();
    hub.deliver(&call);
    id
}

fn settled(game: &CipherForgeGame, id: u32) -> Session {
    game.get_session(id).unwrap()
}

const ACCEPTED: Option<Result<(), VerifierError>> = Some(Ok(()));
const REJECTED: Option<Result<(), VerifierError>> =
    Some(Err(VerifierError::VerificationFailed));

#[test]
fn create_session_and_submit_proof_calls_hub_lifecycle() {
    let mut game = set_up();
    let mut hub = Hub::default();
    let player2 = principal(11);

    let session_id = open(&mut game, &mut hub, 10, 11, 0);
    assert_eq!(session_id, 1);
    assert_eq!(hub.last_start_session, Some(1));

    let call = game.submit_proof(session_id, &player2, ACCEPTED, 0).unwrap();
    hub.deliver(&call);

    let updated = game.get_session(session_id).unwrap();
    assert!(updated.settled);
    assert!(!updated.player1_won);
    assert_eq!(hub.last_end_session, Some(1));
    assert_eq!(hub.last_end_winner, Some(false));
}

#[test]
fn failed_verification_keeps_session_open() {
    let mut game = set_up();
    let mut hub = Hub::default();
    let player2 = principal(11);

    let session_id = open(&mut game, &mut hub, 10, 11, 0);

    let result = game.submit_proof(session_id, &player2, REJECTED, 0);
    assert_eq!(result.unwrap_err(), Error::ZkVerificationFailed);

    let session = game.get_session(session_id).unwrap();
    assert!(!session.settled);
    assert_eq!(hub.last_end_session, None);
}

#[test]
fn second_settlement_is_refused() {
    let mut game = set_up();
    let mut hub = Hub::default();
    let player2 = principal(11);
    let id = open(&mut game, &mut hub, 10, 11, 3);
    game.submit_proof(id, &player2, ACCEPTED, 4).unwrap();
    assert_eq!(
        game.submit_proof(id, &player2, ACCEPTED, 5).unwrap_err(),
        Error::SessionAlreadySettled
    );
    assert_eq!(
        game.resolve_timeout(id, true, &admin(), 6).unwrap_err(),
        Error::SessionAlreadySettled
    );
    let s = settled(&game, id);
    assert!(s.settled);
    assert!(!s.player1_won);
    assert_eq!(s.ended_at, 4);
}

#[test]
fn duplicate_players_allocate_no_id() {
    let mut game = set_up();
    let mut hub = Hub::default();
    let a = principal(10);
    assert_eq!(
        game.create_session(a.clone(), principal(10), &a, 1).unwrap_err(),
        Error::DuplicatePlayers
    );
    assert_eq!(game.get_session(1).unwrap_err(), Error::SessionNotFound);
    assert_eq!(open(&mut game, &mut hub, 10, 11, 1), 1);
}

#[test]
fn ids_increase_by_one_from_one() {
    let mut game = set_up();
    let mut hub = Hub::default();
    assert_eq!(open(&mut game, &mut hub, 10, 11, 1), 1);
    assert_eq!(open(&mut game, &mut hub, 12, 13, 2), 2);
    assert_eq!(open(&mut game, &mut hub, 10, 11, 3), 3);
    assert_eq!(hub.last_start_session, Some(3));
}

#[test]
fn start_notification_carries_players_and_zero_points() {
    let mut game = set_up();
    let player2 = principal(11);
    let (_, call) = game
        .create_session(principal(10), player2.clone(), &player2, 42)
        .unwrap();
    match call {
        HubCall::StartGame { session_id, player1, player2: p2, player1_points, player2_points } => {
            assert_eq!(session_id, 1);
            assert_eq!(player1, principal(10));
            assert_eq!(p2, principal(11));
            assert_eq!(player1_points, 0);
            assert_eq!(player2_points, 0);
        }
        HubCall::EndGame { .. } => panic!("expected a start notification"),
    }
    let s = settled(&game, 1);
    assert_eq!(s.created_at, 42);
    assert_eq!(s.ended_at, 0);
    assert!(!s.settled);
}

#[test]
fn proof_for_unknown_session_is_not_found() {
    let mut game = set_up();
    let mut hub = Hub::default();
    open(&mut game, &mut hub, 10, 11, 1);
    let calls = hub.calls;
    assert_eq!(
        game.submit_proof(2, &principal(11), ACCEPTED, 2).unwrap_err(),
        Error::SessionNotFound
    );
    assert_eq!(
        game.submit_proof(0, &principal(11), ACCEPTED, 2).unwrap_err(),
        Error::SessionNotFound
    );
    assert_eq!(hub.calls, calls);
}

#[test]
fn accepted_proof_ends_after_creation() {
    let mut game = set_up();
    let mut hub = Hub::default();
    let id = open(&mut game, &mut hub, 10, 11, 100);
    let call = game.submit_proof(id, &principal(11), ACCEPTED, 150).unwrap();
    assert!(matches!(call, HubCall::EndGame { session_id: 1, player1_won: false }));
    let s = settled(&game, id);
    assert!(s.settled);
    assert!(!s.player1_won);
    assert!(s.ended_at > s.created_at);
    assert_eq!(s.ended_at, 150);
}

#[test]
fn timeout_settles_for_player1_without_a_proof() {
    let mut game = set_up();
    let mut hub = Hub::default();
    let id = open(&mut game, &mut hub, 10, 11, 1);
    let call = game.resolve_timeout(id, true, &admin(), 8).unwrap();
    hub.deliver(&call);
    assert_eq!(hub.last_end_session, Some(1));
    assert_eq!(hub.last_end_winner, Some(true));
    let s = settled(&game, id);
    assert!(s.settled);
    assert!(s.player1_won);
    assert_eq!(s.ended_at, 8);
    assert_eq!(
        game.resolve_timeout(id, false, &admin(), 9).unwrap_err(),
        Error::SessionAlreadySettled
    );
    assert!(settled(&game, id).player1_won);
}

#[test]
fn timeout_of_unknown_session_is_not_found() {
    let mut game = set_up();
    assert_eq!(
        game.resolve_timeout(1, true, &admin(), 1).unwrap_err(),
        Error::SessionNotFound
    );
}

#[test]
fn wrong_signers_change_nothing() {
    let mut game = set_up();
    let mut hub = Hub::default();
    let id = open(&mut game, &mut hub, 10, 11, 1);
    let stranger = principal(99);

    assert_eq!(
        game.create_session(principal(10), principal(11), &principal(10), 2).unwrap_err(),
        Error::Unauthorized
    );
    assert_eq!(
        game.submit_proof(id, &principal(10), ACCEPTED, 2).unwrap_err(),
        Error::Unauthorized
    );
    assert_eq!(
        game.resolve_timeout(id, true, &stranger, 2).unwrap_err(),
        Error::Unauthorized
    );
    assert_eq!(game.set_hub(principal(7), &stranger).unwrap_err(), Error::Unauthorized);
    assert_eq!(
        game.set_verifier(principal(7), &stranger).unwrap_err(),
        Error::Unauthorized
    );
    assert_eq!(game.get_hub().unwrap(), principal(2));
    assert_eq!(game.get_verifier().unwrap(), principal(3));
    assert_eq!(game.get_session(2).unwrap_err(), Error::SessionNotFound);
    let s = settled(&game, id);
    assert!(!s.settled);
    assert_eq!(s.ended_at, 0);
}

#[test]
fn set_up_is_signed_by_the_admin() {
    let mut game = CipherForgeGame::new();
    assert_eq!(
        game.__constructor(admin(), principal(2), principal(3), &principal(9))
            .unwrap_err(),
        Error::Unauthorized
    );
    assert_eq!(game.get_admin().unwrap_err(), Error::NotInitialized);
}

#[test]
fn everything_waits_for_set_up() {
    let mut game = CipherForgeGame::new();
    let p = principal(10);
    assert_eq!(
        game.create_session(principal(11), p.clone(), &p, 1).unwrap_err(),
        Error::NotInitialized
    );
    assert_eq!(game.submit_proof(1, &p, ACCEPTED, 1).unwrap_err(), Error::NotInitialized);
    assert_eq!(
        game.resolve_timeout(1, true, &p, 1).unwrap_err(),
        Error::NotInitialized
    );
    assert_eq!(game.set_hub(p.clone(), &p).unwrap_err(), Error::NotInitialized);
    assert_eq!(game.set_verifier(p.clone(), &p).unwrap_err(), Error::NotInitialized);
    assert_eq!(game.get_session(1).unwrap_err(), Error::NotInitialized);
    assert_eq!(game.get_admin().unwrap_err(), Error::NotInitialized);
    assert_eq!(game.get_hub().unwrap_err(), Error::NotInitialized);
    assert_eq!(game.get_verifier().unwrap_err(), Error::NotInitialized);
}

#[test]
fn second_set_up_keeps_configuration() {
    let mut game = set_up();
    let other = principal(50);
    assert_eq!(
        game.__constructor(other.clone(), principal(51), principal(52), &other)
            .unwrap_err(),
        Error::AlreadyInitialized
    );
    assert_eq!(game.get_admin().unwrap(), admin());
    assert_eq!(game.get_hub().unwrap(), principal(2));
    assert_eq!(game.get_verifier().unwrap(), principal(3));
}

#[test]
fn admin_replaces_services() {
    let mut game = set_up();
    game.set_hub(principal(20), &admin()).unwrap();
    game.set_verifier(principal(21), &admin()).unwrap();
    assert_eq!(game.get_hub().unwrap(), principal(20));
    assert_eq!(game.get_verifier().unwrap(), principal(21));
}

#[test]
fn authority_names_the_required_signer() {
    let mut game = CipherForgeGame::new();
    assert_eq!(
        game.authority(&Operation::Initialize { admin: admin() }).unwrap(),
        admin()
    );
    assert_eq!(game.authority(&Operation::SetHub).unwrap_err(), Error::NotInitialized);
    let admin = admin();
    game.__constructor(admin.clone(), principal(2), principal(3), &admin)
        .unwrap();
    let mut hub = Hub::default();
    let id = open(&mut game, &mut hub, 10, 11, 1);
    assert_eq!(game.authority(&Operation::SetVerifier).unwrap(), admin);
    assert_eq!(game.authority(&Operation::ResolveTimeout { session_id: 7 }).unwrap(), admin);
    assert_eq!(
        game.authority(&Operation::CreateSession { player1: principal(4), player2: principal(5) })
            .unwrap(),
        principal(5)
    );
    assert_eq!(
        game.authority(&Operation::CreateSession { player1: principal(4), player2: principal(4) })
            .unwrap_err(),
        Error::DuplicatePlayers
    );
    assert_eq!(
        game.authority(&Operation::SubmitProof { session_id: id }).unwrap(),
        principal(11)
    );
    assert_eq!(
        game.authority(&Operation::SubmitProof { session_id: 2 }).unwrap_err(),
        Error::SessionNotFound
    );
    assert_eq!(
        game.authority(&Operation::Initialize { admin: principal(1) }).unwrap_err(),
        Error::AlreadyInitialized
    );
    game.resolve_timeout(id, false, &admin, 2).unwrap();
    assert_eq!(
        game.authority(&Operation::SubmitProof { session_id: id }).unwrap_err(),
        Error::SessionAlreadySettled
    );
}

#[test]
fn every_verifier_failure_is_a_rejection() {
    assert!(proof_accepted(&Some(Ok(()))));
    assert!(!proof_accepted(&None));
    for e in [
        VerifierError::VkParseError,
        VerifierError::ProofParseError,
        VerifierError::VerificationFailed,
        VerifierError::VkNotSet,
    ] {
        assert!(!proof_accepted(&Some(Err(e))));
    }
    let mut game = set_up();
    let mut hub = Hub::default();
    let id = open(&mut game, &mut hub, 10, 11, 1);
    assert_eq!(
        game.submit_proof(id, &principal(11), None, 2).unwrap_err(),
        Error::ZkVerificationFailed
    );
    assert_eq!(
        game.submit_proof(id, &principal(11), Some(Err(VerifierError::VkNotSet)), 2)
            .unwrap_err(),
        Error::ZkVerificationFailed
    );
    assert!(!settled(&game, id).settled);
}

#[test]
fn restored_parts_must_be_dense() {
    let config = Config {
        admin: admin(),
        hub: principal(2),
        verifier: principal(3),
        next_session_id: 1,
    };
    let game = CipherForgeGame::from_parts(Some(config.clone()), Vec::new()).unwrap();
    let (restored_config, sessions) = game.into_parts();
    assert_eq!(restored_config.unwrap().next_session_id, 1);
    assert!(sessions.is_empty());
    let mut bad = config.clone();
    bad.next_session_id = 3;
    assert!(CipherForgeGame::from_parts(Some(bad), Vec::new()).is_none());
    let mut zero = config;
    zero.next_session_id = 0;
    assert!(CipherForgeGame::from_parts(Some(zero), Vec::new()).is_none());
}

#[test]
fn parts_round_trip_keeps_sessions() {
    let mut game = set_up();
    let mut hub = Hub::default();
    open(&mut game, &mut hub, 10, 11, 5);
    open(&mut game, &mut hub, 12, 13, 6);
    let (config, sessions) = game.into_parts();
    assert_eq!(config.as_ref().unwrap().next_session_id, 3);
    assert_eq!(sessions.len(), 2);
    let game = CipherForgeGame::from_parts(config, sessions).unwrap();
    assert_eq!(settled(&game, 2).player1, principal(12));
    assert_eq!(settled(&game, 2).created_at, 6);
    assert!(CipherForgeGame::from_parts(None, vec![settled(&game, 1)]).is_none());
}

#[test]
fn principals_compare_by_encoding() {
    assert!(principal(4).same_as(&principal(4)));
    assert!(!principal(4).same_as(&principal(5)));
    assert!(!Principal::new(vec![1, 2]).same_as(&Principal::new(vec![1, 2, 3])));
    assert_eq!(principal(4).duplicate(), principal(4));
}
