use vstd::prelude::*;
use crate::principal::Principal;

verus! {

/// What a session is, independent of how it is held in memory.
pub struct SessionView {
    pub player1: Seq<u8>,
    pub player2: Seq<u8>,
    pub settled: bool,
    pub player1_won: bool,
    pub created_at: u64,
    pub ended_at: u64,
}

/// One two-party match. It is created open (`settled == false`) and settles
/// exactly once; `player1_won` and `ended_at` only mean something after that.
#[derive(Clone, Debug)]
pub struct Session {
    pub player1: Principal,
    pub player2: Principal,
    pub settled: bool,
    pub player1_won: bool,
    pub created_at: u64,
    pub ended_at: u64,
}

impl View for Session {
    type V = SessionView;

    open spec fn view(&self) -> SessionView {
        SessionView {
            player1: self.player1@,
            player2: self.player2@,
            settled: self.settled,
            player1_won: self.player1_won,
            created_at: self.created_at,
            ended_at: self.ended_at,
        }
    }
}

impl Session {
    /// A copy with the same view.
    pub fn duplicate(&self) -> (r: Session)
        ensures
            r@ == self@,
    {
        Session {
            player1: self.player1.duplicate(),
            player2: self.player2.duplicate(),
            settled: self.settled,
            player1_won: self.player1_won,
            created_at: self.created_at,
            ended_at: self.ended_at,
        }
    }
}

/// What the reporting hub must be told, as a view.
pub enum HubCallView {
    StartGame {
        session_id: u32,
        player1: Seq<u8>,
        player2: Seq<u8>,
        player1_points: i128,
        player2_points: i128,
    },
    EndGame { session_id: u32, player1_won: bool },
}

/// A notification for the reporting hub. The engine produces one with every
/// successful state change of a session; the caller delivers it.
#[derive(Clone, Debug)]
pub enum HubCall {
    StartGame {
        session_id: u32,
        player1: Principal,
        player2: Principal,
        player1_points: i128,
        player2_points: i128,
    },
    EndGame { session_id: u32, player1_won: bool },
}

impl View for HubCall {
    type V = HubCallView;

    open spec fn view(&self) -> HubCallView {
        match self {
            HubCall::StartGame { session_id, player1, player2, player1_points, player2_points } =>
                HubCallView::StartGame {
                session_id: *session_id,
                player1: player1@,
                player2: player2@,
                player1_points: *player1_points,
                player2_points: *player2_points,
            },
            HubCall::EndGame { session_id, player1_won } => HubCallView::EndGame {
                session_id: *session_id,
                player1_won: *player1_won,
            },
        }
    }
}

/// The keys under which the engine's state is stored.
#[derive(Clone, Copy, Debug, PartialEq, Eq, Structural)]
pub enum DataKey {
    Initialized,
    Admin,
    Hub,
    Verifier,
    NextSessionId,
    Session(u32),
}

} // verus!
