use vstd::prelude::*;
use crate::principal::Principal;
use crate::error::{Error, VerifierError, accepts, proof_accepted};
use crate::session::{Session, SessionView, HubCall, HubCallView};

verus! {

/// The configuration once set up, as a view.
pub struct ConfigView {
    pub admin: Seq<u8>,
    pub hub: Seq<u8>,
    pub verifier: Seq<u8>,
    pub next_session_id: u32,
}

/// Administrator, collaborating services and the id the next session gets.
#[derive(Clone, Debug)]
pub struct Config {
    pub admin: Principal,
    pub hub: Principal,
    pub verifier: Principal,
    pub next_session_id: u32,
}

impl View for Config {
    type V = ConfigView;

    open spec fn view(&self) -> ConfigView {
        ConfigView {
            admin: self.admin@,
            hub: self.hub@,
            verifier: self.verifier@,
            next_session_id: self.next_session_id,
        }
    }
}

/// The whole engine as a view: no configuration before set-up, and the
/// sessions in order of creation, session `id` at position `id - 1`.
pub struct GameView {
    pub config: Option<ConfigView>,
    pub sessions: Seq<SessionView>,
}

/// The operations that change state, with what decides who must authorize
/// each of them.
#[derive(Clone, Debug)]
pub enum Operation {
    Initialize { admin: Principal },
    SetHub,
    SetVerifier,
    CreateSession { player1: Principal, player2: Principal },
    SubmitProof { session_id: u32 },
    ResolveTimeout { session_id: u32 },
}

/// A principal or an error, with the principal seen through its view.
pub open spec fn principal_view(r: Result<Principal, Error>) -> Result<Seq<u8>, Error> {
    match r {
        Ok(p) => Ok(p@),
        Err(e) => Err(e),
    }
}

impl GameView {
    /// Ids are dense: the sessions are exactly those numbered from 1 up to
    /// the one before the next id, and nothing exists before set-up.
    pub open spec fn wf(self) -> bool {
        match self.config {
            None => self.sessions.len() == 0,
            Some(c) => 1 <= c.next_session_id && self.sessions.len() == c.next_session_id - 1,
        }
    }

    pub open spec fn initialized(self) -> bool {
        self.config is Some
    }

    pub open spec fn next_id(self) -> u32 {
        self.config->Some_0.next_session_id
    }

    pub open spec fn has_session(self, id: u32) -> bool {
        1 <= id && id <= self.sessions.len()
    }

    pub open spec fn session(self, id: u32) -> SessionView {
        self.sessions[id - 1]
    }

    /// The configuration that set-up installs.
    pub open spec fn set_up(admin: Seq<u8>, hub: Seq<u8>, verifier: Seq<u8>) -> GameView {
        GameView {
            config: Some(ConfigView { admin, hub, verifier, next_session_id: 1 }),
            sessions: Seq::empty(),
        }
    }

    pub open spec fn with_hub(self, hub: Seq<u8>) -> GameView {
        let c = self.config->Some_0;
        GameView {
            config: Some(ConfigView { hub, ..c }),
            sessions: self.sessions,
        }
    }

    pub open spec fn with_verifier(self, verifier: Seq<u8>) -> GameView {
        let c = self.config->Some_0;
        GameView {
            config: Some(ConfigView { verifier, ..c }),
            sessions: self.sessions,
        }
    }

    /// A new open session under the next id, and the counter moved on.
    pub open spec fn open_session(self, player1: Seq<u8>, player2: Seq<u8>, now: u64) -> GameView {
        let c = self.config->Some_0;
        GameView {
            config: Some(ConfigView { next_session_id: (c.next_session_id + 1) as u32, ..c }),
            sessions: self.sessions.push(
                SessionView {
                    player1,
                    player2,
                    settled: false,
                    player1_won: false,
                    created_at: now,
                    ended_at: 0,
                },
            ),
        }
    }

    /// Session `id` settled with the given outcome at time `now`.
    pub open spec fn settle(self, id: u32, player1_won: bool, now: u64) -> GameView {
        let s = self.session(id);
        GameView {
            config: self.config,
            sessions: self.sessions.update(
                id - 1,
                SessionView { settled: true, player1_won, ended_at: now, ..s },
            ),
        }
    }

    /// The administrator, for operations that only need set-up.
    pub open spec fn admin_gate(self) -> Result<Seq<u8>, Error> {
        match self.config {
            None => Err(Error::NotInitialized),
            Some(c) => Ok(c.admin),
        }
    }

    /// Who must authorize an operation, or the error that the operation
    /// returns before it asks for authorization.
    pub open spec fn required_signer(self, op: Operation) -> Result<Seq<u8>, Error> {
        match op {
            Operation::Initialize { admin } => if self.initialized() {
                Err(Error::AlreadyInitialized)
            } else {
                Ok(admin@)
            },
            Operation::SetHub => self.admin_gate(),
            Operation::SetVerifier => self.admin_gate(),
            Operation::CreateSession { player1, player2 } => if !self.initialized() {
                Err(Error::NotInitialized)
            } else if player1@ == player2@ {
                Err(Error::DuplicatePlayers)
            } else {
                Ok(player2@)
            },
            Operation::SubmitProof { session_id } => if !self.initialized() {
                Err(Error::NotInitialized)
            } else if !self.has_session(session_id) {
                Err(Error::SessionNotFound)
            } else if self.session(session_id).settled {
                Err(Error::SessionAlreadySettled)
            } else {
                Ok(self.session(session_id).player2)
            },
            Operation::ResolveTimeout { session_id } => self.admin_gate(),
        }
    }

    /// The error of an operation whose gate let `signer` through, or the
    /// gate's own error.
    pub open spec fn gate_error(self, op: Operation, signer: Seq<u8>) -> Option<Error> {
        match self.required_signer(op) {
            Err(e) => Some(e),
            Ok(who) => if signer != who {
                Some(Error::Unauthorized)
            } else {
                None
            },
        }
    }

    pub open spec fn create_session_error(
        self,
        player1: Principal,
        player2: Principal,
        signer: Seq<u8>,
    ) -> Option<Error> {
        match self.gate_error(Operation::CreateSession { player1, player2 }, signer) {
            Some(e) => Some(e),
            None => if self.next_id() == u32::MAX {
                Some(Error::CounterOverflow)
            } else {
                None
            },
        }
    }

    pub open spec fn submit_proof_error(
        self,
        id: u32,
        signer: Seq<u8>,
        reply: Option<Result<(), VerifierError>>,
    ) -> Option<Error> {
        match self.gate_error(Operation::SubmitProof { session_id: id }, signer) {
            Some(e) => Some(e),
            None => if !accepts(reply) {
                Some(Error::ZkVerificationFailed)
            } else {
                None
            },
        }
    }

    pub open spec fn resolve_timeout_error(self, id: u32, signer: Seq<u8>) -> Option<Error> {
        match self.gate_error(Operation::ResolveTimeout { session_id: id }, signer) {
            Some(e) => Some(e),
            None => if !self.has_session(id) {
                Some(Error::SessionNotFound)
            } else if self.session(id).settled {
                Some(Error::SessionAlreadySettled)
            } else {
                None
            },
        }
    }
}

/// The session lifecycle engine: configuration store, session store and the
/// rules that move sessions from open to settled.
pub struct CipherForgeGame {
    config: Option<Config>,
    sessions: Vec<Session>,
}

impl View for CipherForgeGame {
    type V = GameView;

    closed spec fn view(&self) -> GameView {
        GameView {
            config: match self.config {
                Some(c) => Some(c@),
                None => None,
            },
            sessions: self.sessions@.map_values(|s: Session| s@),
        }
    }
}

impl CipherForgeGame {
    pub open spec fn wf(&self) -> bool {
        self@.wf()
    }

    /// An engine that has not been set up.
    pub fn new() -> (r: CipherForgeGame)
        ensures
            r.wf(),
            r@.config is None,
    {
        let r = CipherForgeGame { config: None, sessions: Vec::new() };
        assert(r@.sessions =~= Seq::<SessionView>::empty());
        r
    }

    fn is_initialized(&self) -> (r: bool)
        ensures
            r == self@.initialized(),
    {
        self.config.is_some()
    }

    fn require_initialized(&self) -> (r: Result<(), Error>)
        ensures
            r is Ok <==> self@.initialized(),
            r is Err ==> r == Err::<(), Error>(Error::NotInitialized),
    {
        if !self.is_initialized() {
            return Err(Error::NotInitialized);
        }
        Ok(())
    }

    fn session(&self, session_id: u32) -> (r: Result<Session, Error>)
        requires
            self.wf(),
        ensures
            r is Ok <==> self@.has_session(session_id),
            r is Ok ==> r->Ok_0@ == self@.session(session_id),
            r is Err ==> r->Err_0 == Error::SessionNotFound,
    {
        if session_id == 0 || session_id as usize > self.sessions.len() {
            return Err(Error::SessionNotFound);
        }
        Ok(self.sessions[session_id as usize - 1].duplicate())
    }

    fn admin(&self) -> (r: Result<Principal, Error>)
        ensures
            principal_view(r) == self@.admin_gate(),
    {
        match &self.config {
            Some(c) => Ok(c.admin.duplicate()),
            None => Err(Error::NotInitialized),
        }
    }

    fn hub(&self) -> (r: Result<Principal, Error>)
        ensures
            principal_view(r) == match self@.config {
                Some(c) => Ok(c.hub),
                None => Err(Error::NotInitialized),
            },
    {
        match &self.config {
            Some(c) => Ok(c.hub.duplicate()),
            None => Err(Error::NotInitialized),
        }
    }

    fn verifier_contract(&self) -> (r: Result<Principal, Error>)
        ensures
            principal_view(r) == match self@.config {
                Some(c) => Ok(c.verifier),
                None => Err(Error::NotInitialized),
            },
    {
        match &self.config {
            Some(c) => Ok(c.verifier.duplicate()),
            None => Err(Error::NotInitialized),
        }
    }

    /// Who must authorize `op` before it runs, or the error that `op` would
    /// return before asking.
    pub fn authority(&self, op: &Operation) -> (r: Result<Principal, Error>)
        requires
            self.wf(),
        ensures
            principal_view(r) == self@.required_signer(*op),
    {
        match op {
            Operation::Initialize { admin } => {
                if self.is_initialized() {
                    return Err(Error::AlreadyInitialized);
                }
                Ok(admin.duplicate())
            },
            Operation::SetHub => self.admin(),
            Operation::SetVerifier => self.admin(),
            Operation::CreateSession { player1, player2 } => {
                self.require_initialized()?;
                if player1.same_as(player2) {
                    return Err(Error::DuplicatePlayers);
                }
                Ok(player2.duplicate())
            },
            Operation::SubmitProof { session_id } => {
                self.require_initialized()?;
                let session = self.session(*session_id)?;
                if session.settled {
                    return Err(Error::SessionAlreadySettled);
                }
                Ok(session.player2)
            },
            Operation::ResolveTimeout { session_id } => self.admin(),
        }
    }

    /// Sets the engine up once, with `admin` as administrator; `admin`
    /// itself must authorize it.
    pub fn __constructor(
        &mut self,
        admin: Principal,
        hub_contract: Principal,
        verifier_contract: Principal,
        signer: &Principal,
    ) -> (r: Result<(), Error>)
        requires
            old(self).wf(),
        ensures
            final(self).wf(),
            match old(self)@.gate_error(Operation::Initialize { admin }, signer@) {
                Some(e) => r == Err::<(), Error>(e) && final(self)@ == old(self)@,
                None => r is Ok && final(self)@ == GameView::set_up(
                    admin@,
                    hub_contract@,
                    verifier_contract@,
                ),
            },
    {
        if self.is_initialized() {
            return Err(Error::AlreadyInitialized);
        }
        if !signer.same_as(&admin) {
            return Err(Error::Unauthorized);
        }
        self.config = Some(
            Config {
                admin,
                hub: hub_contract,
                verifier: verifier_contract,
                next_session_id: 1,
            },
        );
        assert(self@.sessions =~= Seq::<SessionView>::empty());
        Ok(())
    }

    /// Replaces the verification service; the administrator must authorize it.
    pub fn set_verifier(&mut self, verifier_contract: Principal, signer: &Principal) -> (r: Result<
        (),
        Error,
    >)
        requires
            old(self).wf(),
        ensures
            final(self).wf(),
            match old(self)@.gate_error(Operation::SetVerifier, signer@) {
                Some(e) => r == Err::<(), Error>(e) && final(self)@ == old(self)@,
                None => r is Ok && final(self)@ == old(self)@.with_verifier(verifier_contract@),
            },
    {
        self.require_initialized()?;
        let admin = self.admin()?;
        if !signer.same_as(&admin) {
            return Err(Error::Unauthorized);
        }
        if let Some(c) = &mut self.config {
            c.verifier = verifier_contract;
        }
        Ok(())
    }

    /// Replaces the reporting hub; the administrator must authorize it.
    pub fn set_hub(&mut self, hub_contract: Principal, signer: &Principal) -> (r: Result<
        (),
        Error,
    >)
        requires
            old(self).wf(),
        ensures
            final(self).wf(),
            match old(self)@.gate_error(Operation::SetHub, signer@) {
                Some(e) => r == Err::<(), Error>(e) && final(self)@ == old(self)@,
                None => r is Ok && final(self)@ == old(self)@.with_hub(hub_contract@),
            },
    {
        self.require_initialized()?;
        let admin = self.admin()?;
        if !signer.same_as(&admin) {
            return Err(Error::Unauthorized);
        }
        if let Some(c) = &mut self.config {
            c.hub = hub_contract;
        }
        Ok(())
    }

    /// Opens a session between two distinct players under the next id;
    /// `player2` must authorize it. On success the hub is to be told that the
    /// session started, with no points for either side.
    pub fn create_session(
        &mut self,
        player1: Principal,
        player2: Principal,
        signer: &Principal,
        now: u64,
    ) -> (r: Result<(u32, HubCall), Error>)
        requires
            old(self).wf(),
        ensures
            final(self).wf(),
            match old(self)@.create_session_error(player1, player2, signer@) {
                Some(e) => r == Err::<(u32, HubCall), Error>(e) && final(self)@ == old(self)@,
                None => {
                    &&& r is Ok
                    &&& r->Ok_0.0 == old(self)@.next_id()
                    &&& r->Ok_0.1@ == (HubCallView::StartGame {
                        session_id: old(self)@.next_id(),
                        player1: player1@,
                        player2: player2@,
                        player1_points: 0,
                        player2_points: 0,
                    })
                    &&& final(self)@ == old(self)@.open_session(player1@, player2@, now)
                },
            },
    {
        self.require_initialized()?;
        if player1.same_as(&player2) {
            return Err(Error::DuplicatePlayers);
        }
        if !signer.same_as(&player2) {
            return Err(Error::Unauthorized);
        }
        let ghost pre = self@;
        let current_session_id: u32 = match &self.config {
            Some(c) => c.next_session_id,
            None => 1,
        };
        let next_session_id: u32 = match current_session_id.checked_add(1) {
            Some(n) => n,
            None => {
                return Err(Error::CounterOverflow);
            },
        };
        if let Some(c) = &mut self.config {
            c.next_session_id = next_session_id;
        }
        let session = Session {
            player1: player1.duplicate(),
            player2: player2.duplicate(),
            settled: false,
            player1_won: false,
            created_at: now,
            ended_at: 0,
        };
        self.sessions.push(session);
        assert(self@.sessions =~= pre.sessions.push(session@));
        let call = HubCall::StartGame {
            session_id: current_session_id,
            player1,
            player2,
            player1_points: 0,
            player2_points: 0,
        };
        Ok((current_session_id, call))
    }

    /// Settles an open session on an accepted proof: player1 has lost.
    /// `player2` of the session must authorize it, and `reply` is what the
    /// verification service answered. On success the hub is to be told that
    /// the session ended.
    pub fn submit_proof(
        &mut self,
        session_id: u32,
        signer: &Principal,
        reply: Option<Result<(), VerifierError>>,
        now: u64,
    ) -> (r: Result<HubCall, Error>)
        requires
            old(self).wf(),
        ensures
            final(self).wf(),
            match old(self)@.submit_proof_error(session_id, signer@, reply) {
                Some(e) => r == Err::<HubCall, Error>(e) && final(self)@ == old(self)@,
                None => {
                    &&& r is Ok
                    &&& r->Ok_0@ == (HubCallView::EndGame { session_id, player1_won: false })
                    &&& final(self)@ == old(self)@.settle(session_id, false, now)
                },
            },
    {
        self.require_initialized()?;
        let mut session = self.session(session_id)?;
        if session.settled {
            return Err(Error::SessionAlreadySettled);
        }
        if !signer.same_as(&session.player2) {
            return Err(Error::Unauthorized);
        }
        if !proof_accepted(&reply) {
            return Err(Error::ZkVerificationFailed);
        }
        session.settled = true;
        session.player1_won = false;
        session.ended_at = now;
        self.store_session(session_id, session);
        Ok(HubCall::EndGame { session_id, player1_won: false })
    }

    /// Settles an open session with the given outcome, without a proof; the
    /// administrator must authorize it. On success the hub is to be told that
    /// the session ended.
    pub fn resolve_timeout(
        &mut self,
        session_id: u32,
        player1_won: bool,
        signer: &Principal,
        now: u64,
    ) -> (r: Result<HubCall, Error>)
        requires
            old(self).wf(),
        ensures
            final(self).wf(),
            match old(self)@.resolve_timeout_error(session_id, signer@) {
                Some(e) => r == Err::<HubCall, Error>(e) && final(self)@ == old(self)@,
                None => {
                    &&& r is Ok
                    &&& r->Ok_0@ == (HubCallView::EndGame { session_id, player1_won })
                    &&& final(self)@ == old(self)@.settle(session_id, player1_won, now)
                },
            },
    {
        self.require_initialized()?;
        let admin = self.admin()?;
        if !signer.same_as(&admin) {
            return Err(Error::Unauthorized);
        }
        let mut session = self.session(session_id)?;
        if session.settled {
            return Err(Error::SessionAlreadySettled);
        }
        session.settled = true;
        session.player1_won = player1_won;
        session.ended_at = now;
        self.store_session(session_id, session);
        Ok(HubCall::EndGame { session_id, player1_won })
    }

    /// Overwrites an existing session.
    fn store_session(&mut self, session_id: u32, session: Session)
        requires
            old(self).wf(),
            old(self)@.has_session(session_id),
        ensures
            final(self)@ == (GameView {
                config: old(self)@.config,
                sessions: old(self)@.sessions.update(session_id - 1, session@),
            }),
    {
        let ghost pre = self@;
        self.sessions.set(session_id as usize - 1, session);
        assert(self@.sessions =~= pre.sessions.update(session_id - 1, session@));
    }

    /// Session `session_id` as stored.
    pub fn get_session(&self, session_id: u32) -> (r: Result<Session, Error>)
        requires
            self.wf(),
        ensures
            !self@.initialized() ==> r == Err::<Session, Error>(Error::NotInitialized),
            self@.initialized() && !self@.has_session(session_id) ==> r == Err::<Session, Error>(
                Error::SessionNotFound,
            ),
            self@.initialized() && self@.has_session(session_id) ==> r is Ok && r->Ok_0@
                == self@.session(session_id),
    {
        self.require_initialized()?;
        self.session(session_id)
    }

    /// The administrator.
    pub fn get_admin(&self) -> (r: Result<Principal, Error>)
        ensures
            principal_view(r) == self@.admin_gate(),
    {
        self.require_initialized()?;
        self.admin()
    }

    /// The reporting hub.
    pub fn get_hub(&self) -> (r: Result<Principal, Error>)
        ensures
            principal_view(r) == match self@.config {
                Some(c) => Ok(c.hub),
                None => Err(Error::NotInitialized),
            },
    {
        self.require_initialized()?;
        self.hub()
    }

    /// The verification service.
    pub fn get_verifier(&self) -> (r: Result<Principal, Error>)
        ensures
            principal_view(r) == match self@.config {
                Some(c) => Ok(c.verifier),
                None => Err(Error::NotInitialized),
            },
    {
        self.require_initialized()?;
        self.verifier_contract()
    }

    /// Rebuilds an engine from stored parts, or `None` where they break the
    /// invariant (the sessions must be numbered 1 up to the one before the
    /// next id, and there are none before set-up).
    pub fn from_parts(config: Option<Config>, sessions: Vec<Session>) -> (r: Option<CipherForgeGame>)
        ensures
            r is Some <==> (match config {
                None => sessions@.len() == 0,
                Some(c) => 1 <= c.next_session_id && sessions@.len() == c.next_session_id - 1,
            }),
            r is Some ==> r->Some_0.wf(),
            r is Some ==> r->Some_0@.config == match config {
                Some(c) => Some(c@),
                None => None::<ConfigView>,
            },
            r is Some ==> r->Some_0@.sessions == sessions@.map_values(|s: Session| s@),
    {
        let fits = match &config {
            None => sessions.len() == 0,
            Some(c) => 1 <= c.next_session_id && sessions.len() == c.next_session_id as usize - 1,
        };
        if fits {
            Some(CipherForgeGame { config, sessions })
        } else {
            None
        }
    }

    /// The stored parts: configuration and sessions in id order.
    pub fn into_parts(self) -> (r: (Option<Config>, Vec<Session>))
        ensures
            (match r.0 {
                Some(c) => Some(c@),
                None => None::<ConfigView>,
            }) == self@.config,
            r.1@.map_values(|s: Session| s@) == self@.sessions,
    {
        (self.config, self.sessions)
    }
}

} // verus!
