//! Session lifecycle engine for two-party matches whose outcome is settled
//! either by an accepted zero-knowledge proof or by an administrator's
//! timeout decision.
//!
//! The engine is a plain state machine: callers hand it the authenticated
//! principal, the clock reading and the verifier's reply, and it hands back
//! the notification that the reporting hub must receive.

pub mod principal;
pub mod error;
pub mod session;
pub mod game;
pub mod laws;

pub use error::{proof_accepted, Error, VerifierError};
pub use game::{CipherForgeGame, Config, Operation};
pub use principal::Principal;
pub use session::{DataKey, HubCall, Session};
