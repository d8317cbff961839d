//! A ledger of tamper-evident attestations.
//!
//! Each attestation binds a session identifier to the hash of a payload that
//! lives elsewhere, together with who submitted it and when. The ledger keeps
//! the latest attestation of every session and counts every accepted write.

pub mod attestation;
pub mod error;
pub mod event;
pub mod host;
pub mod laws;
pub mod ledger;
pub mod limits;
pub mod model;
pub mod sessions;

pub use attestation::{Attestation, AttestationView};
pub use error::{Argument, AttestError};
pub use event::attestation_event;
pub use ledger::{Contract, ExecutionContext};
pub use limits::{is_record_within_limit, is_session_within_limit};
pub use model::LedgerView;
