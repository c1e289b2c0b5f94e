//! Dynamic DNS reconciliation for records hosted on Gandi LiveDNS.
//!
//! The library decides, record by record, whether a remote address record has
//! to be created, updated or left alone, and classifies every answer of the
//! provider into continue, skip or abort. It performs no I/O itself: the
//! caller carries out each request the reconciler asks for and hands the
//! outcome back.

pub mod address;
pub mod args;
pub mod chars;
pub mod config;
pub mod json;
pub mod laws;
pub mod outcome;
pub mod reconcile;
pub mod remote;
pub mod request;

pub use address::AddressSet;
pub use args::TakinaArgs;
pub use config::{ApiRecord, Config, ConfigError, Domain, Record, RecordType};
pub use outcome::{FatalCause, Level, Outcome, Report, SkipReason};
pub use reconcile::{
    classify_write, decide, record_turn, Advance, Decision, Reconciler, State, Step, TakinaState,
    Turn,
};
pub use remote::{classify_fetch, GandiRecord, HttpOutcome, RemoteState};
pub use request::{authorization, endpoint, Call, Request};
