//! Identifies the cloud provider that hosts the running machine.
//!
//! The crate holds the decisions of provider detection: the identities and
//! their names, the signature that each provider leaves in a vendor file or in
//! the reply of its metadata server, the steps of one probe, and the race that
//! arbitrates between the probes of a roster. Reading files, talking to
//! metadata servers and scheduling tasks are left to the caller, who hands in
//! what was observed as plain values.

pub mod probe;
pub mod provider_id;
pub mod providers;
pub mod race;
pub mod roster;
pub mod schedule;
pub mod text;

pub use provider_id::ProviderId;
pub use race::{detect, detect_with_timeout, DEFAULT_DETECTION_TIMEOUT_MS};
pub use roster::supported_providers;
