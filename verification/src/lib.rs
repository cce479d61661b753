//! Trust-on-first-use protection for an alias-to-key mapping.
//!
//! A short alias resolves to an OpenPGP key identifier through a plain-text
//! configuration file. Because that file is attacker-reachable, each binding
//! is anchored by a clear-signed artifact made by a designated signing key;
//! this library holds the logic that decides whether a binding is anchored,
//! rejects tampered or mis-signed anchors, and gates the creation of a new
//! anchor on explicit operator consent. File access and the OpenPGP engine
//! stay outside: callers feed their results in as plain values and events.

pub mod checker;
pub mod engine;
pub mod machine;
pub mod outcome;
pub mod output;
pub mod policy;
pub mod store;
pub mod text;
