//! Authorized action execution and rollback for a desktop helper.
//!
//! A remote orchestrator asks for one of a closed set of remediation actions.
//! This library decides whether the request may run, which commands it runs,
//! how the transcript of the run is assembled and what is told to the remote
//! authority afterwards.  Spawning processes and talking to the network are
//! left to the caller, which feeds their results back in.

pub mod text;
pub mod catalog;
pub mod builtin;
pub mod auth;
pub mod engine;
pub mod report;
pub mod coordinator;
pub mod control;
pub mod probe;
pub mod outside;
