//! Session and event-dispatch engine for a locally running game client's
//! control API.
//!
//! The library holds the verified core: credential parsing, the gameflow
//! state machine with its at-most-once side-effect guards, region and link
//! construction, and the supervisor's reaction to failures. Transport and
//! other I/O live outside, feeding plain values in and carrying actions out.

pub mod champ_select;
pub mod config;
pub mod credentials;
pub mod encode;
pub mod link;
pub mod laws;
pub mod lobby;
pub mod machine;
pub mod phase;
pub mod ready_check;
pub mod region;
pub mod session;
pub mod strutil;
pub mod supervisor;
