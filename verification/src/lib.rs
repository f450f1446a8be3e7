//! Supervision rules for running an ordinary command as a host-managed service.
//!
//! `policy` decides whether an exited command is started again, `engine` takes
//! the service through its states one step at a time, and `trace` states what
//! holds of every run of the engine. `cli` and `config` hold the options of the
//! command line and the settings resolved from them; `environment`, `numeral`
//! and `text` serve them.

pub mod cli;
pub mod config;
pub mod engine;
pub mod environment;
pub mod numeral;
pub mod policy;
pub mod text;
pub mod trace;
