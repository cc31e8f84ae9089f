//! Decision logic of a bulk downloader: which records are skipped, when a
//! download may start, how failed attempts are retried, and how outcomes are
//! counted. The library performs no I/O; a driver carries out the actions it
//! returns and reports back what happened.

pub mod text;
pub mod state;
pub mod gate;
pub mod retry;
pub mod orchestrator;
pub mod config;
pub mod record;
