//! Per-repository snapshot agent: records working-tree states into a hidden
//! bare store under `.autosnap`, without disturbing the primary repository.
//!
//! The crate is organised leaves-first: path layout, error taxonomy and string
//! utilities at the bottom; the index synthesizer, snapshot engine, compaction
//! engine and watcher state machine above them; the command layer on top.

pub mod cli;
pub mod commands;
pub mod compact;
pub mod config;
pub mod context;
pub mod daemon;
pub mod errors;
pub mod fsio;
pub mod gitio;
pub mod index;
pub mod snapshot;
pub mod ops_lock;
pub mod process;
pub mod repo;
pub mod text;
pub mod timefmt;
pub mod watcher;

pub use commands::run;
pub use errors::AutosnapError;
