//! Incremental synchronisation of a local video library against a remote
//! catalogue: which catalogue entries are new, where each download goes, and
//! how the checkpoint and the advisory lock move while a run proceeds.
//!
//! The library decides and computes; it reads no file and opens no
//! connection. `run::Run` is a state machine that hands its caller one action
//! at a time and takes the outcome of each as an event. `machine` holds the
//! rules it follows as functions on mathematical values, and `guarantees`
//! what those rules imply for every run.

pub mod acquire;
pub mod catalog;
pub mod config;
pub mod guarantees;
pub mod log;
pub mod machine;
pub mod order;
pub mod run;
pub mod select;
pub mod text;
pub mod time;

pub use time::from_giantbomb_datetime_to_timestamp;
