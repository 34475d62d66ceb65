//! Multiple-reader / single-writer access control for one file shared by
//! the threads of a process.
//!
//! [`state::LockState`] is the admission state machine: how many readers hold
//! access and whether a writer does. [`rw_file::RWFile`] keeps that state behind
//! one lock and hands out access tokens; opening file handles is left to the
//! caller, who holds a token for as long as its handle is in use.
use vstd::prelude::*;

pub mod rw_file;
pub mod state;

pub use rw_file::{RWFile, ReadAccess, WriteAccess};
pub use state::LockState;
