//! Copies a contiguous byte range of one file into another file at a given
//! offset, in the manner of the useful parts of `dd`.
//!
//! The library holds the decisions: checking a configuration against what is
//! known of the two files, and the buffered transfer loop as a state machine
//! that a driver feeds with the outcome of each read and write.  The same
//! machine also runs between byte buffers, where what it leaves behind is
//! proved.

pub mod config;
pub mod engine;
pub mod laws;
pub mod memory;
pub mod validator;

pub use config::{Config, DEFAULT_BUFFER_SIZE};
pub use engine::{CopyError, ReadOutcome, ReadStep, Transfer, WriteOutcome};
pub use memory::copy_bytes;
pub use validator::{sanity_check, DestinationInfo, ValidationError};
