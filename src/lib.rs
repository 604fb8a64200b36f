//! A safe session over a binary genomic track engine.
//!
//! The engine is driven through a fixed protocol: global initialisation,
//! open, header, chromosome catalog, header write, any number of appends,
//! then close and global cleanup. This crate decides that protocol and proves
//! that every resource it acquires is released exactly once.
pub mod error;
pub mod laws;
pub mod protocol;
pub mod usage;
pub mod writer;

pub use error::WriterError;
pub use protocol::{
    EngineCall, Failure, Reply, Stage, ENGINE_BUFFER_SIZE, MAX_ZOOM_LEVELS, advance, next_call_at,
    status_code,
};
pub use usage::UsageCounter;
pub use writer::{BigWigWriter, FixedStepBlock, VariableStepBlock};
