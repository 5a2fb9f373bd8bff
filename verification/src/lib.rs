//! A verified process-pipe supervision and stream-relay engine.
//!
//! The library decides everything the pipeline does: how diagnostic lines
//! are classified, when a fatal signature forces a shutdown, how the ingest
//! supervisor retries, which bytes the mixer forwards to the sink, and in
//! what order the managed processes are terminated.  The surrounding binary
//! only spawns processes, moves bytes, and performs the actions this
//! library hands back.

use vstd::prelude::*;

pub mod command;
pub mod logging;
pub mod mailer;
pub mod mixer;
pub mod monitor;
pub mod pipeline;
pub mod shutdown;
pub mod store;
pub mod supervisor;
pub mod text;

verus! {

/// Size in bytes of one ingest data chunk; fixed for the pipeline's lifetime
/// to match the external processes' natural buffering unit.
pub const CHUNK_SIZE: usize = 65424;

} // verus!
