//! A verified core for an album download pipeline.
//!
//! The library covers the logic of the pipeline: deriving unique,
//! filesystem-safe destination filenames, validating the destination
//! directory, the atomic write protocol of a single fetch, the bounded
//! concurrency scheduler that collects one outcome per item, and the final
//! tally. All file and network I/O is left to the surrounding program, which
//! drives the state machines defined here and reports the events back.

pub mod fetch;
pub mod naming;
pub mod outcome;
pub mod pipeline;
pub mod prepare;
pub mod report;
pub mod sched;
