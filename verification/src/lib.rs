//! Batch conversion of a source tree into a mirrored destination tree.
//!
//! The library holds the decisions of a conversion run: which entries of a
//! walk are eligible, where each one lands under the destination root, what
//! request is sent for a file, how an answer is read, and how the run moves
//! from validation to completion. Reading, writing and the network exchange
//! are left to the caller, who feeds the results back in as plain values.

pub mod conversion;
pub mod mapper;
pub mod orchestrator;
pub mod path;
pub mod progress;
pub mod translator;
pub mod walker;
