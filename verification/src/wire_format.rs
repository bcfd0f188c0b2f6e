//! The wire format building blocks: 128-bit identifiers and the errors the
//! byte-level machinery can report.

use vstd::prelude::*;

pub mod unique_id;

verus! {

/// Errors produced while encoding or decoding the byte stream.
///
/// `Deserialize` covers malformed data (for instance a frame shorter than its
/// own header); `MessageSizeExceeded` is the hard guard against frames larger
/// than the configured maximum.
#[derive(Debug, Clone, PartialEq, Eq)]
pub enum WireErr {
    /// The bytes at hand cannot be a valid frame.
    Deserialize { context: String },
    /// A declared or submitted frame length exceeds the configured maximum.
    MessageSizeExceeded { context: String, size: u64, max_size: u64 },
}

} // verus!
