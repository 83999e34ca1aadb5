//! The error taxonomy: weight resolution, operator construction, and
//! generation failures are distinct and all propagate immediately to the
//! caller; there is no internal retry or recovery.

use vstd::prelude::*;

verus! {

/// What can go wrong while resolving weights, building the pipeline, or
/// generating an image.
#[derive(Debug)]
pub enum DiffusionError {
    /// A weight file could not be resolved to a local path.
    Fetch(String),
    /// An opaque operator failed to build from its weight file.
    Construction(String),
    /// The tensor runtime reported a failure (typically a shape mismatch
    /// between components) during sampling or decoding.
    Generation(String),
    /// The decoded image tensor did not have exactly three channels; the
    /// payload is the channel count that was found.
    NotRgb(usize),
}

} // verus!
