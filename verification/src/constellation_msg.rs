//! Identifiers and viewport data shared with the constellation, the task
//! that provisions browsing contexts.

use vstd::prelude::*;

verus! {

/// Globally unique identifier of one browsing context's pipeline.
#[derive(Clone, Copy, PartialEq, Eq, Structural, Debug)]
pub struct PipelineId(pub u64);

/// Identifier of an iframe within its parent context.
#[derive(Clone, Copy, PartialEq, Eq, Structural, Debug)]
pub struct SubpageId(pub u64);

/// Handle standing for the channel to the constellation task.  This layer
/// stores it for other components and never sends on it.
#[derive(Clone, Copy, PartialEq, Eq, Structural, Debug)]
pub struct ConstellationChan(pub u64);

/// The viewport dimensions last reported for a browsing context, in
/// device pixels.
#[derive(Clone, Copy, PartialEq, Eq, Structural, Debug)]
pub struct WindowSizeData {
    pub width: u32,
    pub height: u32,
}

} // verus!
