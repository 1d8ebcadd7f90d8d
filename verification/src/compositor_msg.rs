//! The compositor's view of a browsing context's readiness.

use vstd::prelude::*;
use crate::constellation_msg::PipelineId;

verus! {

/// Rendering state of one browsing context, as reported to the compositor.
#[derive(Clone, Copy, PartialEq, Eq, Structural, Debug)]
pub enum ReadyState {
    /// Nothing has loaded yet.
    Blank,
    /// A document is loading.
    Loading,
    /// A reflow has been dispatched and layout is running.
    PerformingLayout,
    /// Layout of the current document is complete.
    FinishedLoading,
}

/// A listener, implemented by the compositor's side, that is told when a
/// context changes readiness.  Dispatching a reflow notifies it with
/// `ReadyState::PerformingLayout` before the request is sent.
pub trait ScriptListener {
    /// Record that the context `id` has entered `state`.
    fn set_ready_state(&mut self, id: PipelineId, state: ReadyState);
}

} // verus!
