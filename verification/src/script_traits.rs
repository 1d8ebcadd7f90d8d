//! Handles that a reflow request carries back to the script side.

use vstd::prelude::*;

verus! {

/// Handle standing for the channel over which the layout worker reaches the
/// script controller.  This layer only forwards it inside reflow requests.
#[derive(Clone, Copy, PartialEq, Eq, Structural, Debug)]
pub struct ScriptControlChan(pub u64);

/// Address of a DOM node as the layout worker reports it: not yet checked
/// against the live DOM, hence untrusted.
#[derive(Clone, Copy, PartialEq, Eq, Structural, Debug)]
pub struct UntrustedNodeAddress(pub u64);

} // verus!
