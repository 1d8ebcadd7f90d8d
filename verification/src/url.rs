//! The address of a loaded document, as this layer carries it.
//!
//! Nothing here parses or resolves a url; the page caches the text of the
//! most recently loaded one and hands it on inside reflow requests, so the
//! text alone is modelled.

use vstd::prelude::*;

verus! {

/// The text of a document's address.
#[derive(Clone, Debug)]
pub struct Url(pub String);

impl View for Url {
    type V = Seq<char>;

    open spec fn view(&self) -> Seq<char> {
        self.0@
    }
}

impl Url {
    /// Copy the address.
    pub fn duplicate(&self) -> (result: Url)
        ensures
            result == *self,
    {
        Url(self.0.clone())
    }
}

} // verus!
