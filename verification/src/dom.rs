//! What this layer reads of the DOM: a document's root node and its named
//! fragment anchors, and the window's control channel.

use vstd::prelude::*;
use crate::layout_interface::TrustedNodeAddress;
use crate::script_traits::ScriptControlChan;

verus! {

/// The part of a loaded document that reflow scheduling consults.
pub struct Document {
    /// Address of the document's root element, once one exists.  A document
    /// without a root has nothing to lay out.
    pub root_node: Option<TrustedNodeAddress>,
    /// The document's named anchors, in document order.
    pub fragment_nodes: Vec<(String, TrustedNodeAddress)>,
}

/// The part of a window object that reflow scheduling consults.
pub struct Window {
    /// A handle back to the script controller, forwarded inside each reflow
    /// request.
    pub control_chan: ScriptControlChan,
}

/// The first anchor in `frags` whose name reads `name`, if any.
pub open spec fn fragment_match(
    frags: Seq<(String, TrustedNodeAddress)>,
    name: Seq<char>,
) -> Option<TrustedNodeAddress>
    decreases frags.len(),
{
    if frags.len() == 0 {
        None
    } else if frags.first().0@ == name {
        Some(frags.first().1)
    } else {
        fragment_match(frags.drop_first(), name)
    }
}

impl Document {
    /// Find the first anchor with the given name in this document.
    pub fn find_fragment_node(&self, fragid: &String) -> (result: Option<TrustedNodeAddress>)
        ensures
            result == fragment_match(self.fragment_nodes@, fragid@),
    {
        let frags = &self.fragment_nodes;
        let ghost all = frags@;
        proof {
            assert(all.skip(0) =~= all);
        }
        let mut i: usize = 0;
        while i < frags.len()
            invariant
                i <= frags@.len(),
                frags@ == all,
                self.fragment_nodes@ == all,
                fragment_match(all.skip(i as int), fragid@) == fragment_match(all, fragid@),
            decreases frags@.len() - i,
        {
            proof {
                assert(all.skip(i as int).len() > 0);
                assert(all.skip(i as int).first() == all[i as int]);
            }
            if frags[i].0 == *fragid {
                let hit = frags[i].1;
                proof {
                    assert(all.skip(i as int).first().0@ == fragid@);
                    assert(fragment_match(all.skip(i as int), fragid@) == Some(
                        all[i as int].1,
                    ));
                    assert(hit == all[i as int].1);
                }
                return Some(hit);
            }
            proof {
                assert(all.skip(i as int).drop_first() =~= all.skip(i as int + 1));
            }
            i = i + 1;
        }
        proof {
            assert(all.skip(i as int).len() == 0);
        }
        None
    }
}

} // verus!
