//! The tree of browsing contexts: lookup by pipeline id, detachment of
//! subtrees, and traversal.
//!
//! A page owns its children outright, so the tree is a strict tree by
//! construction: no cycles and no shared nodes.

use vstd::prelude::*;
use crate::constellation_msg::{ConstellationChan, PipelineId, SubpageId, WindowSizeData};
use crate::layout_interface::{LayoutChan, LayoutRpc, Reflow};
use crate::page::{Frame, JSPageInfo, Page, ResourceTask};
use crate::script_traits::UntrustedNodeAddress;
use crate::url::Url;
use std::sync::mpsc::Receiver;

verus! {

/// The first page with pipeline id `id` in a pre-order walk of the tree
/// rooted at `p`, children in stored order.
pub open spec fn tree_find(p: Page, id: PipelineId) -> Option<Page>
    decreases p,
{
    if p.id == id {
        Some(p)
    } else {
        tree_find_in(p.children@, id)
    }
}

/// The first page with pipeline id `id` found by searching the trees of
/// `cs` left to right, each in pre-order.
pub open spec fn tree_find_in(cs: Seq<Page>, id: PipelineId) -> Option<Page>
    decreases cs,
{
    if cs.len() == 0 {
        None
    } else {
        match tree_find(cs.first(), id) {
            Some(found) => Some(found),
            None => tree_find_in(cs.drop_first(), id),
        }
    }
}

impl Page {
    /// Pre-order depth-first search for the page with pipeline id `id` in
    /// the tree rooted at this page, itself included.
    pub fn find(&self, id: PipelineId) -> (result: Option<&Page>)
        ensures
            (match result {
                None => tree_find(*self, id) is None,
                Some(page) => tree_find(*self, id) == Some(*page),
            }),
        decreases *self,
    {
        if self.id == id {
            return Some(self);
        }
        let ghost cs = self.children@;
        proof {
            assert(cs.skip(0) =~= cs);
        }
        let mut i: usize = 0;
        while i < self.children.len()
            invariant
                i <= self.children@.len(),
                self.children@ == cs,
                self.id != id,
                tree_find_in(cs.skip(i as int), id) == tree_find_in(cs, id),
            decreases cs.len() - i,
        {
            proof {
                assert(cs.skip(i as int).len() > 0);
                assert(cs.skip(i as int).first() == cs[i as int]);
                assert(decreases_to!(*self => self.children));
                assert(decreases_to!(self.children => self.children@));
                assert(decreases_to!(self.children@ => self.children@[i as int]));
            }
            let found = self.children[i].find(id);
            match found {
                Some(page) => {
                    return Some(page);
                },
                None => {
                    proof {
                        assert(cs.skip(i as int).drop_first() =~= cs.skip(i as int + 1));
                    }
                },
            }
            i = i + 1;
        }
        proof {
            assert(cs.skip(i as int).len() == 0);
        }
        None
    }
}

/// The mathematical shape of a page tree: every field of the page as a
/// plain value, collections by their contents, and the children as views
/// in turn.  Structural statements about tree surgery are made here, where
/// equality is by contents.
#[verifier::ext_equal]
pub struct PageView {
    pub id: PipelineId,
    pub subpage_id: Option<SubpageId>,
    pub last_reflow_id: u64,
    pub frame: Option<Frame>,
    pub layout_chan: LayoutChan,
    pub layout_rpc: LayoutRpc,
    pub layout_join_port: Option<Receiver<()>>,
    pub window_size: WindowSizeData,
    pub js_info: Option<JSPageInfo>,
    pub url: Option<(Url, bool)>,
    pub next_subpage_id: SubpageId,
    pub resize_event: Option<WindowSizeData>,
    pub pending_dirty_nodes: Seq<UntrustedNodeAddress>,
    pub fragment_name: Option<String>,
    pub resource_task: ResourceTask,
    pub constellation_chan: ConstellationChan,
    pub children: Seq<PageView>,
    pub damaged: bool,
    pub pending_reflows: u64,
    pub avoided_reflows: u64,
    pub reflows_dispatched: Seq<Reflow>,
}

/// The view of one page and, recursively, of its tree.
pub open spec fn page_view(p: Page) -> PageView
    decreases p,
{
    PageView {
        id: p.id,
        subpage_id: p.subpage_id,
        last_reflow_id: p.last_reflow_id,
        frame: p.frame,
        layout_chan: p.layout_chan,
        layout_rpc: p.layout_rpc,
        layout_join_port: p.layout_join_port,
        window_size: p.window_size,
        js_info: p.js_info,
        url: p.url,
        next_subpage_id: p.next_subpage_id,
        resize_event: p.resize_event,
        pending_dirty_nodes: p.pending_dirty_nodes@,
        fragment_name: p.fragment_name,
        resource_task: p.resource_task,
        constellation_chan: p.constellation_chan,
        children: views_of(p.children@),
        damaged: p.damaged,
        pending_reflows: p.pending_reflows,
        avoided_reflows: p.avoided_reflows,
        reflows_dispatched: p.reflows_dispatched@,
    }
}

/// The views of a child list, in order.
pub open spec fn views_of(cs: Seq<Page>) -> Seq<PageView>
    decreases cs,
{
    if cs.len() == 0 {
        Seq::empty()
    } else {
        seq![page_view(cs.first())] + views_of(cs.drop_first())
    }
}

/// `views_of` views each child in place.
pub proof fn lemma_views_of(cs: Seq<Page>)
    ensures
        views_of(cs).len() == cs.len(),
        forall|k: int| 0 <= k < cs.len() ==> views_of(cs)[k] == page_view(cs[k]),
    decreases cs.len(),
{
    if cs.len() > 0 {
        lemma_views_of(cs.drop_first());
        assert(cs.first() == cs[0]);
        assert(forall|k: int|
            1 <= k < cs.len() ==> views_of(cs)[k] == views_of(cs.drop_first())[k - 1]
                && cs.drop_first()[k - 1] == cs[k]);
    }
}

/// The index of the first of `cs` whose own pipeline id is `id`.
pub open spec fn child_index(cs: Seq<PageView>, id: PipelineId) -> Option<int>
    decreases cs,
{
    if cs.len() == 0 {
        None
    } else if cs.first().id == id {
        Some(0)
    } else {
        match child_index(cs.drop_first(), id) {
            Some(k) => Some(k + 1),
            None => None,
        }
    }
}

/// The subtree that detaching `id` from the tree `v` takes out: the first
/// immediate child with that id, or failing that the result of the same
/// search under each child in order.  The root `v` itself is never a
/// candidate.
pub open spec fn remove_target(v: PageView, id: PipelineId) -> Option<PageView>
    decreases v,
{
    match child_index(v.children, id) {
        Some(i) => Some(v.children[i]),
        None => deep_target(v.children, id),
    }
}

/// The first non-empty result of `remove_target` over the trees of `cs`,
/// left to right.
pub open spec fn deep_target(cs: Seq<PageView>, id: PipelineId) -> Option<PageView>
    decreases cs,
{
    if cs.len() == 0 {
        None
    } else {
        match remove_target(cs.first(), id) {
            Some(r) => Some(r),
            None => deep_target(cs.drop_first(), id),
        }
    }
}

/// The index of the first of `cs` whose tree yields a `remove_target`.
pub open spec fn deep_index(cs: Seq<PageView>, id: PipelineId) -> Option<int>
    decreases cs,
{
    if cs.len() == 0 {
        None
    } else if remove_target(cs.first(), id) is Some {
        Some(0)
    } else {
        match deep_index(cs.drop_first(), id) {
            Some(k) => Some(k + 1),
            None => None,
        }
    }
}

/// How detaching `id` rewrites the tree `pre` into `post`: a matching
/// immediate child is taken out of the child list; otherwise exactly the
/// first child whose tree holds `id` is rewritten the same way; with no
/// match anywhere the tree is untouched.  Fields other than the child list
/// never change.
pub open spec fn tree_removed(pre: PageView, post: PageView, id: PipelineId) -> bool
    decreases pre,
{
    &&& post == PageView { children: post.children, ..pre }
    &&& match child_index(pre.children, id) {
        Some(i) => post.children == pre.children.remove(i),
        None => match deep_index(pre.children, id) {
            Some(j) => {
                &&& post.children.len() == pre.children.len()
                &&& (forall|k: int|
                    0 <= k < pre.children.len() && k != j ==> post.children[k]
                        == pre.children[k])
                &&& 0 <= j < pre.children.len()
                &&& tree_removed(pre.children[j], post.children[j], id)
            },
            None => post == pre,
        },
    }
}

/// `child_index` finds `i` when `cs[i]` matches and nothing before it does.
proof fn lemma_child_index_first(cs: Seq<PageView>, i: int, id: PipelineId)
    requires
        0 <= i < cs.len(),
        cs[i].id == id,
        forall|k: int| 0 <= k < i ==> cs[k].id != id,
    ensures
        child_index(cs, id) == Some(i),
    decreases i,
{
    if i == 0 {
        assert(cs.first() == cs[0]);
    } else {
        assert(cs.first() == cs[0]);
        assert(forall|k: int|
            0 <= k < i - 1 ==> cs.drop_first()[k] == cs[k + 1] && cs[k + 1].id != id);
        assert(cs.drop_first()[i - 1] == cs[i]);
        lemma_child_index_first(cs.drop_first(), i - 1, id);
    }
}

/// `child_index` finds nothing when no element of `cs` matches.
proof fn lemma_child_index_none(cs: Seq<PageView>, id: PipelineId)
    requires
        forall|k: int| 0 <= k < cs.len() ==> cs[k].id != id,
    ensures
        child_index(cs, id) is None,
    decreases cs.len(),
{
    if cs.len() > 0 {
        assert(cs.first() == cs[0]);
        assert(forall|k: int|
            0 <= k < cs.len() - 1 ==> cs.drop_first()[k] == cs[k + 1] && cs[k + 1].id != id);
        lemma_child_index_none(cs.drop_first(), id);
    }
}

/// `deep_index` and `deep_target` find the tree of `cs[i]` when it yields
/// a target and no earlier tree does.
proof fn lemma_deep_first(cs: Seq<PageView>, i: int, id: PipelineId)
    requires
        0 <= i < cs.len(),
        remove_target(cs[i], id) is Some,
        forall|k: int| 0 <= k < i ==> remove_target(cs[k], id) is None,
    ensures
        deep_index(cs, id) == Some(i),
        deep_target(cs, id) == remove_target(cs[i], id),
    decreases i,
{
    if i == 0 {
        assert(cs.first() == cs[0]);
    } else {
        assert(cs.first() == cs[0]);
        assert(forall|k: int|
            0 <= k < i - 1 ==> cs.drop_first()[k] == cs[k + 1] && remove_target(
                cs[k + 1],
                id,
            ) is None);
        assert(cs.drop_first()[i - 1] == cs[i]);
        lemma_deep_first(cs.drop_first(), i - 1, id);
    }
}

/// `deep_index` and `deep_target` find nothing when no tree of `cs` yields
/// a target.
proof fn lemma_deep_none(cs: Seq<PageView>, id: PipelineId)
    requires
        forall|k: int| 0 <= k < cs.len() ==> remove_target(cs[k], id) is None,
    ensures
        deep_index(cs, id) is None,
        deep_target(cs, id) is None,
    decreases cs.len(),
{
    if cs.len() > 0 {
        assert(cs.first() == cs[0]);
        assert(forall|k: int|
            0 <= k < cs.len() - 1 ==> cs.drop_first()[k] == cs[k + 1] && remove_target(
                cs[k + 1],
                id,
            ) is None);
        lemma_deep_none(cs.drop_first(), id);
    }
}

/// A child list yields a deep index exactly when it yields a deep target.
proof fn lemma_deep_index_target(cs: Seq<PageView>, id: PipelineId)
    ensures
        (deep_index(cs, id) is Some) <==> (deep_target(cs, id) is Some),
    decreases cs.len(),
{
    if cs.len() > 0 {
        lemma_deep_index_target(cs.drop_first(), id);
    }
}

/// Detaching never touches the tree's own root: whatever was removed, every
/// field of the root but its child list is exactly what it was, even when
/// the root's own id is the one asked for.
pub proof fn lemma_remove_keeps_root(pre: PageView, post: PageView, id: PipelineId)
    requires
        tree_removed(pre, post, id),
    ensures
        post == (PageView { children: post.children, ..pre }),
{
}

impl Page {
    /// Detach and return the subtree whose root has pipeline id `id`.
    /// Immediate children are searched before any grandchild, and the
    /// page's own root is never removed even when its id matches: callers
    /// must special-case removing a root context.  When no page matches,
    /// the tree is left exactly as it was.
    pub fn remove(&mut self, id: PipelineId) -> (removed: Option<Page>)
        ensures
            ((match removed {
                Some(r) => Some(page_view(r)),
                None => None::<PageView>,
            }) == remove_target(page_view(*old(self)), id)),
            tree_removed(page_view(*old(self)), page_view(*final(self)), id),
        decreases *old(self),
    {
        let ghost pre = *self;
        let ghost prev = page_view(pre);
        proof {
            lemma_views_of(pre.children@);
        }
        let n = self.children.len();
        let mut i: usize = 0;
        while i < n
            invariant
                i <= n,
                n == self.children@.len(),
                pre.children@.len() == n,
                pre == *old(self),
                *self == pre,
                prev == page_view(pre),
                prev.children.len() == n,
                forall|k: int| 0 <= k < n ==> prev.children[k] == page_view(pre.children@[k]),
                forall|k: int| 0 <= k < i ==> prev.children[k].id != id,
            decreases n - i,
        {
            if self.children[i].id == id {
                proof {
                    assert(page_view(pre.children@[i as int]).id == pre.children@[i as int].id);
                    lemma_child_index_first(prev.children, i as int, id);
                }
                let page = self.children.remove(i);
                proof {
                    lemma_views_of(self.children@);
                    assert(views_of(self.children@) =~= prev.children.remove(i as int));
                    assert(page_view(*self) =~= PageView {
                        children: prev.children.remove(i as int),
                        ..prev
                    });
                    assert(page_view(page) == prev.children[i as int]);
                }
                return Some(page);
            }
            proof {
                assert(prev.children[i as int].id == pre.children@[i as int].id);
            }
            i = i + 1;
        }
        proof {
            lemma_child_index_none(prev.children, id);
        }
        let mut i: usize = 0;
        while i < n
            invariant
                i <= n,
                n == self.children@.len(),
                pre.children@.len() == n,
                pre == *old(self),
                prev == page_view(pre),
                prev.children.len() == n,
                child_index(prev.children, id) is None,
                (*self == Page { children: self.children, ..pre }),
                forall|k: int| i <= k < n ==> self.children@[k] == pre.children@[k],
                forall|k: int|
                    0 <= k < i ==> page_view(self.children@[k]) == prev.children[k]
                        && remove_target(prev.children[k], id) is None,
                forall|k: int| 0 <= k < n ==> prev.children[k] == page_view(pre.children@[k]),
            decreases n - i,
        {
            proof {
                assert(self.children@[i as int] == pre.children@[i as int]);
                assert(decreases_to!(pre => pre.children));
                assert(decreases_to!(pre.children => pre.children@));
                assert(decreases_to!(pre.children@ => pre.children@[i as int]));
            }
            let sub = self.children[i].remove(id);
            match sub {
                Some(r) => {
                    proof {
                        let c_prev = prev.children[i as int];
                        let c_post = page_view(self.children@[i as int]);
                        assert(remove_target(c_prev, id) == Some(page_view(r)));
                        lemma_deep_first(prev.children, i as int, id);
                        lemma_views_of(self.children@);
                        assert(views_of(self.children@) =~= prev.children.update(
                            i as int,
                            c_post,
                        ));
                        assert(page_view(*self) =~= PageView {
                            children: prev.children.update(i as int, c_post),
                            ..prev
                        });
                        assert(tree_removed(c_prev, c_post, id));
                    }
                    return Some(r);
                },
                None => {
                    proof {
                        let c_prev = prev.children[i as int];
                        let c_post = page_view(self.children@[i as int]);
                        assert(remove_target(c_prev, id) is None);
                        assert(child_index(c_prev.children, id) is None);
                        assert(deep_target(c_prev.children, id) is None);
                        lemma_deep_index_target(c_prev.children, id);
                        assert(tree_removed(c_prev, c_post, id));
                        assert(c_post == c_prev);
                    }
                },
            }
            i = i + 1;
        }
        proof {
            lemma_deep_none(prev.children, id);
            lemma_views_of(self.children@);
            assert(views_of(self.children@) =~= prev.children);
            assert(page_view(*self) =~= prev);
        }
        None
    }
}

/// The order in which a traversal yields the tree rooted at `p`: the root
/// first, then the subtrees of its children, last-stored child first,
/// because the traversal's stack pops what was pushed most recently.
pub open spec fn subtree_order(p: Page) -> Seq<Page>
    decreases p,
{
    seq![p] + stack_order(p.children@)
}

/// What a traversal with stack `st` has left to yield: the subtree of the
/// top of the stack (its last element), then the rest.
pub open spec fn stack_order(st: Seq<Page>) -> Seq<Page>
    decreases st,
{
    if st.len() == 0 {
        Seq::empty()
    } else {
        subtree_order(st.last()) + stack_order(st.drop_last())
    }
}

/// The pages a stack of borrows stands for, in stack order.
pub open spec fn derefs(st: Seq<&Page>) -> Seq<Page> {
    st.map_values(|p: &Page| *p)
}

/// Splitting a traversal stack splits what it has left to yield: the upper
/// part `b` is drained before the lower part `a`.
pub proof fn lemma_stack_order_append(a: Seq<Page>, b: Seq<Page>)
    ensures
        stack_order(a + b) == stack_order(b) + stack_order(a),
    decreases b,
{
    if b.len() == 0 {
        assert(a + b =~= a);
        assert(stack_order(b) + stack_order(a) =~= stack_order(a));
    } else {
        lemma_stack_order_append(a, b.drop_last());
        assert((a + b).last() == b.last());
        assert((a + b).drop_last() =~= a + b.drop_last());
        assert(subtree_order(b.last()) + (stack_order(b.drop_last()) + stack_order(a)) =~= (
        subtree_order(b.last()) + stack_order(b.drop_last())) + stack_order(a));
    }
}

/// A lazy, finite traversal over a page tree.  The tree must not be
/// mutated while a traversal is in progress; the borrow it holds enforces
/// exactly that.
pub struct PageIterator<'a> {
    /// Pages whose subtrees are still to be yielded; the top of the stack
    /// is next.
    pub stack: Vec<&'a Page>,
}

impl<'a> PageIterator<'a> {
    /// The pages this traversal has yet to yield, in order.
    pub open spec fn remaining(self) -> Seq<Page> {
        stack_order(derefs(self.stack@))
    }

    /// Yield the next page of the traversal: the top of the stack, whose
    /// children are pushed in stored order so that its subtrees follow,
    /// last-stored first.
    pub fn next(&mut self) -> (result: Option<&'a Page>)
        ensures
            (old(self).remaining().len() == 0 ==> result is None && *final(self) == *old(
                self,
            )),
            (old(self).remaining().len() > 0 ==> match result {
                Some(page) => {
                    &&& *page == old(self).remaining().first()
                    &&& final(self).remaining() == old(self).remaining().drop_first()
                },
                None => false,
            }),
    {
        let ghost st0 = derefs(self.stack@);
        if self.stack.len() == 0 {
            proof {
                assert(st0.len() == 0);
            }
            return None;
        }
        proof {
            assert(st0.len() == self.stack@.len());
            assert(stack_order(st0) == subtree_order(st0.last()) + stack_order(
                st0.drop_last(),
            ));
            assert(subtree_order(st0.last()).len() >= 1);
            assert(old(self).remaining().len() > 0);
        }
        let top = self.stack.pop().unwrap();
        let ghost rest = derefs(self.stack@);
        proof {
            assert(rest =~= st0.drop_last());
            assert(st0.last() == *top);
            assert(old(self).remaining() == subtree_order(*top) + stack_order(rest));
        }
        let children = &top.children;
        let ghost cs = children@;
        proof {
            assert(derefs(self.stack@) + cs.subrange(0, 0) =~= rest);
        }
        let mut i: usize = 0;
        while i < children.len()
            invariant
                i <= children@.len(),
                children@ == cs,
                derefs(self.stack@) =~= rest + cs.subrange(0, i as int),
            decreases children@.len() - i,
        {
            self.stack.push(&children[i]);
            proof {
                assert(derefs(self.stack@.drop_last()) =~= rest + cs.subrange(0, i as int));
                assert(self.stack@.last() == &children[i as int]);
                assert(derefs(self.stack@) =~= derefs(self.stack@.drop_last()).push(
                    cs[i as int],
                ));
                assert(rest + cs.subrange(0, i as int + 1) =~= (rest + cs.subrange(
                    0,
                    i as int,
                )).push(cs[i as int]));
            }
            i = i + 1;
        }
        proof {
            assert(cs.subrange(0, cs.len() as int) =~= cs);
            assert(derefs(self.stack@) =~= rest + cs);
            lemma_stack_order_append(rest, cs);
            assert(subtree_order(*top) == seq![*top] + stack_order(cs));
            assert(old(self).remaining().first() == *top);
            assert(final(self).remaining() == stack_order(cs) + stack_order(rest));
            assert(old(self).remaining().drop_first() =~= stack_order(cs) + stack_order(
                rest,
            ));
        }
        Some(top)
    }
}

impl Page {
    /// Begin a traversal of the tree rooted at this page.
    pub fn iter(&self) -> (it: PageIterator)
        ensures
            it.remaining() == subtree_order(*self),
    {
        let mut stack: Vec<&Page> = Vec::new();
        stack.push(self);
        proof {
            assert(derefs(stack@) =~= seq![*self]);
            assert(derefs(stack@).last() == *self);
            assert(derefs(stack@).drop_last() =~= Seq::<Page>::empty());
            assert(stack_order(Seq::<Page>::empty()) =~= Seq::<Page>::empty());
            assert(subtree_order(*self) + Seq::<Page>::empty() =~= subtree_order(*self));
            assert(stack_order(derefs(stack@)) =~= subtree_order(*self));
        }
        PageIterator { stack }
    }
}

} // verus!
