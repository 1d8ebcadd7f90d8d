//! The message-level contract between a page and its layout worker: reflow
//! requests, the synchronous query handle, and the errors the protocol can
//! surface.

use vstd::prelude::*;
use crate::chan::{new_channel, recv_value, send_value};
use crate::constellation_msg::WindowSizeData;
use crate::geometry::{Point2D, Rect};
use crate::script_traits::{ScriptControlChan, UntrustedNodeAddress};
use crate::url::Url;
use std::sync::mpsc::Sender;

verus! {

/// Address of a DOM node that the script side vouches for and layout may
/// dereference across the task boundary.
#[derive(Clone, Copy, PartialEq, Eq, Structural, Debug)]
pub struct TrustedNodeAddress(pub u64);

/// Why a reflow was requested; layout may trade precision for speed on a
/// display-only pass.
#[derive(Clone, Copy, PartialEq, Eq, Structural, Debug)]
pub enum ReflowGoal {
    /// Recompute layout so the result can be shown.
    ForDisplay,
    /// Recompute layout only so a script query can be answered.
    ForScriptQuery,
}

/// The geometry question, if any, that the next reflow must leave layout
/// prepared to answer.
#[derive(Clone, Copy, PartialEq, Eq, Structural, Debug)]
pub enum ReflowQueryType {
    /// No query: the reflow is for display alone.
    NoQuery,
    /// The content box of one node will be asked for.
    ContentBoxQuery(TrustedNodeAddress),
    /// All content boxes of one node will be asked for.
    ContentBoxesQuery(TrustedNodeAddress),
}

/// One reflow request, as dispatched to the layout worker.
pub struct Reflow {
    /// The root of the document to lay out.
    pub document_root: TrustedNodeAddress,
    /// The url of the document being laid out.
    pub url: Url,
    /// Whether the context is an iframe.
    pub iframe: bool,
    /// Why this reflow was requested.
    pub goal: ReflowGoal,
    /// The current viewport dimensions.
    pub window_size: WindowSizeData,
    /// A handle back to the script controller.
    pub script_chan: ScriptControlChan,
    /// The send end of the completion signal for this request.
    pub script_join_chan: Sender<()>,
    /// The serial number of this request.
    pub id: u64,
    /// The query this reflow must prepare to answer.
    pub query_type: ReflowQueryType,
}

/// A message on a context's layout dispatch channel.
pub enum Msg {
    /// Request a layout recomputation.
    Reflow(Box<Reflow>),
    /// Ask the worker to send back its synchronous query handle.
    GetRpc(Sender<LayoutRpc>),
}

/// The asynchronous dispatch channel of one context's layout worker.
pub struct LayoutChan(pub Sender<Msg>);

/// A synchronous query into the layout worker.  Each request carries the
/// send end of a fresh reply channel; the worker answers every request with
/// exactly one reply on it.
pub enum QueryMsg {
    /// Ask for the content box computed by the last reflow.
    ContentBox(Sender<QueryReply>),
    /// Ask for the content boxes computed by the last reflow.
    ContentBoxes(Sender<QueryReply>),
    /// Ask which node lies under a point.
    HitTest(TrustedNodeAddress, Point2D, Sender<QueryReply>),
    /// Ask which nodes lie under the mouse at a point.
    MouseOver(TrustedNodeAddress, Point2D, Sender<QueryReply>),
}

/// The worker's answer to one synchronous query.  A miss is carried as
/// `None`, never as a dropped reply.
pub enum QueryReply {
    /// Answer to `QueryMsg::ContentBox`.
    ContentBoxResponse(Rect),
    /// Answer to `QueryMsg::ContentBoxes`.
    ContentBoxesResponse(Vec<Rect>),
    /// Answer to `QueryMsg::HitTest`; `None` when nothing was hit.
    HitTestResponse(Option<UntrustedNodeAddress>),
    /// Answer to `QueryMsg::MouseOver`; `None` when nothing lies under the
    /// point.
    MouseOverResponse(Option<Vec<UntrustedNodeAddress>>),
}

/// How the reflow protocol can fail.
#[derive(Clone, Copy, PartialEq, Eq, Structural, Debug)]
pub enum LayoutError {
    /// The layout worker went away mid-protocol: a channel to it
    /// disconnected without the owed value.  Unrecoverable.
    WorkerTerminated,
    /// An RPC reply carried a different tag than the request sent: a
    /// contract violation between the tasks.  Unrecoverable.
    ReplyMismatch,
}

/// What a content-box query returns for each reply the worker can send:
/// only the matching tag carries a rectangle; any other tag is a protocol
/// violation.
pub open spec fn content_box_reply_spec(reply: QueryReply) -> Result<Rect, LayoutError> {
    match reply {
        QueryReply::ContentBoxResponse(rect) => Ok(rect),
        _ => Err(LayoutError::ReplyMismatch),
    }
}

/// What a content-boxes query returns for each reply the worker can send.
pub open spec fn content_boxes_reply_spec(reply: QueryReply) -> Result<Vec<Rect>, LayoutError> {
    match reply {
        QueryReply::ContentBoxesResponse(rects) => Ok(rects),
        _ => Err(LayoutError::ReplyMismatch),
    }
}

/// What a hit test returns for each reply the worker can send: a miss is a
/// recoverable `None`; a foreign tag is a protocol violation.
pub open spec fn hit_test_reply_spec(reply: QueryReply) -> Result<
    Option<UntrustedNodeAddress>,
    LayoutError,
> {
    match reply {
        QueryReply::HitTestResponse(hit) => Ok(hit),
        _ => Err(LayoutError::ReplyMismatch),
    }
}

/// What a mouse-over query returns for each reply the worker can send.
pub open spec fn mouse_over_reply_spec(reply: QueryReply) -> Result<
    Option<Vec<UntrustedNodeAddress>>,
    LayoutError,
> {
    match reply {
        QueryReply::MouseOverResponse(hits) => Ok(hits),
        _ => Err(LayoutError::ReplyMismatch),
    }
}

/// Sorts the worker's reply to a content-box query: only the matching tag
/// carries a rectangle; any other tag is a protocol violation.
pub fn content_box_of_reply(reply: QueryReply) -> (result: Result<Rect, LayoutError>)
    ensures
        result == content_box_reply_spec(reply),
{
    match reply {
        QueryReply::ContentBoxResponse(rect) => Ok(rect),
        _ => Err(LayoutError::ReplyMismatch),
    }
}

/// Sorts the worker's reply to a content-boxes query, as
/// `content_box_of_reply` does for the single-box form.
pub fn content_boxes_of_reply(reply: QueryReply) -> (result: Result<Vec<Rect>, LayoutError>)
    ensures
        result == content_boxes_reply_spec(reply),
{
    match reply {
        QueryReply::ContentBoxesResponse(rects) => Ok(rects),
        _ => Err(LayoutError::ReplyMismatch),
    }
}

/// Sorts the worker's reply to a hit test.  A miss is a recoverable `None`;
/// a foreign tag is a protocol violation.
pub fn hit_test_of_reply(
    reply: QueryReply,
) -> (result: Result<Option<UntrustedNodeAddress>, LayoutError>)
    ensures
        result == hit_test_reply_spec(reply),
{
    match reply {
        QueryReply::HitTestResponse(hit) => Ok(hit),
        _ => Err(LayoutError::ReplyMismatch),
    }
}

/// Sorts the worker's reply to a mouse-over query, as `hit_test_of_reply`
/// does for a hit test.
pub fn mouse_over_of_reply(
    reply: QueryReply,
) -> (result: Result<Option<Vec<UntrustedNodeAddress>>, LayoutError>)
    ensures
        result == mouse_over_reply_spec(reply),
{
    match reply {
        QueryReply::MouseOverResponse(hits) => Ok(hits),
        _ => Err(LayoutError::ReplyMismatch),
    }
}

/// The synchronous query handle into one context's layout worker, obtained
/// once at the page's construction and reused for its lifetime.  Two ghost
/// histories record the traffic: every query handed to the worker and every
/// reply that came back, so that contracts can say what was asked and how
/// the answer relates to the reply.
pub struct LayoutRpc {
    /// The worker's query channel.
    pub chan: Sender<QueryMsg>,
    /// History of every query issued on `chan`, for specification only.
    pub queries_issued: Ghost<Seq<QueryMsg>>,
    /// History of every reply received, for specification only.
    pub replies_received: Ghost<Seq<QueryReply>>,
}

/// The handle issued exactly one more query, on the same channel, with no
/// reply recorded here (the reply clauses stand beside this one).
pub open spec fn issued_one_query(pre: LayoutRpc, post: LayoutRpc) -> bool {
    &&& post.chan == pre.chan
    &&& post.queries_issued@ == pre.queries_issued@.push(post.queries_issued@.last())
}

/// The handle received exactly one more reply.
pub open spec fn received_one_reply(pre: LayoutRpc, post: LayoutRpc) -> bool {
    post.replies_received@ == pre.replies_received@.push(post.replies_received@.last())
}

impl LayoutRpc {
    /// Wrap a worker's query channel; no traffic has passed yet.
    pub fn new(chan: Sender<QueryMsg>) -> (result: LayoutRpc)
        ensures
            result.chan == chan,
            result.queries_issued@ == Seq::<QueryMsg>::empty(),
            result.replies_received@ == Seq::<QueryReply>::empty(),
    {
        LayoutRpc {
            chan,
            queries_issued: Ghost(Seq::empty()),
            replies_received: Ghost(Seq::empty()),
        }
    }

    /// Ask layout for the content box computed by the last reflow.  Exactly
    /// one content-box query is issued; the call blocks for the reply, and
    /// the result is that reply sorted by tag.  A worker that went away
    /// before replying surfaces as `WorkerTerminated` with no reply
    /// recorded.
    pub fn content_box(&mut self) -> (result: Result<Rect, LayoutError>)
        ensures
            issued_one_query(*old(self), *final(self)),
            (final(self).queries_issued@.last() matches QueryMsg::ContentBox(_)),
            (result == Err::<Rect, LayoutError>(LayoutError::WorkerTerminated)
                ==> final(self).replies_received@ == old(self).replies_received@),
            (result != Err::<Rect, LayoutError>(LayoutError::WorkerTerminated) ==> received_one_reply(
                *old(self),
                *final(self),
            ) && result == content_box_reply_spec(final(self).replies_received@.last())),
    {
        let (reply_chan, reply_port) = new_channel::<QueryReply>();
        let query = QueryMsg::ContentBox(reply_chan);
        proof {
            self.queries_issued@ = self.queries_issued@.push(query);
        }
        if !send_value(&self.chan, query) {
            return Err(LayoutError::WorkerTerminated);
        }
        match recv_value(&reply_port) {
            None => Err(LayoutError::WorkerTerminated),
            Some(reply) => {
                proof {
                    self.replies_received@ = self.replies_received@.push(reply);
                }
                content_box_of_reply(reply)
            },
        }
    }

    /// Ask layout for the content boxes computed by the last reflow, as
    /// `content_box` asks for the single box.
    pub fn content_boxes(&mut self) -> (result: Result<Vec<Rect>, LayoutError>)
        ensures
            issued_one_query(*old(self), *final(self)),
            (final(self).queries_issued@.last() matches QueryMsg::ContentBoxes(_)),
            (result == Err::<Vec<Rect>, LayoutError>(LayoutError::WorkerTerminated)
                ==> final(self).replies_received@ == old(self).replies_received@),
            (result != Err::<Vec<Rect>, LayoutError>(LayoutError::WorkerTerminated)
                ==> received_one_reply(*old(self), *final(self)) && result
                == content_boxes_reply_spec(final(self).replies_received@.last())),
    {
        let (reply_chan, reply_port) = new_channel::<QueryReply>();
        let query = QueryMsg::ContentBoxes(reply_chan);
        proof {
            self.queries_issued@ = self.queries_issued@.push(query);
        }
        if !send_value(&self.chan, query) {
            return Err(LayoutError::WorkerTerminated);
        }
        match recv_value(&reply_port) {
            None => Err(LayoutError::WorkerTerminated),
            Some(reply) => {
                proof {
                    self.replies_received@ = self.replies_received@.push(reply);
                }
                content_boxes_of_reply(reply)
            },
        }
    }

    /// Ask layout which node lies under `point` in the tree rooted at
    /// `root`.  Exactly one hit-test query carrying `root` and `point` is
    /// issued; the call blocks for the reply, and the result is that reply
    /// sorted by tag.
    pub fn hit_test(
        &mut self,
        root: TrustedNodeAddress,
        point: Point2D,
    ) -> (result: Result<Option<UntrustedNodeAddress>, LayoutError>)
        ensures
            issued_one_query(*old(self), *final(self)),
            (final(self).queries_issued@.last() matches QueryMsg::HitTest(r, p, _) && r == root
                && p == point),
            (result == Err::<Option<UntrustedNodeAddress>, LayoutError>(
                LayoutError::WorkerTerminated,
            ) ==> final(self).replies_received@ == old(self).replies_received@),
            (result != Err::<Option<UntrustedNodeAddress>, LayoutError>(
                LayoutError::WorkerTerminated,
            ) ==> received_one_reply(*old(self), *final(self)) && result == hit_test_reply_spec(
                final(self).replies_received@.last(),
            )),
    {
        let (reply_chan, reply_port) = new_channel::<QueryReply>();
        let query = QueryMsg::HitTest(root, point, reply_chan);
        proof {
            self.queries_issued@ = self.queries_issued@.push(query);
        }
        if !send_value(&self.chan, query) {
            return Err(LayoutError::WorkerTerminated);
        }
        match recv_value(&reply_port) {
            None => Err(LayoutError::WorkerTerminated),
            Some(reply) => {
                proof {
                    self.replies_received@ = self.replies_received@.push(reply);
                }
                hit_test_of_reply(reply)
            },
        }
    }

    /// Ask layout which nodes lie under the mouse at `point` in the tree
    /// rooted at `root`, as `hit_test` asks for the single node.
    pub fn mouse_over(
        &mut self,
        root: TrustedNodeAddress,
        point: Point2D,
    ) -> (result: Result<Option<Vec<UntrustedNodeAddress>>, LayoutError>)
        ensures
            issued_one_query(*old(self), *final(self)),
            (final(self).queries_issued@.last() matches QueryMsg::MouseOver(r, p, _) && r == root
                && p == point),
            (result == Err::<Option<Vec<UntrustedNodeAddress>>, LayoutError>(
                LayoutError::WorkerTerminated,
            ) ==> final(self).replies_received@ == old(self).replies_received@),
            (result != Err::<Option<Vec<UntrustedNodeAddress>>, LayoutError>(
                LayoutError::WorkerTerminated,
            ) ==> received_one_reply(*old(self), *final(self)) && result == mouse_over_reply_spec(
                final(self).replies_received@.last(),
            )),
    {
        let (reply_chan, reply_port) = new_channel::<QueryReply>();
        let query = QueryMsg::MouseOver(root, point, reply_chan);
        proof {
            self.queries_issued@ = self.queries_issued@.push(query);
        }
        if !send_value(&self.chan, query) {
            return Err(LayoutError::WorkerTerminated);
        }
        match recv_value(&reply_port) {
            None => Err(LayoutError::WorkerTerminated),
            Some(reply) => {
                proof {
                    self.replies_received@ = self.replies_received@.push(reply);
                }
                mouse_over_of_reply(reply)
            },
        }
    }
}

} // verus!
