//! The script-side controller of one browsing context.
//!
//! A `Page` owns the mutable state of a top-level document or iframe, decides
//! when a layout recomputation must be dispatched, keeps at most one reflow
//! outstanding per context, and answers synchronous geometry queries only
//! after layout is fresh enough for them.

use vstd::prelude::*;
use crate::chan::{new_channel, recv_value, send_value, try_recv_value, TryRecvOutcome};
use crate::compositor_msg::{ReadyState, ScriptListener};
use crate::constellation_msg::{ConstellationChan, PipelineId, SubpageId, WindowSizeData};
use crate::dom::{fragment_match, Document, Window};
use crate::geometry::{Point2D, Rect};
use crate::layout_interface::{
    content_box_reply_spec, content_boxes_reply_spec, hit_test_reply_spec, issued_one_query,
    mouse_over_reply_spec, received_one_reply, LayoutChan, LayoutError, LayoutRpc, Msg, QueryMsg,
    Reflow, ReflowGoal, ReflowQueryType, TrustedNodeAddress,
};
use crate::script_traits::{ScriptControlChan, UntrustedNodeAddress};
use crate::url::Url;
use std::sync::mpsc::Receiver;

verus! {

/// Handle standing for the resource task that DOM objects of this context
/// use.  This layer stores it for them and never calls through it.
#[derive(Clone, Copy, PartialEq, Eq, Structural, Debug)]
pub struct ResourceTask(pub u64);

/// The JavaScript state associated with one frame.
pub struct JSPageInfo {
    /// Handle standing for the JavaScript context.
    pub js_context: u64,
}

/// One loaded document together with its window object; replaced wholesale
/// on navigation.
pub struct Frame {
    /// The document for this frame.
    pub document: Document,
    /// The window object for this frame.
    pub window: Window,
}

/// The script side of one browsing context and the layout state it drives.
#[verifier::ext_equal]
pub struct Page {
    /// Pipeline id of this context; unique across the whole page tree.
    pub id: PipelineId,
    /// Subpage id of this context, present exactly for iframes.
    pub subpage_id: Option<SubpageId>,
    /// Serial number of the last dispatched reflow request.
    pub last_reflow_id: u64,
    /// The loaded document and window, once a document has loaded.
    pub frame: Option<Frame>,
    /// The dispatch channel of this context's layout worker.
    pub layout_chan: LayoutChan,
    /// The synchronous query handle, obtained once at construction.
    pub layout_rpc: LayoutRpc,
    /// Receive end of the completion signal; `Some` exactly while a reflow
    /// is outstanding.
    pub layout_join_port: Option<Receiver<()>>,
    /// The current viewport dimensions.
    pub window_size: WindowSizeData,
    /// The JavaScript state of the current frame.
    pub js_info: Option<JSPageInfo>,
    /// The most recently loaded url, with whether a reload must reflow.
    pub url: Option<(Url, bool)>,
    /// The subpage id the next child iframe will receive.
    pub next_subpage_id: SubpageId,
    /// A resize that has arrived and is not yet acted on.
    pub resize_event: Option<WindowSizeData>,
    /// Nodes to dirty before the next reflow.
    pub pending_dirty_nodes: Vec<UntrustedNodeAddress>,
    /// A pending scroll-to-fragment request, if any.
    pub fragment_name: Option<String>,
    /// Handle to the resource task, stored for DOM objects.
    pub resource_task: ResourceTask,
    /// Handle to the constellation task.
    pub constellation_chan: ConstellationChan,
    /// Child contexts, in insertion order.
    pub children: Vec<Page>,
    /// Whether content has changed since the last dispatched reflow.
    pub damaged: bool,
    /// Reflows requested while one was already outstanding.
    pub pending_reflows: u64,
    /// Reflows skipped as unnecessary since the last dispatched one.
    pub avoided_reflows: u64,
    /// History of every reflow request this page has dispatched, for
    /// specification only.
    pub reflows_dispatched: Ghost<Seq<Reflow>>,
}

/// Whether `query` needs geometry that only layout can supply.
pub open spec fn geometry_query(query: ReflowQueryType) -> bool {
    !(query is NoQuery)
}

/// The flush policy: a reflow is forced exactly when the context is damaged
/// or the caller needs a geometry answer.
pub open spec fn flush_forces_reflow(damaged: bool, query: ReflowQueryType) -> bool {
    damaged || geometry_query(query)
}

/// The goal a forced flush dispatches with: damage demands a full
/// display-quality pass; an undamaged context reflows only for the query.
pub open spec fn flush_goal(damaged: bool) -> ReflowGoal {
    if damaged {
        ReflowGoal::ForDisplay
    } else {
        ReflowGoal::ForScriptQuery
    }
}

/// Whether the page has a frame whose document has a root element: the
/// precondition for anything to be laid out.
pub open spec fn has_root(p: Page) -> bool {
    &&& p.frame is Some
    &&& p.frame->Some_0.document.root_node is Some
}

/// The document root that a reflow request would carry.
pub open spec fn spec_root(p: Page) -> TrustedNodeAddress {
    p.frame->Some_0.document.root_node->Some_0
}

/// The script-controller handle that a flush hands to the dispatched reflow.
pub open spec fn control_chan(p: Page) -> ScriptControlChan {
    p.frame->Some_0.window.control_chan
}

/// What a dispatch needs of the page: a cached url to put in the request and
/// room for one more serial number.
pub open spec fn may_reflow(p: Page) -> bool {
    has_root(p) ==> p.url is Some && p.last_reflow_id < u64::MAX
}

/// Whether `req` is exactly the request that dispatching from state `pre`
/// with the given goal, controller handle and query must carry.  The
/// completion-signal send end is the one field no caller can predict: it is
/// freshly allocated per dispatch.
pub open spec fn request_matches(
    req: Reflow,
    pre: Page,
    goal: ReflowGoal,
    script_chan: ScriptControlChan,
    query: ReflowQueryType,
) -> bool {
    &&& req.document_root == spec_root(pre)
    &&& req.url == pre.url->Some_0.0
    &&& req.iframe == (pre.subpage_id is Some)
    &&& req.goal == goal
    &&& req.window_size == pre.window_size
    &&& req.script_chan == script_chan
    &&& req.id == pre.last_reflow_id + 1
    &&& req.query_type == query
}

/// The dispatch history grew by exactly the request that state `pre` owed.
pub open spec fn log_extended(
    pre: Page,
    post: Page,
    goal: ReflowGoal,
    script_chan: ScriptControlChan,
    query: ReflowQueryType,
) -> bool {
    &&& post.reflows_dispatched@ == pre.reflows_dispatched@.push(
        post.reflows_dispatched@.last(),
    )
    &&& request_matches(post.reflows_dispatched@.last(), pre, goal, script_chan, query)
}

/// State transition of a successful dispatch: damage cleared, the serial
/// number advanced, the avoidance counter reset, a completion signal now
/// outstanding, one matching request appended to the history, and every
/// other field untouched.
pub open spec fn reflow_dispatched(
    pre: Page,
    post: Page,
    goal: ReflowGoal,
    script_chan: ScriptControlChan,
    query: ReflowQueryType,
) -> bool {
    &&& post == Page {
        damaged: false,
        last_reflow_id: (pre.last_reflow_id + 1) as u64,
        avoided_reflows: 0,
        layout_join_port: post.layout_join_port,
        reflows_dispatched: post.reflows_dispatched,
        ..pre
    }
    &&& post.layout_join_port is Some
    &&& log_extended(pre, post, goal, script_chan, query)
}

/// As `reflow_dispatched`, after the completion signal has also been joined:
/// the same transition with no signal left outstanding.  The query handle is
/// exempted from the equality because a synchronous query that follows the
/// join extends its ghost traffic logs; what happened to it is stated by the
/// caller's own clauses.
pub open spec fn dispatched_and_joined(
    pre: Page,
    post: Page,
    goal: ReflowGoal,
    script_chan: ScriptControlChan,
    query: ReflowQueryType,
) -> bool {
    &&& post == Page {
        damaged: false,
        last_reflow_id: (pre.last_reflow_id + 1) as u64,
        avoided_reflows: 0,
        layout_join_port: None,
        layout_rpc: post.layout_rpc,
        reflows_dispatched: post.reflows_dispatched,
        ..pre
    }
    &&& log_extended(pre, post, goal, script_chan, query)
}

/// Everything `reflow` promises, for every outcome: a page with nothing to
/// lay out is left untouched; a dispatch effects `reflow_dispatched`; and a
/// worker that died before the prior reflow completed surfaces as a fatal
/// error with the barrier consumed and nothing dispatched.
pub open spec fn reflow_effect(
    pre: Page,
    post: Page,
    goal: ReflowGoal,
    script_chan: ScriptControlChan,
    query: ReflowQueryType,
    result: Result<(), LayoutError>,
) -> bool {
    &&& (!has_root(pre) ==> post == pre && result == Ok::<(), LayoutError>(()))
    &&& (has_root(pre) ==> match result {
        Ok(_) => reflow_dispatched(pre, post, goal, script_chan, query),
        Err(e) => {
            &&& e == LayoutError::WorkerTerminated
            &&& post == Page { avoided_reflows: 0, layout_join_port: None, ..pre }
        },
    })
}

impl Page {
    /// Build a page around an already-obtained query handle.  Every field
    /// starts at the state of a context that has loaded nothing: no frame,
    /// no outstanding reflow, no damage, all counters at zero.
    pub fn new_with_rpc(
        id: PipelineId,
        subpage_id: Option<SubpageId>,
        layout_chan: LayoutChan,
        layout_rpc: LayoutRpc,
        window_size: WindowSizeData,
        resource_task: ResourceTask,
        constellation_chan: ConstellationChan,
        js_context: u64,
    ) -> (result: Page)
        ensures
            result == (Page {
                id,
                subpage_id,
                last_reflow_id: 0u64,
                frame: None::<Frame>,
                layout_chan,
                layout_rpc,
                layout_join_port: None::<Receiver<()>>,
                window_size,
                js_info: Some(JSPageInfo { js_context }),
                url: None::<(Url, bool)>,
                next_subpage_id: SubpageId(0),
                resize_event: None::<WindowSizeData>,
                pending_dirty_nodes: result.pending_dirty_nodes,
                fragment_name: None::<String>,
                resource_task,
                constellation_chan,
                children: result.children,
                damaged: false,
                pending_reflows: 0u64,
                avoided_reflows: 0u64,
                reflows_dispatched: Ghost(Seq::empty()),
            }),
            result.pending_dirty_nodes@ == Seq::<UntrustedNodeAddress>::empty(),
            result.children@ == Seq::<Page>::empty(),
    {
        Page {
            id,
            subpage_id,
            last_reflow_id: 0,
            frame: None,
            layout_chan,
            layout_rpc,
            layout_join_port: None,
            window_size,
            js_info: Some(JSPageInfo { js_context }),
            url: None,
            next_subpage_id: SubpageId(0),
            resize_event: None,
            pending_dirty_nodes: Vec::new(),
            fragment_name: None,
            resource_task,
            constellation_chan,
            children: Vec::new(),
            damaged: false,
            pending_reflows: 0,
            avoided_reflows: 0,
            reflows_dispatched: Ghost(Seq::empty()),
        }
    }

    /// Provision a page: ask the layout worker for its synchronous query
    /// handle over the dispatch channel, block for the reply, and build the
    /// initial state around it.  `None` when the worker went away before
    /// answering.
    pub fn new(
        id: PipelineId,
        subpage_id: Option<SubpageId>,
        layout_chan: LayoutChan,
        window_size: WindowSizeData,
        resource_task: ResourceTask,
        constellation_chan: ConstellationChan,
        js_context: u64,
    ) -> (result: Option<Page>)
        ensures
            (result matches Some(page) ==> page == Page::new_page_spec(
                id,
                subpage_id,
                layout_chan,
                page.layout_rpc,
                window_size,
                resource_task,
                constellation_chan,
                js_context,
                page,
            )),
            (result matches Some(page) ==> page.children@ == Seq::<Page>::empty()),
            (result matches Some(page) ==> page.pending_dirty_nodes@ == Seq::<
                UntrustedNodeAddress,
            >::empty()),
    {
        let (rpc_send, rpc_recv) = new_channel::<LayoutRpc>();
        let _delivered = send_value(&layout_chan.0, Msg::GetRpc(rpc_send));
        match recv_value(&rpc_recv) {
            None => None,
            Some(layout_rpc) => Some(
                Page::new_with_rpc(
                    id,
                    subpage_id,
                    layout_chan,
                    layout_rpc,
                    window_size,
                    resource_task,
                    constellation_chan,
                    js_context,
                ),
            ),
        }
    }

    /// The state `new_with_rpc` promises, written once so that `new` can
    /// restate it for the handle the worker sent back.
    pub open spec fn new_page_spec(
        id: PipelineId,
        subpage_id: Option<SubpageId>,
        layout_chan: LayoutChan,
        layout_rpc: LayoutRpc,
        window_size: WindowSizeData,
        resource_task: ResourceTask,
        constellation_chan: ConstellationChan,
        js_context: u64,
        result: Page,
    ) -> Page {
        Page {
            id,
            subpage_id,
            last_reflow_id: 0u64,
            frame: None,
            layout_chan,
            layout_rpc,
            layout_join_port: None,
            window_size,
            js_info: Some(JSPageInfo { js_context }),
            url: None,
            next_subpage_id: SubpageId(0),
            resize_event: None,
            pending_dirty_nodes: result.pending_dirty_nodes,
            fragment_name: None,
            resource_task,
            constellation_chan,
            children: result.children,
            damaged: false,
            pending_reflows: 0u64,
            avoided_reflows: 0u64,
            reflows_dispatched: Ghost(Seq::empty()),
        }
    }

    /// Mark the current layout as stale: any mutation that invalidates
    /// geometry calls this before the next flush.
    pub fn damage(&mut self)
        ensures
            (*final(self) == Page { damaged: true, ..*old(self) }),
    {
        self.damaged = true;
    }

    /// Sorts the non-blocking probe of a completion signal: a value means
    /// the outstanding reflow completed; a sender dropped without a value
    /// means the layout worker died mid-reflow, which is fatal; an empty
    /// channel decides nothing yet, so the caller must block.
    pub fn completion_from_probe(outcome: TryRecvOutcome<()>) -> (result: Option<
        Result<(), LayoutError>,
    >)
        ensures
            result == (match outcome {
                TryRecvOutcome::Value(_) => Some(Ok::<(), LayoutError>(())),
                TryRecvOutcome::Empty => None::<Result<(), LayoutError>>,
                TryRecvOutcome::Disconnected => Some(
                    Err::<(), LayoutError>(LayoutError::WorkerTerminated),
                ),
            }),
    {
        match outcome {
            TryRecvOutcome::Value(_) => Some(Ok(())),
            TryRecvOutcome::Empty => None,
            TryRecvOutcome::Disconnected => Some(Err(LayoutError::WorkerTerminated)),
        }
    }

    /// Sorts the blocking wait for a completion signal: a value means the
    /// outstanding reflow completed; a disconnect without one means the
    /// layout worker died mid-reflow, which is fatal.
    pub fn completion_from_wait(outcome: Option<()>) -> (result: Result<(), LayoutError>)
        ensures
            result == (match outcome {
                Some(_) => Ok::<(), LayoutError>(()),
                None => Err::<(), LayoutError>(LayoutError::WorkerTerminated),
            }),
    {
        match outcome {
            Some(_) => Ok(()),
            None => Err(LayoutError::WorkerTerminated),
        }
    }

    /// Block until any previously dispatched reflow has signaled completion.
    /// The barrier is consumed first, so a second call with no intervening
    /// dispatch finds nothing outstanding and returns at once.  The receive
    /// outcomes are sorted by `completion_from_probe` and
    /// `completion_from_wait`, whose contracts state that a disconnect
    /// without the owed value is fatal; what arrives on the channel itself
    /// is the worker's act and stands outside the model.
    pub fn join_layout(&mut self) -> (result: Result<(), LayoutError>)
        ensures
            (*final(self) == Page { layout_join_port: None, ..*old(self) }),
            (old(self).layout_join_port is None ==> result == Ok::<(), LayoutError>(())),
            (result is Err ==> result == Err::<(), LayoutError>(LayoutError::WorkerTerminated)),
    {
        let port = self.layout_join_port.take();
        match port {
            None => Ok(()),
            Some(join_port) => match Page::completion_from_probe(try_recv_value(&join_port)) {
                Some(settled) => settled,
                None => Page::completion_from_wait(recv_value(&join_port)),
            },
        }
    }

    /// Dispatch a reflow if the page has anything to lay out.  Joins any
    /// outstanding reflow first, tells the compositor layout is beginning,
    /// allocates a fresh completion signal, advances the serial number,
    /// clears the damage flag, and sends the request; it does not wait for
    /// the new layout run.  A send to a worker that already went away is not
    /// reported here: the next join observes the disconnect.
    pub fn reflow<L: ScriptListener>(
        &mut self,
        goal: ReflowGoal,
        script_chan: ScriptControlChan,
        compositor: &mut L,
        query_type: ReflowQueryType,
    ) -> (result: Result<(), LayoutError>)
        requires
            may_reflow(*old(self)),
        ensures
            reflow_effect(*old(self), *final(self), goal, script_chan, query_type, result),
            (old(self).layout_join_port is None ==> result is Ok),
    {
        let root = match &self.frame {
            None => None,
            Some(frame) => frame.document.root_node,
        };
        match root {
            None => Ok(()),
            Some(document_root) => {
                self.avoided_reflows = 0;
                match self.join_layout() {
                    Err(e) => Err(e),
                    Ok(_) => {
                        compositor.set_ready_state(self.id, ReadyState::PerformingLayout);
                        let (join_chan, join_port) = new_channel::<()>();
                        self.layout_join_port = Some(join_port);
                        self.last_reflow_id = self.last_reflow_id + 1;
                        let window_size = self.window_size;
                        self.damaged = false;
                        let request = Reflow {
                            document_root,
                            url: self.get_url(),
                            iframe: self.subpage_id.is_some(),
                            goal,
                            window_size,
                            script_chan,
                            script_join_chan: join_chan,
                            id: self.last_reflow_id,
                            query_type,
                        };
                        proof {
                            self.reflows_dispatched@ = self.reflows_dispatched@.push(request);
                        }
                        let _delivered = send_value(
                            &self.layout_chan.0,
                            Msg::Reflow(Box::new(request)),
                        );
                        Ok(())
                    },
                }
            },
        }
    }

    /// Ensure layout is fresh enough to answer `query`, dispatching a reflow
    /// only when the policy requires one: damage forces a display-quality
    /// pass, a geometry query on an undamaged page forces a query-quality
    /// pass, and anything else is skipped and counted as avoided.
    pub fn flush_layout<L: ScriptListener>(
        &mut self,
        query: ReflowQueryType,
        compositor: &mut L,
    ) -> (result: Result<(), LayoutError>)
        requires
            old(self).avoided_reflows < u64::MAX,
            (flush_forces_reflow(old(self).damaged, query) ==> old(self).frame is Some
                && may_reflow(*old(self))),
        ensures
            (!flush_forces_reflow(old(self).damaged, query) ==> *final(self) == Page {
                avoided_reflows: (old(self).avoided_reflows + 1) as u64,
                ..*old(self)
            }),
            (!flush_forces_reflow(old(self).damaged, query) ==> result == Ok::<(),
                LayoutError,
            >(())),
            (flush_forces_reflow(old(self).damaged, query) ==> reflow_effect(
                *old(self),
                *final(self),
                flush_goal(old(self).damaged),
                control_chan(*old(self)),
                query,
                result,
            )),
            (old(self).layout_join_port is None ==> result is Ok),
    {
        let damaged = self.damaged;
        let (reflow_goal, force_reflow): (ReflowGoal, bool) = if damaged {
            (ReflowGoal::ForDisplay, true)
        } else {
            match query {
                ReflowQueryType::ContentBoxQuery(_) => (ReflowGoal::ForScriptQuery, true),
                ReflowQueryType::ContentBoxesQuery(_) => (ReflowGoal::ForScriptQuery, true),
                ReflowQueryType::NoQuery => (ReflowGoal::ForDisplay, false),
            }
        };
        if force_reflow {
            let script_chan = match &self.frame {
                Some(frame) => frame.window.control_chan,
                None => ScriptControlChan(0),  // unreachable: a forced flush requires a frame
            };
            self.reflow(reflow_goal, script_chan, compositor, query)
        } else {
            self.avoided_reflows = self.avoided_reflows + 1;
            Ok(())
        }
    }

    /// Fully synchronize with layout for a caller that needs no geometry
    /// query: flush under the no-query policy, join, and hand out the
    /// synchronous query handle.  The handle is valid only until the next
    /// mutation or reflow.
    pub fn layout<L: ScriptListener>(&mut self, compositor: &mut L) -> (result: Result<
        &LayoutRpc,
        LayoutError,
    >)
        requires
            old(self).avoided_reflows < u64::MAX,
            (old(self).damaged ==> old(self).frame is Some && may_reflow(*old(self))),
        ensures
            (final(self).layout_join_port is None),
            final(self).layout_rpc == old(self).layout_rpc,
            (result matches Ok(rpc) ==> *rpc == old(self).layout_rpc),
            (result is Err ==> result == Err::<&LayoutRpc, LayoutError>(
                LayoutError::WorkerTerminated,
            )),
            (!old(self).damaged ==> *final(self) == Page {
                avoided_reflows: (old(self).avoided_reflows + 1) as u64,
                layout_join_port: None,
                ..*old(self)
            }),
            (old(self).damaged && !has_root(*old(self)) ==> *final(self) == Page {
                layout_join_port: None,
                ..*old(self)
            }),
            (old(self).damaged && has_root(*old(self)) && result is Ok ==> dispatched_and_joined(
                *old(self),
                *final(self),
                ReflowGoal::ForDisplay,
                control_chan(*old(self)),
                ReflowQueryType::NoQuery,
            )),
            (old(self).damaged && has_root(*old(self)) ==> dispatched_and_joined(
                *old(self),
                *final(self),
                ReflowGoal::ForDisplay,
                control_chan(*old(self)),
                ReflowQueryType::NoQuery,
            ) || *final(self) == Page {
                avoided_reflows: 0,
                layout_join_port: None,
                ..*old(self)
            }),
            ((!old(self).damaged || !has_root(*old(self))) && old(self).layout_join_port is None
                ==> result is Ok),
    {
        match self.flush_layout(ReflowQueryType::NoQuery, compositor) {
            Err(e) => Err(e),
            Ok(_) => match self.join_layout() {
                Err(e) => Err(e),
                Ok(_) => Ok(&self.layout_rpc),
            },
        }
    }

    /// Ask layout for the content box of `content_box_request`, reflowing
    /// first exactly as the flush policy demands for a geometry query, and
    /// joining before the blocking call.
    pub fn content_box_query<L: ScriptListener>(
        &mut self,
        content_box_request: TrustedNodeAddress,
        compositor: &mut L,
    ) -> (result: Result<Rect, LayoutError>)
        requires
            old(self).avoided_reflows < u64::MAX,
            old(self).frame is Some,
            may_reflow(*old(self)),
        ensures
            (final(self).layout_join_port is None),
            (final(self).layout_rpc.chan == old(self).layout_rpc.chan),
            (!has_root(*old(self)) ==> *final(self) == Page {
                layout_join_port: None,
                layout_rpc: final(self).layout_rpc,
                ..*old(self)
            }),
            (has_root(*old(self)) ==> dispatched_and_joined(
                *old(self),
                *final(self),
                flush_goal(old(self).damaged),
                control_chan(*old(self)),
                ReflowQueryType::ContentBoxQuery(content_box_request),
            ) || (result == Err::<Rect, LayoutError>(LayoutError::WorkerTerminated)
                && *final(self) == Page {
                avoided_reflows: 0,
                layout_join_port: None,
                layout_rpc: final(self).layout_rpc,
                ..*old(self)
            })),
            (result != Err::<Rect, LayoutError>(LayoutError::WorkerTerminated) ==> {
                &&& issued_one_query(old(self).layout_rpc, final(self).layout_rpc)
                &&& final(self).layout_rpc.queries_issued@.last() matches QueryMsg::ContentBox(_)
                &&& received_one_reply(old(self).layout_rpc, final(self).layout_rpc)
                &&& result == content_box_reply_spec(
                    final(self).layout_rpc.replies_received@.last(),
                )
            }),
    {
        match self.flush_layout(
            ReflowQueryType::ContentBoxQuery(content_box_request),
            compositor,
        ) {
            Err(e) => Err(e),
            Ok(_) => match self.join_layout() {
                Err(e) => Err(e),
                Ok(_) => self.layout_rpc.content_box(),
            },
        }
    }

    /// Ask layout for the content boxes of `content_boxes_request`, as
    /// `content_box_query` asks for the single box.
    pub fn content_boxes_query<L: ScriptListener>(
        &mut self,
        content_boxes_request: TrustedNodeAddress,
        compositor: &mut L,
    ) -> (result: Result<Vec<Rect>, LayoutError>)
        requires
            old(self).avoided_reflows < u64::MAX,
            old(self).frame is Some,
            may_reflow(*old(self)),
        ensures
            (final(self).layout_join_port is None),
            (final(self).layout_rpc.chan == old(self).layout_rpc.chan),
            (!has_root(*old(self)) ==> *final(self) == Page {
                layout_join_port: None,
                layout_rpc: final(self).layout_rpc,
                ..*old(self)
            }),
            (has_root(*old(self)) ==> dispatched_and_joined(
                *old(self),
                *final(self),
                flush_goal(old(self).damaged),
                control_chan(*old(self)),
                ReflowQueryType::ContentBoxesQuery(content_boxes_request),
            ) || (result == Err::<Vec<Rect>, LayoutError>(LayoutError::WorkerTerminated)
                && *final(self) == Page {
                avoided_reflows: 0,
                layout_join_port: None,
                layout_rpc: final(self).layout_rpc,
                ..*old(self)
            })),
            (result != Err::<Vec<Rect>, LayoutError>(LayoutError::WorkerTerminated) ==> {
                &&& issued_one_query(old(self).layout_rpc, final(self).layout_rpc)
                &&& final(self).layout_rpc.queries_issued@.last() matches QueryMsg::ContentBoxes(
                    _,
                )
                &&& received_one_reply(old(self).layout_rpc, final(self).layout_rpc)
                &&& result == content_boxes_reply_spec(
                    final(self).layout_rpc.replies_received@.last(),
                )
            }),
    {
        match self.flush_layout(
            ReflowQueryType::ContentBoxesQuery(content_boxes_request),
            compositor,
        ) {
            Err(e) => Err(e),
            Ok(_) => match self.join_layout() {
                Err(e) => Err(e),
                Ok(_) => self.layout_rpc.content_boxes(),
            },
        }
    }

    /// Ask layout which node lies under `point`.  A page whose document has
    /// no root element has no target, which is not an error; a protocol
    /// failure of the worker is.
    pub fn hit_test<L: ScriptListener>(
        &mut self,
        point: &Point2D,
        compositor: &mut L,
    ) -> (result: Result<Option<UntrustedNodeAddress>, LayoutError>)
        requires
            old(self).avoided_reflows < u64::MAX,
            old(self).frame is Some,
            (old(self).damaged ==> may_reflow(*old(self))),
        ensures
            (!has_root(*old(self)) ==> *final(self) == *old(self) && result == Ok::<
                Option<UntrustedNodeAddress>,
                LayoutError,
            >(None)),
            (has_root(*old(self)) ==> final(self).layout_join_port is None),
            (final(self).layout_rpc.chan == old(self).layout_rpc.chan),
            (has_root(*old(self)) && !old(self).damaged ==> *final(self) == Page {
                avoided_reflows: (old(self).avoided_reflows + 1) as u64,
                layout_join_port: None,
                layout_rpc: final(self).layout_rpc,
                ..*old(self)
            }),
            (has_root(*old(self)) && old(self).damaged ==> dispatched_and_joined(
                *old(self),
                *final(self),
                ReflowGoal::ForDisplay,
                control_chan(*old(self)),
                ReflowQueryType::NoQuery,
            ) || *final(self) == Page {
                avoided_reflows: 0,
                layout_join_port: None,
                layout_rpc: final(self).layout_rpc,
                ..*old(self)
            }),
            (has_root(*old(self)) && result != Err::<Option<UntrustedNodeAddress>, LayoutError>(
                LayoutError::WorkerTerminated,
            ) ==> {
                &&& issued_one_query(old(self).layout_rpc, final(self).layout_rpc)
                &&& (final(self).layout_rpc.queries_issued@.last() matches QueryMsg::HitTest(
                    r,
                    p,
                    _,
                ) && r == spec_root(*old(self)) && p == *point)
                &&& received_one_reply(old(self).layout_rpc, final(self).layout_rpc)
                &&& result == hit_test_reply_spec(
                    final(self).layout_rpc.replies_received@.last(),
                )
            }),
    {
        let root = match &self.frame {
            Some(frame) => frame.document.root_node,
            None => None,
        };
        match root {
            None => Ok(None),
            Some(root_addr) => match self.layout(compositor) {
                Err(e) => Err(e),
                Ok(_) => self.layout_rpc.hit_test(root_addr, *point),
            },
        }
    }

    /// Ask layout which nodes lie under the mouse at `point`, as `hit_test`
    /// asks for the single node.
    pub fn get_nodes_under_mouse<L: ScriptListener>(
        &mut self,
        point: &Point2D,
        compositor: &mut L,
    ) -> (result: Result<Option<Vec<UntrustedNodeAddress>>, LayoutError>)
        requires
            old(self).avoided_reflows < u64::MAX,
            old(self).frame is Some,
            (old(self).damaged ==> may_reflow(*old(self))),
        ensures
            (!has_root(*old(self)) ==> *final(self) == *old(self) && result == Ok::<
                Option<Vec<UntrustedNodeAddress>>,
                LayoutError,
            >(None)),
            (has_root(*old(self)) ==> final(self).layout_join_port is None),
            (final(self).layout_rpc.chan == old(self).layout_rpc.chan),
            (has_root(*old(self)) && !old(self).damaged ==> *final(self) == Page {
                avoided_reflows: (old(self).avoided_reflows + 1) as u64,
                layout_join_port: None,
                layout_rpc: final(self).layout_rpc,
                ..*old(self)
            }),
            (has_root(*old(self)) && old(self).damaged ==> dispatched_and_joined(
                *old(self),
                *final(self),
                ReflowGoal::ForDisplay,
                control_chan(*old(self)),
                ReflowQueryType::NoQuery,
            ) || *final(self) == Page {
                avoided_reflows: 0,
                layout_join_port: None,
                layout_rpc: final(self).layout_rpc,
                ..*old(self)
            }),
            (has_root(*old(self)) && result != Err::<
                Option<Vec<UntrustedNodeAddress>>,
                LayoutError,
            >(LayoutError::WorkerTerminated) ==> {
                &&& issued_one_query(old(self).layout_rpc, final(self).layout_rpc)
                &&& (final(self).layout_rpc.queries_issued@.last() matches QueryMsg::MouseOver(
                    r,
                    p,
                    _,
                ) && r == spec_root(*old(self)) && p == *point)
                &&& received_one_reply(old(self).layout_rpc, final(self).layout_rpc)
                &&& result == mouse_over_reply_spec(
                    final(self).layout_rpc.replies_received@.last(),
                )
            }),
    {
        let root = match &self.frame {
            Some(frame) => frame.document.root_node,
            None => None,
        };
        match root {
            None => Ok(None),
            Some(root_addr) => match self.layout(compositor) {
                Err(e) => Err(e),
                Ok(_) => self.layout_rpc.mouse_over(root_addr, *point),
            },
        }
    }

    /// The JavaScript state of the current frame.
    pub fn js_info(&self) -> (result: &Option<JSPageInfo>)
        ensures
            *result == self.js_info,
    {
        &self.js_info
    }

    /// Exclusive access to the JavaScript state of the current frame.
    pub fn mut_js_info(&mut self) -> (result: &mut Option<JSPageInfo>)
        ensures
            *result == old(self).js_info,
            (*final(self) == Page { js_info: *final(result), ..*old(self) }),
    {
        &mut self.js_info
    }

    /// The cached url of the most recently loaded document.
    pub fn url(&self) -> (result: &Option<(Url, bool)>)
        ensures
            *result == self.url,
    {
        &self.url
    }

    /// Exclusive access to the cached url.
    pub fn mut_url(&mut self) -> (result: &mut Option<(Url, bool)>)
        ensures
            *result == old(self).url,
            (*final(self) == Page { url: *final(result), ..*old(self) }),
    {
        &mut self.url
    }

    /// The current frame, if a document has loaded.
    pub fn frame(&self) -> (result: &Option<Frame>)
        ensures
            *result == self.frame,
    {
        &self.frame
    }

    /// Exclusive access to the current frame, for navigation.
    pub fn mut_frame(&mut self) -> (result: &mut Option<Frame>)
        ensures
            *result == old(self).frame,
            (*final(self) == Page { frame: *final(result), ..*old(self) }),
    {
        &mut self.frame
    }

    /// Hand out the next free subpage id and advance the counter.
    pub fn get_next_subpage_id(&mut self) -> (result: SubpageId)
        requires
            old(self).next_subpage_id.0 < u64::MAX,
        ensures
            result == old(self).next_subpage_id,
            (*final(self) == Page {
                next_subpage_id: SubpageId((old(self).next_subpage_id.0 + 1) as u64),
                ..*old(self)
            }),
    {
        let subpage_id = self.next_subpage_id;
        let SubpageId(id_num) = subpage_id;
        self.next_subpage_id = SubpageId(id_num + 1);
        subpage_id
    }

    /// A copy of the cached url; callable only once a document has loaded.
    pub fn get_url(&self) -> (result: Url)
        requires
            self.url is Some,
        ensures
            result == self.url->Some_0.0,
    {
        self.url.as_ref().unwrap().0.duplicate()
    }

    /// Attempt to find a named anchor in this page's document.
    pub fn find_fragment_node(&self, fragid: String) -> (result: Option<TrustedNodeAddress>)
        requires
            self.frame is Some,
        ensures
            result == fragment_match(
                self.frame->Some_0.document.fragment_nodes@,
                fragid@,
            ),
    {
        self.frame.as_ref().unwrap().document.find_fragment_node(&fragid)
    }
}

} // verus!
