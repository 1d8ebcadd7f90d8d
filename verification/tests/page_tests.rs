use script_page::chan::TryRecvOutcome;
use script_page::compositor_msg::{ReadyState, ScriptListener};
use script_page::constellation_msg::{ConstellationChan, PipelineId, SubpageId, WindowSizeData};
use script_page::dom::{Document, Window};
use script_page::layout_interface::{
    content_box_of_reply, hit_test_of_reply, LayoutChan, LayoutError, LayoutRpc, Msg, QueryMsg,
    QueryReply, ReflowGoal, ReflowQueryType, TrustedNodeAddress,
};
use script_page::page::{Frame, Page, ResourceTask};
use script_page::script_traits::{ScriptControlChan, UntrustedNodeAddress};
use script_page::url::Url;
use std::sync::mpsc::{channel, Receiver};

struct Recorder {
    events: Vec<(PipelineId, ReadyState)>,
}

impl ScriptListener for Recorder {
    fn set_ready_state(&mut self, id: PipelineId, state: ReadyState) {
        self.events.push((id, state));
    }
}

fn make_page(id: u64) -> (Page, Receiver<Msg>, Receiver<QueryMsg>) {
    let (layout_tx, layout_rx) = channel::<Msg>();
    let (query_tx, query_rx) = channel::<QueryMsg>();
    let page = Page::new_with_rpc(
        PipelineId(id),
        None,
        LayoutChan(layout_tx),
        LayoutRpc::new(query_tx),
        WindowSizeData { width: 800, height: 600 },
        ResourceTask(1),
        ConstellationChan(2),
        7,
    );
    (page, layout_rx, query_rx)
}

fn load_document(page: &mut Page, root: Option<TrustedNodeAddress>) {
    page.frame = Some(Frame {
        document: Document { root_node: root, fragment_nodes: Vec::new() },
        window: Window { control_chan: ScriptControlChan(5) },
    });
    page.url = Some((Url(String::from("https://example.test/")), false));
}

#[test]
fn new_page_starts_idle() {
    let (page, _rx, _qrx) = make_page(9);
    assert_eq!(page.id, PipelineId(9));
    assert!(page.frame.is_none());
    assert!(page.layout_join_port.is_none());
    assert!(!page.damaged);
    assert_eq!(page.last_reflow_id, 0);
    assert_eq!(page.avoided_reflows, 0);
    assert_eq!(page.pending_reflows, 0);
    assert_eq!(page.next_subpage_id, SubpageId(0));
}

#[test]
fn flush_undamaged_no_query_avoids_reflow() {
    let (mut page, rx, _qrx) = make_page(1);
    load_document(&mut page, Some(TrustedNodeAddress(42)));
    let mut listener = Recorder { events: Vec::new() };
    let outcome = page.flush_layout(ReflowQueryType::NoQuery, &mut listener);
    assert_eq!(outcome, Ok(()));
    assert_eq!(page.avoided_reflows, 1);
    assert!(rx.try_recv().is_err());
    assert!(listener.events.is_empty());
    assert!(page.layout_join_port.is_none());
}

#[test]
fn flush_geometry_query_reflows_for_script_query() {
    let (mut page, rx, _qrx) = make_page(1);
    load_document(&mut page, Some(TrustedNodeAddress(42)));
    let mut listener = Recorder { events: Vec::new() };
    let node = TrustedNodeAddress(42);
    let outcome = page.flush_layout(ReflowQueryType::ContentBoxQuery(node), &mut listener);
    assert_eq!(outcome, Ok(()));
    let msg = rx.try_recv().expect("a reflow request must have been dispatched");
    match msg {
        Msg::Reflow(request) => {
            assert_eq!(request.goal, ReflowGoal::ForScriptQuery);
            assert_eq!(request.query_type, ReflowQueryType::ContentBoxQuery(node));
            assert_eq!(request.document_root, TrustedNodeAddress(42));
            assert_eq!(request.id, 1);
            assert!(!request.iframe);
            assert_eq!(request.script_chan, ScriptControlChan(5));
            assert_eq!(request.window_size, WindowSizeData { width: 800, height: 600 });
            assert_eq!(request.url.0, "https://example.test/");
        }
        Msg::GetRpc(_) => panic!("expected a reflow request"),
    }
    assert!(page.layout_join_port.is_some());
}

#[test]
fn flush_damaged_reflows_for_display() {
    let (mut page, rx, _qrx) = make_page(1);
    load_document(&mut page, Some(TrustedNodeAddress(42)));
    page.damage();
    let mut listener = Recorder { events: Vec::new() };
    let node = TrustedNodeAddress(42);
    let outcome = page.flush_layout(ReflowQueryType::ContentBoxesQuery(node), &mut listener);
    assert_eq!(outcome, Ok(()));
    match rx.try_recv().expect("a reflow request must have been dispatched") {
        Msg::Reflow(request) => {
            assert_eq!(request.goal, ReflowGoal::ForDisplay);
            assert_eq!(request.query_type, ReflowQueryType::ContentBoxesQuery(node));
        }
        Msg::GetRpc(_) => panic!("expected a reflow request"),
    }
}

#[test]
fn flush_damaged_no_query_reflows_for_display() {
    let (mut page, rx, _qrx) = make_page(1);
    load_document(&mut page, Some(TrustedNodeAddress(42)));
    page.damage();
    let mut listener = Recorder { events: Vec::new() };
    let outcome = page.flush_layout(ReflowQueryType::NoQuery, &mut listener);
    assert_eq!(outcome, Ok(()));
    match rx.try_recv().expect("a reflow request must have been dispatched") {
        Msg::Reflow(request) => assert_eq!(request.goal, ReflowGoal::ForDisplay),
        Msg::GetRpc(_) => panic!("expected a reflow request"),
    }
}

#[test]
fn flush_damaged_without_root_element_dispatches_nothing() {
    let (mut page, rx, _qrx) = make_page(1);
    load_document(&mut page, None);
    page.damage();
    let mut listener = Recorder { events: Vec::new() };
    let outcome = page.flush_layout(ReflowQueryType::NoQuery, &mut listener);
    assert_eq!(outcome, Ok(()));
    assert!(rx.try_recv().is_err());
    // Nothing was laid out, so the damage is still owed to the next flush
    // that finds a root element.
    assert!(page.damaged);
    assert_eq!(page.avoided_reflows, 0);
    assert!(listener.events.is_empty());
}

#[test]
fn reflow_clears_damage_and_dispatches_exactly_once() {
    let (mut page, rx, _qrx) = make_page(3);
    load_document(&mut page, Some(TrustedNodeAddress(8)));
    page.damage();
    let mut listener = Recorder { events: Vec::new() };
    let outcome = page.reflow(
        ReflowGoal::ForDisplay,
        ScriptControlChan(5),
        &mut listener,
        ReflowQueryType::NoQuery,
    );
    assert_eq!(outcome, Ok(()));
    assert!(!page.damaged);
    assert_eq!(page.last_reflow_id, 1);
    assert!(page.layout_join_port.is_some());
    assert!(rx.try_recv().is_ok());
    assert!(rx.try_recv().is_err(), "exactly one request per reflow");
    assert_eq!(
        listener.events,
        vec![(PipelineId(3), ReadyState::PerformingLayout)],
    );
}

#[test]
fn reflow_without_frame_is_a_noop() {
    let (mut page, rx, _qrx) = make_page(1);
    let mut listener = Recorder { events: Vec::new() };
    let outcome = page.reflow(
        ReflowGoal::ForDisplay,
        ScriptControlChan(5),
        &mut listener,
        ReflowQueryType::NoQuery,
    );
    assert_eq!(outcome, Ok(()));
    assert!(rx.try_recv().is_err());
    assert_eq!(page.last_reflow_id, 0);
    assert!(listener.events.is_empty());
}

#[test]
fn reflow_without_root_element_is_a_noop() {
    let (mut page, rx, _qrx) = make_page(1);
    load_document(&mut page, None);
    let mut listener = Recorder { events: Vec::new() };
    let outcome = page.reflow(
        ReflowGoal::ForDisplay,
        ScriptControlChan(5),
        &mut listener,
        ReflowQueryType::NoQuery,
    );
    assert_eq!(outcome, Ok(()));
    assert!(rx.try_recv().is_err());
    assert_eq!(page.last_reflow_id, 0);
}

#[test]
fn serialized_reflows_advance_the_id() {
    let (mut page, rx, _qrx) = make_page(1);
    load_document(&mut page, Some(TrustedNodeAddress(8)));
    let mut listener = Recorder { events: Vec::new() };
    page.damage();
    assert_eq!(
        page.reflow(
            ReflowGoal::ForDisplay,
            ScriptControlChan(5),
            &mut listener,
            ReflowQueryType::NoQuery,
        ),
        Ok(()),
    );
    let first = match rx.try_recv().unwrap() {
        Msg::Reflow(request) => request,
        Msg::GetRpc(_) => panic!("expected a reflow request"),
    };
    assert_eq!(first.id, 1);
    // Let the stub worker signal completion so the next reflow can join.
    first.script_join_chan.send(()).unwrap();
    page.damage();
    assert_eq!(
        page.reflow(
            ReflowGoal::ForDisplay,
            ScriptControlChan(5),
            &mut listener,
            ReflowQueryType::NoQuery,
        ),
        Ok(()),
    );
    match rx.try_recv().unwrap() {
        Msg::Reflow(request) => assert_eq!(request.id, 2),
        Msg::GetRpc(_) => panic!("expected a reflow request"),
    }
    assert_eq!(page.last_reflow_id, 2);
}

#[test]
fn reflow_resets_avoided_counter() {
    let (mut page, _rx, _qrx) = make_page(1);
    load_document(&mut page, Some(TrustedNodeAddress(8)));
    let mut listener = Recorder { events: Vec::new() };
    assert_eq!(page.flush_layout(ReflowQueryType::NoQuery, &mut listener), Ok(()));
    assert_eq!(page.avoided_reflows, 1);
    page.damage();
    assert_eq!(page.flush_layout(ReflowQueryType::NoQuery, &mut listener), Ok(()));
    assert_eq!(page.avoided_reflows, 0);
}

#[test]
fn join_twice_blocks_only_on_the_first_call() {
    let (mut page, _rx, _qrx) = make_page(1);
    let (done_tx, done_rx) = channel::<()>();
    page.layout_join_port = Some(done_rx);
    done_tx.send(()).unwrap();
    assert_eq!(page.join_layout(), Ok(()));
    assert!(page.layout_join_port.is_none());
    // No completion signal exists any more; a second join must return at
    // once rather than wait for one.
    assert_eq!(page.join_layout(), Ok(()));
}

#[test]
fn completion_outcomes_sort_as_the_protocol_demands() {
    assert_eq!(Page::completion_from_probe(TryRecvOutcome::Value(())), Some(Ok(())));
    assert_eq!(Page::completion_from_probe(TryRecvOutcome::Empty), None);
    assert_eq!(
        Page::completion_from_probe(TryRecvOutcome::Disconnected),
        Some(Err(LayoutError::WorkerTerminated)),
    );
    assert_eq!(Page::completion_from_wait(Some(())), Ok(()));
    assert_eq!(Page::completion_from_wait(None), Err(LayoutError::WorkerTerminated));
}

#[test]
fn join_disconnect_without_signal_is_fatal() {
    let (mut page, _rx, _qrx) = make_page(1);
    let (done_tx, done_rx) = channel::<()>();
    page.layout_join_port = Some(done_rx);
    // The stub worker goes away without ever signalling completion.
    drop(done_tx);
    assert_eq!(page.join_layout(), Err(LayoutError::WorkerTerminated));
    assert!(page.layout_join_port.is_none());
}

#[test]
fn dead_worker_surfaces_at_the_query_barrier() {
    let (mut page, rx, _qrx) = make_page(1);
    load_document(&mut page, Some(TrustedNodeAddress(8)));
    // The layout worker is gone before the request is even sent: the
    // completion signal inside the undeliverable request is dropped, so the
    // join that follows the dispatch observes the disconnect.
    drop(rx);
    let mut listener = Recorder { events: Vec::new() };
    let outcome = page.content_box_query(TrustedNodeAddress(8), &mut listener);
    assert_eq!(outcome, Err(LayoutError::WorkerTerminated));
}

#[test]
fn hit_test_without_root_misses() {
    let (mut page, _rx, _qrx) = make_page(1);
    load_document(&mut page, None);
    let mut listener = Recorder { events: Vec::new() };
    let outcome = page.hit_test(
        &script_page::geometry::Point2D {
            x: script_page::geometry::Au(60),
            y: script_page::geometry::Au(120),
        },
        &mut listener,
    );
    assert_eq!(outcome, Ok(None));
}

#[test]
fn hit_test_with_dead_worker_is_fatal() {
    let (mut page, _rx, qrx) = make_page(1);
    load_document(&mut page, Some(TrustedNodeAddress(8)));
    drop(qrx);
    let mut listener = Recorder { events: Vec::new() };
    let outcome = page.hit_test(
        &script_page::geometry::Point2D {
            x: script_page::geometry::Au(0),
            y: script_page::geometry::Au(0),
        },
        &mut listener,
    );
    assert_eq!(outcome, Err(LayoutError::WorkerTerminated));
}

#[test]
fn mouse_over_without_root_misses() {
    let (mut page, _rx, _qrx) = make_page(1);
    load_document(&mut page, None);
    let mut listener = Recorder { events: Vec::new() };
    let outcome = page.get_nodes_under_mouse(
        &script_page::geometry::Point2D {
            x: script_page::geometry::Au(1),
            y: script_page::geometry::Au(2),
        },
        &mut listener,
    );
    assert_eq!(outcome, Ok(None));
}

#[test]
fn reply_sorting_accepts_only_the_matching_tag() {
    let rect = script_page::geometry::Rect {
        origin: script_page::geometry::Point2D {
            x: script_page::geometry::Au(1),
            y: script_page::geometry::Au(2),
        },
        size: script_page::geometry::Size2D {
            width: script_page::geometry::Au(3),
            height: script_page::geometry::Au(4),
        },
    };
    assert_eq!(content_box_of_reply(QueryReply::ContentBoxResponse(rect)), Ok(rect));
    assert_eq!(
        content_box_of_reply(QueryReply::HitTestResponse(None)),
        Err(LayoutError::ReplyMismatch),
    );
    assert_eq!(
        hit_test_of_reply(QueryReply::HitTestResponse(Some(UntrustedNodeAddress(11)))),
        Ok(Some(UntrustedNodeAddress(11))),
    );
    assert_eq!(
        hit_test_of_reply(QueryReply::ContentBoxResponse(rect)),
        Err(LayoutError::ReplyMismatch),
    );
}

#[test]
fn flush_content_boxes_query_undamaged_reflows_for_script_query() {
    let (mut page, rx, _qrx) = make_page(1);
    load_document(&mut page, Some(TrustedNodeAddress(42)));
    let mut listener = Recorder { events: Vec::new() };
    let node = TrustedNodeAddress(43);
    let outcome = page.flush_layout(ReflowQueryType::ContentBoxesQuery(node), &mut listener);
    assert_eq!(outcome, Ok(()));
    match rx.try_recv().expect("a reflow request must have been dispatched") {
        Msg::Reflow(request) => {
            assert_eq!(request.goal, ReflowGoal::ForScriptQuery);
            assert_eq!(request.query_type, ReflowQueryType::ContentBoxesQuery(node));
        }
        Msg::GetRpc(_) => panic!("expected a reflow request"),
    }
}

#[test]
fn reflow_carries_the_current_viewport() {
    let (mut page, rx, _qrx) = make_page(1);
    load_document(&mut page, Some(TrustedNodeAddress(8)));
    page.window_size = WindowSizeData { width: 1024, height: 768 };
    page.damage();
    let mut listener = Recorder { events: Vec::new() };
    assert_eq!(page.flush_layout(ReflowQueryType::NoQuery, &mut listener), Ok(()));
    match rx.try_recv().unwrap() {
        Msg::Reflow(request) => {
            assert_eq!(request.window_size, WindowSizeData { width: 1024, height: 768 });
        }
        Msg::GetRpc(_) => panic!("expected a reflow request"),
    }
}

#[test]
fn iframe_pages_mark_their_requests() {
    let (layout_tx, layout_rx) = channel::<Msg>();
    let (query_tx, _query_rx) = channel::<QueryMsg>();
    let mut page = Page::new_with_rpc(
        PipelineId(4),
        Some(SubpageId(3)),
        LayoutChan(layout_tx),
        LayoutRpc::new(query_tx),
        WindowSizeData { width: 800, height: 600 },
        ResourceTask(1),
        ConstellationChan(2),
        7,
    );
    load_document(&mut page, Some(TrustedNodeAddress(8)));
    page.damage();
    let mut listener = Recorder { events: Vec::new() };
    assert_eq!(page.flush_layout(ReflowQueryType::NoQuery, &mut listener), Ok(()));
    match layout_rx.try_recv().unwrap() {
        Msg::Reflow(request) => assert!(request.iframe),
        Msg::GetRpc(_) => panic!("expected a reflow request"),
    }
}

#[test]
fn subpage_ids_are_handed_out_in_order() {
    let (mut page, _rx, _qrx) = make_page(1);
    assert_eq!(page.get_next_subpage_id(), SubpageId(0));
    assert_eq!(page.get_next_subpage_id(), SubpageId(1));
    assert_eq!(page.next_subpage_id, SubpageId(2));
}

#[test]
fn find_fragment_node_returns_the_first_match() {
    let (mut page, _rx, _qrx) = make_page(1);
    page.frame = Some(Frame {
        document: Document {
            root_node: Some(TrustedNodeAddress(1)),
            fragment_nodes: vec![
                (String::from("top"), TrustedNodeAddress(9)),
                (String::from("mid"), TrustedNodeAddress(10)),
                (String::from("mid"), TrustedNodeAddress(11)),
            ],
        },
        window: Window { control_chan: ScriptControlChan(5) },
    });
    assert_eq!(page.find_fragment_node(String::from("mid")), Some(TrustedNodeAddress(10)));
    assert_eq!(page.find_fragment_node(String::from("top")), Some(TrustedNodeAddress(9)));
    assert_eq!(page.find_fragment_node(String::from("absent")), None);
}

#[test]
fn get_url_copies_the_cached_url() {
    let (mut page, _rx, _qrx) = make_page(1);
    load_document(&mut page, Some(TrustedNodeAddress(1)));
    assert_eq!(page.get_url().0, "https://example.test/");
    assert_eq!(page.url().as_ref().unwrap().0 .0, "https://example.test/");
}
