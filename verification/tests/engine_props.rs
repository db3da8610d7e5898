use std::sync::mpsc;

use swtchr::error::SwtchrError;
use swtchr::filter::{SwayEvent, WindowChange, WindowNotice};
use swtchr::store::{serve_query, subscription_step, QueryReply, WindowStore, WindowSubscription};
use swtchr::window::{SwayNode, Window, WindowEvent};

fn node(id: i64, name: &str, app_id: &str, urgent: bool) -> SwayNode {
    SwayNode {
        id,
        name: Some(name.to_string()),
        app_id: Some(app_id.to_string()),
        urgent,
    }
}

fn window_notice(change: WindowChange, container: SwayNode) -> Result<SwayEvent, SwtchrError> {
    Ok(SwayEvent::Window(WindowNotice { change, container }))
}

#[test]
fn end_to_end_subscription_exchange() {
    // Subscribe with urgent-first ordering on, then play the exchange through
    // the subscription actor's own step function and read through the query
    // actor.
    let store = WindowStore::new();
    let (resp_tx, resp_rx) = mpsc::channel::<QueryReply>();
    let (req_tx, req_rx) = mpsc::channel::<()>();
    let urgent_first = true;

    for ev in [
        window_notice(WindowChange::New, node(1, "a", "app-a", false)),
        window_notice(WindowChange::New, node(2, "b", "app-b", false)),
        window_notice(WindowChange::Focus, node(1, "a", "app-a", false)),
    ] {
        assert!(subscription_step(&store, ev, urgent_first, &resp_tx));
    }

    req_tx.send(()).unwrap();
    serve_query(&store, &req_rx, &resp_tx).unwrap();
    let snap = resp_rx.recv().unwrap().into_outcome().unwrap();
    assert_eq!(snap.iter().map(|w| w.id).collect::<Vec<_>>(), vec![1, 2]);

    assert!(subscription_step(
        &store,
        window_notice(WindowChange::Close, node(2, "b", "app-b", false)),
        urgent_first,
        &resp_tx,
    ));
    let snap = store.snapshot();
    assert_eq!(snap.iter().map(|w| w.id).collect::<Vec<_>>(), vec![1]);

    assert!(subscription_step(
        &store,
        window_notice(WindowChange::New, node(2, "b", "app-b", false)),
        urgent_first,
        &resp_tx,
    ));
    let snap = store.snapshot();
    assert_eq!(snap.iter().map(|w| w.id).collect::<Vec<_>>(), vec![2, 1]);
    assert_eq!(snap[0].window_title, "b");
    assert_eq!(snap[1].window_title, "a");
}

#[test]
fn interleaved_reads_never_see_duplicates_or_partial_entries() {
    let store = WindowStore::new();
    let (resp_tx, _resp_rx) = mpsc::channel::<QueryReply>();
    for round in 0..50i64 {
        let id = round % 7;
        let ev = if round % 11 == 3 {
            window_notice(WindowChange::Close, node(id, "t", "a", false))
        } else {
            window_notice(WindowChange::Focus, node(id, "t", "a", false))
        };
        assert!(subscription_step(&store, ev, false, &resp_tx));
        let snap = store.snapshot();
        for (i, w) in snap.iter().enumerate() {
            assert!(!w.window_title.is_empty());
            assert!(!w.app_id.is_empty());
            for other in snap.iter().skip(i + 1) {
                assert_ne!(w.id, other.id);
            }
        }
    }
}

#[test]
fn filter_error_terminates_actor_and_surfaces_on_next_query() {
    let store = WindowStore::new();
    let (resp_tx, resp_rx) = mpsc::channel::<QueryReply>();
    let listening = subscription_step(&store, Err(SwtchrError::Decode), true, &resp_tx);
    assert!(!listening);
    let forwarded = resp_rx.recv().unwrap().into_outcome();
    assert_eq!(forwarded.unwrap_err(), SwtchrError::Decode);
}

#[test]
fn get_window_list_returns_the_reply() {
    let (req_tx, req_rx) = mpsc::channel::<()>();
    let (resp_tx, resp_rx) = mpsc::channel::<QueryReply>();
    let store = WindowStore::new();
    store.apply(WindowEvent::Focus(Window {
        id: 5,
        window_title: "t".to_string(),
        app_id: "a".to_string(),
    }));
    // Answer the query before the handle asks: the reply is waiting when the
    // handle blocks, standing in for a concurrently scheduled query actor.
    resp_tx.send(QueryReply::windows(store.snapshot())).unwrap();
    let handle = WindowSubscription::new(req_tx, resp_rx);
    let list = handle.get_window_list().unwrap();
    assert_eq!(list.len(), 1);
    assert_eq!(list[0].id, 5);
    assert!(req_rx.try_recv().is_ok());
}

#[test]
fn get_window_list_reports_a_gone_query_actor() {
    let (req_tx, req_rx) = mpsc::channel::<()>();
    let (_resp_tx, resp_rx) = mpsc::channel::<QueryReply>();
    drop(req_rx);
    let handle = WindowSubscription::new(req_tx, resp_rx);
    assert_eq!(handle.get_window_list().unwrap_err(), SwtchrError::ActorTerminated);
}

#[test]
fn get_window_list_reports_a_lost_round_trip() {
    let (req_tx, _req_rx) = mpsc::channel::<()>();
    let (resp_tx, resp_rx) = mpsc::channel::<QueryReply>();
    drop(resp_tx);
    let handle = WindowSubscription::new(req_tx, resp_rx);
    assert_eq!(handle.get_window_list().unwrap_err(), SwtchrError::SharedStateCorrupted);
}

#[test]
fn serve_query_reports_gone_requesters() {
    let store = WindowStore::new();
    let (req_tx, req_rx) = mpsc::channel::<()>();
    let (resp_tx, _resp_rx) = mpsc::channel::<QueryReply>();
    drop(req_tx);
    let r = serve_query(&store, &req_rx, &resp_tx);
    assert_eq!(r.unwrap_err(), SwtchrError::ActorTerminated);
}

