use swtchr::error::SwtchrError;
use swtchr::filter::{filter_event, SwayEvent, WindowChange, WindowNotice};
use swtchr::window::{SwayNode, Window, WindowEvent};

fn node(id: i64, name: Option<&str>, app_id: Option<&str>, urgent: bool) -> SwayNode {
    SwayNode {
        id,
        name: name.map(|s| s.to_string()),
        app_id: app_id.map(|s| s.to_string()),
        urgent,
    }
}

fn notice(change: WindowChange, container: SwayNode) -> Result<SwayEvent, SwtchrError> {
    Ok(SwayEvent::Window(WindowNotice { change, container }))
}

fn expect_focus(r: Result<Option<WindowEvent>, SwtchrError>) -> Window {
    match r {
        Ok(Some(WindowEvent::Focus(w))) => w,
        _ => panic!("expected a focus event"),
    }
}

#[test]
fn new_and_focus_map_to_focus_events() {
    for change in [WindowChange::New, WindowChange::Focus] {
        let r = filter_event(notice(change, node(4, Some("t"), Some("a"), false)), false);
        let w = expect_focus(r);
        assert_eq!(w.id, 4);
        assert_eq!(w.window_title, "t");
        assert_eq!(w.app_id, "a");
    }
}

#[test]
fn urgent_ignored_when_urgent_first_is_off() {
    let r = filter_event(notice(WindowChange::Urgent, node(4, Some("t"), Some("a"), true)), false);
    assert!(matches!(r, Ok(None)));
}

#[test]
fn urgent_ignored_when_urgency_already_cleared() {
    let r = filter_event(notice(WindowChange::Urgent, node(4, Some("t"), Some("a"), false)), true);
    assert!(matches!(r, Ok(None)));
}

#[test]
fn urgent_maps_to_focus_when_gating_passes() {
    let r = filter_event(notice(WindowChange::Urgent, node(4, Some("t"), Some("a"), true)), true);
    let w = expect_focus(r);
    assert_eq!(w.id, 4);
}

#[test]
fn close_maps_to_close_event() {
    let r = filter_event(notice(WindowChange::Close, node(9, None, None, false)), true);
    match r {
        Ok(Some(WindowEvent::Close(id))) => assert_eq!(id, 9),
        _ => panic!("expected a close event"),
    }
}

#[test]
fn other_change_kinds_yield_nothing() {
    let r = filter_event(notice(WindowChange::Other, node(4, Some("t"), Some("a"), true)), true);
    assert!(matches!(r, Ok(None)));
}

#[test]
fn non_window_notifications_yield_nothing() {
    let r = filter_event(Ok(SwayEvent::Other), true);
    assert!(matches!(r, Ok(None)));
}

#[test]
fn nodes_without_title_or_app_id_are_never_tracked() {
    for change in [WindowChange::New, WindowChange::Focus, WindowChange::Urgent] {
        for n in [
            node(4, None, Some("a"), true),
            node(4, Some("t"), None, true),
            node(4, None, None, true),
            node(4, Some(""), Some("a"), true),
            node(4, Some("t"), Some(""), true),
        ] {
            let r = filter_event(notice(change, n), true);
            assert!(matches!(r, Ok(None)));
        }
    }
}

#[test]
fn decode_errors_propagate() {
    let r = filter_event(Err(SwtchrError::Decode), true);
    assert_eq!(r.unwrap_err(), SwtchrError::Decode);
    let r = filter_event(Err(SwtchrError::Connection), false);
    assert_eq!(r.unwrap_err(), SwtchrError::Connection);
}

#[test]
fn from_node_resolves_only_views() {
    let w = Window::from_node(node(3, Some("t"), Some("a"), false)).unwrap();
    assert_eq!(w.id, 3);
    assert!(Window::from_node(node(3, None, Some("a"), false)).is_none());
    assert!(Window::from_node(node(3, Some("t"), None, false)).is_none());
    assert!(Window::from_node(node(3, Some(""), Some("a"), false)).is_none());
}
