use vstd::prelude::*;

use crate::error::SwtchrError;
use crate::window::{spec_window_of_node, SwayNode, Window, WindowEvent};

verus! {

/// The change kinds of a window notification that the switcher tells apart;
/// every other kind reported by the window manager is `Other`.
#[derive(Clone, Copy, Debug, PartialEq, Eq, Structural)]
pub enum WindowChange {
    New,
    Close,
    Focus,
    Urgent,
    Other,
}

/// One window-change notification: the kind of change and the node it
/// concerns.
pub struct WindowNotice {
    pub change: WindowChange,
    pub container: SwayNode,
}

/// One raw notification from the window manager: either a window
/// notification or one of another category, which the switcher ignores.
pub enum SwayEvent {
    Window(WindowNotice),
    Other,
}

/// The normalized event a raw notification maps to.
///
/// A decode failure passes through as an error. Non-window notifications
/// yield nothing. `New` and `Focus` yield a focus event whenever the node
/// resolves to a window; `Urgent` does so only while urgent-first ordering is
/// on and the node is urgent right now, since a stale urgency record must not
/// reorder the list once urgency is gone. `Close` always yields a close
/// event; every other change kind yields nothing.
pub open spec fn spec_filter(
    event_result: Result<SwayEvent, SwtchrError>,
    urgent_first: bool,
) -> Result<Option<WindowEvent>, SwtchrError> {
    match event_result {
        Err(e) => Err(e),
        Ok(SwayEvent::Other) => Ok(None),
        Ok(SwayEvent::Window(notice)) => match notice.change {
            WindowChange::New | WindowChange::Focus => Ok(
                match spec_window_of_node(notice.container) {
                    Some(w) => Some(WindowEvent::Focus(w)),
                    None => None,
                },
            ),
            WindowChange::Urgent => if urgent_first && notice.container.urgent {
                Ok(
                    match spec_window_of_node(notice.container) {
                        Some(w) => Some(WindowEvent::Focus(w)),
                        None => None,
                    },
                )
            } else {
                Ok(None)
            },
            WindowChange::Close => Ok(Some(WindowEvent::Close(notice.container.id))),
            WindowChange::Other => Ok(None),
        },
    }
}

/// Maps one raw notification (or the failure to decode one) to the event the
/// store should see, under the urgent-first policy flag.
pub fn filter_event(event_result: Result<SwayEvent, SwtchrError>, urgent_first: bool) -> (r: Result<
    Option<WindowEvent>,
    SwtchrError,
>)
    ensures
        r == spec_filter(event_result, urgent_first),
{
    match event_result {
        Err(e) => Err(e),
        Ok(SwayEvent::Other) => Ok(None),
        Ok(SwayEvent::Window(notice)) => match notice.change {
            WindowChange::New | WindowChange::Focus => match Window::from_node(notice.container) {
                Some(w) => Ok(Some(WindowEvent::Focus(w))),
                None => Ok(None),
            },
            WindowChange::Urgent => {
                if urgent_first && notice.container.urgent {
                    match Window::from_node(notice.container) {
                        Some(w) => Ok(Some(WindowEvent::Focus(w))),
                        None => Ok(None),
                    }
                } else {
                    Ok(None)
                }
            },
            WindowChange::Close => Ok(Some(WindowEvent::Close(notice.container.id))),
            WindowChange::Other => Ok(None),
        },
    }
}

/// Urgent gating. An urgency notification moves a window only under the
/// double condition: with urgent-first ordering off it yields nothing,
/// whatever the node; with the ordering on but the node no longer urgent it
/// also yields nothing; with both on it yields a focus event exactly when the
/// node resolves to a window.
pub proof fn lemma_urgent_gating(notice: WindowNotice, urgent_first: bool)
    requires
        notice.change is Urgent,
    ensures
        !urgent_first ==> spec_filter(Ok(SwayEvent::Window(notice)), urgent_first) == Ok::<Option<WindowEvent>, SwtchrError>(None),
        !notice.container.urgent ==> spec_filter(Ok(SwayEvent::Window(notice)), urgent_first)
            == Ok::<Option<WindowEvent>, SwtchrError>(None),
        urgent_first && notice.container.urgent ==> spec_filter(
            Ok(SwayEvent::Window(notice)),
            urgent_first,
        ) == Ok::<Option<WindowEvent>, SwtchrError>(
            match spec_window_of_node(notice.container) {
                Some(w) => Some(WindowEvent::Focus(w)),
                None => None,
            },
        ),
{
}

/// The filter's side of the full exchange, under urgent-first ordering: a
/// notification announcing, focusing or closing a resolvable window maps to
/// exactly the event the store expects. Chained with the ordering laws of
/// the store — most-recently-used order, removal on close, re-entry at the
/// front — this carries the whole exchange from raw notifications to the
/// final snapshots.
pub proof fn lemma_end_to_end_filtering(
    new_a: WindowNotice,
    new_b: WindowNotice,
    focus_a: WindowNotice,
    close_b: WindowNotice,
    a: Window,
    b: Window,
)
    requires
        new_a.change is New && spec_window_of_node(new_a.container) == Some(a),
        new_b.change is New && spec_window_of_node(new_b.container) == Some(b),
        focus_a.change is Focus && spec_window_of_node(focus_a.container) == Some(a),
        close_b.change is Close && close_b.container.id == b.id,
    ensures
        spec_filter(Ok(SwayEvent::Window(new_a)), true) == Ok::<Option<WindowEvent>, SwtchrError>(
            Some(WindowEvent::Focus(a)),
        ),
        spec_filter(Ok(SwayEvent::Window(new_b)), true) == Ok::<Option<WindowEvent>, SwtchrError>(
            Some(WindowEvent::Focus(b)),
        ),
        spec_filter(Ok(SwayEvent::Window(focus_a)), true) == Ok::<Option<WindowEvent>, SwtchrError>(
            Some(WindowEvent::Focus(a)),
        ),
        spec_filter(Ok(SwayEvent::Window(close_b)), true) == Ok::<Option<WindowEvent>, SwtchrError>(
            Some(WindowEvent::Close(b.id)),
        ),
{
}

/// Non-view exclusion. A notification whose node does not resolve to a
/// window — it lacks a title or an application identifier — never yields a
/// focus event, whatever its change kind and whatever the policy flag.
pub proof fn lemma_non_view_excluded(notice: WindowNotice, urgent_first: bool)
    requires
        spec_window_of_node(notice.container) is None,
    ensures
        !(spec_filter(Ok(SwayEvent::Window(notice)), urgent_first) matches Ok(
            Some(WindowEvent::Focus(_)),
        )),
{
}

} // verus!
