use vstd::prelude::*;

verus! {

/// Identifier the window manager assigns to each node; unique among
/// currently-open windows, and never reused while a window with that id is
/// still tracked.
pub type SwayNodeId = i64;

/// Mathematical value of a tracked window.
pub ghost struct WindowView {
    pub id: int,
    pub window_title: Seq<char>,
    pub app_id: Seq<char>,
}

/// An immutable snapshot of a user-visible window, copied into the store when
/// the window is announced and never mutated afterwards.
#[derive(Debug)]
pub struct Window {
    pub id: SwayNodeId,
    pub window_title: String,
    pub app_id: String,
}

impl View for Window {
    type V = WindowView;

    open spec fn view(&self) -> WindowView {
        WindowView {
            id: self.id as int,
            window_title: self.window_title@,
            app_id: self.app_id@,
        }
    }
}

impl DeepView for Window {
    type V = WindowView;

    open spec fn deep_view(&self) -> WindowView {
        self@
    }
}

impl Clone for Window {
    fn clone(&self) -> (r: Self)
        ensures
            r@ == self@,
    {
        Window {
            id: self.id,
            window_title: self.window_title.clone(),
            app_id: self.app_id.clone(),
        }
    }
}

/// The parts of a window-manager node that the switcher reads: the node id,
/// the optional title, the optional application identifier, and the urgency
/// flag.
pub struct SwayNode {
    pub id: SwayNodeId,
    pub name: Option<String>,
    pub app_id: Option<String>,
    pub urgent: bool,
}

/// The window value a node resolves to: `Some` exactly when the node is a
/// view, that is, when it carries a non-empty title and a non-empty
/// application identifier.
pub open spec fn spec_window_of_node(node: SwayNode) -> Option<Window> {
    match (node.name, node.app_id) {
        (Some(name), Some(app_id)) => {
            if name@.len() > 0 && app_id@.len() > 0 {
                Some(Window { id: node.id, window_title: name, app_id: app_id })
            } else {
                None
            }
        },
        _ => None,
    }
}

impl Window {
    /// Resolves a raw node to a window. Returns `None` when the node is not a
    /// view: nodes lacking a title or an application identifier (workspaces,
    /// scratchpad holders) are never tracked.
    pub fn from_node(node: SwayNode) -> (r: Option<Self>)
        ensures
            r == spec_window_of_node(node),
    {
        let SwayNode { id, name, app_id, urgent: _ } = node;
        match (name, app_id) {
            (Some(name), Some(app_id)) => {
                if !name.as_str().is_empty() && !app_id.as_str().is_empty() {
                    Some(Window { id, window_title: name, app_id })
                } else {
                    None
                }
            },
            _ => None,
        }
    }
}

/// A normalized change to the tracked window set.
#[derive(Debug)]
pub enum WindowEvent {
    /// A window was created, focused, or became urgent while urgent-first
    /// ordering applies: it moves to the front of the store.
    Focus(Window),
    /// A window was closed: it leaves the store.
    Close(SwayNodeId),
}

} // verus!
