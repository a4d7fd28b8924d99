//! The terminal interface: its events, its state, and the session that
//! owns the terminal.

pub mod event;
pub mod state;
pub mod wrapper;

pub use event::{
    Event, EventExt, KeyCode, KeyEvent, KeyEventKind, KeyModifiers, MouseButton, MouseEvent,
    MouseEventKind,
};

pub use state::TuiState;
pub use wrapper::{Tui, TuiError};

use vstd::prelude::*;

verus! {

/// The screen that is shown.
#[derive(Debug, Clone, Copy, Hash, PartialEq, Eq, Structural)]
pub enum Page {
    IssueTable,
    IssueThread,
    IssueList,
}

impl Default for Page {
    fn default() -> (r: Self)
        ensures
            r == Page::IssueTable,
    {
        Page::IssueTable
    }
}

/// The widget that receives the input.
#[derive(Debug, Clone, Copy, Hash, PartialEq, Eq, Structural)]
pub enum Focus {
    IssueTable,
    IssueTableFilter,
    IssueThread,
    IssueList,
    IssueListFilter,
}

impl Default for Focus {
    fn default() -> (r: Self)
        ensures
            r == Focus::IssueTable,
    {
        Focus::IssueTable
    }
}

impl Page {
    /// The widget of a page that has the focus when nothing else does.
    pub open spec fn primary(self) -> Focus {
        match self {
            Page::IssueTable => Focus::IssueTable,
            Page::IssueThread => Focus::IssueThread,
            Page::IssueList => Focus::IssueList,
        }
    }

    /// Whether a widget belongs to a page.
    pub open spec fn owns(self, focus: Focus) -> bool {
        match self {
            Page::IssueTable => focus == Focus::IssueTable || focus == Focus::IssueTableFilter,
            Page::IssueThread => focus == Focus::IssueThread,
            Page::IssueList => focus == Focus::IssueList || focus == Focus::IssueListFilter,
        }
    }

    /// The widget of a page that has the focus when nothing else does.
    pub fn primary_focus(self) -> (r: Focus)
        ensures
            r == self.primary(),
            self.owns(r),
    {
        match self {
            Page::IssueTable => Focus::IssueTable,
            Page::IssueThread => Focus::IssueThread,
            Page::IssueList => Focus::IssueList,
        }
    }
}

/// Return type from custom widgets during their input handling phase.
#[derive(Debug, Clone, Copy, Hash, PartialEq, Eq, Structural)]
pub enum EventPropagation {
    /// The event was handled by the widget & the widget state has changed (cursor moved, text was
    /// entered, etc).
    ///
    /// Further propagation of this event should be stopped.
    Stop,
    /// The event was not handled by the widget. It should be propagated further.
    Continue,
}

impl Default for EventPropagation {
    fn default() -> (r: Self)
        ensures
            r == EventPropagation::Continue,
    {
        EventPropagation::Continue
    }
}

} // verus!
