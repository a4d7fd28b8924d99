//! The page and the focus of the interface, and the state of each page.

use crate::feat::tui::{Focus, Page};
use crate::feat::tui_issue_list::IssueListState;
use crate::feat::tui_issue_table::IssueTableState;
use crate::feat::tui_issue_thread::IssueThreadState;
use crate::feat::tui_widget::SelectionState;
use vstd::prelude::*;

verus! {

/// State of the TUI.
///
/// Exactly one page and one focus are active at any time. Only the input
/// handlers change them.
#[derive(Debug)]
pub struct TuiState {
    pub page: Page,
    pub focus: Focus,
    pub issue_table: IssueTableState,
    pub issue_thread: IssueThreadState,
    pub issue_list: IssueListState,
}

impl Default for TuiState {
    fn default() -> (r: Self)
        ensures
            r.page == Page::IssueTable,
            r.focus == Focus::IssueTable,
            r.issue_table.is_initial(),
            r.issue_thread == (IssueThreadState {
                list_state: SelectionState { selected: None, offset: 0 },
                issue_id: 0,
                show_help: false,
            }),
            r.issue_list.is_initial(),
    {
        TuiState {
            page: Page::IssueTable,
            focus: Focus::IssueTable,
            issue_table: IssueTableState::default(),
            issue_thread: IssueThreadState::default(),
            issue_list: IssueListState::default(),
        }
    }
}

impl TuiState {
    /// The page that is shown.
    pub open spec fn shown_page(self) -> Page {
        self.page
    }

    /// The widget that has the focus.
    pub open spec fn focused(self) -> Focus {
        self.focus
    }

    /// The state with another focus.
    pub open spec fn with_focus(self, focus: Focus) -> TuiState {
        TuiState { focus, ..self }
    }

    /// The state with another page.
    pub open spec fn with_page(self, page: Page) -> TuiState {
        TuiState { page, ..self }
    }

    /// Returns the current focus.
    pub fn focus(&self) -> (r: Focus)
        ensures
            r == self.focused(),
    {
        self.focus
    }

    /// Set the focus.
    pub fn set_focus(&mut self, focus: Focus)
        ensures
            *final(self) == old(self).with_focus(focus),
    {
        self.focus = focus;
    }

    /// Returns the current page.
    pub fn page(&self) -> (r: Page)
        ensures
            r == self.shown_page(),
    {
        self.page
    }

    /// Set the page.
    pub fn set_page(&mut self, page: Page)
        ensures
            *final(self) == old(self).with_page(page),
    {
        self.page = page;
    }
}

} // verus!
