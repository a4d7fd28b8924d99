//! What the thread of an issue remembers between two frames.

use crate::feat::issue::IssueId;
use crate::feat::tui_widget::SelectionState;
use vstd::prelude::*;

verus! {

/// The state of the page that shows one issue with its comments.
#[derive(Debug, Clone, Copy, PartialEq, Eq, Structural)]
pub struct IssueThreadState {
    pub list_state: SelectionState,
    pub issue_id: IssueId,
    pub show_help: bool,
}

impl Default for IssueThreadState {
    fn default() -> (r: Self)
        ensures
            r == (IssueThreadState {
                list_state: SelectionState { selected: None, offset: 0 },
                issue_id: 0,
                show_help: false,
            }),
    {
        IssueThreadState {
            list_state: SelectionState { selected: None, offset: 0 },
            issue_id: 0,
            show_help: false,
        }
    }
}

impl IssueThreadState {
    /// The selected line, counted as the first line where none is selected.
    pub open spec fn current(self) -> usize {
        match self.list_state.selected {
            Some(index) => index,
            None => 0,
        }
    }

    /// The state with the cursor on a line.
    pub open spec fn with_cursor(self, index: int) -> IssueThreadState {
        IssueThreadState {
            list_state: self.list_state.with_selected(
                Some(
                    if index < 0 {
                        0usize
                    } else if index > usize::MAX {
                        usize::MAX
                    } else {
                        index as usize
                    },
                ),
            ),
            ..self
        }
    }

    pub fn selected(&self) -> (r: Option<usize>)
        ensures
            r == self.list_state.selected,
    {
        self.list_state.selected
    }

    /// Moves the cursor a number of lines down, as far as lines can be
    /// counted.
    pub fn cursor_add(&mut self, amount: usize)
        ensures
            *final(self) == old(self).with_cursor(old(self).current() + amount),
    {
        let current = self.list_state.selected.unwrap_or(0);
        let next = current.saturating_add(amount);
        self.list_state.select(Some(next));
    }

    /// Moves the cursor a number of lines up, as far as the first line.
    pub fn cursor_sub(&mut self, amount: usize)
        ensures
            *final(self) == old(self).with_cursor(old(self).current() - amount),
    {
        let current = self.list_state.selected.unwrap_or(0);
        let next = current.saturating_sub(amount);
        self.list_state.select(Some(next));
    }

    /// Moves the cursor one line down.
    pub fn cursor_next(&mut self)
        ensures
            *final(self) == old(self).with_cursor(old(self).current() + 1),
    {
        let current = self.list_state.selected.unwrap_or(0);
        let next = current.saturating_add(1);
        self.list_state.select(Some(next));
    }

    /// Moves the cursor one line up.
    pub fn cursor_previous(&mut self)
        ensures
            *final(self) == old(self).with_cursor(old(self).current() - 1),
    {
        let current = self.list_state.selected.unwrap_or(0);
        let prev = current.saturating_sub(1);
        self.list_state.select(Some(prev));
    }

    /// Shows another issue, from its first line.
    pub fn set_issue_id(&mut self, issue_id: IssueId)
        ensures
            *final(self) == (IssueThreadState { issue_id, ..old(self).with_cursor(0) }),
    {
        self.issue_id = issue_id;
        self.list_state.select(Some(0));
    }

    /// Shows the help where it is hidden, and hides it where it is shown.
    pub fn toggle_help(&mut self)
        ensures
            *final(self) == (IssueThreadState { show_help: !old(self).show_help, ..*old(self) }),
    {
        self.show_help = !self.show_help;
    }
}

} // verus!
