//! The page that lists the issues one on a line.

pub mod input;

pub use input::IssueListPageInput;

use crate::feat::tui_widget::{InputBoxState, InputBoxView, SelectionState};
use vstd::prelude::*;

verus! {

/// The state of the issue list.
#[derive(Debug)]
pub struct IssueListState {
    pub list: SelectionState,
    pub filter: InputBoxState,
}

impl Default for IssueListState {
    fn default() -> (r: Self)
        ensures
            r.is_initial(),
    {
        IssueListState { list: SelectionState::default(), filter: InputBoxState::default() }
    }
}

impl IssueListState {
    /// Whether this is the list as it starts: nothing selected and an empty
    /// filter without the focus.
    pub open spec fn is_initial(self) -> bool {
        &&& self.list == (SelectionState { selected: None, offset: 0 })
        &&& self.filter@ == (InputBoxView { text: Seq::empty(), cursor: 0, focused: false })
    }

    /// Moves the cursor one item up, or to the first item where none is
    /// selected.
    pub fn select_previous_list_item(&mut self)
        ensures
            *final(self) == (IssueListState {
                list: old(self).list.with_selected(Some(old(self).list.moved_up(1))),
                ..*old(self)
            }),
    {
        if let Some(current) = self.list.selected() {
            let index = current.saturating_sub(1);
            self.select_list_item(index);
        } else {
            self.select_list_item(0);
        }
    }

    /// Moves the cursor one item down, or to the first item where none is
    /// selected.
    pub fn select_next_list_item(&mut self)
        ensures
            *final(self) == (IssueListState {
                list: old(self).list.with_selected(Some(old(self).list.moved_down(1))),
                ..*old(self)
            }),
    {
        if let Some(current) = self.list.selected() {
            let index = current.saturating_add(1);
            self.select_list_item(index);
        } else {
            self.select_list_item(0);
        }
    }

    /// Moves the cursor to an item.
    pub fn select_list_item(&mut self, index: usize)
        ensures
            *final(self) == (IssueListState {
                list: old(self).list.with_selected(Some(index)),
                ..*old(self)
            }),
    {
        self.list.select(Some(index));
    }

    pub fn filter(&self) -> (r: &InputBoxState)
        ensures
            *r == self.filter,
    {
        &self.filter
    }

    pub fn filter_mut(&mut self) -> (r: &mut InputBoxState)
        ensures
            *r == old(self).filter,
            *final(self) == (IssueListState { filter: *final(r), ..*old(self) }),
    {
        &mut self.filter
    }
}

} // verus!
