//! Which row of a list or a table is selected.

use vstd::prelude::*;

verus! {

/// The selected row of a list or table, and the first row that is shown.
#[derive(Debug, Clone, Copy, Hash, PartialEq, Eq, Structural)]
pub struct SelectionState {
    pub selected: Option<usize>,
    pub offset: usize,
}

impl Default for SelectionState {
    fn default() -> (r: Self)
        ensures
            r == (SelectionState { selected: None, offset: 0 }),
    {
        SelectionState { selected: None, offset: 0 }
    }
}

impl SelectionState {
    /// The state after a row was selected or the selection was dropped.
    /// Without a selection the view goes back to the first row.
    pub open spec fn with_selected(self, index: Option<usize>) -> SelectionState {
        SelectionState {
            selected: index,
            offset: if index is None {
                0
            } else {
                self.offset
            },
        }
    }

    /// The selection after it was held to a number of rows: a selection
    /// behind the last row moves to the last row, and is dropped where
    /// there is no row.
    pub open spec fn clamped(self, rows: usize) -> SelectionState {
        match self.selected {
            Some(index) => if index >= rows {
                self.with_selected(
                    if rows == 0 {
                        None
                    } else {
                        Some((rows - 1) as usize)
                    },
                )
            } else {
                self
            },
            None => self,
        }
    }

    /// The row that the cursor moves to by a number of rows down: the first
    /// row where nothing is selected and `from_first` is not set.
    pub open spec fn moved_down(self, amount: usize) -> usize {
        match self.selected {
            Some(index) => if index + amount > usize::MAX {
                usize::MAX
            } else {
                (index + amount) as usize
            },
            None => 0,
        }
    }

    /// The row that the cursor moves to by a number of rows up.
    pub open spec fn moved_up(self, amount: usize) -> usize {
        match self.selected {
            Some(index) => if index >= amount {
                (index - amount) as usize
            } else {
                0
            },
            None => 0,
        }
    }

    /// The selected row.
    pub fn selected(&self) -> (r: Option<usize>)
        ensures
            r == self.selected,
    {
        self.selected
    }

    /// Selects a row, or drops the selection.
    pub fn select(&mut self, index: Option<usize>)
        ensures
            *final(self) == old(self).with_selected(index),
    {
        self.selected = index;
        if index.is_none() {
            self.offset = 0;
        }
    }

    /// Holds the selection to a number of rows.
    pub fn clamp(&mut self, rows: usize)
        ensures
            *final(self) == old(self).clamped(rows),
    {
        if let Some(selected) = self.selected {
            if selected >= rows {
                self.select(
                    if rows == 0 {
                        None
                    } else {
                        Some(rows - 1)
                    },
                );
            }
        }
    }
}

} // verus!
