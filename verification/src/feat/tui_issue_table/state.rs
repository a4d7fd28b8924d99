//! What the issue table remembers between two frames.

use crate::feat::issue::IssueId;
use crate::feat::tui_issue_table::column::{Column, ColumnView, SortDirection};
use crate::feat::tui_widget::{InputBoxState, InputBoxView, SelectionState};
use crate::text::{join_lines, joined, lines, lines_of, lowercase, texts_of, trim, trimmed};
use std::collections::HashMap;
use vstd::prelude::*;
use vstd::string::{StrSliceExecFns, StringExecFns};

verus! {

/// The state of the issue table.
#[derive(Debug)]
pub struct IssueTableState {
    pub table: SelectionState,
    pub filter_input: InputBoxState,
    pub sort_by: Column,
    pub sort_direction: SortDirection,
    pub columns: Vec<Column>,
    pub show_help: bool,
    pub display_map: HashMap<usize, IssueId>,
}

/// The columns of a list, each as its view.
pub open spec fn column_views(columns: Seq<Column>) -> Seq<ColumnView> {
    columns.map_values(|c: Column| c@)
}

/// The columns that every issue has, in the order in which they are offered.
pub open spec fn known_columns() -> Seq<ColumnView> {
    seq![
        ColumnView::Id,
        ColumnView::Title,
        ColumnView::Created,
        ColumnView::Status,
        ColumnView::Priority,
        ColumnView::CreatedBy,
    ]
}

/// The first place of a column in a list, or the length of the list where
/// the column is not in it.
pub open spec fn first_place(columns: Seq<ColumnView>, column: ColumnView) -> int
    decreases columns.len(),
{
    if columns.len() == 0 || columns[0] == column {
        0
    } else {
        1 + first_place(columns.drop_first(), column)
    }
}

/// The lines that offer the known columns which a list lacks, each behind
/// a `# `.
pub open spec fn missing_lines(columns: Seq<ColumnView>, known: Seq<ColumnView>) -> Seq<
    Seq<char>,
>
    decreases known.len(),
{
    if known.len() == 0 {
        Seq::empty()
    } else {
        let before = missing_lines(columns, known.drop_last());
        if columns.contains(known.last()) {
            before
        } else {
            before.push("# "@ + known.last().name())
        }
    }
}

/// The headings of a list of columns.
pub open spec fn column_names(columns: Seq<ColumnView>) -> Seq<Seq<char>> {
    Seq::new(columns.len(), |i: int| columns[i].name())
}

/// The lines that are shown for editing the columns: the columns of the
/// table in their order, then the known columns that the table lacks.
pub open spec fn editing_lines(columns: Seq<ColumnView>) -> Seq<Seq<char>> {
    column_names(columns) + missing_lines(columns, known_columns())
}

/// The columns that edited lines name: a line that is blank or starts with
/// `#` names none.
pub open spec fn edited_columns(lines: Seq<Seq<char>>) -> Seq<ColumnView>
    decreases lines.len(),
{
    if lines.len() == 0 {
        Seq::empty()
    } else {
        let before = edited_columns(lines.drop_last());
        let line = trimmed(lines.last());
        if line.len() == 0 || line[0] == '#' {
            before
        } else {
            before.push(ColumnView::named(lowercase(line), line))
        }
    }
}

impl Default for IssueTableState {
    fn default() -> (r: Self)
        ensures
            r.is_initial(),
    {
        let mut filter_input = InputBoxState::default();
        filter_input.set_text("!closed ");
        proof {
            reveal_strlit("!closed ");
        }
        let mut columns: Vec<Column> = Vec::new();
        columns.push(Column::Id);
        columns.push(Column::Title);
        columns.push(Column::Created);
        columns.push(Column::Status);
        columns.push(Column::Priority);
        columns.push(Column::CreatedBy);
        assert(column_views(columns@) =~= known_columns());
        IssueTableState {
            table: SelectionState::default(),
            filter_input,
            sort_by: Column::Created,
            sort_direction: SortDirection::Descending,
            columns,
            show_help: false,
            display_map: HashMap::new(),
        }
    }
}

impl IssueTableState {
    /// Whether this is the table as it starts: nothing selected, the filter
    /// `!closed ` with the cursor behind it, sorted by creation with the
    /// newest first, the known columns shown, the help hidden and no row
    /// noted.
    pub open spec fn is_initial(self) -> bool {
        &&& self.table == (SelectionState { selected: None, offset: 0 })
        &&& self.filter_input@ == (InputBoxView { text: "!closed "@, cursor: 8, focused: false })
        &&& self.sort_by == Column::Created
        &&& self.sort_direction == SortDirection::Descending
        &&& column_views(self.columns@) == known_columns()
        &&& !self.show_help
        &&& self.display_map@ == Map::<usize, IssueId>::empty()
    }

    /// The column behind the sort column, the first one behind the last.
    /// The sort stays where the table does not hold its column.
    pub open spec fn next_sort(self) -> ColumnView {
        let columns = column_views(self.columns@);
        let at = first_place(columns, self.sort_by@);
        if at < columns.len() {
            columns[if at + 1 == columns.len() {
                0
            } else {
                at + 1
            }]
        } else {
            self.sort_by@
        }
    }

    /// The column before the sort column, the last one before the first.
    /// The sort stays where the table does not hold its column.
    pub open spec fn previous_sort(self) -> ColumnView {
        let columns = column_views(self.columns@);
        let at = first_place(columns, self.sort_by@);
        if at < columns.len() {
            columns[if at == 0 {
                columns.len() - 1
            } else {
                at - 1
            }]
        } else {
            self.sort_by@
        }
    }

    /// The place of the sort column among the columns of the table.
    pub fn sort_position(&self) -> (r: Option<usize>)
        ensures
            match r {
                Some(at) => at < self.columns@.len() && at == first_place(
                    column_views(self.columns@),
                    self.sort_by@,
                ),
                None => first_place(column_views(self.columns@), self.sort_by@)
                    == self.columns@.len(),
            },
    {
        let ghost views = column_views(self.columns@);
        let mut i: usize = 0;
        assert(views.subrange(0, views.len() as int) =~= views);
        while i < self.columns.len()
            invariant
                i <= self.columns.len(),
                views == column_views(self.columns@),
                views.len() == self.columns@.len(),
                first_place(views, self.sort_by@) == i + first_place(
                    views.subrange(i as int, views.len() as int),
                    self.sort_by@,
                ),
            decreases self.columns.len() - i,
        {
            let ghost rest = views.subrange(i as int, views.len() as int);
            assert(rest[0] == self.columns@[i as int]@);
            if self.columns[i].same_as(&self.sort_by) {
                return Some(i);
            }
            assert(rest.drop_first() =~= views.subrange(i + 1, views.len() as int));
            i += 1;
        }
        None
    }

    /// Returns the index of the currently selected items.
    ///
    /// # Notes
    ///
    /// Currently only 1 selection is supported. A `Vec` is returned here so that adding
    /// multi-select doesn't cause breaking changes.
    pub fn selected(&self) -> (r: Vec<usize>)
        ensures
            r@ == match self.table.selected {
                Some(index) => seq![index],
                None => Seq::<usize>::empty(),
            },
    {
        let mut out: Vec<usize> = Vec::new();
        if let Some(selected) = self.table.selected() {
            out.push(selected);
        }
        assert(self.table.selected is None ==> out@ =~= Seq::<usize>::empty());
        assert(self.table.selected matches Some(index) ==> out@ =~= seq![index]);
        out
    }

    /// Sorts by the column behind the present sort column.
    pub fn sort_next_column(&mut self)
        ensures
            final(self).sort_by@ == old(self).next_sort(),
            *final(self) == (IssueTableState { sort_by: final(self).sort_by, ..*old(self) }),
    {
        if let Some(i) = self.sort_position() {
            let len = self.columns.len();
            let next_i = if i + 1 == len {
                0
            } else {
                i + 1
            };
            self.sort_by = self.columns[next_i].clone();
        }
    }

    /// Sorts by the column before the present sort column.
    pub fn sort_previous_column(&mut self)
        ensures
            final(self).sort_by@ == old(self).previous_sort(),
            *final(self) == (IssueTableState { sort_by: final(self).sort_by, ..*old(self) }),
    {
        if let Some(i) = self.sort_position() {
            let prev_i = if i == 0 {
                self.columns.len() - 1
            } else {
                i - 1
            };
            self.sort_by = self.columns[prev_i].clone();
        }
    }

    /// Moves the cursor one row up, or to the first row where none is
    /// selected.
    pub fn cursor_previous(&mut self)
        ensures
            *final(self) == (IssueTableState {
                table: old(self).table.with_selected(Some(old(self).table.moved_up(1))),
                ..*old(self)
            }),
    {
        if let Some(current) = self.table.selected() {
            let index = current.saturating_sub(1);
            self.cursor_to_item(index);
        } else {
            self.cursor_to_item(0);
        }
    }

    /// Moves the cursor one row down, or to the first row where none is
    /// selected.
    pub fn cursor_next(&mut self)
        ensures
            *final(self) == (IssueTableState {
                table: old(self).table.with_selected(Some(old(self).table.moved_down(1))),
                ..*old(self)
            }),
    {
        if let Some(current) = self.table.selected() {
            let index = current.saturating_add(1);
            self.cursor_to_item(index);
        } else {
            self.cursor_to_item(0);
        }
    }

    /// Moves the cursor to a row.
    pub fn cursor_to_item(&mut self, index: usize)
        ensures
            *final(self) == (IssueTableState {
                table: old(self).table.with_selected(Some(index)),
                ..*old(self)
            }),
    {
        self.table.select(Some(index));
    }

    pub fn filter_input_state(&self) -> (r: &InputBoxState)
        ensures
            *r == self.filter_input,
    {
        &self.filter_input
    }

    pub fn filter_input_state_mut(&mut self) -> (r: &mut InputBoxState)
        ensures
            *r == old(self).filter_input,
            *final(self) == (IssueTableState { filter_input: *final(r), ..*old(self) }),
    {
        &mut self.filter_input
    }

    pub fn columns(&self) -> (r: &[Column])
        ensures
            r@ == self.columns@,
    {
        self.columns.as_slice()
    }

    pub fn set_columns(&mut self, columns: Vec<Column>)
        ensures
            *final(self) == (IssueTableState { columns, ..*old(self) }),
    {
        self.columns = columns;
    }

    pub fn columns_mut(&mut self) -> (r: &mut Vec<Column>)
        ensures
            *r == old(self).columns,
            *final(self) == (IssueTableState { columns: *final(r), ..*old(self) }),
    {
        &mut self.columns
    }

    pub fn sort_direction(&self) -> (r: &SortDirection)
        ensures
            *r == self.sort_direction,
    {
        &self.sort_direction
    }

    pub fn sort_by(&self) -> (r: &Column)
        ensures
            *r == self.sort_by,
    {
        &self.sort_by
    }

    pub fn set_sort_by(&mut self, sort_by: Column)
        ensures
            *final(self) == (IssueTableState { sort_by, ..*old(self) }),
    {
        self.sort_by = sort_by;
    }

    pub fn set_sort_direction(&mut self, sort_direction: SortDirection)
        ensures
            *final(self) == (IssueTableState { sort_direction, ..*old(self) }),
    {
        self.sort_direction = sort_direction;
    }

    /// Whether a list of columns holds a column.
    pub fn holds_column(columns: &[Column], column: &Column) -> (r: bool)
        ensures
            r == column_views(columns@).contains(column@),
    {
        let ghost views = column_views(columns@);
        let mut i: usize = 0;
        while i < columns.len()
            invariant
                i <= columns.len(),
                views == column_views(columns@),
                forall|j: int| 0 <= j < i ==> #[trigger] views[j] != column@,
            decreases columns.len() - i,
        {
            if columns[i].same_as(column) {
                assert(views[i as int] == column@);
                return true;
            }
            i += 1;
        }
        false
    }

    /// The text that is handed to the editor for choosing the columns: the
    /// columns of the table, one on a line, then the known columns that the
    /// table lacks, each behind a `# `.
    pub fn available_columns_for_editing(columns: &[Column]) -> (r: String)
        ensures
            r@ == joined(editing_lines(column_views(columns@))),
    {
        let ghost views = column_views(columns@);
        let mut known: Vec<Column> = Vec::new();
        known.push(Column::Id);
        known.push(Column::Title);
        known.push(Column::Created);
        known.push(Column::Status);
        known.push(Column::Priority);
        known.push(Column::CreatedBy);
        assert(column_views(known@) =~= known_columns());
        let mut lines: Vec<String> = Vec::new();
        let mut i: usize = 0;
        let ghost shown = column_names(views);
        while i < columns.len()
            invariant
                i <= columns.len(),
                views == column_views(columns@),
                shown == column_names(views),
                texts_of(lines@) == shown.take(i as int),
            decreases columns.len() - i,
        {
            let ghost before = texts_of(lines@);
            let name = columns[i].to_string();
            assert(name@ == shown[i as int]);
            lines.push(name);
            assert(texts_of(lines@) =~= before.push(name@));
            assert(before.push(name@) =~= shown.take(i + 1));
            i += 1;
        }
        assert(shown.take(columns@.len() as int) =~= shown);
        let mut k: usize = 0;
        while k < known.len()
            invariant
                k <= known.len(),
                views == column_views(columns@),
                column_views(known@) == known_columns(),
                texts_of(lines@) == shown + missing_lines(views, known_columns().take(k as int)),
            decreases known.len() - k,
        {
            proof {
                let next = known_columns().take(k + 1);
                assert(next.drop_last() =~= known_columns().take(k as int));
                assert(next.last() == known@[k as int]@);
            }
            if !Self::holds_column(columns, &known[k]) {
                let ghost before = texts_of(lines@);
                let mut line = "# ".to_owned();
                line.append(known[k].to_string().as_str());
                lines.push(line);
                assert(texts_of(lines@) =~= before.push(line@));
                assert(before.push(line@) =~= shown + missing_lines(
                    views,
                    known_columns().take(k + 1),
                ));
            }
            k += 1;
        }
        assert(known_columns().take(known@.len() as int) =~= known_columns());
        join_lines(&lines)
    }

    /// The columns that an edited text names, one on a line. A line that is
    /// blank or starts with `#` names none.
    pub fn columns_from_edited(input: &str) -> (r: Vec<Column>)
        ensures
            column_views(r@) == edited_columns(lines_of(trimmed(input@))),
    {
        let input = trim(input);
        let all = lines(input.as_str());
        let ghost texts = lines_of(input@);
        let mut out: Vec<Column> = Vec::new();
        let mut i: usize = 0;
        while i < all.len()
            invariant
                i <= all.len(),
                texts.len() == all@.len(),
                forall|j: int| 0 <= j < all@.len() ==> (#[trigger] all@[j])@ == texts[j],
                column_views(out@) == edited_columns(texts.take(i as int)),
            decreases all.len() - i,
        {
            let line = trim(all[i].as_str());
            proof {
                let next = texts.take(i + 1);
                assert(next.drop_last() =~= texts.take(i as int));
                assert(next.last() == texts[i as int]);
            }
            if !line.as_str().is_empty() && line.as_str().get_char(0) != '#' {
                let column = match Column::from_str(line.as_str()) {
                    Ok(column) => column,
                    Err(_) => Column::Custom(line),
                };
                out.push(column);
                assert(column_views(out@) =~= edited_columns(texts.take(i + 1)));
            }
            i += 1;
        }
        assert(texts.take(all@.len() as int) =~= texts);
        out
    }
}

} // verus!
