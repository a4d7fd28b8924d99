//! The columns of the issue table and the direction of its sort.

use crate::text::{lowercase, str_eq, to_lowercase, trim, trimmed};
use vstd::prelude::*;

verus! {

/// The direction in which the table is sorted.
#[derive(Debug, Clone, Copy, Hash, PartialEq, Eq, PartialOrd, Ord, Structural)]
pub enum SortDirection {
    Ascending,
    Descending,
}

impl Default for SortDirection {
    fn default() -> (r: Self)
        ensures
            r == SortDirection::Ascending,
    {
        SortDirection::Ascending
    }
}

/// Kept for callers that expect the reading of a column to fail; it never
/// does.
#[derive(Debug, Clone, Copy, PartialEq, Eq)]
pub struct ColumnParseError;

/// A column of the issue table: one of the fields that every issue has, or a
/// custom field by its key.
#[derive(Debug, Hash, PartialEq, Eq)]
pub enum Column {
    Id,
    Title,
    Created,
    Status,
    Priority,
    CreatedBy,
    Custom(String),
}

/// A column with the key of a custom field as a sequence of characters.
pub enum ColumnView {
    Id,
    Title,
    Created,
    Status,
    Priority,
    CreatedBy,
    Custom(Seq<char>),
}

impl ColumnView {
    /// The heading of the column.
    pub open spec fn name(self) -> Seq<char> {
        match self {
            ColumnView::Id => "ID"@,
            ColumnView::Title => "Title"@,
            ColumnView::Created => "Created"@,
            ColumnView::Status => "Status"@,
            ColumnView::Priority => "Priority"@,
            ColumnView::CreatedBy => "Created By"@,
            ColumnView::Custom(key) => key,
        }
    }

    /// The column that a text names: a known column by its name in
    /// lowercase, and else the custom field whose key is the trimmed text.
    pub open spec fn named(lower: Seq<char>, text: Seq<char>) -> ColumnView {
        if lower == "id"@ {
            ColumnView::Id
        } else if lower == "title"@ {
            ColumnView::Title
        } else if lower == "created"@ {
            ColumnView::Created
        } else if lower == "status"@ {
            ColumnView::Status
        } else if lower == "priority"@ {
            ColumnView::Priority
        } else if lower == "createdby"@ || lower == "created by"@ {
            ColumnView::CreatedBy
        } else {
            ColumnView::Custom(trimmed(text))
        }
    }
}

impl View for Column {
    type V = ColumnView;

    open spec fn view(&self) -> ColumnView {
        match self {
            Column::Id => ColumnView::Id,
            Column::Title => ColumnView::Title,
            Column::Created => ColumnView::Created,
            Column::Status => ColumnView::Status,
            Column::Priority => ColumnView::Priority,
            Column::CreatedBy => ColumnView::CreatedBy,
            Column::Custom(key) => ColumnView::Custom(key@),
        }
    }
}

impl Clone for Column {
    fn clone(&self) -> (r: Self)
        ensures
            r == *self,
    {
        match self {
            Column::Id => Column::Id,
            Column::Title => Column::Title,
            Column::Created => Column::Created,
            Column::Status => Column::Status,
            Column::Priority => Column::Priority,
            Column::CreatedBy => Column::CreatedBy,
            Column::Custom(key) => Column::Custom(key.clone()),
        }
    }
}

impl Column {
    /// Whether two columns are the same.
    pub fn same_as(&self, other: &Column) -> (r: bool)
        ensures
            r == (self@ == other@),
    {
        match (self, other) {
            (Column::Id, Column::Id) => true,
            (Column::Title, Column::Title) => true,
            (Column::Created, Column::Created) => true,
            (Column::Status, Column::Status) => true,
            (Column::Priority, Column::Priority) => true,
            (Column::CreatedBy, Column::CreatedBy) => true,
            (Column::Custom(a), Column::Custom(b)) => str_eq(a.as_str(), b.as_str()),
            _ => false,
        }
    }

    /// The heading of the column.
    pub fn to_string(&self) -> (r: String)
        ensures
            r@ == self@.name(),
    {
        match self {
            Column::Id => "ID".to_owned(),
            Column::Title => "Title".to_owned(),
            Column::Created => "Created".to_owned(),
            Column::Status => "Status".to_owned(),
            Column::Priority => "Priority".to_owned(),
            Column::CreatedBy => "Created By".to_owned(),
            Column::Custom(key) => key.clone(),
        }
    }

    /// The column that a text names, given the text in lowercase too.
    pub fn from_lowercase(lower: &str, text: &str) -> (r: Column)
        ensures
            r@ == ColumnView::named(lower@, text@),
    {
        if str_eq(lower, "id") {
            Column::Id
        } else if str_eq(lower, "title") {
            Column::Title
        } else if str_eq(lower, "created") {
            Column::Created
        } else if str_eq(lower, "status") {
            Column::Status
        } else if str_eq(lower, "priority") {
            Column::Priority
        } else if str_eq(lower, "createdby") || str_eq(lower, "created by") {
            Column::CreatedBy
        } else {
            Column::Custom(trim(text))
        }
    }

    /// The column that a text names. Every text names one.
    pub fn from_str(s: &str) -> (r: Result<Column, ColumnParseError>)
        ensures
            r matches Ok(column) && column@ == ColumnView::named(lowercase(s@), s@),
    {
        let lower = to_lowercase(s);
        Ok(Column::from_lowercase(lower.as_str(), s))
    }
}

} // verus!
