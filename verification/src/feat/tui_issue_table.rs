//! The page that lists the issues in a table.

pub mod column;
pub mod draw;
pub mod input;
pub mod state;

pub use column::{Column, ColumnParseError, SortDirection};
pub use draw::{apply_issue_filter, apply_issue_sort, ColumnWidth, IssueFilter};
pub use input::{IssueTablePageInput, IssueTablePageInputError, TableKey};
pub use state::IssueTableState;
