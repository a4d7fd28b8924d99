//! The features of the tracker, one module each.

pub mod external_editor;
pub mod issue;
pub mod issues;
pub mod tui;
pub mod tui_issue_list;
pub mod tui_issue_table;
pub mod tui_issue_thread;
pub mod tui_widget;
