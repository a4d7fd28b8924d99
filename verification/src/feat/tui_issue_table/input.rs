//! What the keys do on the page of the issue table.

use crate::app::{App, EventHandlerError};
use crate::feat::external_editor::{ExternalEditorCallback, ExternalEditorEntry};
use crate::feat::issue::Issue;
use crate::feat::issues::IssueEvent;
use crate::feat::tui::{
    Event, EventExt, EventPropagation, Focus, KeyCode, KeyModifiers, Page, TuiState,
};
use crate::feat::tui_issue_table::state::{column_views, editing_lines, IssueTableState};
use crate::feat::tui_issue_table::SortDirection;
use crate::feat::tui_issue_thread::IssueThreadState;
use crate::feat::tui_widget::InputBoxView;
use crate::text::joined;
use vstd::prelude::*;

verus! {

broadcast use vstd::std_specs::hash::group_hash_axioms;

/// Error type for issue table page input handling operations. The page
/// hands none out: a key that cannot be served is stopped and noted in the
/// application.
#[derive(Debug, Clone, Copy, PartialEq, Eq)]
pub struct IssueTablePageInputError;

/// What a key asks of the issue table.
#[derive(Debug, Clone, Copy, PartialEq, Eq, Structural)]
pub enum TableKey {
    EditColumns,
    NewIssue,
    SortDescending,
    SortAscending,
    SortNextColumn,
    SortPreviousColumn,
    ToggleHelp,
    ToggleStatus,
    CursorNext,
    CursorPrevious,
    ViewThread,
    FocusFilter,
}

/// What an event asks of the issue table while the table has the focus.
///
/// Only the press of a key asks anything. `c` edits the columns and `n`
/// writes a new issue, whatever is held with them. With shift held, down
/// and `j` sort descending, up and `k` ascending, right and `l` by the next
/// column, left and `h` by the previous one. Else `?` shows the help, `s`
/// toggles the status, down and `j` move the cursor down, up and `k` move
/// it up, enter opens the thread and `/` goes to the filter.
pub open spec fn table_key(event: Event) -> Option<TableKey> {
    match event.pressed_key() {
        None => None,
        Some(key) => {
            let code = key.code;
            let shift = key.modifiers.shift;
            if code == KeyCode::Char('c') {
                Some(TableKey::EditColumns)
            } else if code == KeyCode::Char('n') {
                Some(TableKey::NewIssue)
            } else if shift && (code == KeyCode::Down || code == KeyCode::Char('J') || code
                == KeyCode::Char('j')) {
                Some(TableKey::SortDescending)
            } else if shift && (code == KeyCode::Up || code == KeyCode::Char('K') || code
                == KeyCode::Char('k')) {
                Some(TableKey::SortAscending)
            } else if shift && (code == KeyCode::Right || code == KeyCode::Char('L') || code
                == KeyCode::Char('l')) {
                Some(TableKey::SortNextColumn)
            } else if shift && (code == KeyCode::Left || code == KeyCode::Char('H') || code
                == KeyCode::Char('h')) {
                Some(TableKey::SortPreviousColumn)
            } else if code == KeyCode::Char('?') {
                Some(TableKey::ToggleHelp)
            } else if code == KeyCode::Char('s') {
                Some(TableKey::ToggleStatus)
            } else if code == KeyCode::Down || code == KeyCode::Char('j') {
                Some(TableKey::CursorNext)
            } else if code == KeyCode::Up || code == KeyCode::Char('k') {
                Some(TableKey::CursorPrevious)
            } else if code == KeyCode::Enter {
                Some(TableKey::ViewThread)
            } else if code == KeyCode::Char('/') {
                Some(TableKey::FocusFilter)
            } else {
                None
            }
        },
    }
}

/// What an event asks of the issue table while the table has the focus.
pub fn read_table_key(event: &Event) -> (r: Option<TableKey>)
    ensures
        r == table_key(*event),
{
    if let (Some(key), Some(mods)) = (event.keypress(), event.modifiers()) {
        let shift = mods.contains(KeyModifiers::shift());
        match key {
            KeyCode::Char('c') => Some(TableKey::EditColumns),
            KeyCode::Char('n') => Some(TableKey::NewIssue),
            KeyCode::Down | KeyCode::Char('j') => if shift {
                Some(TableKey::SortDescending)
            } else {
                Some(TableKey::CursorNext)
            },
            KeyCode::Up | KeyCode::Char('k') => if shift {
                Some(TableKey::SortAscending)
            } else {
                Some(TableKey::CursorPrevious)
            },
            KeyCode::Char('J') => if shift {
                Some(TableKey::SortDescending)
            } else {
                None
            },
            KeyCode::Char('K') => if shift {
                Some(TableKey::SortAscending)
            } else {
                None
            },
            KeyCode::Right | KeyCode::Char('L') | KeyCode::Char('l') => if shift {
                Some(TableKey::SortNextColumn)
            } else {
                None
            },
            KeyCode::Left | KeyCode::Char('H') | KeyCode::Char('h') => if shift {
                Some(TableKey::SortPreviousColumn)
            } else {
                None
            },
            KeyCode::Char('?') => Some(TableKey::ToggleHelp),
            KeyCode::Char('s') => Some(TableKey::ToggleStatus),
            KeyCode::Enter => Some(TableKey::ViewThread),
            KeyCode::Char('/') => Some(TableKey::FocusFilter),
            _ => None,
        }
    } else {
        None
    }
}

/// The application with another state of the issue table.
pub open spec fn with_table(app: App, table: IssueTableState) -> App {
    App { tuistate: TuiState { issue_table: table, ..app.tuistate }, ..app }
}

/// Whether an entry asks the editor for a text, with no file extension,
/// for a callback.
pub open spec fn asks_editor(
    entry: Option<ExternalEditorEntry>,
    data: Seq<char>,
    callback: ExternalEditorCallback,
) -> bool {
    entry matches Some(e) && e.data@ == data && e.file_extension@ == Seq::<char>::empty()
        && e.callback == callback
}

/// Whether `post` is what a key makes of `pre` while the table has the
/// focus, with `r` as the outcome.
///
/// Every key stops the event. A request to the editor takes the place of
/// one that waited. A change of status is left in the outbox for the
/// issue that the selected row shows. Where that row shows no issue of the
/// store, nothing is left in the outbox: the failure is noted in
/// `last_error` for the loop to report, and nothing else changes. The
/// thread is opened for the issue of the selected row, if there is one.
pub open spec fn table_key_handled(
    pre: App,
    key: TableKey,
    post: App,
    r: Result<EventPropagation, IssueTablePageInputError>,
) -> bool {
    let table = pre.tuistate.issue_table;
    let stopped = r == Ok::<EventPropagation, IssueTablePageInputError>(EventPropagation::Stop);
    match key {
        TableKey::EditColumns => {
            &&& stopped
            &&& post == (App { external_editor: post.external_editor, ..pre })
            &&& asks_editor(
                post.external_editor.entry,
                joined(editing_lines(column_views(table.columns@))),
                ExternalEditorCallback::SetColumns,
            )
        },
        TableKey::NewIssue => {
            &&& stopped
            &&& post == (App { external_editor: post.external_editor, ..pre })
            &&& asks_editor(
                post.external_editor.entry,
                Issue::template_text(),
                ExternalEditorCallback::CreateIssue,
            )
        },
        TableKey::SortDescending => {
            &&& stopped
            &&& post == with_table(
                pre,
                IssueTableState { sort_direction: SortDirection::Descending, ..table },
            )
        },
        TableKey::SortAscending => {
            &&& stopped
            &&& post == with_table(
                pre,
                IssueTableState { sort_direction: SortDirection::Ascending, ..table },
            )
        },
        TableKey::SortNextColumn => {
            &&& stopped
            &&& post.tuistate.issue_table.sort_by@ == table.next_sort()
            &&& post == with_table(
                pre,
                IssueTableState { sort_by: post.tuistate.issue_table.sort_by, ..table },
            )
        },
        TableKey::SortPreviousColumn => {
            &&& stopped
            &&& post.tuistate.issue_table.sort_by@ == table.previous_sort()
            &&& post == with_table(
                pre,
                IssueTableState { sort_by: post.tuistate.issue_table.sort_by, ..table },
            )
        },
        TableKey::ToggleHelp => {
            &&& stopped
            &&& post == with_table(pre, IssueTableState { show_help: !table.show_help, ..table })
        },
        TableKey::ToggleStatus => match table.table.selected {
            None => stopped && post == pre,
            Some(index) => if table.display_map@.contains_key(index)
                && pre.issues@.issues.contains_key(table.display_map@[index]) {
                let issue = pre.issues@.issues[table.display_map@[index]];
                &&& stopped
                &&& post == (App { outbox: post.outbox, ..pre })
                &&& post.outbox@ == pre.outbox@.push(
                    IssueEvent::StatusChanged {
                        issue_id: issue.id,
                        status: issue.status.inverted(),
                    },
                )
            } else {
                stopped && post == (App { last_error: Some(EventHandlerError), ..pre })
            },
        },
        TableKey::CursorNext => {
            &&& stopped
            &&& post == with_table(
                pre,
                IssueTableState {
                    table: table.table.with_selected(Some(table.table.moved_down(1))),
                    ..table
                },
            )
        },
        TableKey::CursorPrevious => {
            &&& stopped
            &&& post == with_table(
                pre,
                IssueTableState {
                    table: table.table.with_selected(Some(table.table.moved_up(1))),
                    ..table
                },
            )
        },
        TableKey::ViewThread => {
            &&& stopped
            &&& match table.table.selected {
                Some(index) => if table.display_map@.contains_key(index) {
                    post == (App {
                        tuistate: TuiState {
                            page: Page::IssueThread,
                            focus: Focus::IssueThread,
                            issue_thread: IssueThreadState {
                                issue_id: table.display_map@[index],
                                ..pre.tuistate.issue_thread.with_cursor(0)
                            },
                            ..pre.tuistate
                        },
                        ..pre
                    })
                } else {
                    post == pre
                },
                None => post == pre,
            }
        },
        TableKey::FocusFilter => {
            &&& stopped
            &&& post.tuistate.issue_table.filter_input@ == (InputBoxView {
                focused: true,
                ..table.filter_input@
            })
            &&& post == (App {
                tuistate: TuiState {
                    focus: Focus::IssueTableFilter,
                    issue_table: IssueTableState {
                        filter_input: post.tuistate.issue_table.filter_input,
                        ..table
                    },
                    ..pre.tuistate
                },
                ..pre
            })
        },
    }
}

/// Whether `post` is what an event makes of `pre` while the filter of the
/// table has the focus.
///
/// The press of escape or enter gives the focus back to the table and stops
/// the event. Every other event goes to the input box of the filter, which
/// says whether it took it.
pub open spec fn table_filter_handled(
    pre: App,
    event: Event,
    post: App,
    r: Result<EventPropagation, IssueTablePageInputError>,
) -> bool {
    let table = pre.tuistate.issue_table;
    let leaves = event.pressed_code() == Some(KeyCode::Esc) || event.pressed_code() == Some(
        KeyCode::Enter,
    );
    &&& post == (App {
        tuistate: TuiState {
            focus: if leaves {
                Focus::IssueTable
            } else {
                pre.tuistate.focus
            },
            issue_table: IssueTableState {
                filter_input: post.tuistate.issue_table.filter_input,
                ..table
            },
            ..pre.tuistate
        },
        ..pre
    })
    &&& if leaves {
        &&& post.tuistate.issue_table.filter_input@ == (InputBoxView {
            focused: false,
            ..table.filter_input@
        })
        &&& r == Ok::<EventPropagation, IssueTablePageInputError>(EventPropagation::Stop)
    } else {
        &&& post.tuistate.issue_table.filter_input@ == table.filter_input@.after_input(event)
        &&& r == Ok::<EventPropagation, IssueTablePageInputError>(
            if InputBoxView::consumes(event) {
                EventPropagation::Stop
            } else {
                EventPropagation::Continue
            },
        )
    }
}

/// Whether `post` is what an event makes of `pre` on the page of the issue
/// table.
///
/// The widget that has the focus decides. Under a focus that is none of
/// this page the table takes the focus and the event is stopped. With the
/// table in focus, an event that asks nothing of it changes nothing and is
/// passed on.
pub open spec fn table_page_handled(
    pre: App,
    event: Event,
    post: App,
    r: Result<EventPropagation, IssueTablePageInputError>,
) -> bool {
    match pre.tuistate.focus {
        Focus::IssueTable => match table_key(event) {
            Some(key) => table_key_handled(pre, key, post, r),
            None => post == pre && r == Ok::<EventPropagation, IssueTablePageInputError>(
                EventPropagation::Continue,
            ),
        },
        Focus::IssueTableFilter => table_filter_handled(pre, event, post, r),
        _ => {
            &&& post == (App { tuistate: pre.tuistate.with_focus(Focus::IssueTable), ..pre })
            &&& r == Ok::<EventPropagation, IssueTablePageInputError>(EventPropagation::Stop)
        },
    }
}

/// Handles keyboard input events for the issue table interface.
pub trait IssueTablePageInput: Sized {
    /// Whether `post` and `r` are what an event makes of `pre`.
    spec fn table_input(
        pre: Self,
        event: Event,
        post: Self,
        r: Result<EventPropagation, IssueTablePageInputError>,
    ) -> bool;

    /// Processes an input event for the issue table and says whether the
    /// event should continue propagating to other handlers.
    fn handle(&mut self, event: &Event) -> (r: Result<
        EventPropagation,
        IssueTablePageInputError,
    >)
        ensures
            Self::table_input(*old(self), *event, *final(self), r),
    ;
}

impl App {
    /// Does what a key asks of the issue table.
    pub fn handle_table_key(&mut self, key: TableKey) -> (r: Result<
        EventPropagation,
        IssueTablePageInputError,
    >)
        ensures
            table_key_handled(*old(self), key, *final(self), r),
    {
        match key {
            TableKey::EditColumns => {
                let columns = IssueTableState::available_columns_for_editing(
                    self.tuistate.issue_table.columns.as_slice(),
                );
                self.external_editor.edit(
                    columns,
                    String::new(),
                    ExternalEditorCallback::SetColumns,
                );
            },
            TableKey::NewIssue => {
                self.external_editor.edit(
                    Issue::new_template().to_owned(),
                    String::new(),
                    ExternalEditorCallback::CreateIssue,
                );
            },
            TableKey::SortDescending => {
                self.tuistate.issue_table.set_sort_direction(SortDirection::Descending);
            },
            TableKey::SortAscending => {
                self.tuistate.issue_table.set_sort_direction(SortDirection::Ascending);
            },
            TableKey::SortNextColumn => {
                self.tuistate.issue_table.sort_next_column();
            },
            TableKey::SortPreviousColumn => {
                self.tuistate.issue_table.sort_previous_column();
            },
            TableKey::ToggleHelp => {
                self.tuistate.issue_table.show_help = !self.tuistate.issue_table.show_help;
            },
            TableKey::ToggleStatus => {
                if let Some(index) = self.tuistate.issue_table.table.selected() {
                    let found = match self.tuistate.issue_table.display_map.get(&index) {
                        Some(issue_id) => match self.issues.get_issue(issue_id) {
                            Some(issue) => Some(
                                IssueEvent::StatusChanged {
                                    issue_id: issue.id,
                                    status: issue.status.invert(),
                                },
                            ),
                            None => None,
                        },
                        None => None,
                    };
                    match found {
                        Some(event) => self.outbox.push(event),
                        None => {
                            self.last_error = Some(EventHandlerError);
                        },
                    }
                }
            },
            TableKey::CursorNext => {
                self.tuistate.issue_table.cursor_next();
            },
            TableKey::CursorPrevious => {
                self.tuistate.issue_table.cursor_previous();
            },
            TableKey::ViewThread => {
                if let Some(index) = self.tuistate.issue_table.table.selected() {
                    let found = match self.tuistate.issue_table.display_map.get(&index) {
                        Some(issue_id) => Some(*issue_id),
                        None => None,
                    };
                    if let Some(issue_id) = found {
                        self.tuistate.issue_thread.set_issue_id(issue_id);
                        self.tuistate.set_page(Page::IssueThread);
                        self.tuistate.set_focus(Focus::IssueThread);
                    }
                }
            },
            TableKey::FocusFilter => {
                self.tuistate.set_focus(Focus::IssueTableFilter);
                self.tuistate.issue_table.filter_input.set_focused(true);
            },
        }
        Ok(EventPropagation::Stop)
    }
}

impl IssueTablePageInput for App {
    open spec fn table_input(
        pre: Self,
        event: Event,
        post: Self,
        r: Result<EventPropagation, IssueTablePageInputError>,
    ) -> bool {
        table_page_handled(pre, event, post, r)
    }

    /// Handles input events for the application's issue table.
    ///
    /// - When focused on the issue table, it handles sorting, navigation, and editing commands
    /// - When focused on the filter input, it delegates events to the filter input handler
    /// - For other focus states, it returns focus to the issue table
    fn handle(&mut self, event: &Event) -> (r: Result<
        EventPropagation,
        IssueTablePageInputError,
    >) {
        match self.tuistate.focus() {
            Focus::IssueTable => match read_table_key(event) {
                Some(key) => self.handle_table_key(key),
                None => Ok(EventPropagation::Continue),
            },
            Focus::IssueTableFilter => {
                if let Some(key) = event.keypress() {
                    match key {
                        KeyCode::Esc | KeyCode::Enter => {
                            self.tuistate.set_focus(Focus::IssueTable);
                            self.tuistate.issue_table.filter_input.set_focused(false);
                            return Ok(EventPropagation::Stop);
                        },
                        _ => (),
                    }
                }
                Ok(self.tuistate.issue_table.filter_input.handle_input(event))
            },
            _ => {
                self.tuistate.set_focus(Focus::IssueTable);
                Ok(EventPropagation::Stop)
            },
        }
    }
}

} // verus!
