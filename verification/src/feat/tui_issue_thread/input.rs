//! What the keys do on the page of an issue's thread.

use crate::app::App;
use crate::feat::external_editor::ExternalEditorCallback;
use crate::feat::tui::{
    Event, EventExt, EventPropagation, Focus, KeyCode, KeyModifiers, Page, TuiState,
};
use crate::feat::tui_issue_thread::IssueThreadState;
use vstd::prelude::*;

verus! {

/// Error type for issue thread page input handling operations.
#[derive(Debug, Clone, Copy, PartialEq, Eq)]
pub struct IssueThreadPageInputError;

/// What a key asks of the thread page.
#[derive(Debug, Clone, Copy, PartialEq, Eq, Structural)]
pub enum ThreadKey {
    Back,
    CursorNext,
    CursorPrevious,
    PageDown,
    PageUp,
    ToggleHelp,
    AddComment,
}

/// What an event asks of the thread page while the thread has the focus.
///
/// Only the press of a key asks anything. `q` and escape go back to the
/// table; down and `j` move the cursor down, up and `k` move it up; with
/// control held `d` moves it ten lines down and `u` ten lines up; `?`
/// toggles the help and `a` writes a comment.
pub open spec fn thread_key(event: Event) -> Option<ThreadKey> {
    match event.pressed_key() {
        None => None,
        Some(key) => {
            let code = key.code;
            let control = key.modifiers.control;
            if code == KeyCode::Char('q') || code == KeyCode::Esc {
                Some(ThreadKey::Back)
            } else if code == KeyCode::Down || code == KeyCode::Char('j') {
                Some(ThreadKey::CursorNext)
            } else if code == KeyCode::Up || code == KeyCode::Char('k') {
                Some(ThreadKey::CursorPrevious)
            } else if code == KeyCode::Char('d') && control {
                Some(ThreadKey::PageDown)
            } else if code == KeyCode::Char('u') && control {
                Some(ThreadKey::PageUp)
            } else if code == KeyCode::Char('?') {
                Some(ThreadKey::ToggleHelp)
            } else if code == KeyCode::Char('a') {
                Some(ThreadKey::AddComment)
            } else {
                None
            }
        },
    }
}

/// The text that the editor opens with for a new comment.
pub open spec fn comment_template() -> Seq<char> {
    "Enter comment here.\n\n"@
}

/// The application with another state of the thread page.
pub open spec fn with_thread(app: App, thread: IssueThreadState) -> App {
    App { tuistate: TuiState { issue_thread: thread, ..app.tuistate }, ..app }
}

/// Whether `post` is what a key makes of `pre` while the thread has the
/// focus. Every key stops the event.
pub open spec fn thread_key_handled(pre: App, key: ThreadKey, post: App) -> bool {
    let thread = pre.tuistate.issue_thread;
    match key {
        ThreadKey::Back => post == (App {
            tuistate: TuiState {
                page: Page::IssueTable,
                focus: Focus::IssueTable,
                issue_thread: IssueThreadState { show_help: false, ..thread },
                ..pre.tuistate
            },
            ..pre
        }),
        ThreadKey::CursorNext => post == with_thread(pre, thread.with_cursor(thread.current() + 1)),
        ThreadKey::CursorPrevious => post == with_thread(
            pre,
            thread.with_cursor(thread.current() - 1),
        ),
        ThreadKey::PageDown => post == with_thread(pre, thread.with_cursor(thread.current() + 10)),
        ThreadKey::PageUp => post == with_thread(pre, thread.with_cursor(thread.current() - 10)),
        ThreadKey::ToggleHelp => post == with_thread(
            pre,
            IssueThreadState { show_help: !thread.show_help, ..thread },
        ),
        ThreadKey::AddComment => {
            &&& post == (App { external_editor: post.external_editor, ..pre })
            &&& post.external_editor.entry matches Some(e) && e.data@ == comment_template()
                && e.file_extension@ == "txt"@ && e.callback
                == (ExternalEditorCallback::AddComment { issue_id: thread.issue_id })
        },
    }
}

/// Whether `post` is what an event makes of `pre` on the thread page.
///
/// Under a focus that is not the thread, the thread takes the focus and the
/// event is stopped. With the thread in focus, a key is handled and
/// stopped; any other event changes nothing and is passed on.
pub open spec fn thread_page_handled(
    pre: App,
    event: Event,
    post: App,
    r: Result<EventPropagation, IssueThreadPageInputError>,
) -> bool {
    match pre.tuistate.focus {
        Focus::IssueThread => match thread_key(event) {
            Some(key) => thread_key_handled(pre, key, post) && r == Ok::<
                EventPropagation,
                IssueThreadPageInputError,
            >(EventPropagation::Stop),
            None => post == pre && r == Ok::<EventPropagation, IssueThreadPageInputError>(
                EventPropagation::Continue,
            ),
        },
        _ => {
            &&& post == (App { tuistate: pre.tuistate.with_focus(Focus::IssueThread), ..pre })
            &&& r == Ok::<EventPropagation, IssueThreadPageInputError>(EventPropagation::Stop)
        },
    }
}

/// What an event asks of the thread page while the thread has the focus.
pub fn read_thread_key(event: &Event) -> (r: Option<ThreadKey>)
    ensures
        r == thread_key(*event),
{
    if let (Some(key), Some(mods)) = (event.keypress(), event.modifiers()) {
        let control = mods.contains(KeyModifiers::control());
        match key {
            KeyCode::Char('q') | KeyCode::Esc => Some(ThreadKey::Back),
            KeyCode::Down | KeyCode::Char('j') => Some(ThreadKey::CursorNext),
            KeyCode::Up | KeyCode::Char('k') => Some(ThreadKey::CursorPrevious),
            KeyCode::Char('d') => if control {
                Some(ThreadKey::PageDown)
            } else {
                None
            },
            KeyCode::Char('u') => if control {
                Some(ThreadKey::PageUp)
            } else {
                None
            },
            KeyCode::Char('?') => Some(ThreadKey::ToggleHelp),
            KeyCode::Char('a') => Some(ThreadKey::AddComment),
            _ => None,
        }
    } else {
        None
    }
}

/// Handles keyboard input events for the issue thread page.
pub trait IssueThreadPageInput: Sized {
    /// Whether `post` and `r` are what an event makes of `pre`.
    spec fn thread_input(
        pre: Self,
        event: Event,
        post: Self,
        r: Result<EventPropagation, IssueThreadPageInputError>,
    ) -> bool;

    /// Process an event for the issue thread page.
    fn handle(&mut self, event: &Event) -> (r: Result<
        EventPropagation,
        IssueThreadPageInputError,
    >)
        ensures
            Self::thread_input(*old(self), *event, *final(self), r),
    ;
}

impl App {
    /// Does what a key asks of the thread page.
    pub fn handle_thread_key(&mut self, key: ThreadKey)
        ensures
            thread_key_handled(*old(self), key, *final(self)),
    {
        match key {
            ThreadKey::Back => {
                self.tuistate.set_page(Page::IssueTable);
                self.tuistate.set_focus(Focus::IssueTable);
                self.tuistate.issue_thread.show_help = false;
            },
            ThreadKey::CursorNext => {
                self.tuistate.issue_thread.cursor_next();
            },
            ThreadKey::CursorPrevious => {
                self.tuistate.issue_thread.cursor_previous();
            },
            ThreadKey::PageDown => {
                self.tuistate.issue_thread.cursor_add(10);
            },
            ThreadKey::PageUp => {
                self.tuistate.issue_thread.cursor_sub(10);
            },
            ThreadKey::ToggleHelp => {
                self.tuistate.issue_thread.toggle_help();
            },
            ThreadKey::AddComment => {
                let issue_id = self.tuistate.issue_thread.issue_id;
                self.external_editor.edit(
                    "Enter comment here.\n\n".to_owned(),
                    "txt".to_owned(),
                    ExternalEditorCallback::AddComment { issue_id },
                );
            },
        }
    }
}

impl IssueThreadPageInput for App {
    open spec fn thread_input(
        pre: Self,
        event: Event,
        post: Self,
        r: Result<EventPropagation, IssueThreadPageInputError>,
    ) -> bool {
        thread_page_handled(pre, event, post, r)
    }

    fn handle(&mut self, event: &Event) -> (r: Result<
        EventPropagation,
        IssueThreadPageInputError,
    >) {
        match self.tuistate.focus() {
            Focus::IssueThread => match read_thread_key(event) {
                Some(key) => {
                    self.handle_thread_key(key);
                    Ok(EventPropagation::Stop)
                },
                None => Ok(EventPropagation::Continue),
            },
            _ => {
                self.tuistate.set_focus(Focus::IssueThread);
                Ok(EventPropagation::Stop)
            },
        }
    }
}

} // verus!
