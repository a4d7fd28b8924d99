//! The application: its state, and what an event does to it.

use crate::feat::external_editor::{
    ExternalEditor, ExternalEditorCallback, ExternalEditorEntry, ExternalEditorError,
};
use crate::feat::issue::{
    closes_front_matter, is_template, opens_front_matter, Comment, Issue, IssueItemTemplate,
    Status, Timestamp,
};
use crate::feat::issues::{IssueEvent, Issues};
use crate::feat::tui::{Event, EventPropagation, Focus, KeyCode, KeyEvent, Page, TuiState};
use crate::feat::tui_issue_list::input::list_page_handled;
use crate::feat::tui_issue_list::IssueListPageInput;
use crate::feat::tui_issue_table::draw::table_settled;
use crate::feat::tui_issue_table::input::{table_page_handled, with_table};
use crate::feat::tui_issue_table::state::{column_views, edited_columns};
use crate::feat::tui_issue_table::{IssueTablePageInput, IssueTablePageInputError, IssueTableState};
use crate::feat::tui_issue_thread::input::{thread_page_handled, with_thread};
use crate::feat::tui_issue_thread::{IssueThreadPageInput, IssueThreadPageInputError};
use crate::text::{lines_of, trim, trimmed};
use vstd::prelude::*;

verus! {

/// Top-level error type for the application.
///
/// This error represents any unrecoverable failure that occurs during application execution,
/// including TUI initialization failures, rendering errors, and event handling failures.
#[derive(Debug, Clone, Copy, PartialEq, Eq)]
pub struct AppError;

/// Error type for event handler failures.
///
/// This error indicates that an event could not be processed successfully, typically
/// due to invalid event data or state inconsistencies.
#[derive(Debug, Clone, Copy, PartialEq, Eq)]
pub struct EventHandlerError;

/// The state of the application.
///
/// A page never writes to the event log itself. It leaves the records that
/// it wants written in `outbox`; the loop that owns the log writes each and
/// takes it into the store once it is written.
#[derive(Debug)]
pub struct App {
    pub issues: Issues,
    pub tuistate: TuiState,
    pub external_editor: ExternalEditor,
    /// The author of the comments that are written here.
    pub author: String,
    /// The records that wait to be written to the event log, oldest first.
    pub outbox: Vec<IssueEvent>,
    /// The failure of the handler that failed last and was not reported yet.
    /// A handler that fails leaves its failure here and stops the event.
    pub last_error: Option<EventHandlerError>,
    pub should_quit: bool,
}

/// What is left to do once the text from the editor was looked at.
#[derive(Debug, Clone, PartialEq, Eq)]
pub enum EditorStep {
    /// Nothing: the text was taken, or there was none.
    Done,
    /// The text is the template of an issue. Its front matter is yet to be
    /// decoded; the comment behind it goes with the decoded fields.
    DecodeTemplate { yaml: String, comment: String },
}

/// What one turn of the application loop starts with.
#[derive(Debug, Clone, PartialEq, Eq)]
pub struct Iteration {
    /// The request to the editor that waited, to be served before anything
    /// is drawn.
    pub editor: Option<ExternalEditorEntry>,
    /// Whether the event has the interface drawn anew.
    pub render: bool,
}

/// The verdict of a page as that of the application: the error of a page
/// is an error of the handler.
pub open spec fn table_verdict(r: Result<EventPropagation, EventHandlerError>) -> Result<
    EventPropagation,
    IssueTablePageInputError,
> {
    match r {
        Ok(verdict) => Ok(verdict),
        Err(_) => Err(IssueTablePageInputError),
    }
}

/// The verdict of the thread page as that of the application.
pub open spec fn thread_verdict(r: Result<EventPropagation, EventHandlerError>) -> Result<
    EventPropagation,
    IssueThreadPageInputError,
> {
    match r {
        Ok(verdict) => Ok(verdict),
        Err(_) => Err(IssueThreadPageInputError),
    }
}

/// Whether `post` and `r` are what the page that is shown makes of an event.
/// The page alone picks the handler; the handler looks at the focus.
pub open spec fn routed(
    pre: App,
    event: Event,
    post: App,
    r: Result<EventPropagation, EventHandlerError>,
) -> bool {
    match pre.tuistate.page {
        Page::IssueTable => table_page_handled(pre, event, post, table_verdict(r)),
        Page::IssueThread => thread_page_handled(pre, event, post, thread_verdict(r)),
        Page::IssueList => r matches Ok(verdict) && list_page_handled(pre, event, post, verdict),
    }
}

/// Whether `post` is the application `pre` settled for a frame in an area
/// of a width: the page that is shown holds its selection to its rows, and
/// the table notes which row shows which issue. Nothing else changes.
pub open spec fn frame_settled(pre: App, area_width: u16, post: App) -> bool {
    match pre.tuistate.page {
        Page::IssueTable => {
            &&& table_settled(pre.tuistate.issue_table, pre.issues, post.tuistate.issue_table)
            &&& post == with_table(pre, post.tuistate.issue_table)
        },
        Page::IssueThread => post == with_thread(
            pre,
            pre.tuistate.issue_thread.settled(pre.issues@, area_width),
        ),
        Page::IssueList => post == pre,
    }
}

/// Whether an event asks the application to end, once no page took it: it
/// is the key `q`, pressed or not.
pub open spec fn asks_to_quit(event: Event) -> bool {
    event matches Event::Key(key) && key.code == KeyCode::Char('q')
}

/// Whether `post` is what the text from the editor makes of `pre`, with `r`
/// as the outcome.
///
/// Without a text, which is what an editor that was left without saving
/// gives, nothing changes. The text for the columns sets the columns of the
/// table. The text of a comment is trimmed and, unless it is empty then,
/// left in the outbox as a comment on the issue, written now by the author
/// of this application. The text of a new issue changes nothing yet: it is
/// split into front matter and comment, and fails where it is no template.
pub open spec fn editor_handled(
    pre: App,
    callback: ExternalEditorCallback,
    response: Option<String>,
    now: Timestamp,
    post: App,
    r: Result<EditorStep, ExternalEditorError>,
) -> bool {
    match response {
        None => post == pre && r == Ok::<EditorStep, ExternalEditorError>(EditorStep::Done),
        Some(text) => match callback {
            ExternalEditorCallback::SetColumns => {
                &&& r == Ok::<EditorStep, ExternalEditorError>(EditorStep::Done)
                &&& post == with_table(
                    pre,
                    IssueTableState {
                        columns: post.tuistate.issue_table.columns,
                        ..pre.tuistate.issue_table
                    },
                )
                &&& column_views(post.tuistate.issue_table.columns@) == edited_columns(
                    lines_of(trimmed(text@)),
                )
            },
            ExternalEditorCallback::AddComment { issue_id } => {
                &&& r == Ok::<EditorStep, ExternalEditorError>(EditorStep::Done)
                &&& if trimmed(text@).len() == 0 {
                    post == pre
                } else {
                    &&& post == (App { outbox: post.outbox, ..pre })
                    &&& post.outbox@.len() == pre.outbox@.len() + 1
                    &&& post.outbox@.drop_last() == pre.outbox@
                    &&& post.outbox@.last() matches IssueEvent::CommentAdded(comment)
                        && comment.parent_issue == issue_id && comment.content@ == trimmed(text@)
                        && comment.created_at == now && comment.author == pre.author
                }
            },
            ExternalEditorCallback::CreateIssue => {
                let t = trimmed(text@);
                &&& post == pre
                &&& match r {
                    Ok(EditorStep::DecodeTemplate { yaml, comment }) => {
                        &&& opens_front_matter(t)
                        &&& exists|p: int|
                            {
                                &&& #[trigger] closes_front_matter(t, p)
                                &&& yaml@ == trimmed(t.subrange(4, p))
                                &&& comment@ == trimmed(t.subrange(p + 4, t.len() as int))
                            }
                    },
                    Ok(EditorStep::Done) => false,
                    Err(_) => !is_template(t),
                }
            },
        },
    }
}

impl App {
    /// An application over a store, with the first page shown, nothing asked
    /// of the editor and nothing to write.
    pub fn new(issues: Issues, tuistate: TuiState, author: String) -> (r: App)
        ensures
            r.issues == issues,
            r.tuistate == tuistate,
            r.author == author,
            r.external_editor.entry is None,
            r.outbox@.len() == 0,
            r.last_error is None,
            !r.should_quit,
    {
        App {
            issues,
            tuistate,
            external_editor: ExternalEditor::new(),
            author,
            outbox: Vec::new(),
            last_error: None,
            should_quit: false,
        }
    }

    /// Takes the failure that waits to be reported out of the application.
    pub fn take_last_error(&mut self) -> (r: Option<EventHandlerError>)
        ensures
            r == old(self).last_error,
            *final(self) == (App { last_error: None, ..*old(self) }),
    {
        self.last_error.take()
    }

    /// Whether the application was asked to end.
    pub fn should_quit(&self) -> (r: bool)
        ensures
            r == self.should_quit,
    {
        self.should_quit
    }

    /// Takes the records that wait to be written out of the application.
    pub fn take_outbox(&mut self) -> (r: Vec<IssueEvent>)
        ensures
            r == old(self).outbox,
            final(self).outbox@.len() == 0,
            *final(self) == (App { outbox: final(self).outbox, ..*old(self) }),
    {
        let mut out: Vec<IssueEvent> = Vec::new();
        std::mem::swap(&mut out, &mut self.outbox);
        out
    }

    /// Starts a turn of the application loop: takes the request to the
    /// editor that waits, and says whether the event has the interface drawn.
    ///
    /// For an event that has the interface drawn, the page that is shown is
    /// settled for the width of the area that it is drawn in. This is the
    /// only place where the rows of a page change the state: drawing reads
    /// the state and changes nothing.
    pub fn begin_iteration(&mut self, event: &Event, area_width: u16) -> (r: Iteration)
        ensures
            r.editor == old(self).external_editor.entry,
            r.render == event.is_visual(),
            final(self).external_editor.entry is None,
            if event.is_visual() {
                frame_settled(
                    App { external_editor: final(self).external_editor, ..*old(self) },
                    area_width,
                    *final(self),
                )
            } else {
                *final(self) == (App { external_editor: final(self).external_editor, ..*old(self) })
            },
    {
        let editor = self.external_editor.take();
        let render = event.needs_render();
        if render {
            match self.tuistate.page() {
                Page::IssueTable => self.tuistate.issue_table.settle(&self.issues),
                Page::IssueThread => self.tuistate.issue_thread.settle(&self.issues, area_width),
                Page::IssueList => {},
            }
        }
        Iteration { editor, render }
    }

    /// Hands an event to the handler of the page that is shown. The verdict
    /// is `Stop` or `Continue`; no page fails.
    pub fn route(&mut self, event: &Event) -> (r: Result<EventPropagation, EventHandlerError>)
        ensures
            routed(*old(self), *event, *final(self), r),
            r is Ok,
    {
        match self.tuistate.page() {
            Page::IssueTable => match IssueTablePageInput::handle(self, event) {
                Ok(verdict) => Ok(verdict),
                Err(_) => Err(EventHandlerError),
            },
            Page::IssueThread => match IssueThreadPageInput::handle(self, event) {
                Ok(verdict) => Ok(verdict),
                Err(_) => Err(EventHandlerError),
            },
            Page::IssueList => Ok(IssueListPageInput::handle(self, event)),
        }
    }

    /// Processes incoming events and updates application state.
    ///
    /// The page that is shown handles the event first. An event that it
    /// passes on is looked at here: the key `q` ends the application. An
    /// event that the page stopped is not looked at again. No event makes
    /// this fail: a page that cannot do what a key asks leaves its failure
    /// in `last_error` and stops the event.
    pub fn handle_event(&mut self, event: &Event) -> (r: Result<(), EventHandlerError>)
        ensures
            r is Ok,
            exists|mid: App, verdict: Result<EventPropagation, EventHandlerError>|
                {
                    &&& #[trigger] routed(*old(self), *event, mid, verdict)
                    &&& r is Ok == verdict is Ok
                    &&& *final(self) == if verdict == Ok::<EventPropagation, EventHandlerError>(
                        EventPropagation::Continue,
                    ) && asks_to_quit(*event) {
                        App { should_quit: true, ..mid }
                    } else {
                        mid
                    }
                },
    {
        let verdict = self.route(event);
        let ghost mid = *self;
        let r = match verdict {
            Ok(EventPropagation::Continue) => {
                match event {
                    Event::Key(key) => {
                        if key.code == KeyCode::Char('q') {
                            self.should_quit = true;
                        }
                    },
                    _ => (),
                }
                Ok(())
            },
            Ok(EventPropagation::Stop) => Ok(()),
            Err(e) => Err(e),
        };
        assert(routed(*old(self), *event, mid, verdict));
        r
    }

    /// Takes what came back from the editor.
    pub fn editor_response(
        &mut self,
        callback: ExternalEditorCallback,
        response: Option<String>,
        now: Timestamp,
    ) -> (r: Result<EditorStep, ExternalEditorError>)
        ensures
            editor_handled(*old(self), callback, response, now, *final(self), r),
    {
        let text = match response {
            Some(text) => text,
            None => {
                return Ok(EditorStep::Done);
            },
        };
        match callback {
            ExternalEditorCallback::SetColumns => {
                let columns = IssueTableState::columns_from_edited(text.as_str());
                self.tuistate.issue_table.set_columns(columns);
                Ok(EditorStep::Done)
            },
            ExternalEditorCallback::AddComment { issue_id } => {
                let content = trim(text.as_str());
                if content.as_str().is_empty() {
                    return Ok(EditorStep::Done);
                }
                let comment = Comment {
                    parent_issue: issue_id,
                    content,
                    created_at: now,
                    author: self.author.clone(),
                };
                let ghost before = self.outbox@;
                self.outbox.push(IssueEvent::CommentAdded(comment));
                assert(self.outbox@.drop_last() =~= before);
                Ok(EditorStep::Done)
            },
            ExternalEditorCallback::CreateIssue => {
                match Issue::extract_issue_parts(text.as_str()) {
                    Ok((yaml, comment)) => Ok(EditorStep::DecodeTemplate { yaml, comment }),
                    Err(_) => Err(ExternalEditorError),
                }
            },
        }
    }

    /// Takes the decoded template of a new issue: leaves the issue and its
    /// first comment in the outbox, under the next free identifier.
    ///
    /// It fails, and changes nothing, where the store uses the largest
    /// identifier there is, so that none is free behind it.
    pub fn template_decoded(
        &mut self,
        template: IssueItemTemplate,
        comment: String,
        now: Timestamp,
    ) -> (r: Result<(), ExternalEditorError>)
        ensures
            if old(self).issues@.issues.contains_key(u64::MAX) {
                r is Err && *final(self) == *old(self)
            } else {
                &&& r is Ok
                &&& *final(self) == (App { outbox: final(self).outbox, ..*old(self) })
                &&& exists|id: u64| #[trigger]
                    old(self).issues@.is_next_id(id) && final(self).outbox@ == old(
                        self,
                    ).outbox@.push(
                        IssueEvent::IssueCreated(
                            Issue {
                                id,
                                title: template.title,
                                created: now,
                                status: Status::Open,
                                priority: template.priority,
                                created_by: template.created_by,
                                custom: template.custom,
                            },
                        ),
                    ).push(
                        IssueEvent::CommentAdded(
                            Comment {
                                parent_issue: id,
                                content: comment,
                                created_at: now,
                                author: template.created_by,
                            },
                        ),
                    )
            },
    {
        if self.issues.get_issue(&u64::MAX).is_some() {
            return Err(ExternalEditorError);
        }
        let next_id = self.issues.next_issue_id();
        let (issue, first) = Issue::from_template(next_id, template, comment, now);
        self.outbox.push(IssueEvent::IssueCreated(issue));
        self.outbox.push(IssueEvent::CommentAdded(first));
        assert(old(self).issues@.is_next_id(next_id));
        Ok(())
    }
}

/// No page fails on an event: what a page makes of it is a verdict, `Stop`
/// or `Continue`. A page that cannot do what a key asks says so in
/// `last_error`, stops the event, and changes nothing else; no other event
/// touches `last_error`.
pub proof fn lemma_pages_never_fail(
    pre: App,
    event: Event,
    post: App,
    r: Result<EventPropagation, EventHandlerError>,
)
    requires
        routed(pre, event, post, r),
    ensures
        r is Ok,
        post.last_error != pre.last_error ==> r == Ok::<EventPropagation, EventHandlerError>(
            EventPropagation::Stop,
        ) && post == (App { last_error: post.last_error, ..pre }) && post.last_error == Some(
            EventHandlerError,
        ),
        post.issues == pre.issues,
        post.should_quit == pre.should_quit,
{
}

/// With the issue table shown and in focus, the press of `/` gives the
/// focus to the filter of the table and stops the event; the press of
/// escape that follows gives the focus back to the table and stops the
/// event too.
pub proof fn lemma_filter_focus_round_trip(
    start: App,
    slash: KeyEvent,
    entered: App,
    first: Result<EventPropagation, EventHandlerError>,
    escape: KeyEvent,
    left: App,
    second: Result<EventPropagation, EventHandlerError>,
)
    requires
        start.tuistate.page == Page::IssueTable,
        start.tuistate.focus == Focus::IssueTable,
        Event::Key(slash).pressed_code() == Some(KeyCode::Char('/')),
        Event::Key(escape).pressed_code() == Some(KeyCode::Esc),
        routed(start, Event::Key(slash), entered, first),
        routed(entered, Event::Key(escape), left, second),
    ensures
        entered.tuistate.focus == Focus::IssueTableFilter,
        entered.tuistate.page == Page::IssueTable,
        first == Ok::<EventPropagation, EventHandlerError>(EventPropagation::Stop),
        left.tuistate.focus == Focus::IssueTable,
        left.tuistate.page == Page::IssueTable,
        second == Ok::<EventPropagation, EventHandlerError>(EventPropagation::Stop),
{
}

/// No page changes the page or the focus to a pair that does not belong
/// together, as long as they did before: the focus stays with a widget of
/// the page that is shown.
pub proof fn lemma_focus_stays_on_page(
    pre: App,
    event: Event,
    post: App,
    r: Result<EventPropagation, EventHandlerError>,
)
    requires
        pre.tuistate.page.owns(pre.tuistate.focus),
        routed(pre, event, post, r),
    ensures
        post.tuistate.page.owns(post.tuistate.focus),
{
}

/// A page that is given a focus which is none of its own hands the focus
/// to its primary widget and stops the event.
pub proof fn lemma_stray_focus_is_healed(
    pre: App,
    event: Event,
    post: App,
    r: Result<EventPropagation, EventHandlerError>,
)
    requires
        !pre.tuistate.page.owns(pre.tuistate.focus),
        routed(pre, event, post, r),
    ensures
        post.tuistate.focus == pre.tuistate.page.primary(),
        post.tuistate.page == pre.tuistate.page,
        r == Ok::<EventPropagation, EventHandlerError>(EventPropagation::Stop),
{
}

/// An editor that was left without saving changes nothing: whatever the
/// callback, the application is what it was.
pub proof fn lemma_aborted_edit_changes_nothing(
    pre: App,
    callback: ExternalEditorCallback,
    now: Timestamp,
    post: App,
    r: Result<EditorStep, ExternalEditorError>,
)
    requires
        editor_handled(pre, callback, None, now, post, r),
    ensures
        post == pre,
        r == Ok::<EditorStep, ExternalEditorError>(EditorStep::Done),
{
}

} // verus!
