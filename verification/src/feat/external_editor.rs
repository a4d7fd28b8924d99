//! The request for a text from the external editor.
//!
//! A page asks for a text by leaving an entry here. The application loop
//! takes the entry, yields the terminal to the editor, and hands what the
//! user saved to the callback that the entry names.

use crate::feat::issue::IssueId;
use vstd::prelude::*;

verus! {

/// The text from the editor could not be turned into a change.
#[derive(Debug, Clone, Copy, PartialEq, Eq)]
pub struct ExternalEditorError;

/// What is done with the text that comes back from the editor.
#[derive(Debug, Clone, Copy, PartialEq, Eq, Structural)]
pub enum ExternalEditorCallback {
    /// The text names the columns of the issue table.
    SetColumns,
    /// The text is the template of a new issue.
    CreateIssue,
    /// The text is a new comment on an issue.
    AddComment { issue_id: IssueId },
}

/// A request to the editor: the text that it opens with, the extension of
/// the file that it edits, and what is done with the result.
#[derive(Debug, Clone, PartialEq, Eq)]
pub struct ExternalEditorEntry {
    pub data: String,
    pub file_extension: String,
    pub callback: ExternalEditorCallback,
}

/// The one place for a request to the editor.
#[derive(Debug)]
pub struct ExternalEditor {
    pub entry: Option<ExternalEditorEntry>,
}

impl Default for ExternalEditor {
    fn default() -> (r: Self)
        ensures
            r.entry is None,
    {
        ExternalEditor { entry: None }
    }
}

impl ExternalEditor {
    /// An editor without a request.
    pub fn new() -> (r: ExternalEditor)
        ensures
            r.entry is None,
    {
        ExternalEditor { entry: None }
    }

    /// Launches an external editor pre-populated with the given data.
    ///
    /// The callback says how the program state changes with the user input.
    /// Set the `file_extension` to help editors with syntax highlighting.
    ///
    /// A request that was waiting is put out and handed back: it will not
    /// be run.
    pub fn edit(
        &mut self,
        data: String,
        file_extension: String,
        cb: ExternalEditorCallback,
    ) -> (r: Option<ExternalEditorEntry>)
        ensures
            r == old(self).entry,
            final(self).entry == Some(ExternalEditorEntry { data, file_extension, callback: cb }),
    {
        let entry = ExternalEditorEntry { data, file_extension, callback: cb };
        let old_entry = self.entry.take();
        self.entry = Some(entry);
        old_entry
    }

    /// Takes out an editor entry.
    pub fn take(&mut self) -> (r: Option<ExternalEditorEntry>)
        ensures
            r == old(self).entry,
            final(self).entry is None,
    {
        self.entry.take()
    }
}

/// How the editor ended.
#[derive(Debug, Clone, PartialEq, Eq)]
pub enum EditorOutcome {
    /// The user saved this text.
    Saved(String),
    /// The user left the editor without saving.
    Aborted,
    /// The editor could not be run, or its file could not be handled.
    Failed,
}

/// Where the hand-off of the terminal to the editor stands.
#[derive(Debug, Clone, PartialEq, Eq)]
pub enum Handshake {
    /// No request is being served.
    Idle,
    /// The session is being suspended for this request.
    Suspending(ExternalEditorEntry),
    /// The editor runs.
    Editing(ExternalEditorCallback),
    /// The editor has ended and the session is being resumed.
    Resuming { callback: ExternalEditorCallback, outcome: EditorOutcome },
}

/// What happened in the hand-off.
#[derive(Debug, Clone, PartialEq, Eq)]
pub enum HandshakeEvent {
    /// A request was taken out of the editor's place.
    Begin(ExternalEditorEntry),
    /// The session was suspended.
    Suspended,
    /// The editor ended.
    Edited(EditorOutcome),
    /// The session was resumed.
    Resumed,
}

/// What is to be done next in the hand-off.
#[derive(Debug, Clone, PartialEq, Eq)]
pub enum HandshakeAction {
    /// Suspend the session.
    Suspend,
    /// Run the editor on this text, in a file with this extension.
    Edit { data: String, file_extension: String },
    /// Resume the session.
    Resume,
    /// Hand this response to this callback: the text that was saved, or
    /// none where the user left without saving.
    Respond { callback: ExternalEditorCallback, response: Option<String> },
    /// Report that the editor failed.
    Fail,
    /// Nothing: the event does not belong here.
    Ignore,
}

impl Handshake {
    /// The hand-off after an event, and what is to be done next.
    ///
    /// A request is served in four steps: the session is suspended, the
    /// editor runs, the session is resumed, and only then is the result
    /// handed to the callback, or the failure of the editor reported. An
    /// event that does not belong to the step in which the hand-off stands
    /// changes nothing.
    pub open spec fn next(self, event: HandshakeEvent) -> (Handshake, HandshakeAction) {
        match (self, event) {
            (Handshake::Idle, HandshakeEvent::Begin(entry)) => (
                Handshake::Suspending(entry),
                HandshakeAction::Suspend,
            ),
            (Handshake::Suspending(entry), HandshakeEvent::Suspended) => (
                Handshake::Editing(entry.callback),
                HandshakeAction::Edit { data: entry.data, file_extension: entry.file_extension },
            ),
            (Handshake::Editing(callback), HandshakeEvent::Edited(outcome)) => (
                Handshake::Resuming { callback, outcome },
                HandshakeAction::Resume,
            ),
            (Handshake::Resuming { callback, outcome }, HandshakeEvent::Resumed) => (
                Handshake::Idle,
                match outcome {
                    EditorOutcome::Saved(text) => HandshakeAction::Respond {
                        callback,
                        response: Some(text),
                    },
                    EditorOutcome::Aborted => HandshakeAction::Respond { callback, response: None },
                    EditorOutcome::Failed => HandshakeAction::Fail,
                },
            ),
            _ => (self, HandshakeAction::Ignore),
        }
    }

    /// The hand-off after an event, and what is to be done next.
    pub fn advance(self, event: HandshakeEvent) -> (r: (Handshake, HandshakeAction))
        ensures
            r == self.next(event),
    {
        match self {
            Handshake::Idle => match event {
                HandshakeEvent::Begin(entry) => (
                    Handshake::Suspending(entry),
                    HandshakeAction::Suspend,
                ),
                _ => (Handshake::Idle, HandshakeAction::Ignore),
            },
            Handshake::Suspending(entry) => match event {
                HandshakeEvent::Suspended => (
                    Handshake::Editing(entry.callback),
                    HandshakeAction::Edit {
                        data: entry.data,
                        file_extension: entry.file_extension,
                    },
                ),
                _ => (Handshake::Suspending(entry), HandshakeAction::Ignore),
            },
            Handshake::Editing(callback) => match event {
                HandshakeEvent::Edited(outcome) => (
                    Handshake::Resuming { callback, outcome },
                    HandshakeAction::Resume,
                ),
                _ => (Handshake::Editing(callback), HandshakeAction::Ignore),
            },
            Handshake::Resuming { callback, outcome } => match event {
                HandshakeEvent::Resumed => (
                    Handshake::Idle,
                    match outcome {
                        EditorOutcome::Saved(text) => HandshakeAction::Respond {
                            callback,
                            response: Some(text),
                        },
                        EditorOutcome::Aborted => HandshakeAction::Respond {
                            callback,
                            response: None,
                        },
                        EditorOutcome::Failed => HandshakeAction::Fail,
                    },
                ),
                _ => (Handshake::Resuming { callback, outcome }, HandshakeAction::Ignore),
            },
        }
    }
}

/// A request is served in this order, whatever the editor does: suspend,
/// edit what the request holds, resume, and then respond or fail. The
/// hand-off is idle again at the end, and an editor that was left without
/// saving is answered with no text.
pub proof fn lemma_handshake_resumes_before_it_responds(
    entry: ExternalEditorEntry,
    outcome: EditorOutcome,
)
    ensures
        ({
            let first = Handshake::Idle.next(HandshakeEvent::Begin(entry));
            let second = first.0.next(HandshakeEvent::Suspended);
            let third = second.0.next(HandshakeEvent::Edited(outcome));
            let fourth = third.0.next(HandshakeEvent::Resumed);
            &&& first.1 == HandshakeAction::Suspend
            &&& second.1 == (HandshakeAction::Edit {
                data: entry.data,
                file_extension: entry.file_extension,
            })
            &&& third.1 == HandshakeAction::Resume
            &&& fourth.0 == Handshake::Idle
            &&& fourth.1 == match outcome {
                EditorOutcome::Saved(text) => HandshakeAction::Respond {
                    callback: entry.callback,
                    response: Some(text),
                },
                EditorOutcome::Aborted => HandshakeAction::Respond {
                    callback: entry.callback,
                    response: None,
                },
                EditorOutcome::Failed => HandshakeAction::Fail,
            }
        }),
{
}

/// Nothing is handed to a callback before the session was resumed: a
/// response is only ever the answer to the event that the session was
/// resumed, in the step that waits for it.
pub proof fn lemma_handshake_responds_only_when_resumed(state: Handshake, event: HandshakeEvent)
    ensures
        state.next(event).1 is Respond || state.next(event).1 is Fail ==> state is Resuming
            && event is Resumed,
{
}

} // verus!
