//! What the keys do on the page of the issue list.

use crate::app::App;
use crate::feat::tui::{Event, EventExt, EventPropagation, Focus, KeyCode, TuiState};
use crate::feat::tui_issue_list::IssueListState;
use crate::feat::tui_widget::InputBoxView;
use vstd::prelude::*;

verus! {

/// The application with another state of the issue list.
pub open spec fn with_list(app: App, list: IssueListState) -> App {
    App { tuistate: TuiState { issue_list: list, ..app.tuistate }, ..app }
}

/// Whether `post` is what an event makes of `pre` on the page of the issue
/// list, with `r` as the verdict.
///
/// With the list in focus, the press of up or down moves the cursor and
/// the press of `/` gives the focus to the filter; these stop the event,
/// and every other event changes nothing and is passed on. With the filter
/// in focus, escape gives the focus back to the list, whether the key went
/// down or came up, and every other event goes to the input box of the
/// filter. Under any other focus the list takes the focus and the event is
/// stopped.
pub open spec fn list_page_handled(pre: App, event: Event, post: App, r: EventPropagation) -> bool {
    let list = pre.tuistate.issue_list;
    match pre.tuistate.focus {
        Focus::IssueList => match event.pressed_code() {
            Some(KeyCode::Up) => {
                &&& r == EventPropagation::Stop
                &&& post == with_list(
                    pre,
                    IssueListState {
                        list: list.list.with_selected(Some(list.list.moved_up(1))),
                        ..list
                    },
                )
            },
            Some(KeyCode::Down) => {
                &&& r == EventPropagation::Stop
                &&& post == with_list(
                    pre,
                    IssueListState {
                        list: list.list.with_selected(Some(list.list.moved_down(1))),
                        ..list
                    },
                )
            },
            Some(KeyCode::Char('/')) => {
                &&& r == EventPropagation::Stop
                &&& post.tuistate.issue_list.filter@ == (InputBoxView {
                    focused: true,
                    ..list.filter@
                })
                &&& post == (App {
                    tuistate: TuiState {
                        focus: Focus::IssueListFilter,
                        issue_list: IssueListState {
                            filter: post.tuistate.issue_list.filter,
                            ..list
                        },
                        ..pre.tuistate
                    },
                    ..pre
                })
            },
            _ => r == EventPropagation::Continue && post == pre,
        },
        Focus::IssueListFilter => {
            let leaves = event matches Event::Key(key) && key.code == KeyCode::Esc;
            &&& post == (App {
                tuistate: TuiState {
                    focus: if leaves {
                        Focus::IssueList
                    } else {
                        pre.tuistate.focus
                    },
                    issue_list: IssueListState {
                        filter: post.tuistate.issue_list.filter,
                        ..list
                    },
                    ..pre.tuistate
                },
                ..pre
            })
            &&& if leaves {
                &&& r == EventPropagation::Stop
                &&& post.tuistate.issue_list.filter@ == (InputBoxView {
                    focused: false,
                    ..list.filter@
                })
            } else {
                &&& r == if InputBoxView::consumes(event) {
                    EventPropagation::Stop
                } else {
                    EventPropagation::Continue
                }
                &&& post.tuistate.issue_list.filter@ == list.filter@.after_input(event)
            }
        },
        _ => {
            &&& r == EventPropagation::Stop
            &&& post == (App { tuistate: pre.tuistate.with_focus(Focus::IssueList), ..pre })
        },
    }
}

/// Handles input events for the issue list.
pub trait IssueListPageInput: Sized {
    /// Whether `post` and `r` are what an event makes of `pre`.
    spec fn list_input(pre: Self, event: Event, post: Self, r: EventPropagation) -> bool;

    fn handle(&mut self, event: &Event) -> (r: EventPropagation)
        ensures
            Self::list_input(*old(self), *event, *final(self), r),
    ;
}

impl IssueListPageInput for App {
    open spec fn list_input(pre: Self, event: Event, post: Self, r: EventPropagation) -> bool {
        list_page_handled(pre, event, post, r)
    }

    fn handle(&mut self, event: &Event) -> (r: EventPropagation) {
        match self.tuistate.focus() {
            Focus::IssueList => {
                if let Some(key) = event.keypress() {
                    match key {
                        KeyCode::Up => {
                            self.tuistate.issue_list.select_previous_list_item();
                            EventPropagation::Stop
                        },
                        KeyCode::Down => {
                            self.tuistate.issue_list.select_next_list_item();
                            EventPropagation::Stop
                        },
                        KeyCode::Char('/') => {
                            self.tuistate.set_focus(Focus::IssueListFilter);
                            self.tuistate.issue_list.filter.set_focused(true);
                            EventPropagation::Stop
                        },
                        _ => EventPropagation::Continue,
                    }
                } else {
                    EventPropagation::Continue
                }
            },
            Focus::IssueListFilter => {
                let leaves = match event {
                    Event::Key(key) => key.code == KeyCode::Esc,
                    _ => false,
                };
                if leaves {
                    self.tuistate.set_focus(Focus::IssueList);
                    self.tuistate.issue_list.filter.set_focused(false);
                    EventPropagation::Stop
                } else {
                    self.tuistate.issue_list.filter.handle_input(event)
                }
            },
            _ => {
                self.tuistate.set_focus(Focus::IssueList);
                EventPropagation::Stop
            },
        }
    }
}

} // verus!
