//! The records of the event log.

use crate::feat::issue::{Comment, Issue, IssueId, Priority, Status};
use vstd::prelude::*;
use vstd::std_specs::convert::FromSpecImpl;

verus! {

#[derive(Debug, Clone, PartialEq, Eq)]
pub enum IssueEvent {
    IssueCreated(Issue),
    CommentAdded(Comment),
    StatusChanged { issue_id: IssueId, status: Status },
    PriorityChanged { issue_id: IssueId, priority: Priority },
}

impl From<Issue> for IssueEvent {
    fn from(issue: Issue) -> (r: Self) {
        IssueEvent::IssueCreated(issue)
    }
}

impl FromSpecImpl<Issue> for IssueEvent {
    open spec fn obeys_from_spec() -> bool {
        true
    }

    open spec fn from_spec(issue: Issue) -> Self {
        IssueEvent::IssueCreated(issue)
    }
}

impl From<Comment> for IssueEvent {
    fn from(comment: Comment) -> (r: Self) {
        IssueEvent::CommentAdded(comment)
    }
}

impl FromSpecImpl<Comment> for IssueEvent {
    open spec fn obeys_from_spec() -> bool {
        true
    }

    open spec fn from_spec(comment: Comment) -> Self {
        IssueEvent::CommentAdded(comment)
    }
}

} // verus!
