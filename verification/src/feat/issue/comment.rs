//! A remark on an issue.

use crate::feat::issue::timestamp::Timestamp;
use crate::feat::issue::IssueId;
use vstd::prelude::*;

verus! {

#[derive(Debug, Clone, PartialEq, Eq)]
pub struct Comment {
    pub parent_issue: IssueId,
    pub content: String,
    pub created_at: Timestamp,
    pub author: String,
}

impl Default for Comment {
    fn default() -> (r: Self)
        ensures
            r.parent_issue == 0,
            r.content@ == Seq::<char>::empty(),
            r.created_at == (Timestamp { second: 0, nanosecond: 0 }),
            r.author@ == Seq::<char>::empty(),
    {
        Comment {
            parent_issue: 0,
            content: String::new(),
            created_at: Timestamp { second: 0, nanosecond: 0 },
            author: String::new(),
        }
    }
}

} // verus!
