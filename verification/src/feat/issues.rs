//! The issue store: the projection of the event log.

pub mod event;

pub use event::IssueEvent;

use crate::feat::issue::{Comment, Issue, IssueId, Priority, Status};
use crate::text::{lines, lines_of, trim, trimmed};
use std::collections::HashMap;
use vstd::prelude::*;

verus! {

broadcast use vstd::std_specs::hash::group_hash_axioms;

/// A projected state representing all issues and their associated comments.
///
/// The projection is built by applying the records of the event log in
/// their order and is never stored by itself.
#[derive(Debug, Clone, PartialEq, Eq)]
pub struct Issues {
    issues: HashMap<IssueId, Issue>,
    comments: HashMap<IssueId, Vec<Comment>>,
}

/// A line of the event log that holds a record: its place in the file,
/// counted from 1, and its text without the whitespace around it.
#[derive(Debug, Clone, PartialEq, Eq)]
pub struct LogLine {
    pub number: usize,
    pub content: String,
}

/// A line of the event log with the record that was decoded from it, or
/// without one where the line holds no record.
#[derive(Debug, Clone, PartialEq, Eq)]
pub struct DecodedLine {
    pub line: LogLine,
    pub event: Option<IssueEvent>,
}

/// How the write of a record to the event log ended.
#[derive(Debug, Clone, Copy, PartialEq, Eq, Structural)]
pub enum LogWrite {
    Written,
    Failed,
}

/// Error type for issues-related event operations.
///
/// A line that holds no record is carried with its number and text. A
/// record that could not be written carries no line.
#[derive(Debug, Clone, PartialEq, Eq)]
pub struct IssuesEventError {
    pub line: Option<LogLine>,
}

/// The lines of a log that hold a record: those that are not blank, each
/// with its place among all lines, counted from 1, and trimmed.
pub open spec fn log_records(lines: Seq<Seq<char>>) -> Seq<(int, Seq<char>)>
    decreases lines.len(),
{
    if lines.len() == 0 {
        Seq::empty()
    } else {
        let before = log_records(lines.drop_last());
        let text = trimmed(lines.last());
        if text.len() == 0 {
            before
        } else {
            before.push((lines.len() as int, text))
        }
    }
}

/// The records that decoded lines hold, in the order of the lines.
pub open spec fn decoded_events(lines: Seq<DecodedLine>) -> Seq<IssueEvent>
    decreases lines.len(),
{
    if lines.len() == 0 {
        Seq::empty()
    } else {
        match lines.last().event {
            Some(event) => decoded_events(lines.drop_last()).push(event),
            None => decoded_events(lines.drop_last()),
        }
    }
}

/// Whether a position is that of the first line without a record.
pub open spec fn first_undecoded(lines: Seq<DecodedLine>, i: int) -> bool {
    &&& 0 <= i < lines.len()
    &&& lines[i].event is None
    &&& forall|j: int| 0 <= j < i ==> (#[trigger] lines[j]).event is Some
}

/// The lines of the text of an event log that hold a record.
pub fn log_lines(content: &str) -> (r: Vec<LogLine>)
    ensures
        r@.len() == log_records(lines_of(content@)).len(),
        forall|i: int|
            0 <= i < r@.len() ==> (#[trigger] r@[i]).number == log_records(
                lines_of(content@),
            )[i].0 && r@[i].content@ == log_records(lines_of(content@))[i].1,
{
    let all = lines(content);
    let ghost texts = lines_of(content@);
    let mut out: Vec<LogLine> = Vec::new();
    let mut i: usize = 0;
    while i < all.len()
        invariant
            i <= all.len(),
            texts.len() == all@.len(),
            forall|j: int| 0 <= j < all@.len() ==> (#[trigger] all@[j])@ == texts[j],
            out@.len() == log_records(texts.take(i as int)).len(),
            forall|j: int|
                0 <= j < out@.len() ==> (#[trigger] out@[j]).number == log_records(
                    texts.take(i as int),
                )[j].0 && out@[j].content@ == log_records(texts.take(i as int))[j].1,
        decreases all.len() - i,
    {
        let text = trim(all[i].as_str());
        proof {
            let next = texts.take(i + 1);
            assert(next.drop_last() =~= texts.take(i as int));
            assert(next.last() == texts[i as int]);
        }
        if !text.as_str().is_empty() {
            out.push(LogLine { number: i + 1, content: text });
        }
        i += 1;
    }
    assert(texts.take(all@.len() as int) =~= texts);
    out
}

/// What the store holds: the issues by their identifier, and for each issue
/// that was commented on its comments, oldest first.
pub struct IssuesView {
    pub issues: Map<IssueId, Issue>,
    pub comments: Map<IssueId, Seq<Comment>>,
}

impl IssuesView {
    /// The store that no record was applied to.
    pub open spec fn empty() -> IssuesView {
        IssuesView { issues: Map::empty(), comments: Map::empty() }
    }

    /// The comments on an issue, oldest first.
    pub open spec fn comments_on(self, id: IssueId) -> Seq<Comment> {
        if self.comments.contains_key(id) {
            self.comments[id]
        } else {
            Seq::empty()
        }
    }

    /// The store after one record.
    ///
    /// A created issue replaces what was stored under its identifier. A
    /// comment goes behind the comments of its issue. A change of status or
    /// priority touches the issue it names and nothing else, and does
    /// nothing where the store has no such issue.
    pub open spec fn apply(self, event: IssueEvent) -> IssuesView {
        match event {
            IssueEvent::IssueCreated(issue) => IssuesView {
                issues: self.issues.insert(issue.id, issue),
                ..self
            },
            IssueEvent::CommentAdded(comment) => IssuesView {
                comments: self.comments.insert(
                    comment.parent_issue,
                    self.comments_on(comment.parent_issue).push(comment),
                ),
                ..self
            },
            IssueEvent::StatusChanged { issue_id, status } => if self.issues.contains_key(
                issue_id,
            ) {
                IssuesView {
                    issues: self.issues.insert(
                        issue_id,
                        Issue { status, ..self.issues[issue_id] },
                    ),
                    ..self
                }
            } else {
                self
            },
            IssueEvent::PriorityChanged { issue_id, priority } => if self.issues.contains_key(
                issue_id,
            ) {
                IssuesView {
                    issues: self.issues.insert(
                        issue_id,
                        Issue { priority, ..self.issues[issue_id] },
                    ),
                    ..self
                }
            } else {
                self
            },
        }
    }

    /// The store after a sequence of records, applied first to last.
    pub open spec fn replay(self, events: Seq<IssueEvent>) -> IssuesView
        decreases events.len(),
    {
        if events.len() == 0 {
            self
        } else {
            self.replay(events.drop_last()).apply(events.last())
        }
    }

    /// Whether the store holds an issue, under whatever identifier.
    pub open spec fn holds(self, issue: Issue) -> bool {
        exists|k: IssueId| self.issues.contains_key(k) && self.issues[k] == issue
    }

    /// Whether every issue is stored under its own identifier.
    pub open spec fn ids_are_keys(self) -> bool {
        forall|k: IssueId| self.issues.contains_key(k) ==> (#[trigger] self.issues[k]).id == k
    }

    /// Whether an identifier is at least as large as every identifier in use.
    pub open spec fn bounds_ids(self, id: IssueId) -> bool {
        forall|k: IssueId| self.issues.contains_key(k) ==> k <= id
    }

    /// Whether an identifier is the one for the next issue: one more than
    /// the largest in use, and 1 in a store without issues.
    pub open spec fn is_next_id(self, id: IssueId) -> bool {
        if forall|k: IssueId| !self.issues.contains_key(k) {
            id == 1
        } else {
            &&& id >= 1
            &&& self.issues.contains_key((id - 1) as IssueId)
            &&& self.bounds_ids((id - 1) as IssueId)
        }
    }
}

impl View for Issues {
    type V = IssuesView;

    closed spec fn view(&self) -> IssuesView {
        IssuesView {
            issues: self.issues@,
            comments: Map::new(
                |k: IssueId| self.comments@.contains_key(k),
                |k: IssueId| self.comments@[k]@,
            ),
        }
    }
}

impl Default for Issues {
    fn default() -> (r: Self)
        ensures
            r@ == IssuesView::empty(),
    {
        Issues::new()
    }
}

impl Issues {
    /// A store without issues or comments.
    pub fn new() -> (r: Issues)
        ensures
            r@ == IssuesView::empty(),
    {
        let r = Issues { issues: HashMap::new(), comments: HashMap::new() };
        assert(r@.comments =~= Map::empty());
        r
    }

    /// Returns the next available sequential issue ID (max(existing IDs) + 1 or 1 if empty).
    ///
    /// The largest identifier that the machine can hold has no successor:
    /// a store that uses it cannot hand out another.
    pub fn next_issue_id(&self) -> (r: IssueId)
        requires
            !self@.issues.contains_key(u64::MAX),
        ensures
            self@.is_next_id(r),
    {
        let mut next: IssueId = 1;
        let mut seen: bool = false;
        let ghost mut done: Set<IssueId> = Set::empty();
        for k in it: self.issues.keys()
            invariant
                !self@.issues.contains_key(u64::MAX),
                it.seq().unref().to_set() == self.issues@.dom(),
                done == it.seq().unref().take(it.index()).to_set(),
                it.index() == it.seq().len() ==> done == self.issues@.dom(),
                !seen ==> next == 1 && done == Set::<IssueId>::empty(),
                seen ==> next >= 1 && self.issues@.contains_key((next - 1) as IssueId),
                forall|j: IssueId| done.contains(j) ==> j < next,
        {
            proof {
                let keys = it.seq().unref();
                assert(keys[it.index()] == *k);
                assert(keys.to_set().contains(*k));
                assert(keys.take(it.index() + 1) =~= keys.take(it.index()).push(*k));
                vstd::seq_lib::seq_to_set_is_finite(keys.take(it.index()));
                assert(keys.take(it.index()).push(*k).to_set() =~= done.insert(*k)) by {
                    assert forall|x: IssueId|
                        keys.take(it.index()).push(*k).to_set().contains(x) <==> done.insert(
                            *k,
                        ).contains(x) by {
                        let t = keys.take(it.index());
                        if t.push(*k).to_set().contains(x) {
                            let i = choose|i: int| 0 <= i < t.push(*k).len() && t.push(*k)[i] == x;
                            if i < t.len() {
                                assert(t[i] == x);
                            }
                        }
                        if done.contains(x) {
                            let i = choose|i: int| 0 <= i < t.len() && t[i] == x;
                            assert(t.push(*k)[i] == x);
                        }
                        if x == *k {
                            assert(t.push(*k)[t.len() as int] == x);
                        }
                    }
                }
                assert(it.index() + 1 == it.seq().len() ==> keys.take(it.index() + 1) == keys) by {
                    if it.index() + 1 == it.seq().len() {
                        assert(keys.take(it.index() + 1) =~= keys);
                    }
                }
            }
            proof {
                done = done.insert(*k);
            }
            if !seen || *k >= next {
                next = *k + 1;
            }
            seen = true;
        }
        proof {
            if !seen {
                assert forall|k: IssueId| !self@.issues.contains_key(k) by {
                    assert(!done.contains(k));
                }
            }
        }
        next
    }

    /// Reconstructs Issues state from a sequence of events.
    pub fn from_events(events: Vec<IssueEvent>) -> (r: Issues)
        ensures
            r@ == IssuesView::empty().replay(events@),
    {
        let mut store = Issues::new();
        let ghost all = events@;
        for event in it: events
            invariant
                it.seq() == all,
                store@ == IssuesView::empty().replay(all.take(it.index())),
        {
            proof {
                let next = all.take(it.index() + 1);
                assert(next.drop_last() =~= all.take(it.index()));
                assert(next.last() == event);
            }
            store.apply_event(event);
        }
        assert(all.take(all.len() as int) =~= all);
        store
    }

    /// Reconstructs the store from the lines of an event log.
    ///
    /// Every line must hold a record. The first one that holds none fails
    /// the load, and the error carries that line.
    pub fn from_jsonl(lines: Vec<DecodedLine>) -> (r: Result<Issues, IssuesEventError>)
        ensures
            match r {
                Ok(store) => {
                    &&& forall|i: int| 0 <= i < lines@.len() ==> (#[trigger] lines@[i]).event is Some
                    &&& store@ == IssuesView::empty().replay(decoded_events(lines@))
                },
                Err(e) => exists|i: int| #[trigger]
                    first_undecoded(lines@, i) && e.line == Some(lines@[i].line),
            },
    {
        let mut store = Issues::new();
        let ghost all = lines@;
        for decoded in it: lines
            invariant
                it.seq() == all,
                forall|j: int| 0 <= j < it.index() ==> (#[trigger] all[j]).event is Some,
                store@ == IssuesView::empty().replay(decoded_events(all.take(it.index()))),
        {
            proof {
                let next = all.take(it.index() + 1);
                assert(next.drop_last() =~= all.take(it.index()));
                assert(next.last() == decoded);
            }
            match decoded.event {
                Some(event) => {
                    proof {
                        let events = decoded_events(all.take(it.index() + 1));
                        assert(events.drop_last() =~= decoded_events(all.take(it.index())));
                    }
                    store.apply_event(event);
                },
                None => {
                    assert(first_undecoded(all, it.index()));
                    return Err(IssuesEventError { line: Some(decoded.line) });
                },
            }
        }
        assert(all.take(all.len() as int) =~= all);
        Ok(store)
    }

    /// Takes a record into the store once it stands in the event log.
    ///
    /// A record that was written is applied. One whose write failed is not,
    /// and the store stays as it was.
    pub fn append_to_log(&mut self, write: LogWrite, event: IssueEvent) -> (r: Result<
        (),
        IssuesEventError,
    >)
        ensures
            write == LogWrite::Written ==> r is Ok && final(self)@ == old(self)@.apply(event),
            write == LogWrite::Failed ==> r == Err::<(), IssuesEventError>(
                IssuesEventError { line: None },
            ) && *final(self) == *old(self),
    {
        match write {
            LogWrite::Written => {
                self.apply_event(event);
                Ok(())
            },
            LogWrite::Failed => Err(IssuesEventError { line: None }),
        }
    }

    /// The issue with an identifier, if the store holds one.
    pub fn get_issue(&self, id: &IssueId) -> (r: Option<&Issue>)
        ensures
            r == if self@.issues.contains_key(*id) {
                Some(&self@.issues[*id])
            } else {
                None
            },
    {
        self.issues.get(id)
    }

    /// The comments on an issue, oldest first.
    pub fn get_comments(&self, id: &IssueId) -> (r: Option<&Vec<Comment>>)
        ensures
            match r {
                Some(thread) => self@.comments.contains_key(*id) && thread@ == self@.comments[*id],
                None => !self@.comments.contains_key(*id),
            },
    {
        self.comments.get(id)
    }

    /// All issues of the store, in no particular order.
    pub fn iter_issues(&self) -> (r: Vec<&Issue>)
        ensures
            r.len() == self@.issues.dom().len(),
            forall|i: int| 0 <= i < r.len() ==> self@.holds(*#[trigger] r[i]),
            forall|k: IssueId| #[trigger]
                self@.issues.contains_key(k) ==> exists|i: int|
                    0 <= i < r.len() && *r[i] == self@.issues[k],
    {
        let mut out: Vec<&Issue> = Vec::new();
        let ghost view = self@;
        for pair in it: self.issues.iter()
            invariant
                view == self@,
                view.issues == self.issues@,
                it.seq().len() == self.issues@.dom().len(),
                forall|i: int|
                    0 <= i < it.seq().len() ==> self.issues@.contains_key(
                        *(#[trigger] it.seq()[i]).0,
                    ) && self.issues@[*it.seq()[i].0] == *it.seq()[i].1,
                forall|k: IssueId| #[trigger]
                    self.issues@.contains_key(k) ==> it.seq().contains((&k, &self.issues@[k])),
                out.len() == it.index(),
                forall|j: int| 0 <= j < out.len() ==> *(#[trigger] out[j]) == *it.seq()[j].1,
                forall|j: int| 0 <= j < out.len() ==> view.holds(*#[trigger] out[j]),
                it.index() == it.seq().len() ==> forall|k: IssueId| #[trigger]
                    self.issues@.contains_key(k) ==> exists|i: int|
                        0 <= i < out.len() && *out[i] == self.issues@[k],
        {
            out.push(pair.1);
            proof {
                assert(it.seq()[it.index()] == pair);
                assert(self.issues@.contains_key(*pair.0) && self.issues@[*pair.0] == *pair.1);
                assert(view.holds(*pair.1));
                assert(it.index() + 1 == it.seq().len() ==> forall|k: IssueId| #[trigger]
                    self.issues@.contains_key(k) ==> exists|i: int|
                        0 <= i < out.len() && *out[i] == self.issues@[k]) by {
                    if it.index() + 1 == it.seq().len() {
                        assert forall|k: IssueId| #[trigger]
                            self.issues@.contains_key(k) implies exists|i: int|
                            0 <= i < out.len() && *out[i] == self.issues@[k] by {
                            let item = (&k, &self.issues@[k]);
                            assert(it.seq().contains(item));
                            let i = choose|i: int| 0 <= i < it.seq().len() && it.seq()[i] == item;
                            assert(*out[i] == self.issues@[k]);
                        }
                    }
                }
            }
        }
        out
    }

    /// All issues of the store with the identifiers that they are stored
    /// under, each identifier once, in no particular order.
    pub fn entries(&self) -> (r: Vec<(IssueId, &Issue)>)
        ensures
            r.len() == self@.issues.dom().len(),
            forall|i: int|
                0 <= i < r.len() ==> self@.issues.contains_key((#[trigger] r[i]).0)
                    && self@.issues[r[i].0] == *r[i].1,
            forall|i: int, j: int|
                0 <= i < j < r.len() ==> (#[trigger] r[i]).0 != (#[trigger] r[j]).0,
            forall|k: IssueId| #[trigger]
                self@.issues.contains_key(k) ==> exists|i: int| 0 <= i < r.len() && r[i].0 == k,
    {
        let mut out: Vec<(IssueId, &Issue)> = Vec::new();
        let ghost view = self@;
        for pair in it: self.issues.iter()
            invariant
                view == self@,
                view.issues == self.issues@,
                it.seq().len() == self.issues@.dom().len(),
                it.seq().no_duplicates(),
                forall|i: int|
                    0 <= i < it.seq().len() ==> self.issues@.contains_key(
                        *(#[trigger] it.seq()[i]).0,
                    ) && self.issues@[*it.seq()[i].0] == *it.seq()[i].1,
                forall|k: IssueId| #[trigger]
                    self.issues@.contains_key(k) ==> it.seq().contains((&k, &self.issues@[k])),
                out.len() == it.index(),
                forall|j: int|
                    0 <= j < out.len() ==> (#[trigger] out[j]).0 == *it.seq()[j].0 && *out[j].1
                        == *it.seq()[j].1,
                forall|j: int|
                    0 <= j < out.len() ==> view.issues.contains_key((#[trigger] out[j]).0)
                        && view.issues[out[j].0] == *out[j].1,
                forall|i: int, j: int|
                    0 <= i < j < out.len() ==> (#[trigger] out[i]).0 != (#[trigger] out[j]).0,
                it.index() == it.seq().len() ==> forall|k: IssueId| #[trigger]
                    self.issues@.contains_key(k) ==> exists|i: int|
                        0 <= i < out.len() && out[i].0 == k,
        {
            let ghost before = out@;
            out.push((*pair.0, pair.1));
            proof {
                let n = it.index();
                assert(it.seq()[n] == pair);
                assert(self.issues@.contains_key(*pair.0) && self.issues@[*pair.0] == *pair.1);
                assert forall|i: int, j: int| 0 <= i < j < out.len() implies (#[trigger] out[i]).0
                    != (#[trigger] out[j]).0 by {
                    if j == n {
                        assert(out[i] == before[i]);
                        if out[i].0 == out[j].0 {
                            assert(*it.seq()[i].0 == *it.seq()[n].0);
                            assert(*it.seq()[i].1 == *it.seq()[n].1);
                            assert(it.seq()[i] == it.seq()[n]);
                        }
                    } else {
                        assert(out[i] == before[i] && out[j] == before[j]);
                    }
                }
                assert(it.index() + 1 == it.seq().len() ==> forall|k: IssueId| #[trigger]
                    self.issues@.contains_key(k) ==> exists|i: int|
                        0 <= i < out.len() && out[i].0 == k) by {
                    if it.index() + 1 == it.seq().len() {
                        assert forall|k: IssueId| #[trigger]
                            self.issues@.contains_key(k) implies exists|i: int|
                            0 <= i < out.len() && out[i].0 == k by {
                            let item = (&k, &self.issues@[k]);
                            assert(it.seq().contains(item));
                            let i = choose|i: int| 0 <= i < it.seq().len() && it.seq()[i] == item;
                            assert(out[i].0 == k);
                        }
                    }
                }
            }
        }
        out
    }

    /// All comments grouped by their parent issue, in no particular order.
    pub fn iter_comments(&self) -> (r: Vec<(IssueId, &Vec<Comment>)>)
        ensures
            r.len() == self@.comments.dom().len(),
            forall|i: int|
                0 <= i < r.len() ==> self@.comments.contains_key((#[trigger] r[i]).0)
                    && self@.comments[r[i].0] == r[i].1@,
            forall|k: IssueId| #[trigger]
                self@.comments.contains_key(k) ==> exists|i: int| 0 <= i < r.len() && r[i].0 == k,
    {
        let mut out: Vec<(IssueId, &Vec<Comment>)> = Vec::new();
        let ghost view = self@;
        assert(view.comments.dom() =~= self.comments@.dom());
        for pair in it: self.comments.iter()
            invariant
                view == self@,
                it.seq().len() == self.comments@.dom().len(),
                forall|i: int|
                    0 <= i < it.seq().len() ==> self.comments@.contains_key(
                        *(#[trigger] it.seq()[i]).0,
                    ) && self.comments@[*it.seq()[i].0] == *it.seq()[i].1,
                forall|k: IssueId| #[trigger]
                    self.comments@.contains_key(k) ==> it.seq().contains(
                        (&k, &self.comments@[k]),
                    ),
                out.len() == it.index(),
                forall|j: int| 0 <= j < out.len() ==> (#[trigger] out[j]).0 == *it.seq()[j].0,
                forall|j: int|
                    0 <= j < out.len() ==> view.comments.contains_key((#[trigger] out[j]).0)
                        && view.comments[out[j].0] == out[j].1@,
                it.index() == it.seq().len() ==> forall|k: IssueId| #[trigger]
                    self.comments@.contains_key(k) ==> exists|i: int|
                        0 <= i < out.len() && out[i].0 == k,
        {
            out.push((*pair.0, pair.1));
            proof {
                assert(it.seq()[it.index()] == pair);
                assert(self.comments@.contains_key(*pair.0) && self.comments@[*pair.0] == *pair.1);
                assert(it.index() + 1 == it.seq().len() ==> forall|k: IssueId| #[trigger]
                    self.comments@.contains_key(k) ==> exists|i: int|
                        0 <= i < out.len() && out[i].0 == k) by {
                    if it.index() + 1 == it.seq().len() {
                        assert forall|k: IssueId| #[trigger]
                            self.comments@.contains_key(k) implies exists|i: int|
                            0 <= i < out.len() && out[i].0 == k by {
                            let item = (&k, &self.comments@[k]);
                            assert(it.seq().contains(item));
                            let i = choose|i: int| 0 <= i < it.seq().len() && it.seq()[i] == item;
                            assert(out[i].0 == k);
                        }
                    }
                }
            }
        }
        out
    }

    /// Applies a single event to update the projected state.
    pub fn apply_event(&mut self, event: IssueEvent)
        ensures
            final(self)@ == old(self)@.apply(event),
    {
        match event {
            IssueEvent::IssueCreated(item) => {
                self.issues.insert(item.id, item);
            },
            IssueEvent::CommentAdded(comment) => {
                let parent = comment.parent_issue;
                let mut thread = match self.comments.remove(&parent) {
                    Some(thread) => thread,
                    None => Vec::new(),
                };
                thread.push(comment);
                self.comments.insert(parent, thread);
                assert(final(self)@.comments =~= old(self)@.apply(event).comments);
            },
            IssueEvent::StatusChanged { issue_id, status } => {
                match self.issues.remove(&issue_id) {
                    Some(mut issue) => {
                        issue.status = status;
                        self.issues.insert(issue_id, issue);
                    },
                    None => {},
                }
                assert(self.issues@ =~= old(self)@.apply(event).issues);
            },
            IssueEvent::PriorityChanged { issue_id, priority } => {
                match self.issues.remove(&issue_id) {
                    Some(mut issue) => {
                        issue.priority = priority;
                        self.issues.insert(issue_id, issue);
                    },
                    None => {},
                }
                assert(self.issues@ =~= old(self)@.apply(event).issues);
            },
        }
    }
}

/// Replaying a log and then one more record is replaying the longer log:
/// a replay is the records applied one at a time, in their order.
pub proof fn lemma_replay_step(store: IssuesView, events: Seq<IssueEvent>, event: IssueEvent)
    ensures
        store.replay(events.push(event)) == store.replay(events).apply(event),
{
    assert(events.push(event).drop_last() =~= events);
}

/// Replaying two logs one after the other is replaying them joined.
pub proof fn lemma_replay_concat(
    store: IssuesView,
    first: Seq<IssueEvent>,
    second: Seq<IssueEvent>,
)
    ensures
        store.replay(first + second) == store.replay(first).replay(second),
    decreases second.len(),
{
    if second.len() == 0 {
        assert(first + second =~= first);
    } else {
        lemma_replay_concat(store, first, second.drop_last());
        assert((first + second).drop_last() =~= first + second.drop_last());
        assert((first + second).last() == second.last());
    }
}

/// A change of status or priority that names an issue which the store does
/// not hold leaves the store as it was.
pub proof fn lemma_change_of_unknown_issue(
    store: IssuesView,
    issue_id: IssueId,
    status: Status,
    priority: Priority,
)
    requires
        !store.issues.contains_key(issue_id),
    ensures
        store.apply(IssueEvent::StatusChanged { issue_id, status }) == store,
        store.apply(IssueEvent::PriorityChanged { issue_id, priority }) == store,
{
}

/// A store that holds every issue under its own identifier still does so
/// after a record, and after a whole log. The empty store does, so every
/// store that was replayed from a log does.
pub proof fn lemma_replay_keeps_ids(store: IssuesView, events: Seq<IssueEvent>)
    requires
        store.ids_are_keys(),
    ensures
        store.replay(events).ids_are_keys(),
        IssuesView::empty().ids_are_keys(),
    decreases events.len(),
{
    if events.len() > 0 {
        lemma_replay_keeps_ids(store, events.drop_last());
        let before = store.replay(events.drop_last());
        let after = before.apply(events.last());
        assert forall|k: IssueId| after.issues.contains_key(k) implies (#[trigger] after.issues[k]).id
            == k by {
            if before.issues.contains_key(k) {
                assert(before.issues[k].id == k);
            }
        }
    }
}

/// The identifier for the next issue is determined by the store, is not in
/// use, and is larger than every identifier in use.
pub proof fn lemma_next_id_is_fresh(store: IssuesView, id: IssueId, other: IssueId)
    requires
        store.is_next_id(id),
    ensures
        !store.issues.contains_key(id),
        forall|k: IssueId| store.issues.contains_key(k) ==> k < id,
        store.is_next_id(other) ==> other == id,
        id >= 1,
{
    if forall|k: IssueId| !store.issues.contains_key(k) {
    } else {
        let max = (id - 1) as IssueId;
        assert(store.bounds_ids(max));
        if store.is_next_id(other) {
            let m = (other - 1) as IssueId;
            assert(store.issues.contains_key(m) && store.bounds_ids(m));
            assert(m <= max && max <= m);
        }
    }
}

/// No record takes an issue out of the store, and only the creation of an
/// issue brings one in.
pub proof fn lemma_apply_keeps_issues(store: IssuesView, event: IssueEvent, id: IssueId)
    ensures
        store.issues.contains_key(id) ==> store.apply(event).issues.contains_key(id),
        store.apply(event).issues.contains_key(id) && !store.issues.contains_key(id) ==> (event
            matches IssueEvent::IssueCreated(issue) && issue.id == id),
{
}

/// Comments only grow: the comments on an issue before a record are a
/// prefix of those after it.
pub proof fn lemma_apply_appends_comments(store: IssuesView, event: IssueEvent, id: IssueId)
    ensures
        store.comments_on(id).is_prefix_of(store.apply(event).comments_on(id)),
{
}

} // verus!
