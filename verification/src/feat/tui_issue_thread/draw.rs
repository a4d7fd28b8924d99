//! The lines of the thread page: an issue and its comments as text.

use crate::feat::issue::timestamp::{format_timestamp, strftime_text};
use crate::feat::issue::{Comment, Issue};
use crate::feat::issues::{Issues, IssuesView};
use crate::feat::tui_issue_thread::IssueThreadState;
use crate::text::{
    char_is_whitespace, chars_of, decimal, decimal_text, is_whitespace, leading_whitespace,
    lemma_leading_whitespace_is, lines, lines_of, text_of, texts_of, trim, trimmed,
};
use vstd::prelude::*;
use vstd::string::StringExecFns;

verus! {

/// The lines that `textwrap` breaks a text into for a width.
pub uninterp spec fn wrapped_lines(text: Seq<char>, width: usize) -> Seq<Seq<char>>;

/// Calls `textwrap::wrap` with a text and a width and copies the lines out.
/// The contract only names the result.
#[verifier::external_body]
fn wrap_text(text: &str, width: usize) -> (r: Vec<String>)
    requires
        width >= 1,
    ensures
        texts_of(r@) == wrapped_lines(text@, width),
{
    textwrap::wrap(text, width).into_iter().map(|line| line.into_owned()).collect()
}

/// The format in which the thread page writes an instant.
pub open spec fn instant_format() -> Seq<char> {
    "%Y-%m-%d %H:%M:%S"@
}

/// The width that the text of a comment is wrapped to in an area of a
/// width: three columns less, and one at least.
pub open spec fn wrap_width(area_width: u16) -> usize {
    if area_width > 4 {
        (area_width - 3) as usize
    } else {
        1
    }
}

/// The rows that the wrapped pieces of a line make: each piece without its
/// leading whitespace, behind four blanks, and no row for a piece that has
/// nothing else.
pub open spec fn wrapped_rows(pieces: Seq<Seq<char>>) -> Seq<Seq<char>>
    decreases pieces.len(),
{
    if pieces.len() == 0 {
        Seq::empty()
    } else {
        let before = wrapped_rows(pieces.drop_last());
        let piece = pieces.last();
        let text = piece.subrange(leading_whitespace(piece) as int, piece.len() as int);
        if text.len() == 0 {
            before
        } else {
            before.push("    "@ + text)
        }
    }
}

/// The rows that the lines of a comment make, wrapped to a width: the rows
/// of each line, and a row of three blanks for a line that is blank.
pub open spec fn content_rows(content: Seq<Seq<char>>, width: usize) -> Seq<Seq<char>>
    decreases content.len(),
{
    if content.len() == 0 {
        Seq::empty()
    } else {
        let before = content_rows(content.drop_last(), width);
        let line = content.last();
        let rows = before + wrapped_rows(wrapped_lines(line, width));
        if trimmed(line).len() == 0 {
            rows.push("   "@)
        } else {
            rows
        }
    }
}

/// The rows of a comment: who wrote it and when, then its text, then an
/// empty row.
pub open spec fn comment_rows(comment: Comment, written: Seq<char>, width: usize) -> Seq<
    Seq<char>,
> {
    seq!["Comment by "@ + comment.author@ + " at "@ + written] + content_rows(
        lines_of(comment.content@),
        width,
    ) + seq![Seq::<char>::empty()]
}

/// The rows above the comments: what the issue is.
pub open spec fn issue_rows(issue: Issue, created: Seq<char>) -> Seq<Seq<char>> {
    seq![
        "Status: "@ + issue.status.name(),
        "Priority: "@ + issue.priority.name(),
        "Created: "@ + created,
        "Created by: "@ + issue.created_by@,
        Seq::<char>::empty(),
    ]
}

/// The title of the thread page of an issue.
pub open spec fn title_of(issue: Issue) -> Seq<char> {
    "Issue #"@ + decimal_text(issue.id as nat) + ": "@ + issue.title@
}

/// The title of the thread page of an issue.
pub fn thread_title(issue: &Issue) -> (r: String)
    ensures
        r@ == title_of(*issue),
{
    let mut title = "Issue #".to_owned();
    title.append(decimal(issue.id).as_str());
    title.append(": ");
    title.append(issue.title.as_str());
    title
}

/// A text without its leading whitespace.
pub fn trim_start(text: &str) -> (r: String)
    ensures
        r@ == text@.subrange(leading_whitespace(text@) as int, text@.len() as int),
{
    let chars = chars_of(text);
    let mut at: usize = 0;
    while at < chars.len() && char_is_whitespace(chars[at])
        invariant
            at <= chars.len(),
            forall|i: int| 0 <= i < at ==> is_whitespace(#[trigger] chars@[i]),
        decreases chars.len() - at,
    {
        at += 1;
    }
    proof {
        lemma_leading_whitespace_is(chars@, at as int);
    }
    text_of(&chars, at, chars.len())
}

/// Adds the rows of the wrapped pieces of a line to the rows of a page.
pub fn push_wrapped_rows(rows: &mut Vec<String>, pieces: &Vec<String>)
    ensures
        texts_of(final(rows)@) == texts_of(old(rows)@) + wrapped_rows(texts_of(pieces@)),
{
    let ghost start = texts_of(rows@);
    let ghost all = texts_of(pieces@);
    let mut i: usize = 0;
    assert(start + wrapped_rows(all.take(0)) =~= start);
    while i < pieces.len()
        invariant
            i <= pieces.len(),
            all == texts_of(pieces@),
            texts_of(rows@) == start + wrapped_rows(all.take(i as int)),
        decreases pieces.len() - i,
    {
        let text = trim_start(pieces[i].as_str());
        proof {
            let next = all.take(i + 1);
            assert(next.drop_last() =~= all.take(i as int));
            assert(next.last() == pieces@[i as int]@);
        }
        if !text.as_str().is_empty() {
            let ghost before = texts_of(rows@);
            let mut row = "    ".to_owned();
            row.append(text.as_str());
            rows.push(row);
            assert(texts_of(rows@) =~= before.push(row@));
            assert(before.push(row@) =~= start + wrapped_rows(all.take(i + 1)));
        }
        i += 1;
    }
    assert(all.take(pieces@.len() as int) =~= all);
}

/// Adds the rows of a comment's text, wrapped to a width, to the rows of a
/// page.
pub fn push_content_rows(rows: &mut Vec<String>, content: &str, width: usize)
    requires
        width >= 1,
    ensures
        texts_of(final(rows)@) == texts_of(old(rows)@) + content_rows(lines_of(content@), width),
{
    let ghost start = texts_of(rows@);
    let all = lines(content);
    let ghost texts = lines_of(content@);
    let mut i: usize = 0;
    assert(start + content_rows(texts.take(0), width) =~= start);
    while i < all.len()
        invariant
            i <= all.len(),
            width >= 1,
            texts.len() == all@.len(),
            forall|j: int| 0 <= j < all@.len() ==> (#[trigger] all@[j])@ == texts[j],
            texts_of(rows@) == start + content_rows(texts.take(i as int), width),
        decreases all.len() - i,
    {
        proof {
            let next = texts.take(i + 1);
            assert(next.drop_last() =~= texts.take(i as int));
            assert(next.last() == texts[i as int]);
        }
        let ghost before = texts_of(rows@);
        let pieces = wrap_text(all[i].as_str(), width);
        push_wrapped_rows(rows, &pieces);
        let ghost wrapped = texts_of(rows@);
        assert(wrapped =~= start + (content_rows(texts.take(i as int), width) + wrapped_rows(
            wrapped_lines(texts[i as int], width),
        )));
        if trim(all[i].as_str()).as_str().is_empty() {
            let row = "   ".to_owned();
            rows.push(row);
            assert(texts_of(rows@) =~= wrapped.push("   "@));
            assert(wrapped.push("   "@) =~= start + content_rows(texts.take(i + 1), width));
        } else {
            assert(wrapped =~= start + content_rows(texts.take(i + 1), width));
        }
        i += 1;
    }
    assert(texts.take(all@.len() as int) =~= texts);
}

/// The rows of comments, oldest first; none where the instant of one of
/// them cannot be written.
pub open spec fn comments_rows(comments: Seq<Comment>, width: usize) -> Option<Seq<Seq<char>>>
    decreases comments.len(),
{
    if comments.len() == 0 {
        Some(Seq::empty())
    } else {
        let last = comments.last();
        match (
            comments_rows(comments.drop_last(), width),
            strftime_text(instant_format(), last.created_at.second, last.created_at.nanosecond),
        ) {
            (Some(before), Some(written)) => Some(before + comment_rows(last, written, width)),
            _ => None,
        }
    }
}

/// The rows of the thread page for an issue and its comments in an area of
/// a width; none where an instant cannot be written.
pub open spec fn thread_rows(issue: Issue, comments: Seq<Comment>, area_width: u16) -> Option<
    Seq<Seq<char>>,
> {
    match (
        strftime_text(instant_format(), issue.created.second, issue.created.nanosecond),
        comments_rows(comments, wrap_width(area_width)),
    ) {
        (Some(created), Some(rows)) => Some(issue_rows(issue, created) + rows),
        _ => None,
    }
}

/// What the thread page shows.
#[derive(Debug, Clone, PartialEq, Eq)]
pub enum ThreadRows {
    /// The store holds no issue under the identifier of the page.
    NoIssue,
    /// An instant of the issue or of a comment cannot be written.
    Unwritable,
    /// The rows of the page, top to bottom.
    Rows(Vec<String>),
}

/// The rows of the thread page for an issue and its comments.
pub fn write_thread_rows(issue: &Issue, comments: &[Comment], area_width: u16) -> (r: Option<
    Vec<String>,
>)
    ensures
        match r {
            Some(rows) => thread_rows(*issue, comments@, area_width) == Some(texts_of(rows@)),
            None => thread_rows(*issue, comments@, area_width) is None,
        },
{
    let width: usize = if area_width > 4 {
        (area_width - 3) as usize
    } else {
        1
    };
    let created = match format_timestamp(&issue.created, "%Y-%m-%d %H:%M:%S") {
        Some(created) => created,
        None => {
            return None;
        },
    };
    let mut rows: Vec<String> = Vec::new();
    let mut row = "Status: ".to_owned();
    row.append(issue.status.to_string().as_str());
    rows.push(row);
    let mut row = "Priority: ".to_owned();
    row.append(issue.priority.to_string().as_str());
    rows.push(row);
    let mut row = "Created: ".to_owned();
    row.append(created.as_str());
    rows.push(row);
    let mut row = "Created by: ".to_owned();
    row.append(issue.created_by.as_str());
    rows.push(row);
    rows.push(String::new());
    let ghost head = issue_rows(*issue, created@);
    assert(texts_of(rows@) =~= head);
    let mut i: usize = 0;
    assert(comments@.take(0) =~= Seq::<Comment>::empty());
    assert(head + Seq::<Seq<char>>::empty() =~= head);
    while i < comments.len()
        invariant
            i <= comments.len(),
            width == wrap_width(area_width),
            width >= 1,
            comments_rows(comments@.take(i as int), width) is Some,
            texts_of(rows@) == head + comments_rows(comments@.take(i as int), width)->0,
        decreases comments.len() - i,
    {
        let comment = &comments[i];
        proof {
            let next = comments@.take(i + 1);
            assert(next.drop_last() =~= comments@.take(i as int));
            assert(next.last() == *comment);
        }
        let written = match format_timestamp(&comment.created_at, "%Y-%m-%d %H:%M:%S") {
            Some(written) => written,
            None => {
                proof {
                    lemma_comments_rows_fail(comments@, i + 1, width);
                }
                return None;
            },
        };
        let ghost before = texts_of(rows@);
        let mut row = "Comment by ".to_owned();
        row.append(comment.author.as_str());
        row.append(" at ");
        row.append(written.as_str());
        rows.push(row);
        assert(texts_of(rows@) =~= before.push(row@));
        push_content_rows(&mut rows, comment.content.as_str(), width);
        let ghost filled = texts_of(rows@);
        rows.push(String::new());
        assert(texts_of(rows@) =~= filled.push(Seq::<char>::empty()));
        assert(filled.push(Seq::<char>::empty()) =~= before + comment_rows(
            *comment,
            written@,
            width,
        ));
        assert(before + comment_rows(*comment, written@, width) =~= head + (comments_rows(
            comments@.take(i as int),
            width,
        )->0 + comment_rows(*comment, written@, width)));
        i += 1;
    }
    assert(comments@.take(comments@.len() as int) =~= comments@);
    Some(rows)
}

/// Comments have no rows once the comments before some place have none.
pub proof fn lemma_comments_rows_fail(comments: Seq<Comment>, upto: int, width: usize)
    requires
        0 <= upto <= comments.len(),
        comments_rows(comments.take(upto), width) is None,
    ensures
        comments_rows(comments, width) is None,
    decreases comments.len() - upto,
{
    if upto < comments.len() {
        let next = comments.take(upto + 1);
        assert(next.drop_last() =~= comments.take(upto));
        lemma_comments_rows_fail(comments, upto + 1, width);
    } else {
        assert(comments.take(upto) =~= comments);
    }
}

impl IssueThreadState {
    /// The rows that the thread page shows for a store in an area of a
    /// width; none where the store lacks the issue of the page, or an instant
    /// cannot be written.
    pub open spec fn rows_over(self, store: IssuesView, area_width: u16) -> Option<Seq<Seq<char>>> {
        if store.issues.contains_key(self.issue_id) {
            thread_rows(store.issues[self.issue_id], store.comments_on(self.issue_id), area_width)
        } else {
            None
        }
    }

    /// The page settled on a store for an area of a width: the selection
    /// is held to the number of rows where there are rows.
    pub open spec fn settled(self, store: IssuesView, area_width: u16) -> IssueThreadState {
        match self.rows_over(store, area_width) {
            Some(rows) => if rows.len() <= usize::MAX {
                IssueThreadState {
                    list_state: self.list_state.clamped(rows.len() as usize),
                    ..self
                }
            } else {
                self
            },
            None => self,
        }
    }

    /// The rows that the thread page shows for a store in an area of a
    /// width. The page is not changed.
    pub fn rows(&self, issues: &Issues, area_width: u16) -> (r: ThreadRows)
        ensures
            match r {
                ThreadRows::NoIssue => !issues@.issues.contains_key(self.issue_id),
                ThreadRows::Unwritable => issues@.issues.contains_key(self.issue_id)
                    && self.rows_over(issues@, area_width) is None,
                ThreadRows::Rows(rows) => self.rows_over(issues@, area_width) == Some(
                    texts_of(rows@),
                ),
            },
    {
        let issue = match issues.get_issue(&self.issue_id) {
            Some(issue) => issue,
            None => {
                return ThreadRows::NoIssue;
            },
        };
        let none: Vec<Comment> = Vec::new();
        let comments = match issues.get_comments(&self.issue_id) {
            Some(comments) => comments,
            None => &none,
        };
        match write_thread_rows(issue, comments.as_slice(), area_width) {
            Some(rows) => ThreadRows::Rows(rows),
            None => ThreadRows::Unwritable,
        }
    }

    /// Settles the page on a store before an event is handled: the
    /// selection is held to the number of rows that the page shows in an
    /// area of a width. Nothing changes where the page shows no rows.
    pub fn settle(&mut self, issues: &Issues, area_width: u16)
        ensures
            *final(self) == old(self).settled(issues@, area_width),
    {
        match self.rows(issues, area_width) {
            ThreadRows::Rows(rows) => {
                assert(texts_of(rows@).len() == rows@.len());
                self.list_state.clamp(rows.len());
            },
            _ => {},
        }
    }
}

} // verus!
