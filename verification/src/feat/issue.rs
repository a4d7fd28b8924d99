//! Issues, their comments, and the fields they are made of.

pub mod comment;
pub mod priority;
pub mod status;
pub mod template;
pub mod timestamp;

pub use comment::Comment;
pub use priority::{Priority, PriorityParseError};
pub use status::{Status, StatusParseError};
pub use template::IssueItemTemplate;
pub use timestamp::Timestamp;

use crate::text::{chars_of, text_of, trim_range, trimmed};
use std::collections::HashMap;
use vstd::prelude::*;

verus! {

/// A type alias for issue identifiers.
pub type IssueId = u64;

/// The text is not a front matter between two `---` lines and a comment.
#[derive(Debug, Clone, Copy, PartialEq, Eq)]
pub struct IssueParseError;

/// Represents a project issue with metadata and custom fields.
#[derive(Debug, Clone, PartialEq, Eq)]
pub struct Issue {
    pub id: IssueId,
    pub title: String,
    pub created: Timestamp,
    pub status: Status,
    pub priority: Priority,
    pub created_by: String,
    pub custom: HashMap<String, String>,
}

/// Whether a line break followed by `---` stands at a position of a text.
pub open spec fn delimiter_at(t: Seq<char>, p: int) -> bool {
    &&& 0 <= p
    &&& p + 4 <= t.len()
    &&& t[p] == '\n'
    &&& t[p + 1] == '-'
    &&& t[p + 2] == '-'
    &&& t[p + 3] == '-'
}

/// Whether a text starts with `---` and a line break.
pub open spec fn opens_front_matter(t: Seq<char>) -> bool {
    &&& t.len() >= 4
    &&& t[0] == '-'
    &&& t[1] == '-'
    &&& t[2] == '-'
    &&& t[3] == '\n'
}

/// Whether the last delimiter of a text stands at a position behind the
/// opening line.
pub open spec fn closes_front_matter(t: Seq<char>, p: int) -> bool {
    &&& 4 <= p
    &&& delimiter_at(t, p)
    &&& forall|q: int| p < q ==> !delimiter_at(t, q)
}

/// Whether a trimmed text has the shape of an issue template: an opening
/// `---` line, and behind it one more line break followed by `---`.
pub open spec fn is_template(t: Seq<char>) -> bool {
    opens_front_matter(t) && exists|p: int| 4 <= p && delimiter_at(t, p)
}

impl Issue {
    /// Returns the template that can be used to interactively create an issue.
    pub fn new_template() -> (r: &'static str)
        ensures
            r@ == Issue::template_text(),
    {
        "---\ntitle: ENTER ISSUE TITLE HERE\ncreated_by: YOUR.EMAIL@EXAMPLE.COM\n\n# Trivial | Low | Medium | High | Critical | Blocker\npriority: Low\n\ncustom:\n  # assigned_to: user\n\n---\n<no comment provided>\n"
    }

    /// The text of the template for a new issue.
    pub open spec fn template_text() -> Seq<char> {
        "---\ntitle: ENTER ISSUE TITLE HERE\ncreated_by: YOUR.EMAIL@EXAMPLE.COM\n\n# Trivial | Low | Medium | High | Critical | Blocker\npriority: Low\n\ncustom:\n  # assigned_to: user\n\n---\n<no comment provided>\n"@
    }

    /// Extracts the front matter and the comment from the text of an issue.
    ///
    /// The text is trimmed first. It must open with `---` and a line break.
    /// The front matter ends at the last line break that is followed by
    /// `---`; the comment is what stands behind those dashes. Both parts
    /// are returned trimmed.
    pub fn extract_issue_parts(issue: &str) -> (r: Result<(String, String), IssueParseError>)
        ensures
            match r {
                Ok((yaml, comment)) => {
                    let t = trimmed(issue@);
                    &&& opens_front_matter(t)
                    &&& exists|p: int|
                        {
                            &&& #[trigger] closes_front_matter(t, p)
                            &&& yaml@ == trimmed(t.subrange(4, p))
                            &&& comment@ == trimmed(t.subrange(p + 4, t.len() as int))
                        }
                },
                Err(_) => !is_template(trimmed(issue@)),
            },
    {
        let chars = chars_of(issue);
        let (a, b) = trim_range(&chars, 0, chars.len());
        let ghost t = trimmed(issue@);
        assert(chars@.subrange(0, chars.len() as int) =~= issue@);
        assert(t == chars@.subrange(a as int, b as int));
        if b - a < 8 || chars[a] != '-' || chars[a + 1] != '-' || chars[a + 2] != '-' || chars[a
            + 3] != '\n' {
            assert(!is_template(t)) by {
                if opens_front_matter(t) {
                    assert(t.len() < 8);
                }
            }
            return Err(IssueParseError);
        }
        assert(opens_front_matter(t));
        let mut p: usize = b - 4;
        while p >= a + 4
            invariant
                a + 8 <= b <= chars.len(),
                a + 3 <= p <= b - 4,
                t == chars@.subrange(a as int, b as int),
                t == trimmed(issue@),
                opens_front_matter(t),
                forall|q: int| p - a < q ==> !delimiter_at(t, q),
            decreases p,
        {
            if chars[p] == '\n' && chars[p + 1] == '-' && chars[p + 2] == '-' && chars[p + 3]
                == '-' {
                let (ya, yb) = trim_range(&chars, a + 4, p);
                let (ca, cb) = trim_range(&chars, p + 4, b);
                let yaml = text_of(&chars, ya, yb);
                let comment = text_of(&chars, ca, cb);
                proof {
                    let k = (p - a) as int;
                    assert(delimiter_at(t, k));
                    assert(closes_front_matter(t, k));
                    assert(t.subrange(4, k) =~= chars@.subrange(a + 4, p as int));
                    assert(t.subrange(k + 4, t.len() as int) =~= chars@.subrange(
                        p + 4,
                        b as int,
                    ));
                    assert(yaml@ == trimmed(t.subrange(4, k)));
                    assert(comment@ == trimmed(t.subrange(k + 4, t.len() as int)));
                }
                return Ok((yaml, comment));
            }
            assert(!delimiter_at(t, p - a));
            p -= 1;
        }
        assert(!is_template(t));
        Err(IssueParseError)
    }

    /// The issue and the first comment that a filled-in template stands for.
    ///
    /// The issue is open, carries the given identifier and instant, and takes
    /// its other fields from the template. The comment belongs to the issue and
    /// shares its instant and author.
    pub fn from_template(
        new_id: IssueId,
        template: IssueItemTemplate,
        comment: String,
        created: Timestamp,
    ) -> (r: (Issue, Comment))
        ensures
            r.0.id == new_id,
            r.0.title == template.title,
            r.0.created == created,
            r.0.status == Status::Open,
            r.0.priority == template.priority,
            r.0.created_by == template.created_by,
            r.0.custom == template.custom,
            r.1.parent_issue == new_id,
            r.1.content == comment,
            r.1.created_at == created,
            r.1.author == template.created_by,
    {
        let author = template.created_by.clone();
        let issue = Issue {
            id: new_id,
            title: template.title,
            created,
            status: Status::Open,
            priority: template.priority,
            created_by: template.created_by,
            custom: template.custom,
        };
        let comment = Comment { parent_issue: new_id, content: comment, created_at: created, author };
        (issue, comment)
    }
}

} // verus!
