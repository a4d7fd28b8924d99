//! The rows of the issue table: which issues are shown, and in what order.

use crate::feat::issue::timestamp::{format_timestamp, strftime_text};
use crate::feat::issue::{Issue, IssueId, Status};
use crate::feat::issues::{Issues, IssuesView};
use crate::feat::tui_issue_table::column::{Column, ColumnView, SortDirection};
use crate::feat::tui_issue_table::state::IssueTableState;
use crate::feat::tui_widget::input_box::rope_first_line;
use crate::text::{
    chars_of, contains, contains_text, decimal, decimal_text, lemma_text_less_asymmetric,
    lemma_text_less_total, lemma_text_less_transitive, lowercase, remove_all, str_less, text_less,
    to_lowercase, without,
};
use std::collections::HashMap;
use vstd::prelude::*;
use vstd::string::StringExecFns;

verus! {

broadcast use vstd::std_specs::hash::group_hash_axioms;

/// What the text of the filter asks for.
#[derive(Debug, Clone, PartialEq, Eq)]
pub struct IssueFilter {
    /// Whether closed issues are left out.
    pub remove_closed: bool,
    /// Whether open issues are left out.
    pub remove_open: bool,
    /// What the lowercase title of an issue must hold, unless this is empty.
    pub text: Vec<char>,
}

/// What a filter asks for, as plain values.
pub struct IssueFilterView {
    pub remove_closed: bool,
    pub remove_open: bool,
    pub text: Seq<char>,
}

impl IssueFilterView {
    /// The filter that a text in lowercase stands for: `!closed` leaves
    /// the closed issues out and `!open` the open ones, and what is left of
    /// the text once these words are taken out is searched for in the
    /// titles.
    pub open spec fn of_lowercase(lower: Seq<char>) -> IssueFilterView {
        IssueFilterView {
            remove_closed: contains_text(lower, "!closed"@),
            remove_open: contains_text(lower, "!open"@),
            text: without(without(lower, "!closed"@), "!open"@),
        }
    }

    /// Whether the filter lets an issue with a status and a lowercase title
    /// through.
    pub open spec fn admits(self, status: Status, title: Seq<char>) -> bool {
        &&& !(self.remove_open && status == Status::Open)
        &&& !(self.remove_closed && status == Status::Closed)
        &&& (self.text.len() == 0 || contains_text(title, self.text))
    }

    /// Whether the filter lets an issue through.
    pub open spec fn keeps(self, issue: Issue) -> bool {
        self.admits(issue.status, lowercase(issue.title@))
    }
}

impl View for IssueFilter {
    type V = IssueFilterView;

    open spec fn view(&self) -> IssueFilterView {
        IssueFilterView {
            remove_closed: self.remove_closed,
            remove_open: self.remove_open,
            text: self.text@,
        }
    }
}

impl IssueFilter {
    /// The filter that a text in lowercase stands for.
    pub fn from_lowercase(lower: &str) -> (r: IssueFilter)
        ensures
            r@ == IssueFilterView::of_lowercase(lower@),
    {
        let text = chars_of(lower);
        let closed = chars_of("!closed");
        let open = chars_of("!open");
        let remove_closed = contains(&text, &closed);
        let remove_open = contains(&text, &open);
        let text = remove_all(&text, &closed);
        let text = remove_all(&text, &open);
        IssueFilter { remove_closed, remove_open, text }
    }

    /// The filter that a text stands for, whatever its case.
    pub fn parse(filter_text: &str) -> (r: IssueFilter)
        ensures
            r@ == IssueFilterView::of_lowercase(lowercase(filter_text@)),
    {
        let lower = to_lowercase(filter_text);
        IssueFilter::from_lowercase(lower.as_str())
    }

    /// Whether the filter lets an issue with a status and a lowercase title
    /// through.
    pub fn admits(&self, status: Status, title: &str) -> (r: bool)
        ensures
            r == self@.admits(status, title@),
    {
        if self.remove_open && status == Status::Open {
            return false;
        }
        if self.remove_closed && status == Status::Closed {
            return false;
        }
        if self.text.len() == 0 {
            return true;
        }
        let title = chars_of(title);
        contains(&title, &self.text)
    }

    /// Whether the filter lets an issue through.
    pub fn keeps(&self, issue: &Issue) -> (r: bool)
        ensures
            r == self@.keeps(*issue),
    {
        let title = to_lowercase(issue.title.as_str());
        self.admits(issue.status, title.as_str())
    }
}

/// Whether an issue comes before another in a table that is sorted by a
/// column in a direction. Descending, it is the other issue that comes
/// first. No issue comes before another by a custom column.
pub open spec fn sorts_before(a: Issue, b: Issue, column: ColumnView, direction: SortDirection) -> bool {
    let (x, y) = if direction == SortDirection::Ascending {
        (a, b)
    } else {
        (b, a)
    };
    match column {
        ColumnView::Id => x.id < y.id,
        ColumnView::Title => text_less(x.title@, y.title@),
        ColumnView::Created => x.created.precedes(y.created),
        ColumnView::Status => x.status.rank() < y.status.rank(),
        ColumnView::Priority => x.priority.rank() < y.priority.rank(),
        ColumnView::CreatedBy => text_less(x.created_by@, y.created_by@),
        ColumnView::Custom(_) => false,
    }
}

/// Whether no row of a table comes before a row above it.
pub open spec fn is_sorted(rows: Seq<&Issue>, column: ColumnView, direction: SortDirection) -> bool {
    forall|i: int, j: int|
        0 <= i < j < rows.len() ==> !sorts_before(*rows[j], *rows[i], column, direction)
}

/// The order of a table is a strict one: no issue comes before itself, and
/// an issue that comes before a second which comes before a third comes
/// before the third.
pub proof fn lemma_sorts_before_is_strict(
    a: Issue,
    b: Issue,
    c: Issue,
    column: ColumnView,
    direction: SortDirection,
)
    ensures
        !sorts_before(a, a, column, direction),
        !(sorts_before(a, b, column, direction) && sorts_before(b, a, column, direction)),
        sorts_before(a, b, column, direction) && sorts_before(b, c, column, direction)
            ==> sorts_before(a, c, column, direction),
{
    lemma_text_less_asymmetric(a.title@, a.title@);
    lemma_text_less_asymmetric(a.title@, b.title@);
    lemma_text_less_asymmetric(a.created_by@, a.created_by@);
    lemma_text_less_asymmetric(a.created_by@, b.created_by@);
    if sorts_before(a, b, column, direction) && sorts_before(b, c, column, direction) {
        if direction == SortDirection::Ascending {
            if column is Title {
                lemma_text_less_transitive(a.title@, b.title@, c.title@);
            }
            if column is CreatedBy {
                lemma_text_less_transitive(a.created_by@, b.created_by@, c.created_by@);
            }
        } else {
            if column is Title {
                lemma_text_less_transitive(c.title@, b.title@, a.title@);
            }
            if column is CreatedBy {
                lemma_text_less_transitive(c.created_by@, b.created_by@, a.created_by@);
            }
        }
    }
}

/// Whether `rows` are `all` in the order of a table, with `from` as the
/// place that each row had in `all`: every row of `all` is there once, no
/// row comes before a row above it, and of two rows neither of which comes
/// before the other the one that stood first in `all` stands first.
pub open spec fn is_sorted_from(
    rows: Seq<&Issue>,
    all: Seq<&Issue>,
    from: Seq<int>,
    column: ColumnView,
    direction: SortDirection,
) -> bool {
    &&& rows.len() == all.len()
    &&& from.len() == all.len()
    &&& forall|i: int|
        0 <= i < rows.len() ==> 0 <= #[trigger] from[i] < all.len() && rows[i] == all[from[i]]
    &&& forall|i: int, j: int|
        0 <= i < j < rows.len() ==> #[trigger] from[i] != #[trigger] from[j]
    &&& forall|p: int| 0 <= p < all.len() ==> #[trigger] from.contains(p)
    &&& forall|i: int, j: int|
        0 <= i < j < rows.len() ==> !sorts_before(*rows[j], *rows[i], column, direction)
    &&& forall|i: int, j: int|
        0 <= i < j < rows.len() ==> sorts_before(*rows[i], *rows[j], column, direction)
            || #[trigger] from[i] < #[trigger] from[j]
}

/// Whether `rows` are `all` sorted by a column in a direction, the rows
/// that are equal by the column left in their order.
pub open spec fn is_stable_sort_of(
    rows: Seq<&Issue>,
    all: Seq<&Issue>,
    column: ColumnView,
    direction: SortDirection,
) -> bool {
    exists|from: Seq<int>| is_sorted_from(rows, all, from, column, direction)
}

/// An issue that comes before a second comes before every third that the
/// second does not come behind.
pub proof fn lemma_sorts_before_extends(
    a: Issue,
    b: Issue,
    c: Issue,
    column: ColumnView,
    direction: SortDirection,
)
    requires
        sorts_before(a, b, column, direction),
        !sorts_before(c, b, column, direction),
    ensures
        sorts_before(a, c, column, direction),
{
    if direction == SortDirection::Ascending {
        if column is Title {
            lemma_text_less_total(b.title@, c.title@);
            if b.title@ != c.title@ {
                lemma_text_less_transitive(a.title@, b.title@, c.title@);
            }
        }
        if column is CreatedBy {
            lemma_text_less_total(b.created_by@, c.created_by@);
            if b.created_by@ != c.created_by@ {
                lemma_text_less_transitive(a.created_by@, b.created_by@, c.created_by@);
            }
        }
    } else {
        if column is Title {
            lemma_text_less_total(b.title@, c.title@);
            if b.title@ != c.title@ {
                lemma_text_less_transitive(c.title@, b.title@, a.title@);
            }
        }
        if column is CreatedBy {
            lemma_text_less_total(b.created_by@, c.created_by@);
            if b.created_by@ != c.created_by@ {
                lemma_text_less_transitive(c.created_by@, b.created_by@, a.created_by@);
            }
        }
    }
}

/// A row that is put into a table is one more row, whatever its place.
pub proof fn lemma_insert_adds_one(rows: Seq<&Issue>, at: int, row: &Issue)
    requires
        0 <= at <= rows.len(),
    ensures
        rows.insert(at, row).to_multiset() == rows.to_multiset().insert(row),
{
    broadcast use vstd::seq_lib::group_to_multiset_ensures;

    let more = rows.insert(at, row);
    assert(more.remove(at) =~= rows);
    assert(more[at] == row);
    assert(more.remove(at).to_multiset() =~= more.to_multiset().remove(row));
    assert(more.contains(row));
    assert(more.to_multiset().count(row) > 0);
    assert(more.to_multiset() =~= rows.to_multiset().insert(row));
}

/// Whether an issue comes before another in a table that is sorted by a
/// column in a direction.
pub fn issue_sorts_before(a: &Issue, b: &Issue, column: &Column, direction: SortDirection) -> (r:
    bool)
    ensures
        r == sorts_before(*a, *b, column@, direction),
{
    let (x, y) = match direction {
        SortDirection::Ascending => (a, b),
        SortDirection::Descending => (b, a),
    };
    match column {
        Column::Id => x.id < y.id,
        Column::Title => str_less(x.title.as_str(), y.title.as_str()),
        Column::Created => x.created.is_before(&y.created),
        Column::Status => x.status.ordinal() < y.status.ordinal(),
        Column::Priority => x.priority.ordinal() < y.priority.ordinal(),
        Column::CreatedBy => str_less(x.created_by.as_str(), y.created_by.as_str()),
        Column::Custom(_) => false,
    }
}

/// The identifiers of the issues of a store that a filter lets through.
pub open spec fn passing(store: IssuesView, filter: IssueFilterView) -> Set<IssueId> {
    Set::new(|k: IssueId| store.issues.contains_key(k) && filter.keeps(store.issues[k]))
}

/// Whether `rows` are the issues of a store that a filter lets through,
/// with `ids` as the identifier that each row is stored under: every
/// identifier that passes is there once, and no other.
pub open spec fn shows(
    rows: Seq<&Issue>,
    ids: Seq<IssueId>,
    store: IssuesView,
    filter: IssueFilterView,
) -> bool {
    &&& ids.len() == rows.len()
    &&& ids.no_duplicates()
    &&& forall|i: int|
        0 <= i < rows.len() ==> passing(store, filter).contains(#[trigger] ids[i]) && *rows[i]
            == store.issues[ids[i]]
    &&& forall|k: IssueId| passing(store, filter).contains(k) ==> #[trigger] ids.contains(k)
}

/// Whether `rows` are the issues of a store that a filter lets through,
/// each stored issue once.
pub open spec fn shows_passing(rows: Seq<&Issue>, store: IssuesView, filter: IssueFilterView) -> bool {
    exists|ids: Seq<IssueId>| shows(rows, ids, store, filter)
}

/// Rows that show the issues which pass a filter are as many as the
/// identifiers that pass.
pub proof fn lemma_shown_rows_count(
    rows: Seq<&Issue>,
    ids: Seq<IssueId>,
    store: IssuesView,
    filter: IssueFilterView,
)
    requires
        shows(rows, ids, store, filter),
    ensures
        passing(store, filter).finite(),
        rows.len() == passing(store, filter).len(),
{
    ids.unique_seq_to_set();
    assert(ids.to_set() =~= passing(store, filter)) by {
        assert forall|k: IssueId| ids.to_set().contains(k) <==> passing(store, filter).contains(
            k,
        ) by {
            if ids.to_set().contains(k) {
                let i = choose|i: int| 0 <= i < ids.len() && ids[i] == k;
                assert(passing(store, filter).contains(ids[i]));
            }
        }
    }
}

/// The issues of a store that a filter text lets through, each stored
/// issue once, in no particular order.
pub fn apply_issue_filter<'a>(filter_text: &str, issues: &'a Issues) -> (r: Vec<&'a Issue>)
    ensures
        shows_passing(r@, issues@, IssueFilterView::of_lowercase(lowercase(filter_text@))),
        passing(issues@, IssueFilterView::of_lowercase(lowercase(filter_text@))).finite(),
        r.len() == passing(issues@, IssueFilterView::of_lowercase(lowercase(filter_text@))).len(),
{
    let filter = IssueFilter::parse(filter_text);
    let all = issues.entries();
    let mut out: Vec<&'a Issue> = Vec::new();
    let ghost mut ids: Seq<IssueId> = Seq::empty();
    let mut n: usize = 0;
    while n < all.len()
        invariant
            n <= all.len(),
            filter@ == IssueFilterView::of_lowercase(lowercase(filter_text@)),
            forall|i: int|
                0 <= i < all.len() ==> issues@.issues.contains_key((#[trigger] all[i]).0)
                    && issues@.issues[all[i].0] == *all[i].1,
            forall|i: int, j: int|
                0 <= i < j < all.len() ==> (#[trigger] all[i]).0 != (#[trigger] all[j]).0,
            forall|k: IssueId| #[trigger]
                issues@.issues.contains_key(k) ==> exists|i: int|
                    0 <= i < all.len() && all[i].0 == k,
            ids.len() == out.len(),
            ids.no_duplicates(),
            forall|i: int|
                0 <= i < out.len() ==> passing(issues@, filter@).contains(#[trigger] ids[i])
                    && *out[i] == issues@.issues[ids[i]],
            forall|i: int|
                0 <= i < ids.len() ==> exists|j: int| 0 <= j < n && all[j].0 == #[trigger] ids[i],
            forall|j: int|
                0 <= j < n && passing(issues@, filter@).contains((#[trigger] all[j]).0)
                    ==> ids.contains(all[j].0),
        decreases all.len() - n,
    {
        let ghost before = ids;
        if filter.keeps(all[n].1) {
            out.push(all[n].1);
            proof {
                ids = before.push(all[n as int].0);
                assert forall|i: int, j: int| 0 <= i < j < ids.len() implies ids[i] != ids[j] by {
                    if j == before.len() {
                        let m = choose|m: int| 0 <= m < n && all[m].0 == before[i];
                        assert(all[m].0 != all[n as int].0);
                    }
                }
                assert forall|i: int| 0 <= i < ids.len() implies exists|j: int|
                    0 <= j < n + 1 && all[j].0 == #[trigger] ids[i] by {
                    if i < before.len() {
                        let m = choose|m: int| 0 <= m < n && all[m].0 == before[i];
                        assert(all[m].0 == ids[i]);
                    } else {
                        assert(all[n as int].0 == ids[i]);
                    }
                }
            }
        }
        proof {
            assert forall|j: int|
                0 <= j < n + 1 && passing(issues@, filter@).contains(
                    (#[trigger] all[j]).0,
                ) implies ids.contains(all[j].0) by {
                if j < n {
                    assert(before.contains(all[j].0));
                    let i = choose|i: int| 0 <= i < before.len() && before[i] == all[j].0;
                    assert(ids[i] == all[j].0);
                } else {
                    assert(ids[ids.len() - 1] == all[j].0);
                }
            }
        }
        n += 1;
    }
    proof {
        assert forall|k: IssueId| passing(issues@, filter@).contains(k) implies #[trigger] ids.contains(
            k,
        ) by {
            let j = choose|j: int| 0 <= j < all.len() && all[j].0 == k;
            assert(passing(issues@, filter@).contains(all[j].0));
        }
        assert(shows(out@, ids, issues@, filter@));
        lemma_shown_rows_count(out@, ids, issues@, filter@);
    }
    out
}

/// Sorts the rows of the table by a column in a direction. Rows that are
/// equal by the column keep their order. By a custom column the rows cannot
/// be sorted, so there must not be two of them then.
pub fn apply_issue_sort(
    filtered_issues: &mut Vec<&Issue>,
    sort_col: &Column,
    sort_dir: SortDirection,
)
    requires
        old(filtered_issues).len() >= 2 ==> !(sort_col@ is Custom),
    ensures
        final(filtered_issues)@.to_multiset() == old(filtered_issues)@.to_multiset(),
        is_sorted(final(filtered_issues)@, sort_col@, sort_dir),
        is_stable_sort_of(final(filtered_issues)@, old(filtered_issues)@, sort_col@, sort_dir),
{
    let mut sorted: Vec<&Issue> = Vec::new();
    let ghost all = filtered_issues@;
    let ghost mut from: Seq<int> = Seq::empty();
    let mut n: usize = 0;
    assert(all.take(0) =~= Seq::<&Issue>::empty());
    while n < filtered_issues.len()
        invariant
            n <= filtered_issues.len(),
            filtered_issues@ == all,
            sorted@.to_multiset() == all.take(n as int).to_multiset(),
            is_sorted_from(sorted@, all.take(n as int), from, sort_col@, sort_dir),
        decreases filtered_issues.len() - n,
    {
        let issue: &Issue = filtered_issues[n];
        let mut at: usize = 0;
        while at < sorted.len() && !issue_sorts_before(issue, sorted[at], sort_col, sort_dir)
            invariant
                at <= sorted.len(),
                forall|i: int|
                    0 <= i < at ==> !sorts_before(*issue, *#[trigger] sorted[i], sort_col@, sort_dir),
            decreases sorted.len() - at,
        {
            at += 1;
        }
        let ghost before = sorted@;
        let ghost places = from;
        sorted.insert(at, issue);
        proof {
            from = places.insert(at as int, n as int);
            let rows = sorted@;
            let next = all.take(n + 1);
            assert(rows =~= before.insert(at as int, issue));
            assert(next =~= all.take(n as int).push(issue));
            assert forall|j: int| at <= j < before.len() implies sorts_before(
                *issue,
                *#[trigger] before[j],
                sort_col@,
                sort_dir,
            ) by {
                if j > at {
                    lemma_sorts_before_extends(
                        *issue,
                        *before[at as int],
                        *before[j],
                        sort_col@,
                        sort_dir,
                    );
                }
            }
            assert forall|i: int| 0 <= i < rows.len() implies 0 <= #[trigger] from[i] < next.len()
                && rows[i] == next[from[i]] by {
                if i < at {
                    assert(from[i] == places[i] && rows[i] == before[i]);
                } else if i > at {
                    assert(from[i] == places[i - 1] && rows[i] == before[i - 1]);
                }
            }
            assert forall|p: int| 0 <= p < next.len() implies #[trigger] from.contains(p) by {
                if p == n {
                    assert(from[at as int] == p);
                } else {
                    assert(places.contains(p));
                    let i = choose|i: int| 0 <= i < places.len() && places[i] == p;
                    if i < at {
                        assert(from[i] == p);
                    } else {
                        assert(from[i + 1] == p);
                    }
                }
            }
            assert forall|i: int, j: int| 0 <= i < j < rows.len() implies #[trigger] from[i]
                != #[trigger] from[j] by {
                let bi = if i < at {
                    i
                } else {
                    i - 1
                };
                let bj = if j < at {
                    j
                } else {
                    j - 1
                };
                if i != at {
                    assert(from[i] == places[bi]);
                }
                if j != at {
                    assert(from[j] == places[bj]);
                }
            }
            assert forall|i: int, j: int| 0 <= i < j < rows.len() implies !sorts_before(
                *rows[j],
                *rows[i],
                sort_col@,
                sort_dir,
            ) by {
                if j == at {
                    assert(rows[i] == before[i]);
                } else if i == at {
                    assert(rows[j] == before[j - 1]);
                    assert(sorts_before(*issue, *before[j - 1], sort_col@, sort_dir));
                    lemma_sorts_before_is_strict(
                        *issue,
                        *before[j - 1],
                        *issue,
                        sort_col@,
                        sort_dir,
                    );
                } else {
                    let bi = if i < at {
                        i
                    } else {
                        i - 1
                    };
                    let bj = if j < at {
                        j
                    } else {
                        j - 1
                    };
                    assert(rows[i] == before[bi]);
                    assert(rows[j] == before[bj]);
                }
            }
            assert forall|i: int, j: int| 0 <= i < j < rows.len() implies sorts_before(
                *rows[i],
                *rows[j],
                sort_col@,
                sort_dir,
            ) || #[trigger] from[i] < #[trigger] from[j] by {
                if j == at {
                    assert(from[i] == places[i]);
                } else if i == at {
                    assert(rows[j] == before[j - 1]);
                    assert(sorts_before(*issue, *before[j - 1], sort_col@, sort_dir));
                } else {
                    let bi = if i < at {
                        i
                    } else {
                        i - 1
                    };
                    let bj = if j < at {
                        j
                    } else {
                        j - 1
                    };
                    assert(rows[i] == before[bi] && from[i] == places[bi]);
                    assert(rows[j] == before[bj] && from[j] == places[bj]);
                }
            }
            lemma_insert_adds_one(before, at as int, issue);
            vstd::seq_lib::to_multiset_build(all.take(n as int), issue);
            assert(all.take(n as int).push(issue).to_multiset() =~= all.take(
                n as int,
            ).to_multiset().insert(issue));
            assert(sorted@.to_multiset() == all.take(n + 1).to_multiset());
        }
        n += 1;
    }
    assert(all.take(all.len() as int) =~= all);
    assert(is_sorted_from(sorted@, all, from, sort_col@, sort_dir));
    *filtered_issues = sorted;
}

/// The filter that the issue table is shown with: the one that the first
/// line of its filter box stands for.
pub open spec fn table_filter(table: IssueTableState) -> IssueFilterView {
    IssueFilterView::of_lowercase(lowercase(rope_first_line(table.filter_input@.text)))
}

/// Whether `rows` are the rows of a table over a store: the issues that
/// the filter of the table lets through, each stored issue once, sorted by
/// the column and direction of the table.
pub open spec fn are_rows_of(rows: Seq<&Issue>, table: IssueTableState, issues: Issues) -> bool {
    &&& shows_passing(rows, issues@, table_filter(table))
    &&& is_sorted(rows, table.sort_by@, table.sort_direction)
}

/// Whether the rows of a table over a store cannot be put in order: the
/// table is sorted by a custom column, and two or more issues pass its
/// filter.
pub open spec fn cannot_be_ordered(table: IssueTableState, issues: Issues) -> bool {
    table.sort_by@ is Custom && passing(issues@, table_filter(table)).len() >= 2
}

/// Whether `post` is the table `pre` with `rows` noted: the selection is
/// held to the number of rows, each row is noted with the issue that it
/// shows, and what was noted for a place behind the last row stays.
pub open spec fn notes_rows(pre: IssueTableState, rows: Seq<&Issue>, post: IssueTableState) -> bool {
    &&& rows.len() <= usize::MAX
    &&& post == (IssueTableState {
        table: pre.table.clamped(rows.len() as usize),
        display_map: post.display_map,
        ..pre
    })
    &&& forall|i: usize|
        0 <= i < rows.len() ==> #[trigger] post.display_map@.contains_key(i)
            && post.display_map@[i] == rows[i as int].id
    &&& forall|i: usize|
        i >= rows.len() ==> (#[trigger] post.display_map@.contains_key(i)
            == pre.display_map@.contains_key(i) && (pre.display_map@.contains_key(i)
            ==> post.display_map@[i] == pre.display_map@[i]))
}

/// Whether `post` is the table `pre` settled on a store: the rows of the
/// table are noted, or nothing has changed where the rows cannot be put in
/// order.
pub open spec fn table_settled(pre: IssueTableState, issues: Issues, post: IssueTableState) -> bool {
    if cannot_be_ordered(pre, issues) {
        post == pre
    } else {
        exists|rows: Seq<&Issue>| are_rows_of(rows, pre, issues) && notes_rows(pre, rows, post)
    }
}

/// Rows that are put in another order still show the issues that pass the
/// filter, each stored issue once.
pub proof fn lemma_sorted_rows_show(
    rows: Seq<&Issue>,
    all: Seq<&Issue>,
    store: IssuesView,
    filter: IssueFilterView,
    column: ColumnView,
    direction: SortDirection,
)
    requires
        shows_passing(all, store, filter),
        is_stable_sort_of(rows, all, column, direction),
    ensures
        shows_passing(rows, store, filter),
{
    let ids = choose|ids: Seq<IssueId>| shows(all, ids, store, filter);
    let from = choose|from: Seq<int>| is_sorted_from(rows, all, from, column, direction);
    let moved = Seq::new(rows.len(), |i: int| ids[from[i]]);
    assert forall|i: int, j: int| 0 <= i < j < moved.len() implies moved[i] != moved[j] by {
        assert(from[i] != from[j]);
    }
    assert forall|i: int| 0 <= i < rows.len() implies passing(store, filter).contains(
        #[trigger] moved[i],
    ) && *rows[i] == store.issues[moved[i]] by {
        assert(0 <= from[i] < all.len() && rows[i] == all[from[i]]);
    }
    assert forall|k: IssueId| passing(store, filter).contains(k) implies #[trigger] moved.contains(
        k,
    ) by {
        assert(ids.contains(k));
        let p = choose|p: int| 0 <= p < ids.len() && ids[p] == k;
        assert(from.contains(p));
        let i = choose|i: int| 0 <= i < from.len() && from[i] == p;
        assert(moved[i] == k);
    }
    assert(shows(rows, moved, store, filter));
}

impl IssueTableState {
    /// The rows that the table shows for a store, top to bottom. The table
    /// is not changed.
    ///
    /// There are rows unless two or more issues would have to be sorted by
    /// a custom column.
    pub fn rows<'a>(&self, issues: &'a Issues) -> (r: Option<Vec<&'a Issue>>)
        ensures
            r matches Some(rows) ==> are_rows_of(rows@, *self, *issues),
            r is None <==> cannot_be_ordered(*self, *issues),
    {
        let text = self.filter_input.text();
        let mut filtered = apply_issue_filter(text.as_str(), issues);
        let custom = match self.sort_by {
            Column::Custom(_) => true,
            _ => false,
        };
        if custom && filtered.len() >= 2 {
            return None;
        }
        let ghost unsorted = filtered@;
        apply_issue_sort(&mut filtered, &self.sort_by, self.sort_direction);
        proof {
            lemma_sorted_rows_show(
                filtered@,
                unsorted,
                issues@,
                table_filter(*self),
                self.sort_by@,
                self.sort_direction,
            );
        }
        Some(filtered)
    }

    /// Settles the table on a store before an event is handled: the
    /// selection is held to the number of rows, and each row is noted with
    /// the issue that it shows, so that a key which acts on the selected row
    /// finds its issue. Rows that were noted before and are not shown now
    /// stay noted. Nothing changes where the rows cannot be put in order.
    pub fn settle(&mut self, issues: &Issues)
        ensures
            table_settled(*old(self), *issues, *final(self)),
    {
        let rows = match self.rows(issues) {
            Some(rows) => rows,
            None => {
                return ;
            },
        };
        self.table.clamp(rows.len());
        let mut n: usize = 0;
        while n < rows.len()
            invariant
                n <= rows.len(),
                *self == (IssueTableState {
                    table: old(self).table.clamped(rows.len()),
                    display_map: self.display_map,
                    ..*old(self)
                }),
                forall|i: usize|
                    0 <= i < n ==> #[trigger] self.display_map@.contains_key(i)
                        && self.display_map@[i] == rows[i as int].id,
                forall|i: usize|
                    i >= n ==> (#[trigger] self.display_map@.contains_key(i) == old(
                        self,
                    ).display_map@.contains_key(i) && (old(self).display_map@.contains_key(i)
                        ==> self.display_map@[i] == old(self).display_map@[i])),
            decreases rows.len() - n,
        {
            self.display_map.insert(n, rows[n].id);
            n += 1;
        }
        assert(notes_rows(*old(self), rows@, *self));
    }
}

/// How wide a column of the table is made.
#[derive(Debug, Clone, Copy, Hash, PartialEq, Eq, Structural)]
pub enum ColumnWidth {
    /// A number of cells.
    Length(u16),
    /// A share of what the other columns leave.
    Fill(u16),
    /// A number of cells at least.
    Min(u16),
}

/// Whether a custom field is stored under a key with these characters.
pub open spec fn is_custom_key(custom: Map<String, String>, key: Seq<char>, stored: String) -> bool {
    custom.contains_key(stored) && stored@ == key
}

/// The value of a custom field of an issue, by the key of the field; none
/// where the issue has no field of that key.
pub open spec fn custom_value(custom: Map<String, String>, key: Seq<char>) -> Option<Seq<char>> {
    if exists|stored: String| is_custom_key(custom, key, stored) {
        Some(custom[choose|stored: String| is_custom_key(custom, key, stored)]@)
    } else {
        None
    }
}

/// Calls `HashMap::get` with the key and copies the value out: the value
/// that the map holds under the key with these characters, or none where it
/// holds no such key.
#[verifier::external_body]
fn custom_field(custom: &HashMap<String, String>, key: &str) -> (r: Option<String>)
    ensures
        match r {
            Some(value) => custom_value(custom@, key@) == Some(value@),
            None => custom_value(custom@, key@) is None,
        },
{
    custom.get(key).cloned()
}

/// The format in which the table writes an instant.
pub open spec fn table_instant_format() -> Seq<char> {
    "%FT%TZ"@
}

/// The heading of a column in a table that is sorted by a column in a
/// direction: the name of the column, and behind the column of the sort
/// an arrow that points up for ascending and down for descending.
pub open spec fn heading_of(column: ColumnView, sort_by: ColumnView, direction: SortDirection) -> Seq<
    char,
> {
    if column == sort_by {
        column.name() + match direction {
            SortDirection::Ascending => " ▲"@,
            SortDirection::Descending => " ▼"@,
        }
    } else {
        column.name()
    }
}

/// What the cell of an issue shows in a column; none where the instant of
/// the issue cannot be written. A custom field that the issue lacks shows
/// nothing.
pub open spec fn cell_of(issue: Issue, column: ColumnView) -> Option<Seq<char>> {
    match column {
        ColumnView::Id => Some(decimal_text(issue.id as nat)),
        ColumnView::Title => Some(issue.title@),
        ColumnView::Created => strftime_text(
            table_instant_format(),
            issue.created.second,
            issue.created.nanosecond,
        ),
        ColumnView::Status => Some(issue.status.name()),
        ColumnView::Priority => Some(issue.priority.name()),
        ColumnView::CreatedBy => Some(issue.created_by@),
        ColumnView::Custom(key) => Some(
            match custom_value(issue.custom@, key) {
                Some(value) => value,
                None => Seq::empty(),
            },
        ),
    }
}

impl Column {
    /// How wide the column is made.
    pub fn width(&self) -> (r: ColumnWidth)
        ensures
            r == match self@ {
                ColumnView::Id => ColumnWidth::Length(4),
                ColumnView::Title => ColumnWidth::Fill(1),
                ColumnView::Created => ColumnWidth::Length(20),
                ColumnView::Status => ColumnWidth::Length(8),
                ColumnView::Priority => ColumnWidth::Length(11),
                ColumnView::CreatedBy => ColumnWidth::Length(30),
                ColumnView::Custom(_) => ColumnWidth::Min(12),
            },
    {
        match self {
            Column::Id => ColumnWidth::Length(4),
            Column::Title => ColumnWidth::Fill(1),
            Column::Created => ColumnWidth::Length(20),
            Column::Status => ColumnWidth::Length(8),
            Column::Priority => ColumnWidth::Length(11),
            Column::CreatedBy => ColumnWidth::Length(30),
            Column::Custom(_) => ColumnWidth::Min(12),
        }
    }

    /// The heading of the column in a table that is sorted by a column in a
    /// direction.
    pub fn heading(&self, sort_by: &Column, direction: SortDirection) -> (r: String)
        ensures
            r@ == heading_of(self@, sort_by@, direction),
    {
        let mut label = self.to_string();
        if self.same_as(sort_by) {
            match direction {
                SortDirection::Ascending => label.append(" ▲"),
                SortDirection::Descending => label.append(" ▼"),
            }
        }
        label
    }

    /// What the cell of an issue shows in the column.
    pub fn cell(&self, issue: &Issue) -> (r: Option<String>)
        ensures
            match r {
                Some(text) => cell_of(*issue, self@) == Some(text@),
                None => cell_of(*issue, self@) is None,
            },
    {
        match self {
            Column::Id => Some(decimal(issue.id)),
            Column::Title => Some(issue.title.clone()),
            Column::Created => format_timestamp(&issue.created, "%FT%TZ"),
            Column::Status => Some(issue.status.to_string()),
            Column::Priority => Some(issue.priority.to_string()),
            Column::CreatedBy => Some(issue.created_by.clone()),
            Column::Custom(key) => match custom_field(&issue.custom, key.as_str()) {
                Some(value) => Some(value),
                None => Some(String::new()),
            },
        }
    }
}

} // verus!
