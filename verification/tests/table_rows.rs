use intrack::feat::issue::{Issue, Priority, Status, Timestamp};
use intrack::feat::issues::{IssueEvent, Issues};
use intrack::feat::tui_issue_table::draw::issue_sorts_before;
use intrack::feat::tui_issue_table::{
    apply_issue_filter, apply_issue_sort, Column, ColumnWidth, IssueFilter, IssueTableState,
    SortDirection,
};
use intrack::feat::tui_issue_table::SortDirection::{Ascending, Descending};
use std::collections::HashMap;

fn issue(id: u64, title: &str, status: Status, priority: Priority, by: &str, at: i64) -> Issue {
    Issue {
        id,
        title: title.to_string(),
        created: Timestamp::new(at, 0),
        status,
        priority,
        created_by: by.to_string(),
        custom: HashMap::new(),
    }
}

fn sample() -> Vec<Issue> {
    vec![
        issue(1, "Fix the Parser", Status::Open, Priority::High, "zoe", 30),
        issue(2, "parser crash", Status::Closed, Priority::Blocker, "adam", 10),
        issue(3, "Docs", Status::Open, Priority::Trivial, "mia", 20),
        issue(4, "add tests", Status::Closed, Priority::Low, "bob", 40),
    ]
}

fn store() -> Issues {
    Issues::from_events(sample().into_iter().map(IssueEvent::IssueCreated).collect())
}

fn ids(rows: &[&Issue]) -> Vec<u64> {
    rows.iter().map(|i| i.id).collect()
}

fn sorted_ids(mut ids: Vec<u64>) -> Vec<u64> {
    ids.sort();
    ids
}

fn filtered(text: &str) -> Vec<u64> {
    let store = store();
    let rows = apply_issue_filter(text, &store);
    sorted_ids(ids(&rows))
}

#[test]
fn an_empty_filter_keeps_every_issue() {
    assert_eq!(filtered(""), vec![1, 2, 3, 4]);
}

#[test]
fn the_filter_words_leave_out_issues_by_status() {
    assert_eq!(filtered("!closed"), vec![1, 3]);
    assert_eq!(filtered("!open"), vec![2, 4]);
    assert_eq!(filtered("!open!closed"), Vec::<u64>::new());
    assert_eq!(filtered("!CLOSED"), vec![1, 3]);
}

#[test]
fn the_rest_of_the_filter_is_searched_in_the_titles() {
    assert_eq!(filtered("parser"), vec![1, 2]);
    assert_eq!(filtered("PARSER"), vec![1, 2]);
    assert_eq!(filtered("!closedparser"), vec![1]);
    assert_eq!(filtered("par!closedser"), vec![1]);
    assert_eq!(filtered("nothing"), Vec::<u64>::new());
}

#[test]
fn what_is_left_of_the_filter_is_not_trimmed() {
    assert_eq!(filtered("!closed "), vec![1]);
    assert_eq!(filtered(" "), vec![1, 2, 4]);
    assert_eq!(filtered("!closed parser"), vec![1]);
    assert_eq!(filtered("!closed  parser"), Vec::<u64>::new());
}

#[test]
fn a_filter_is_read_from_its_text() {
    assert_eq!(
        IssueFilter::parse("Bug !Closed"),
        IssueFilter { remove_closed: true, remove_open: false, text: "bug ".chars().collect() }
    );
    assert_eq!(
        IssueFilter::from_lowercase("!open!closed!open"),
        IssueFilter { remove_closed: true, remove_open: true, text: vec![] }
    );
    assert_eq!(
        IssueFilter::from_lowercase("!Closed"),
        IssueFilter { remove_closed: false, remove_open: false, text: "!Closed".chars().collect() }
    );
    let filter = IssueFilter::parse("ab");
    assert!(filter.admits(Status::Open, "cabd"));
    assert!(!filter.admits(Status::Open, "CABD"));
    assert!(filter.keeps(&issue(1, "CABD", Status::Closed, Priority::Low, "x", 0)));
}

fn sorted_by(column: Column, direction: SortDirection) -> Vec<u64> {
    let all = sample();
    let mut rows: Vec<&Issue> = all.iter().collect();
    apply_issue_sort(&mut rows, &column, direction);
    ids(&rows)
}

#[test]
fn rows_are_sorted_by_each_column() {
    assert_eq!(sorted_by(Column::Id, Ascending), vec![1, 2, 3, 4]);
    assert_eq!(sorted_by(Column::Id, Descending), vec![4, 3, 2, 1]);
    assert_eq!(sorted_by(Column::Title, Ascending), vec![3, 1, 4, 2]);
    assert_eq!(sorted_by(Column::Title, Descending), vec![2, 4, 1, 3]);
    assert_eq!(sorted_by(Column::Created, Ascending), vec![2, 3, 1, 4]);
    assert_eq!(sorted_by(Column::Created, Descending), vec![4, 1, 3, 2]);
    assert_eq!(sorted_by(Column::Priority, Ascending), vec![3, 4, 1, 2]);
    assert_eq!(sorted_by(Column::Priority, Descending), vec![2, 1, 4, 3]);
    assert_eq!(sorted_by(Column::CreatedBy, Ascending), vec![2, 4, 3, 1]);
    assert_eq!(sorted_by(Column::CreatedBy, Descending), vec![1, 3, 4, 2]);
}

#[test]
fn rows_that_are_equal_by_the_column_keep_their_order() {
    assert_eq!(sorted_by(Column::Status, Ascending), vec![1, 3, 2, 4]);
    assert_eq!(sorted_by(Column::Status, Descending), vec![2, 4, 1, 3]);
}

#[test]
fn sorting_agrees_with_the_stable_sort_of_the_standard_library() {
    let all = sample();
    let columns = [
        Column::Id,
        Column::Title,
        Column::Created,
        Column::Status,
        Column::Priority,
        Column::CreatedBy,
    ];
    for column in &columns {
        for direction in [SortDirection::Ascending, SortDirection::Descending] {
            let mut rows: Vec<&Issue> = all.iter().rev().collect();
            let mut expected = rows.clone();
            expected.sort_by(|a, b| {
                let ord = match column {
                    Column::Id => a.id.cmp(&b.id),
                    Column::Title => a.title.cmp(&b.title),
                    Column::Created => (a.created.second, a.created.nanosecond)
                        .cmp(&(b.created.second, b.created.nanosecond)),
                    Column::Status => a.status.cmp(&b.status),
                    Column::Priority => a.priority.cmp(&b.priority),
                    Column::CreatedBy => a.created_by.cmp(&b.created_by),
                    Column::Custom(_) => unreachable!(),
                };
                match direction {
                    SortDirection::Ascending => ord,
                    SortDirection::Descending => ord.reverse(),
                }
            });
            apply_issue_sort(&mut rows, column, direction);
            assert_eq!(ids(&rows), ids(&expected), "{column:?} {direction:?}");
        }
    }
}

#[test]
fn a_single_row_can_be_sorted_by_a_custom_column() {
    let all = sample();
    let mut rows: Vec<&Issue> = vec![&all[0]];
    apply_issue_sort(&mut rows, &Column::Custom("x".to_string()), SortDirection::Ascending);
    assert_eq!(ids(&rows), vec![1]);
    let mut none: Vec<&Issue> = vec![];
    apply_issue_sort(&mut none, &Column::Custom("x".to_string()), SortDirection::Ascending);
    assert!(none.is_empty());
    assert!(!issue_sorts_before(
        &all[0],
        &all[1],
        &Column::Custom("x".to_string()),
        SortDirection::Ascending
    ));
}

#[test]
fn the_rows_of_the_table_are_filtered_and_sorted() {
    let store = store();
    let mut table = IssueTableState::default();
    table.filter_input_state_mut().set_text("");
    table.cursor_to_item(9);
    table.display_map.insert(7, 77);
    let rows = table.rows(&store).unwrap();
    assert_eq!(ids(&rows), vec![4, 1, 3, 2]);
}

#[test]
fn reading_the_rows_changes_nothing_of_the_table() {
    let store = store();
    let mut table = IssueTableState::default();
    table.filter_input_state_mut().set_text("");
    table.cursor_to_item(9);
    table.display_map.insert(7, 77);
    table.rows(&store).unwrap();
    assert_eq!(table.selected(), vec![9]);
    assert_eq!(table.table.offset, 0);
    assert_eq!(table.display_map.len(), 1);
    assert_eq!(table.display_map.get(&7), Some(&77));
    assert_eq!(table.filter_input_state().text(), "");
    assert_eq!(table.sort_by(), &Column::Created);
}

#[test]
fn settling_holds_the_selection_and_notes_the_rows() {
    let store = store();
    let mut table = IssueTableState::default();
    table.filter_input_state_mut().set_text("");
    table.cursor_to_item(9);
    table.display_map.insert(7, 77);
    table.settle(&store);
    assert_eq!(table.selected(), vec![3]);
    let mut noted: Vec<(usize, u64)> = table.display_map.iter().map(|(k, v)| (*k, *v)).collect();
    noted.sort();
    assert_eq!(noted, vec![(0, 4), (1, 1), (2, 3), (3, 2), (7, 77)]);
    let rows = table.rows(&store).unwrap();
    assert_eq!(ids(&rows), vec![4, 1, 3, 2]);
}

#[test]
fn the_first_filter_of_the_table_hides_closed_issues() {
    let store = store();
    let mut table = IssueTableState::default();
    table.cursor_to_item(2);
    assert_eq!(ids(&table.rows(&store).unwrap()), vec![1]);
    table.settle(&store);
    assert_eq!(table.selected(), vec![0]);
    table.filter_input_state_mut().set_text("no such title");
    assert!(table.rows(&store).unwrap().is_empty());
    table.settle(&store);
    assert_eq!(table.selected(), Vec::<usize>::new());
}

#[test]
fn two_rows_cannot_be_sorted_by_a_custom_column() {
    let store = store();
    let mut table = IssueTableState::default();
    table.filter_input_state_mut().set_text("");
    table.set_sort_by(Column::Custom("team".to_string()));
    table.cursor_to_item(9);
    assert_eq!(table.rows(&store), None);
    table.settle(&store);
    assert_eq!(table.selected(), vec![9]);
    assert!(table.display_map.is_empty());
}

#[test]
fn fewer_than_two_rows_are_shown_under_a_custom_column() {
    let store = store();
    let mut table = IssueTableState::default();
    table.set_sort_by(Column::Custom("team".to_string()));
    table.filter_input_state_mut().set_text("docs");
    assert_eq!(ids(&table.rows(&store).unwrap()), vec![3]);
    table.filter_input_state_mut().set_text("no such title");
    assert_eq!(table.rows(&store), Some(vec![]));
    table.cursor_to_item(4);
    table.settle(&store);
    assert_eq!(table.selected(), Vec::<usize>::new());
    table.filter_input_state_mut().set_text("parser");
    assert_eq!(table.rows(&store), None);
}

#[test]
fn every_stored_issue_is_shown_once() {
    let mut events: Vec<IssueEvent> = sample().into_iter().map(IssueEvent::IssueCreated).collect();
    let mut twin = sample().remove(0);
    twin.id = 9;
    events.push(IssueEvent::IssueCreated(twin.clone()));
    events.push(IssueEvent::IssueCreated(twin));
    let store = Issues::from_events(events);
    let rows = apply_issue_filter("", &store);
    assert_eq!(sorted_ids(ids(&rows)), vec![1, 2, 3, 4, 9]);
    assert_eq!(store.entries().len(), 5);
    let mut keys: Vec<u64> = store.entries().iter().map(|(k, _)| *k).collect();
    keys.sort();
    assert_eq!(keys, vec![1, 2, 3, 4, 9]);
    for (key, issue) in store.entries() {
        assert_eq!(store.get_issue(&key), Some(issue));
    }
}

#[test]
fn the_heading_of_the_sort_column_carries_an_arrow() {
    assert_eq!(Column::Id.heading(&Column::Id, Ascending), "ID ▲");
    assert_eq!(Column::CreatedBy.heading(&Column::CreatedBy, Descending), "Created By ▼");
    assert_eq!(Column::Id.heading(&Column::Title, Ascending), "ID");
    let team = Column::Custom("team".to_string());
    assert_eq!(team.heading(&Column::Custom("team".to_string()), Descending), "team ▼");
    assert_eq!(team.heading(&Column::Custom("Team".to_string()), Descending), "team");
}

#[test]
fn the_cells_of_an_issue_show_its_fields() {
    let mut issue = issue(1042, "Fix it", Status::Closed, Priority::Blocker, "zoe", 1_700_000_000);
    issue.custom.insert("team".to_string(), "core".to_string());
    assert_eq!(Column::Id.cell(&issue), Some("1042".to_string()));
    assert_eq!(Column::Title.cell(&issue), Some("Fix it".to_string()));
    assert_eq!(Column::Created.cell(&issue), Some("2023-11-14T22:13:20Z".to_string()));
    assert_eq!(Column::Status.cell(&issue), Some("Closed".to_string()));
    assert_eq!(Column::Priority.cell(&issue), Some("Blocker".to_string()));
    assert_eq!(Column::CreatedBy.cell(&issue), Some("zoe".to_string()));
    assert_eq!(Column::Custom("team".to_string()).cell(&issue), Some("core".to_string()));
    assert_eq!(Column::Custom("Team".to_string()).cell(&issue), Some(String::new()));
    issue.created = Timestamp::new(i64::MAX, 0);
    assert_eq!(Column::Created.cell(&issue), None);
    assert_eq!(Column::Id.cell(&issue), Some("1042".to_string()));
}

#[test]
fn the_columns_have_their_widths() {
    assert_eq!(Column::Id.width(), ColumnWidth::Length(4));
    assert_eq!(Column::Title.width(), ColumnWidth::Fill(1));
    assert_eq!(Column::Created.width(), ColumnWidth::Length(20));
    assert_eq!(Column::Status.width(), ColumnWidth::Length(8));
    assert_eq!(Column::Priority.width(), ColumnWidth::Length(11));
    assert_eq!(Column::CreatedBy.width(), ColumnWidth::Length(30));
    assert_eq!(Column::Custom("x".to_string()).width(), ColumnWidth::Min(12));
}
