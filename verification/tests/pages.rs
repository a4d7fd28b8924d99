use intrack::feat::issue::{Comment, Issue, Priority, Status, Timestamp};
use intrack::feat::issues::{IssueEvent, Issues};
use intrack::feat::tui_issue_thread::draw::{
    push_content_rows, push_wrapped_rows, thread_title, trim_start, write_thread_rows, ThreadRows,
};
use intrack::feat::tui_issue_thread::IssueThreadState;
use intrack::feat::tui_widget::help_popup::{column_range, Padding};
use intrack::feat::tui_widget::{HelpItem, HelpPopup, PopupLayout, Rect};
use intrack::init::trace::trace_filter;
use std::collections::HashMap;

fn issue() -> Issue {
    Issue {
        id: 7,
        title: "Seven".to_string(),
        created: Timestamp::new(0, 0),
        status: Status::Closed,
        priority: Priority::Critical,
        created_by: "me@example.com".to_string(),
        custom: HashMap::new(),
    }
}

fn comment(content: &str, at: i64) -> Comment {
    Comment {
        parent_issue: 7,
        content: content.to_string(),
        created_at: Timestamp::new(at, 0),
        author: "you".to_string(),
    }
}

#[test]
fn the_thread_starts_with_what_the_issue_is() {
    let rows = write_thread_rows(&issue(), &[], 80).unwrap();
    assert_eq!(
        rows,
        vec![
            "Status: Closed",
            "Priority: Critical",
            "Created: 1970-01-01 00:00:00",
            "Created by: me@example.com",
            "",
        ]
    );
}

#[test]
fn comments_are_wrapped_and_indented() {
    let comments = [comment("Foo   bar baz\n\n  \nlast", 86_400 + 3_661), comment("", 1_700_000_000)];
    let rows = write_thread_rows(&issue(), &comments, 11).unwrap();
    assert_eq!(
        rows[5..],
        [
            "Comment by you at 1970-01-02 01:01:01",
            "    Foo",
            "    bar baz",
            "   ",
            "   ",
            "    last",
            "",
            "Comment by you at 2023-11-14 22:13:20",
            "",
        ]
    );
}

#[test]
fn a_narrow_area_wraps_to_one_column() {
    for width in [0, 1, 3, 4] {
        let rows = write_thread_rows(&issue(), &[comment("ab cd", 0)], width).unwrap();
        assert_eq!(rows[6..], ["    a", "    b", "    c", "    d", ""], "width {width}");
    }
    let rows = write_thread_rows(&issue(), &[comment("ab cd", 0)], 5).unwrap();
    assert_eq!(rows[6..], ["    ab", "    cd", ""]);
}

#[test]
fn an_instant_that_cannot_be_written_gives_no_rows() {
    let mut unwritable = issue();
    unwritable.created = Timestamp::new(i64::MAX, 0);
    assert_eq!(write_thread_rows(&unwritable, &[], 80), None);
    let comments = [comment("fine", 0), comment("late", i64::MIN)];
    assert_eq!(write_thread_rows(&issue(), &comments, 80), None);
}

#[test]
fn rows_of_wrapped_pieces_skip_blank_pieces() {
    let mut rows = vec!["head".to_string()];
    push_wrapped_rows(&mut rows, &vec!["".to_string(), "  x ".to_string(), " \t".to_string()]);
    assert_eq!(rows, vec!["head", "    x "]);
    let mut rows = vec![];
    push_content_rows(&mut rows, "one two\n\nthree", 3);
    assert_eq!(rows, vec!["    one", "    two", "   ", "    thr", "    ee"]);
    assert_eq!(trim_start(" \n\ta b "), "a b ");
    assert_eq!(trim_start(""), "");
}

#[test]
fn the_thread_page_shows_the_issue_of_its_identifier() {
    let store = Issues::from_events(vec![
        IssueEvent::IssueCreated(issue()),
        IssueEvent::CommentAdded(comment("hello", 60)),
    ]);
    let mut state = IssueThreadState::default();
    assert_eq!(state.rows(&store, 80), ThreadRows::NoIssue);
    state.set_issue_id(7);
    state.cursor_add(100);
    let rows = state.rows(&store, 80);
    assert_eq!(
        rows,
        ThreadRows::Rows(vec![
            "Status: Closed".to_string(),
            "Priority: Critical".to_string(),
            "Created: 1970-01-01 00:00:00".to_string(),
            "Created by: me@example.com".to_string(),
            "".to_string(),
            "Comment by you at 1970-01-01 00:01:00".to_string(),
            "    hello".to_string(),
            "".to_string(),
        ])
    );
    assert_eq!(state.selected(), Some(100));
    let mut bad = issue();
    bad.created = Timestamp::new(i64::MAX, 0);
    let store = Issues::from_events(vec![IssueEvent::IssueCreated(bad)]);
    assert_eq!(state.rows(&store, 80), ThreadRows::Unwritable);
    assert_eq!(state.selected(), Some(100));
}

#[test]
fn settling_the_thread_holds_the_selection_to_the_rows() {
    let store = Issues::from_events(vec![
        IssueEvent::IssueCreated(issue()),
        IssueEvent::CommentAdded(comment("hello", 60)),
    ]);
    let mut state = IssueThreadState::default();
    state.cursor_add(100);
    state.settle(&store, 80);
    assert_eq!(state.selected(), Some(100));
    state.set_issue_id(7);
    state.cursor_add(100);
    state.settle(&store, 80);
    assert_eq!(state.selected(), Some(7));
    state.settle(&store, 80);
    assert_eq!(state.selected(), Some(7));
    state.cursor_sub(3);
    state.settle(&store, 80);
    assert_eq!(state.selected(), Some(4));
    let mut bad = issue();
    bad.created = Timestamp::new(i64::MAX, 0);
    let unwritable = Issues::from_events(vec![IssueEvent::IssueCreated(bad)]);
    state.cursor_add(100);
    state.settle(&unwritable, 80);
    assert_eq!(state.selected(), Some(104));
}

#[test]
fn the_cursor_of_the_thread_saturates() {
    let mut state = IssueThreadState::default();
    state.cursor_sub(3);
    assert_eq!(state.selected(), Some(0));
    state.cursor_add(usize::MAX);
    state.cursor_next();
    assert_eq!(state.selected(), Some(usize::MAX));
    state.cursor_previous();
    assert_eq!(state.selected(), Some(usize::MAX - 1));
    state.toggle_help();
    assert!(state.show_help);
    state.set_issue_id(3);
    assert_eq!(state.issue_id, 3);
    assert_eq!(state.selected(), Some(0));
    assert!(state.show_help);
}

fn table_help() -> HelpPopup {
    let items = [
        ("<shift>h", "Sort column left"),
        ("<shift>l", "Sort column right"),
        ("<shift>j", "Sort descending"),
        ("<shift>k", "Sort ascending"),
        ("h", "Cursor left"),
        ("j", "Cursor down"),
        ("k", "Cursor up"),
        ("l", "Cursor right"),
        ("c", "Change columns"),
        ("s", "Toggle issue status"),
        ("/", "Filter"),
        ("n", "New issue"),
        ("?", "Show help"),
    ];
    HelpPopup::new(
        items
            .iter()
            .map(|(k, d)| HelpItem { key: k.to_string(), description: d.to_string() })
            .collect(),
    )
}

fn screen(width: u16, height: u16) -> Rect {
    Rect { x: 0, y: 0, width, height }
}

#[test]
fn the_popup_stands_at_the_bottom_right() {
    let popup = table_help().title("Hotkeys".to_string());
    assert_eq!(popup.shown_title(), "Hotkeys");
    assert_eq!(table_help().shown_title(), " Keybinds ");
    assert_eq!(popup.widths(), (8, 19));
    assert_eq!(
        popup.layout(screen(80, 24)),
        Some(PopupLayout {
            area: Rect { x: 48, y: 8, width: 31, height: 15 },
            columns: 1,
            rows: 13,
            key_width: 8,
            description_width: 19,
        })
    );
    assert_eq!(
        popup.layout(Rect { x: 2, y: 5, width: 80, height: 24 }).unwrap().area,
        Rect { x: 48, y: 13, width: 31, height: 15 }
    );
}

#[test]
fn a_low_screen_gets_more_columns() {
    assert_eq!(
        table_help().layout(screen(80, 10)),
        Some(PopupLayout {
            area: Rect { x: 15, y: 0, width: 64, height: 9 },
            columns: 2,
            rows: 7,
            key_width: 8,
            description_width: 19,
        })
    );
    assert_eq!(
        table_help().layout(screen(200, 8)),
        Some(PopupLayout {
            area: Rect { x: 69, y: 1, width: 130, height: 6 },
            columns: 4,
            rows: 4,
            key_width: 8,
            description_width: 19,
        })
    );
}

#[test]
fn a_popup_that_does_not_fit_has_no_layout() {
    assert_eq!(table_help().layout(screen(31, 24)), None);
    assert_eq!(table_help().layout(screen(30, 24)), None);
    assert_eq!(table_help().layout(screen(0, 0)), None);
    assert!(table_help().layout(screen(32, 24)).is_some());
    assert_eq!(
        HelpPopup::new(vec![]).layout(screen(40, 10)),
        Some(PopupLayout {
            area: Rect { x: 17, y: 7, width: 22, height: 2 },
            columns: 1,
            rows: 0,
            key_width: 0,
            description_width: 0,
        })
    );
}

#[test]
fn entries_are_dealt_out_to_the_columns() {
    assert_eq!(column_range(13, 2, 0), (0, 7));
    assert_eq!(column_range(13, 2, 1), (7, 6));
    assert_eq!(column_range(13, 4, 0), (0, 4));
    assert_eq!(column_range(13, 4, 1), (4, 3));
    assert_eq!(column_range(13, 4, 3), (10, 3));
    assert_eq!(column_range(0, 1, 0), (0, 0));
    assert_eq!(column_range(2, 3, 2), (2, 0));
}

#[test]
fn entries_are_padded_to_the_widest() {
    let popup = table_help();
    let layout = popup.layout(screen(80, 24)).unwrap();
    assert_eq!(
        HelpPopup::padding(&popup.items[8], &layout),
        Padding { before_key: 8, after_description: 5 }
    );
    assert_eq!(
        HelpPopup::padding(&popup.items[1], &layout),
        Padding { before_key: 1, after_description: 2 }
    );
    assert_eq!(
        HelpPopup::padding(&popup.items[9], &layout),
        Padding { before_key: 8, after_description: 0 }
    );
    let wide = HelpItem { key: "a very long key".to_string(), description: "x".repeat(30) };
    assert_eq!(
        HelpPopup::padding(&wide, &layout),
        Padding { before_key: 0, after_description: 0 }
    );
}

#[test]
fn the_trace_filter_comes_from_the_environment_first() {
    assert_eq!(trace_filter(Some("debug".to_string()), "warn"), "debug");
    assert_eq!(trace_filter(Some(String::new()), "warn"), "");
    assert_eq!(trace_filter(None, "warn"), "intrack=warn");
    assert_eq!(trace_filter(None, ""), "intrack=");
}

#[test]
fn the_thread_is_titled_with_the_issue() {
    assert_eq!(thread_title(&issue()), "Issue #7: Seven");
}
