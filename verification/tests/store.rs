use intrack::feat::issue::{Comment, Issue, IssueItemTemplate, Priority, Status, Timestamp};
use intrack::feat::issues::{
    log_lines, DecodedLine, IssueEvent, Issues, IssuesEventError, LogLine, LogWrite,
};
use std::collections::HashMap;

fn issue(id: u64, title: &str) -> Issue {
    Issue {
        id,
        title: title.to_string(),
        created: Timestamp::new(id as i64, 0),
        status: Status::Open,
        priority: Priority::Low,
        created_by: "me@example.com".to_string(),
        custom: HashMap::new(),
    }
}

fn comment(parent: u64, content: &str) -> Comment {
    Comment {
        parent_issue: parent,
        content: content.to_string(),
        created_at: Timestamp::new(100, 0),
        author: "me@example.com".to_string(),
    }
}

#[test]
fn next_id_is_one_on_an_empty_store() {
    assert_eq!(Issues::new().next_issue_id(), 1);
    assert_eq!(Issues::default().next_issue_id(), 1);
}

#[test]
fn next_id_follows_the_largest_id_with_gaps() {
    let store = Issues::from_events(vec![
        IssueEvent::IssueCreated(issue(1, "a")),
        IssueEvent::IssueCreated(issue(5, "b")),
        IssueEvent::IssueCreated(issue(3, "c")),
    ]);
    assert_eq!(store.next_issue_id(), 6);
}

#[test]
fn next_id_after_issue_zero_is_one() {
    let store = Issues::from_events(vec![IssueEvent::IssueCreated(issue(0, "zero"))]);
    assert_eq!(store.next_issue_id(), 1);
}

#[test]
fn created_issue_and_comment_are_found_after_replay() {
    let store = Issues::from_events(vec![
        IssueEvent::IssueCreated(issue(7, "seven")),
        IssueEvent::CommentAdded(comment(7, "first")),
    ]);
    let issues = store.iter_issues();
    assert_eq!(issues.len(), 1);
    assert_eq!(issues[0].id, 7);
    assert_eq!(store.get_issue(&7), Some(&issue(7, "seven")));
    let threads = store.iter_comments();
    assert_eq!(threads.len(), 1);
    assert_eq!(threads[0].0, 7);
    assert_eq!(threads[0].1, &vec![comment(7, "first")]);
    assert_eq!(store.get_comments(&7), Some(&vec![comment(7, "first")]));
    assert_eq!(store.get_comments(&8), None);
}

#[test]
fn change_of_an_unknown_issue_is_a_no_op() {
    let mut store = Issues::from_events(vec![IssueEvent::IssueCreated(issue(1, "a"))]);
    let before = store.clone();
    store.apply_event(IssueEvent::StatusChanged { issue_id: 99, status: Status::Closed });
    assert_eq!(store, before);
    store.apply_event(IssueEvent::PriorityChanged { issue_id: 99, priority: Priority::Blocker });
    assert_eq!(store, before);
    assert_eq!(store.get_issue(&99), None);
}

#[test]
fn changes_touch_one_field_of_one_issue() {
    let mut store = Issues::from_events(vec![
        IssueEvent::IssueCreated(issue(1, "a")),
        IssueEvent::IssueCreated(issue(2, "b")),
    ]);
    store.apply_event(IssueEvent::StatusChanged { issue_id: 2, status: Status::Closed });
    store.apply_event(IssueEvent::PriorityChanged { issue_id: 1, priority: Priority::High });
    let mut one = issue(1, "a");
    one.priority = Priority::High;
    let mut two = issue(2, "b");
    two.status = Status::Closed;
    assert_eq!(store.get_issue(&1), Some(&one));
    assert_eq!(store.get_issue(&2), Some(&two));
}

#[test]
fn a_created_issue_replaces_the_one_under_its_id() {
    let mut store = Issues::from_events(vec![IssueEvent::IssueCreated(issue(1, "old"))]);
    store.apply_event(IssueEvent::StatusChanged { issue_id: 1, status: Status::Closed });
    store.apply_event(IssueEvent::IssueCreated(issue(1, "new")));
    assert_eq!(store.get_issue(&1), Some(&issue(1, "new")));
    assert_eq!(store.iter_issues().len(), 1);
}

#[test]
fn comments_keep_their_order_and_need_no_issue() {
    let mut store = Issues::new();
    store.apply_event(IssueEvent::CommentAdded(comment(4, "one")));
    store.apply_event(IssueEvent::CommentAdded(comment(4, "two")));
    store.apply_event(IssueEvent::CommentAdded(comment(2, "other")));
    assert_eq!(store.get_comments(&4), Some(&vec![comment(4, "one"), comment(4, "two")]));
    assert_eq!(store.get_comments(&2), Some(&vec![comment(2, "other")]));
    assert_eq!(store.iter_issues().len(), 0);
    assert_eq!(store.iter_comments().len(), 2);
}

#[test]
fn replay_equals_applying_one_at_a_time() {
    let events = vec![
        IssueEvent::IssueCreated(issue(1, "a")),
        IssueEvent::CommentAdded(comment(1, "x")),
        IssueEvent::StatusChanged { issue_id: 1, status: Status::Closed },
        IssueEvent::IssueCreated(issue(2, "b")),
        IssueEvent::PriorityChanged { issue_id: 2, priority: Priority::Critical },
        IssueEvent::StatusChanged { issue_id: 3, status: Status::Closed },
    ];
    let mut stepwise = Issues::new();
    for event in events.clone() {
        stepwise.apply_event(event);
    }
    assert_eq!(Issues::from_events(events), stepwise);
}

#[test]
fn events_come_from_issues_and_comments() {
    assert_eq!(IssueEvent::from(issue(1, "a")), IssueEvent::IssueCreated(issue(1, "a")));
    assert_eq!(IssueEvent::from(comment(1, "c")), IssueEvent::CommentAdded(comment(1, "c")));
}

#[test]
fn log_lines_are_numbered_and_trimmed_and_blank_lines_skipped() {
    let lines = log_lines("  {\"a\":1}  \n\n\t\r\n{\"b\":2}\r\n   \nlast");
    assert_eq!(
        lines,
        vec![
            LogLine { number: 1, content: "{\"a\":1}".to_string() },
            LogLine { number: 4, content: "{\"b\":2}".to_string() },
            LogLine { number: 6, content: "last".to_string() },
        ]
    );
    assert_eq!(log_lines(""), vec![]);
    assert_eq!(log_lines("\n\n"), vec![]);
}

#[test]
fn load_fails_on_the_first_line_without_a_record() {
    let lines = vec![
        DecodedLine {
            line: LogLine { number: 1, content: "one".to_string() },
            event: Some(IssueEvent::IssueCreated(issue(1, "a"))),
        },
        DecodedLine { line: LogLine { number: 3, content: "garbage".to_string() }, event: None },
        DecodedLine { line: LogLine { number: 4, content: "more".to_string() }, event: None },
    ];
    assert_eq!(
        Issues::from_jsonl(lines),
        Err(IssuesEventError {
            line: Some(LogLine { number: 3, content: "garbage".to_string() })
        })
    );
}

#[test]
fn load_replays_the_records_in_file_order() {
    let lines = vec![
        DecodedLine {
            line: LogLine { number: 1, content: "one".to_string() },
            event: Some(IssueEvent::IssueCreated(issue(7, "seven"))),
        },
        DecodedLine {
            line: LogLine { number: 2, content: "two".to_string() },
            event: Some(IssueEvent::CommentAdded(comment(7, "first"))),
        },
        DecodedLine {
            line: LogLine { number: 3, content: "three".to_string() },
            event: Some(IssueEvent::StatusChanged { issue_id: 7, status: Status::Closed }),
        },
    ];
    let store = Issues::from_jsonl(lines).unwrap();
    let mut seven = issue(7, "seven");
    seven.status = Status::Closed;
    assert_eq!(store.iter_issues(), vec![&seven]);
    assert_eq!(store.get_comments(&7), Some(&vec![comment(7, "first")]));
    assert_eq!(Issues::from_jsonl(vec![]), Ok(Issues::new()));
}

#[test]
fn a_failed_write_leaves_the_store_as_it_was() {
    let mut store = Issues::from_events(vec![IssueEvent::IssueCreated(issue(1, "a"))]);
    let before = store.clone();
    let r = store.append_to_log(LogWrite::Failed, IssueEvent::IssueCreated(issue(2, "b")));
    assert_eq!(r, Err(IssuesEventError { line: None }));
    assert_eq!(store, before);
    let r = store.append_to_log(LogWrite::Written, IssueEvent::IssueCreated(issue(2, "b")));
    assert_eq!(r, Ok(()));
    assert_eq!(store.get_issue(&2), Some(&issue(2, "b")));
    assert_eq!(store.next_issue_id(), 3);
}

#[test]
fn a_template_makes_an_open_issue_and_its_first_comment() {
    let mut custom = HashMap::new();
    custom.insert("assigned_to".to_string(), "you".to_string());
    let template = IssueItemTemplate {
        title: "Fix".to_string(),
        priority: Priority::High,
        created_by: "a@b.c".to_string(),
        custom: custom.clone(),
    };
    let now = Timestamp::new(1_700_000_000, 5);
    let (issue, comment) = Issue::from_template(9, template, "why".to_string(), now);
    assert_eq!(
        issue,
        Issue {
            id: 9,
            title: "Fix".to_string(),
            created: now,
            status: Status::Open,
            priority: Priority::High,
            created_by: "a@b.c".to_string(),
            custom,
        }
    );
    assert_eq!(
        comment,
        Comment {
            parent_issue: 9,
            content: "why".to_string(),
            created_at: now,
            author: "a@b.c".to_string(),
        }
    );
}

#[test]
fn appended_records_are_found_again_on_reload() {
    let created = IssueEvent::IssueCreated(issue(7, "seven"));
    let commented = IssueEvent::CommentAdded(comment(7, "first"));
    let mut store = Issues::new();
    store.append_to_log(LogWrite::Written, created.clone()).unwrap();
    store.append_to_log(LogWrite::Written, commented.clone()).unwrap();
    let lines = log_lines("created\ncommented\n");
    assert_eq!(lines.len(), 2);
    let mut events = vec![created, commented].into_iter();
    let decoded = lines
        .into_iter()
        .map(|line| DecodedLine { line, event: events.next() })
        .collect();
    let reloaded = Issues::from_jsonl(decoded).unwrap();
    assert_eq!(reloaded, store);
    assert_eq!(reloaded.iter_issues().len(), 1);
    assert_eq!(reloaded.iter_issues()[0].id, 7);
    assert_eq!(reloaded.get_comments(&7).map(|c| c.len()), Some(1));
}
