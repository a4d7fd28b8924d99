use intrack::app::{App, EditorStep, EventHandlerError, Iteration};
use intrack::feat::external_editor::{
    EditorOutcome, ExternalEditor, ExternalEditorCallback, ExternalEditorEntry,
    ExternalEditorError, Handshake, HandshakeAction, HandshakeEvent,
};
use intrack::feat::issue::{
    Comment, Issue, IssueItemTemplate, Priority, Status, Timestamp,
};
use intrack::feat::issues::{IssueEvent, Issues};
use intrack::feat::tui::{
    Event, EventExt, EventPropagation, Focus, KeyCode, KeyEvent, KeyEventKind, KeyModifiers,
    MouseEvent, MouseEventKind, Page, TuiState,
};
use intrack::feat::tui_issue_list::IssueListPageInput;
use intrack::feat::tui_issue_table::{
    Column, IssueTablePageInput, SortDirection, TableKey,
};
use intrack::feat::tui_issue_table::input::read_table_key;
use intrack::feat::tui_issue_thread::input::read_thread_key;
use intrack::feat::tui_issue_thread::{IssueThreadPageInput, ThreadKey};
use std::collections::HashMap;

fn press(code: KeyCode) -> Event {
    Event::Key(KeyEvent::new(code, KeyModifiers::none()))
}

fn press_with(code: KeyCode, modifiers: KeyModifiers) -> Event {
    Event::Key(KeyEvent::new(code, modifiers))
}

fn release(code: KeyCode) -> Event {
    Event::Key(KeyEvent { code, modifiers: KeyModifiers::none(), kind: KeyEventKind::Release })
}

fn issue(id: u64, title: &str, status: Status) -> Issue {
    Issue {
        id,
        title: title.to_string(),
        created: Timestamp::new(id as i64, 0),
        status,
        priority: Priority::Low,
        created_by: "me@example.com".to_string(),
        custom: HashMap::new(),
    }
}

fn app() -> App {
    let issues = Issues::from_events(vec![
        IssueEvent::IssueCreated(issue(1, "first one", Status::Open)),
        IssueEvent::IssueCreated(issue(2, "second one", Status::Closed)),
    ]);
    App::new(issues, TuiState::default(), "author@example.com".to_string())
}

#[test]
fn slash_enters_the_filter_and_escape_leaves_it() {
    let mut app = app();
    assert_eq!(app.tuistate.page(), Page::IssueTable);
    assert_eq!(app.tuistate.focus(), Focus::IssueTable);
    assert_eq!(app.route(&press(KeyCode::Char('/'))), Ok(EventPropagation::Stop));
    assert_eq!(app.tuistate.focus(), Focus::IssueTableFilter);
    assert!(app.tuistate.issue_table.filter_input_state().is_focused());
    assert_eq!(app.route(&press(KeyCode::Esc)), Ok(EventPropagation::Stop));
    assert_eq!(app.tuistate.focus(), Focus::IssueTable);
    assert!(!app.tuistate.issue_table.filter_input_state().is_focused());
    assert_eq!(app.tuistate.page(), Page::IssueTable);
}

#[test]
fn enter_leaves_the_filter_too_and_other_keys_are_typed() {
    let mut app = app();
    app.handle_event(&press(KeyCode::Char('/'))).unwrap();
    assert_eq!(app.route(&press(KeyCode::Char('q'))), Ok(EventPropagation::Stop));
    assert_eq!(app.tuistate.issue_table.filter_input_state().text(), "!closed q");
    assert!(!app.should_quit());
    assert_eq!(app.route(&press(KeyCode::Up)), Ok(EventPropagation::Continue));
    assert_eq!(app.route(&Event::Tick), Ok(EventPropagation::Continue));
    assert_eq!(app.route(&press(KeyCode::Enter)), Ok(EventPropagation::Stop));
    assert_eq!(app.tuistate.focus(), Focus::IssueTable);
}

#[test]
fn q_quits_only_where_no_page_takes_it() {
    let mut app = app();
    assert_eq!(app.handle_event(&Event::Tick), Ok(()));
    assert!(!app.should_quit());
    assert_eq!(app.handle_event(&press(KeyCode::Char('q'))), Ok(()));
    assert!(app.should_quit());

    let mut on_thread = self::app();
    on_thread.tuistate.set_page(Page::IssueThread);
    on_thread.tuistate.set_focus(Focus::IssueThread);
    on_thread.handle_event(&press(KeyCode::Char('q'))).unwrap();
    assert!(!on_thread.should_quit());
    assert_eq!(on_thread.tuistate.page(), Page::IssueTable);
    assert_eq!(on_thread.tuistate.focus(), Focus::IssueTable);

    let mut released = self::app();
    released.handle_event(&release(KeyCode::Char('q'))).unwrap();
    assert!(released.should_quit());
}

#[test]
fn a_stray_focus_is_given_back_to_the_page() {
    let mut app = app();
    app.tuistate.set_focus(Focus::IssueThread);
    assert_eq!(app.route(&press(KeyCode::Char('q'))), Ok(EventPropagation::Stop));
    assert_eq!(app.tuistate.focus(), Focus::IssueTable);
    assert!(!app.should_quit());

    app.tuistate.set_page(Page::IssueThread);
    assert_eq!(IssueThreadPageInput::handle(&mut app, &Event::Tick), Ok(EventPropagation::Stop));
    assert_eq!(app.tuistate.focus(), Focus::IssueThread);

    app.tuistate.set_page(Page::IssueList);
    assert_eq!(app.route(&Event::Render), Ok(EventPropagation::Stop));
    assert_eq!(app.tuistate.focus(), Focus::IssueList);
}

#[test]
fn table_keys_are_read_in_the_order_of_the_bindings() {
    let shift = KeyModifiers::shift();
    let none = KeyModifiers::none();
    let cases = [
        (KeyCode::Char('c'), none, Some(TableKey::EditColumns)),
        (KeyCode::Char('c'), shift, Some(TableKey::EditColumns)),
        (KeyCode::Char('n'), KeyModifiers::alt(), Some(TableKey::NewIssue)),
        (KeyCode::Down, shift, Some(TableKey::SortDescending)),
        (KeyCode::Char('J'), shift, Some(TableKey::SortDescending)),
        (KeyCode::Char('j'), shift, Some(TableKey::SortDescending)),
        (KeyCode::Up, shift, Some(TableKey::SortAscending)),
        (KeyCode::Char('K'), shift, Some(TableKey::SortAscending)),
        (KeyCode::Char('k'), shift, Some(TableKey::SortAscending)),
        (KeyCode::Right, shift, Some(TableKey::SortNextColumn)),
        (KeyCode::Char('L'), shift, Some(TableKey::SortNextColumn)),
        (KeyCode::Char('l'), shift, Some(TableKey::SortNextColumn)),
        (KeyCode::Left, shift, Some(TableKey::SortPreviousColumn)),
        (KeyCode::Char('H'), shift, Some(TableKey::SortPreviousColumn)),
        (KeyCode::Char('h'), shift, Some(TableKey::SortPreviousColumn)),
        (KeyCode::Char('?'), shift, Some(TableKey::ToggleHelp)),
        (KeyCode::Char('s'), none, Some(TableKey::ToggleStatus)),
        (KeyCode::Down, none, Some(TableKey::CursorNext)),
        (KeyCode::Char('j'), none, Some(TableKey::CursorNext)),
        (KeyCode::Up, none, Some(TableKey::CursorPrevious)),
        (KeyCode::Char('k'), KeyModifiers::control(), Some(TableKey::CursorPrevious)),
        (KeyCode::Enter, none, Some(TableKey::ViewThread)),
        (KeyCode::Char('/'), none, Some(TableKey::FocusFilter)),
        (KeyCode::Char('J'), none, None),
        (KeyCode::Char('K'), none, None),
        (KeyCode::Right, none, None),
        (KeyCode::Char('l'), none, None),
        (KeyCode::Char('h'), none, None),
        (KeyCode::Char('x'), none, None),
        (KeyCode::Esc, none, None),
    ];
    for (code, modifiers, expected) in cases {
        assert_eq!(read_table_key(&press_with(code, modifiers)), expected, "{code:?}");
    }
    assert_eq!(read_table_key(&release(KeyCode::Char('c'))), None);
    assert_eq!(read_table_key(&Event::Render), None);
}

#[test]
fn sort_keys_change_the_sort_of_the_table() {
    let mut app = app();
    let shift = KeyModifiers::shift();
    assert_eq!(app.route(&press_with(KeyCode::Char('K'), shift)), Ok(EventPropagation::Stop));
    assert_eq!(app.tuistate.issue_table.sort_direction(), &SortDirection::Ascending);
    app.route(&press_with(KeyCode::Down, shift)).unwrap();
    assert_eq!(app.tuistate.issue_table.sort_direction(), &SortDirection::Descending);
    app.route(&press_with(KeyCode::Char('L'), shift)).unwrap();
    assert_eq!(app.tuistate.issue_table.sort_by(), &Column::Status);
    app.route(&press_with(KeyCode::Left, shift)).unwrap();
    app.route(&press_with(KeyCode::Char('h'), shift)).unwrap();
    assert_eq!(app.tuistate.issue_table.sort_by(), &Column::Title);
    assert_eq!(app.route(&press(KeyCode::Char('?'))), Ok(EventPropagation::Stop));
    assert!(app.tuistate.issue_table.show_help);
    app.route(&press(KeyCode::Char('?'))).unwrap();
    assert!(!app.tuistate.issue_table.show_help);
    assert_eq!(app.route(&press(KeyCode::Char('x'))), Ok(EventPropagation::Continue));
}

#[test]
fn the_cursor_keys_move_the_selection_of_the_table() {
    let mut app = app();
    assert_eq!(app.route(&press(KeyCode::Char('j'))), Ok(EventPropagation::Stop));
    assert_eq!(app.tuistate.issue_table.selected(), vec![0]);
    app.route(&press(KeyCode::Down)).unwrap();
    assert_eq!(app.tuistate.issue_table.selected(), vec![1]);
    app.route(&press(KeyCode::Char('k'))).unwrap();
    app.route(&press(KeyCode::Up)).unwrap();
    assert_eq!(app.tuistate.issue_table.selected(), vec![0]);
}

#[test]
fn toggling_the_status_leaves_a_record_in_the_outbox() {
    let mut app = app();
    assert_eq!(app.route(&press(KeyCode::Char('s'))), Ok(EventPropagation::Stop));
    assert!(app.outbox.is_empty());

    app.tuistate.issue_table.display_map.insert(0, 2);
    app.tuistate.issue_table.display_map.insert(1, 1);
    app.tuistate.issue_table.cursor_to_item(0);
    let store = app.issues.clone();
    assert_eq!(app.route(&press(KeyCode::Char('s'))), Ok(EventPropagation::Stop));
    assert_eq!(app.outbox, vec![IssueEvent::StatusChanged { issue_id: 2, status: Status::Open }]);
    assert_eq!(app.issues, store);
    app.tuistate.issue_table.cursor_to_item(1);
    app.handle_event(&press(KeyCode::Char('s'))).unwrap();
    assert_eq!(
        app.take_outbox(),
        vec![
            IssueEvent::StatusChanged { issue_id: 2, status: Status::Open },
            IssueEvent::StatusChanged { issue_id: 1, status: Status::Closed },
        ]
    );
    assert!(app.outbox.is_empty());
}

#[test]
fn toggling_the_status_of_a_row_without_an_issue_is_reported_and_stopped() {
    let mut app = app();
    app.tuistate.issue_table.cursor_to_item(3);
    let store = app.issues.clone();
    assert_eq!(
        IssueTablePageInput::handle(&mut app, &press(KeyCode::Char('s'))),
        Ok(EventPropagation::Stop)
    );
    assert_eq!(app.last_error, Some(EventHandlerError));
    assert_eq!(app.take_last_error(), Some(EventHandlerError));
    assert_eq!(app.take_last_error(), None);

    app.tuistate.issue_table.display_map.insert(3, 99);
    assert_eq!(app.route(&press(KeyCode::Char('s'))), Ok(EventPropagation::Stop));
    assert_eq!(app.take_last_error(), Some(EventHandlerError));
    assert_eq!(app.handle_event(&press(KeyCode::Char('s'))), Ok(()));
    assert_eq!(app.last_error, Some(EventHandlerError));
    assert!(app.outbox.is_empty());
    assert!(!app.should_quit());
    assert_eq!(app.issues, store);
    assert_eq!(app.tuistate.page(), Page::IssueTable);
    assert_eq!(app.tuistate.focus(), Focus::IssueTable);
    assert_eq!(app.tuistate.issue_table.selected(), vec![3]);
}

#[test]
fn a_failure_waits_until_it_is_taken() {
    let mut app = app();
    app.tuistate.issue_table.cursor_to_item(3);
    app.handle_event(&press(KeyCode::Char('s'))).unwrap();
    app.handle_event(&press(KeyCode::Char('j'))).unwrap();
    app.handle_event(&Event::Tick).unwrap();
    assert_eq!(app.last_error, Some(EventHandlerError));
    assert_eq!(app.begin_iteration(&Event::Render, 80).editor, None);
    assert_eq!(app.take_last_error(), Some(EventHandlerError));
    assert_eq!(app.last_error, None);
}

#[test]
fn keys_act_on_the_rows_that_the_turn_settled() {
    let mut app = app();
    app.tuistate.issue_table.filter_input_state_mut().set_text("");
    app.tuistate.issue_table.cursor_to_item(5);
    let key = press(KeyCode::Char('s'));
    assert_eq!(app.begin_iteration(&Event::Tick, 80), Iteration { editor: None, render: false });
    assert_eq!(app.tuistate.issue_table.selected(), vec![5]);
    assert!(app.tuistate.issue_table.display_map.is_empty());
    assert_eq!(app.begin_iteration(&key, 80), Iteration { editor: None, render: true });
    assert_eq!(app.tuistate.issue_table.selected(), vec![1]);
    assert_eq!(app.tuistate.issue_table.display_map.get(&0), Some(&2));
    assert_eq!(app.tuistate.issue_table.display_map.get(&1), Some(&1));
    app.handle_event(&key).unwrap();
    assert_eq!(app.last_error, None);
    assert_eq!(
        app.take_outbox(),
        vec![IssueEvent::StatusChanged { issue_id: 1, status: Status::Closed }]
    );
    app.tuistate.set_page(Page::IssueThread);
    app.tuistate.issue_thread.set_issue_id(2);
    app.tuistate.issue_thread.cursor_add(50);
    app.begin_iteration(&Event::Render, 80);
    assert_eq!(app.tuistate.issue_thread.selected(), Some(4));
    assert_eq!(app.tuistate.issue_table.selected(), vec![1]);
}

#[test]
fn enter_opens_the_thread_of_the_selected_row() {
    let mut app = app();
    assert_eq!(app.route(&press(KeyCode::Enter)), Ok(EventPropagation::Stop));
    assert_eq!(app.tuistate.page(), Page::IssueTable);
    app.tuistate.issue_table.cursor_to_item(0);
    assert_eq!(app.route(&press(KeyCode::Enter)), Ok(EventPropagation::Stop));
    assert_eq!(app.tuistate.page(), Page::IssueTable);
    app.tuistate.issue_table.display_map.insert(0, 2);
    app.tuistate.issue_thread.cursor_add(5);
    assert_eq!(app.route(&press(KeyCode::Enter)), Ok(EventPropagation::Stop));
    assert_eq!(app.tuistate.page(), Page::IssueThread);
    assert_eq!(app.tuistate.focus(), Focus::IssueThread);
    assert_eq!(app.tuistate.issue_thread.issue_id, 2);
    assert_eq!(app.tuistate.issue_thread.selected(), Some(0));
}

#[test]
fn the_editor_is_asked_for_columns_and_for_a_new_issue() {
    let mut app = app();
    assert_eq!(app.route(&press(KeyCode::Char('c'))), Ok(EventPropagation::Stop));
    assert_eq!(
        app.external_editor.entry,
        Some(ExternalEditorEntry {
            data: "ID\nTitle\nCreated\nStatus\nPriority\nCreated By".to_string(),
            file_extension: String::new(),
            callback: ExternalEditorCallback::SetColumns,
        })
    );
    assert_eq!(app.route(&press(KeyCode::Char('n'))), Ok(EventPropagation::Stop));
    assert_eq!(
        app.external_editor.entry,
        Some(ExternalEditorEntry {
            data: Issue::new_template().to_string(),
            file_extension: String::new(),
            callback: ExternalEditorCallback::CreateIssue,
        })
    );
}

#[test]
fn thread_keys_are_read_in_the_order_of_the_bindings() {
    let control = KeyModifiers::control();
    let none = KeyModifiers::none();
    let cases = [
        (KeyCode::Char('q'), none, Some(ThreadKey::Back)),
        (KeyCode::Esc, none, Some(ThreadKey::Back)),
        (KeyCode::Down, none, Some(ThreadKey::CursorNext)),
        (KeyCode::Char('j'), control, Some(ThreadKey::CursorNext)),
        (KeyCode::Up, none, Some(ThreadKey::CursorPrevious)),
        (KeyCode::Char('k'), none, Some(ThreadKey::CursorPrevious)),
        (KeyCode::Char('d'), control, Some(ThreadKey::PageDown)),
        (KeyCode::Char('u'), control, Some(ThreadKey::PageUp)),
        (KeyCode::Char('d'), none, None),
        (KeyCode::Char('u'), KeyModifiers::shift(), None),
        (KeyCode::Char('?'), none, Some(ThreadKey::ToggleHelp)),
        (KeyCode::Char('a'), none, Some(ThreadKey::AddComment)),
        (KeyCode::Enter, none, None),
    ];
    for (code, modifiers, expected) in cases {
        assert_eq!(read_thread_key(&press_with(code, modifiers)), expected, "{code:?}");
    }
    assert_eq!(read_thread_key(&release(KeyCode::Esc)), None);
}

#[test]
fn the_thread_page_moves_its_cursor_and_goes_back() {
    let mut app = app();
    app.tuistate.set_page(Page::IssueThread);
    app.tuistate.set_focus(Focus::IssueThread);
    app.tuistate.issue_thread.set_issue_id(2);
    let control = KeyModifiers::control();
    assert_eq!(app.route(&press_with(KeyCode::Char('d'), control)), Ok(EventPropagation::Stop));
    assert_eq!(app.tuistate.issue_thread.selected(), Some(10));
    app.route(&press(KeyCode::Char('j'))).unwrap();
    app.route(&press(KeyCode::Down)).unwrap();
    assert_eq!(app.tuistate.issue_thread.selected(), Some(12));
    app.route(&press(KeyCode::Char('k'))).unwrap();
    assert_eq!(app.tuistate.issue_thread.selected(), Some(11));
    app.route(&press_with(KeyCode::Char('u'), control)).unwrap();
    assert_eq!(app.tuistate.issue_thread.selected(), Some(1));
    app.route(&press_with(KeyCode::Char('u'), control)).unwrap();
    assert_eq!(app.tuistate.issue_thread.selected(), Some(0));
    app.route(&press(KeyCode::Char('?'))).unwrap();
    assert!(app.tuistate.issue_thread.show_help);
    assert_eq!(app.route(&press(KeyCode::Char('d'))), Ok(EventPropagation::Continue));
    assert_eq!(app.route(&press(KeyCode::Esc)), Ok(EventPropagation::Stop));
    assert_eq!(app.tuistate.page(), Page::IssueTable);
    assert_eq!(app.tuistate.focus(), Focus::IssueTable);
    assert!(!app.tuistate.issue_thread.show_help);
    assert_eq!(app.tuistate.issue_thread.issue_id, 2);
}

#[test]
fn the_thread_page_asks_the_editor_for_a_comment() {
    let mut app = app();
    app.tuistate.set_page(Page::IssueThread);
    app.tuistate.set_focus(Focus::IssueThread);
    app.tuistate.issue_thread.set_issue_id(2);
    assert_eq!(app.route(&press(KeyCode::Char('a'))), Ok(EventPropagation::Stop));
    assert_eq!(
        app.external_editor.entry,
        Some(ExternalEditorEntry {
            data: "Enter comment here.\n\n".to_string(),
            file_extension: "txt".to_string(),
            callback: ExternalEditorCallback::AddComment { issue_id: 2 },
        })
    );
}

#[test]
fn the_list_page_moves_its_cursor_and_filters() {
    let mut app = app();
    app.tuistate.set_page(Page::IssueList);
    app.tuistate.set_focus(Focus::IssueList);
    assert_eq!(app.route(&press(KeyCode::Down)), Ok(EventPropagation::Stop));
    assert_eq!(app.tuistate.issue_list.list.selected(), Some(0));
    app.route(&press(KeyCode::Down)).unwrap();
    assert_eq!(app.tuistate.issue_list.list.selected(), Some(1));
    app.route(&press(KeyCode::Up)).unwrap();
    app.route(&press(KeyCode::Up)).unwrap();
    assert_eq!(app.tuistate.issue_list.list.selected(), Some(0));
    assert_eq!(app.route(&press(KeyCode::Char('j'))), Ok(EventPropagation::Continue));
    assert_eq!(IssueListPageInput::handle(&mut app, &press(KeyCode::Char('/'))), EventPropagation::Stop);
    assert_eq!(app.tuistate.focus(), Focus::IssueListFilter);
    assert!(app.tuistate.issue_list.filter().is_focused());
    assert_eq!(app.route(&press(KeyCode::Char('x'))), Ok(EventPropagation::Stop));
    assert_eq!(app.tuistate.issue_list.filter().text(), "x");
    assert_eq!(app.route(&press(KeyCode::Enter)), Ok(EventPropagation::Continue));
    assert_eq!(app.route(&release(KeyCode::Esc)), Ok(EventPropagation::Stop));
    assert_eq!(app.tuistate.focus(), Focus::IssueList);
    assert!(!app.tuistate.issue_list.filter_mut().is_focused());
}

#[test]
fn event_helpers_look_at_pressed_keys_only() {
    let shift_a = press_with(KeyCode::Char('a'), KeyModifiers::shift());
    assert!(shift_a.is_char('a'));
    assert!(!shift_a.is_char('b'));
    assert!(shift_a.is_code(KeyCode::Char('a')));
    assert_eq!(shift_a.keypress(), Some(KeyCode::Char('a')));
    assert_eq!(shift_a.modifiers(), Some(KeyModifiers::shift()));
    let up = release(KeyCode::Char('a'));
    assert!(!up.is_char('a'));
    assert_eq!(up.keypress(), None);
    assert_eq!(up.modifiers(), None);
    assert_eq!(Event::Tick.keypress(), None);
    assert!(!Event::Paste("a".to_string()).is_char('a'));
    let both = KeyModifiers { shift: true, control: true, ..KeyModifiers::none() };
    assert!(both.contains(KeyModifiers::shift()));
    assert!(both.contains(KeyModifiers::control()));
    assert!(both.contains(KeyModifiers::none()));
    assert!(!both.contains(KeyModifiers::alt()));
    assert!(!KeyModifiers::shift().contains(both));
}

#[test]
fn only_visual_events_draw() {
    let mouse = Event::Mouse(MouseEvent {
        kind: MouseEventKind::Moved,
        column: 1,
        row: 2,
        modifiers: KeyModifiers::none(),
    });
    for event in [Event::Render, press(KeyCode::Up), mouse, Event::Resize(80, 24)] {
        assert!(event.needs_render());
    }
    for event in [
        Event::Init,
        Event::Quit,
        Event::Error,
        Event::Closed,
        Event::Tick,
        Event::FocusGained,
        Event::FocusLost,
        Event::Paste("x".to_string()),
    ] {
        assert!(!event.needs_render());
    }
}

#[test]
fn a_new_request_puts_the_waiting_one_out() {
    let mut editor = ExternalEditor::new();
    assert_eq!(editor.take(), None);
    let first = editor.edit("one".to_string(), "md".to_string(), ExternalEditorCallback::SetColumns);
    assert_eq!(first, None);
    let displaced =
        editor.edit("two".to_string(), "txt".to_string(), ExternalEditorCallback::CreateIssue);
    assert_eq!(
        displaced,
        Some(ExternalEditorEntry {
            data: "one".to_string(),
            file_extension: "md".to_string(),
            callback: ExternalEditorCallback::SetColumns,
        })
    );
    assert_eq!(
        editor.take(),
        Some(ExternalEditorEntry {
            data: "two".to_string(),
            file_extension: "txt".to_string(),
            callback: ExternalEditorCallback::CreateIssue,
        })
    );
    assert_eq!(editor.take(), None);
}

#[test]
fn an_iteration_takes_the_waiting_request() {
    let mut app = app();
    assert_eq!(app.begin_iteration(&Event::Tick, 80), Iteration { editor: None, render: false });
    app.route(&press(KeyCode::Char('n'))).unwrap();
    let iteration = app.begin_iteration(&Event::Render, 80);
    assert!(iteration.render);
    assert_eq!(iteration.editor.unwrap().callback, ExternalEditorCallback::CreateIssue);
    assert_eq!(app.external_editor.entry, None);
    assert_eq!(app.begin_iteration(&Event::Render, 80), Iteration { editor: None, render: true });
}

#[test]
fn an_aborted_edit_changes_nothing() {
    let now = Timestamp::new(10, 0);
    for callback in [
        ExternalEditorCallback::SetColumns,
        ExternalEditorCallback::CreateIssue,
        ExternalEditorCallback::AddComment { issue_id: 1 },
    ] {
        let mut app = app();
        let issues = app.issues.clone();
        let columns = app.tuistate.issue_table.columns().to_vec();
        assert_eq!(app.editor_response(callback, None, now), Ok(EditorStep::Done));
        assert_eq!(app.issues, issues);
        assert_eq!(app.tuistate.issue_table.columns(), &columns[..]);
        assert!(app.outbox.is_empty());
        assert_eq!(app.external_editor.entry, None);
        assert_eq!(app.tuistate.page(), Page::IssueTable);
        assert_eq!(app.tuistate.focus(), Focus::IssueTable);
        assert!(!app.should_quit());
    }
}

#[test]
fn edited_columns_become_the_columns_of_the_table() {
    let mut app = app();
    let r = app.editor_response(
        ExternalEditorCallback::SetColumns,
        Some("status\n# ID\nteam\n".to_string()),
        Timestamp::new(10, 0),
    );
    assert_eq!(r, Ok(EditorStep::Done));
    assert_eq!(
        app.tuistate.issue_table.columns(),
        &[Column::Status, Column::Custom("team".to_string())]
    );
}

#[test]
fn an_edited_comment_is_trimmed_and_left_in_the_outbox() {
    let mut app = app();
    let now = Timestamp::new(1_700_000_000, 7);
    let callback = ExternalEditorCallback::AddComment { issue_id: 2 };
    assert_eq!(
        app.editor_response(callback, Some("  \n\t\n".to_string()), now),
        Ok(EditorStep::Done)
    );
    assert!(app.outbox.is_empty());
    assert_eq!(
        app.editor_response(callback, Some("\n looks good \n\n".to_string()), now),
        Ok(EditorStep::Done)
    );
    assert_eq!(
        app.outbox,
        vec![IssueEvent::CommentAdded(Comment {
            parent_issue: 2,
            content: "looks good".to_string(),
            created_at: now,
            author: "author@example.com".to_string(),
        })]
    );
}

#[test]
fn an_edited_template_is_split_and_then_decoded() {
    let mut app = app();
    let now = Timestamp::new(1_700_000_000, 7);
    let r = app.editor_response(
        ExternalEditorCallback::CreateIssue,
        Some("---\ntitle: T\n---\nbody\n".to_string()),
        now,
    );
    assert_eq!(
        r,
        Ok(EditorStep::DecodeTemplate { yaml: "title: T".to_string(), comment: "body".to_string() })
    );
    assert!(app.outbox.is_empty());
    let bad = app.editor_response(
        ExternalEditorCallback::CreateIssue,
        Some("no template".to_string()),
        now,
    );
    assert_eq!(bad, Err(ExternalEditorError));

    let template = IssueItemTemplate {
        title: "T".to_string(),
        priority: Priority::Medium,
        created_by: "x@y.z".to_string(),
        custom: HashMap::new(),
    };
    assert_eq!(app.template_decoded(template, "body".to_string(), now), Ok(()));
    assert_eq!(
        app.outbox,
        vec![
            IssueEvent::IssueCreated(Issue {
                id: 3,
                title: "T".to_string(),
                created: now,
                status: Status::Open,
                priority: Priority::Medium,
                created_by: "x@y.z".to_string(),
                custom: HashMap::new(),
            }),
            IssueEvent::CommentAdded(Comment {
                parent_issue: 3,
                content: "body".to_string(),
                created_at: now,
                author: "x@y.z".to_string(),
            }),
        ]
    );
}

#[test]
fn no_issue_can_follow_the_largest_id() {
    let issues = Issues::from_events(vec![IssueEvent::IssueCreated(issue(
        u64::MAX,
        "last",
        Status::Open,
    ))]);
    let mut app = App::new(issues, TuiState::default(), "a".to_string());
    let template = IssueItemTemplate {
        title: "T".to_string(),
        priority: Priority::Medium,
        created_by: "x@y.z".to_string(),
        custom: HashMap::new(),
    };
    assert_eq!(
        app.template_decoded(template, "body".to_string(), Timestamp::new(0, 0)),
        Err(ExternalEditorError)
    );
    assert!(app.outbox.is_empty());
}

fn request() -> ExternalEditorEntry {
    ExternalEditorEntry {
        data: "seed".to_string(),
        file_extension: "md".to_string(),
        callback: ExternalEditorCallback::AddComment { issue_id: 4 },
    }
}

fn served(outcome: EditorOutcome) -> Vec<HandshakeAction> {
    let mut actions = vec![];
    let mut state = Handshake::Idle;
    for event in [
        HandshakeEvent::Begin(request()),
        HandshakeEvent::Suspended,
        HandshakeEvent::Edited(outcome),
        HandshakeEvent::Resumed,
    ] {
        let (next, action) = state.advance(event);
        state = next;
        actions.push(action);
    }
    assert_eq!(state, Handshake::Idle);
    actions
}

#[test]
fn the_session_is_resumed_before_the_callback_runs() {
    let callback = ExternalEditorCallback::AddComment { issue_id: 4 };
    let edit = HandshakeAction::Edit { data: "seed".to_string(), file_extension: "md".to_string() };
    assert_eq!(
        served(EditorOutcome::Saved("text".to_string())),
        vec![
            HandshakeAction::Suspend,
            edit.clone(),
            HandshakeAction::Resume,
            HandshakeAction::Respond { callback, response: Some("text".to_string()) },
        ]
    );
    assert_eq!(
        served(EditorOutcome::Aborted),
        vec![
            HandshakeAction::Suspend,
            edit.clone(),
            HandshakeAction::Resume,
            HandshakeAction::Respond { callback, response: None },
        ]
    );
    assert_eq!(
        served(EditorOutcome::Failed),
        vec![HandshakeAction::Suspend, edit, HandshakeAction::Resume, HandshakeAction::Fail]
    );
}

#[test]
fn events_out_of_turn_change_nothing() {
    let (state, action) = Handshake::Idle.advance(HandshakeEvent::Resumed);
    assert_eq!((state, action), (Handshake::Idle, HandshakeAction::Ignore));
    let (state, _) = Handshake::Idle.advance(HandshakeEvent::Begin(request()));
    assert_eq!(state, Handshake::Suspending(request()));
    let (state, action) = state.advance(HandshakeEvent::Begin(request()));
    assert_eq!((state.clone(), action), (Handshake::Suspending(request()), HandshakeAction::Ignore));
    let (state, action) = state.advance(HandshakeEvent::Edited(EditorOutcome::Aborted));
    assert_eq!(action, HandshakeAction::Ignore);
    let (state, _) = state.advance(HandshakeEvent::Suspended);
    assert_eq!(state, Handshake::Editing(ExternalEditorCallback::AddComment { issue_id: 4 }));
    let (state, action) = state.advance(HandshakeEvent::Resumed);
    assert_eq!(action, HandshakeAction::Ignore);
    let (state, _) = state.advance(HandshakeEvent::Edited(EditorOutcome::Failed));
    let (state, action) = state.advance(HandshakeEvent::Suspended);
    assert_eq!(action, HandshakeAction::Ignore);
    assert_eq!(
        state,
        Handshake::Resuming {
            callback: ExternalEditorCallback::AddComment { issue_id: 4 },
            outcome: EditorOutcome::Failed,
        }
    );
}

#[test]
fn an_aborted_edit_leaves_the_application_and_resumes_the_session() {
    let mut app = app();
    app.tuistate.issue_thread.set_issue_id(2);
    app.tuistate.set_page(Page::IssueThread);
    app.tuistate.set_focus(Focus::IssueThread);
    app.route(&press(KeyCode::Char('a'))).unwrap();
    let entry = app.begin_iteration(&Event::Tick, 80).editor.unwrap();
    let issues = app.issues.clone();

    let mut session = intrack::feat::tui::Tui::new();
    session.enter_raw_mode();
    let mut state = Handshake::Idle;
    let mut event = HandshakeEvent::Begin(entry);
    let mut answered = false;
    for _ in 0..4 {
        let (next, action) = state.advance(event.clone());
        state = next;
        event = match action {
            HandshakeAction::Suspend => {
                assert!(!session.suspend().is_empty());
                HandshakeEvent::Suspended
            }
            HandshakeAction::Edit { .. } => HandshakeEvent::Edited(EditorOutcome::Aborted),
            HandshakeAction::Resume => {
                assert!(!session.resume().is_empty());
                HandshakeEvent::Resumed
            }
            HandshakeAction::Respond { callback, response } => {
                assert_eq!(response, None);
                assert_eq!(
                    app.editor_response(callback, response, Timestamp::new(0, 0)),
                    Ok(EditorStep::Done)
                );
                answered = true;
                HandshakeEvent::Resumed
            }
            other => panic!("unexpected action {other:?}"),
        };
    }
    assert!(answered);
    assert_eq!(
        session.mode,
        intrack::feat::tui::wrapper::SessionMode::RawMode { mouse: false, paste: false }
    );
    assert_eq!(app.issues, issues);
    assert!(app.outbox.is_empty());
    assert_eq!(app.external_editor.entry, None);
    assert_eq!(app.tuistate.page(), Page::IssueThread);
    assert_eq!(app.tuistate.issue_thread.issue_id, 2);
}
