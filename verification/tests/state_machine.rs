use gurk::app::{App, Channel, Key};
use gurk::config::{Config, User};
use gurk::util::StatefulList;

fn test_config() -> Config {
    Config { user: User { name: "Tester".to_string() } }
}

fn new_app() -> App {
    App::try_new(Some(test_config()), "config.toml".to_string()).unwrap()
}

fn msg_count(app: &App) -> usize {
    app.current_chat.msgs.items.len()
}

#[test]
fn next_full_cycle_from_present_selection() {
    let mut list = StatefulList::with_items(vec![10u8, 20, 30, 40]);
    list.select(1).unwrap();
    for _ in 0..4 {
        list.next();
    }
    assert_eq!(list.selected, Some(1));
}

#[test]
fn previous_full_cycle_from_present_selection() {
    let mut list = StatefulList::with_items(vec![10u8, 20, 30, 40]);
    list.select(2).unwrap();
    for _ in 0..4 {
        list.previous();
    }
    assert_eq!(list.selected, Some(2));
}

#[test]
fn previous_full_cycle_from_absent_selection() {
    let mut list = StatefulList::with_items(vec![10u8, 20, 30]);
    assert_eq!(list.selected, None);
    for _ in 0..3 {
        list.previous();
    }
    assert_eq!(list.selected, Some(0));
}

#[test]
fn next_from_absent_selection_starts_at_first() {
    let mut list = StatefulList::with_items(vec![10u8, 20, 30]);
    list.next();
    assert_eq!(list.selected, Some(0));
    list.next();
    assert_eq!(list.selected, Some(1));
}

#[test]
fn next_from_absent_full_cycle_takes_one_extra_step() {
    let mut list = StatefulList::with_items(vec![10u8, 20, 30]);
    for _ in 0..4 {
        list.next();
    }
    assert_eq!(list.selected, Some(0));
}

#[test]
fn previous_from_absent_selection_starts_at_last() {
    let mut list = StatefulList::with_items(vec![10u8, 20, 30]);
    list.previous();
    assert_eq!(list.selected, Some(2));
}

#[test]
fn empty_list_navigation_is_a_noop() {
    let mut list: StatefulList<u8> = StatefulList::with_items(vec![]);
    list.next();
    assert_eq!(list.selected, None);
    assert_eq!(list.items.len(), 0);
    list.previous();
    assert_eq!(list.selected, None);
    assert_eq!(list.items.len(), 0);
}

#[test]
fn select_out_of_range_fails_and_changes_nothing() {
    let mut list = StatefulList::with_items(vec![10u8, 20, 30]);
    list.select(1).unwrap();
    assert!(list.select(3).is_err());
    assert_eq!(list.selected, Some(1));
    assert_eq!(list.items, vec![10u8, 20, 30]);
}

#[test]
fn select_on_empty_list_fails() {
    let mut list: StatefulList<u8> = StatefulList::with_items(vec![]);
    assert!(list.select(0).is_err());
    assert_eq!(list.selected, None);
}

#[test]
fn select_in_range_succeeds() {
    let mut list = StatefulList::with_items(vec![10u8, 20, 30]);
    assert!(list.select(2).is_ok());
    assert_eq!(list.selected, Some(2));
}

#[test]
fn enter_commits_buffer_as_message() {
    let mut app = new_app();
    let before = msg_count(&app);
    app.on_key(Key::Char('y'));
    app.on_key(Key::Char('o'));
    app.on_key(Key::Enter);
    assert_eq!(msg_count(&app), before + 1);
    let last = app.current_chat.msgs.items.last().unwrap();
    assert_eq!(last.text, "yo");
    assert_eq!(last.from, "Tester");
    assert_eq!(app.input, "");
}

#[test]
fn enter_on_empty_buffer_is_a_noop() {
    let mut app = new_app();
    let before = msg_count(&app);
    app.on_key(Key::Enter);
    assert_eq!(msg_count(&app), before);
    assert_eq!(app.input, "");
}

#[test]
fn backspace_on_empty_buffer_is_a_noop() {
    let mut app = new_app();
    let before = msg_count(&app);
    app.on_key(Key::Backspace);
    assert_eq!(app.input, "");
    assert_eq!(msg_count(&app), before);
    assert!(!app.should_quit);
}

#[test]
fn backspace_removes_one_code_point() {
    let mut app = new_app();
    for c in "héllo".chars() {
        app.on_key(Key::Char(c));
    }
    assert_eq!(app.input, "héllo");
    app.on_key(Key::Backspace);
    assert_eq!(app.input, "héll");
    app.on_key(Key::Backspace);
    assert_eq!(app.input, "hél");
}

#[test]
fn q_sets_should_quit_regardless_of_state() {
    let mut app = new_app();
    app.on_key(Key::Char('a'));
    app.on_down();
    app.on_key(Key::Char('q'));
    assert!(app.should_quit);
    assert_eq!(app.input, "a");
}

#[test]
fn scenario_seven_downs_wrap_to_first_channel() {
    let mut app = new_app();
    assert_eq!(app.channels.items.len(), 7);
    assert_eq!(app.channels.selected, Some(0));
    for _ in 0..7 {
        app.on_down();
    }
    assert_eq!(app.channels.selected, Some(0));
}

#[test]
fn scenario_type_hi_and_commit() {
    let mut app = new_app();
    let before = msg_count(&app);
    app.on_key(Key::Char('h'));
    app.on_key(Key::Char('i'));
    app.on_key(Key::Enter);
    assert_eq!(msg_count(&app), before + 1);
    assert_eq!(app.current_chat.msgs.items.last().unwrap().text, "hi");
    assert_eq!(app.input, "");
}

#[test]
fn scenario_backspace_then_enter_on_empty_buffer() {
    let mut app = new_app();
    let before = msg_count(&app);
    app.on_key(Key::Backspace);
    app.on_key(Key::Enter);
    assert_eq!(msg_count(&app), before);
    assert_eq!(app.input, "");
    assert!(!app.should_quit);
}

#[test]
fn try_new_seeds_roster_and_sample_chat() {
    let app = new_app();
    let names: Vec<&str> = app.channels.items.iter().map(|c| c.name.as_str()).collect();
    assert_eq!(
        names,
        vec![
            "Basic people",
            "Flat earth society",
            "Don't burn",
            "Small 🦙",
            "Alice",
            "Bob",
            "Note to Self",
        ]
    );
    for (i, ch) in app.channels.items.iter().enumerate() {
        assert_eq!(ch.is_group, i < 4);
        assert!(ch.last_msg.is_none());
    }
    assert_eq!(app.current_chat.msgs.items.len(), 7);
    for m in &app.current_chat.msgs.items {
        assert_eq!(m.from, "Bob");
        assert_eq!(m.arrived_at, app.current_chat.msgs.items[0].arrived_at);
    }
    assert_eq!(
        app.current_chat.msgs.items[6].text,
        "culpa qui officia deserunt mollit anim id est laborum."
    );
    assert_eq!(app.current_chat.msgs.selected, None);
    assert_eq!(app.config.user.name, "Tester");
    assert_eq!(app.input, "");
    assert!(!app.should_quit);
}

#[test]
fn try_new_without_config_reports_the_path() {
    let err = App::try_new(None, "/etc/chat/config.toml".to_string()).err().unwrap();
    assert_eq!(err.path, "/etc/chat/config.toml");
    assert_eq!(
        err.describe(),
        "failed to read config from: /etc/chat/config.toml"
    );
}

#[test]
fn on_up_wraps_to_last_channel() {
    let mut app = new_app();
    assert_eq!(app.channels.selected, Some(0));
    app.on_up();
    assert_eq!(app.channels.selected, Some(6));
    app.on_up();
    assert_eq!(app.channels.selected, Some(5));
}

#[test]
fn reserved_handlers_change_nothing() {
    let mut app = new_app();
    app.on_key(Key::Char('x'));
    let before = msg_count(&app);
    app.on_left();
    app.on_right();
    app.on_tick();
    assert_eq!(app.input, "x");
    assert_eq!(msg_count(&app), before);
    assert_eq!(app.channels.selected, Some(0));
    assert!(!app.should_quit);
}

#[test]
fn unmapped_key_is_a_noop() {
    let mut app = new_app();
    let before = msg_count(&app);
    app.on_key(Key::Other);
    assert_eq!(app.input, "");
    assert_eq!(msg_count(&app), before);
    assert!(!app.should_quit);
}

#[test]
fn channel_new_has_no_preview() {
    let c = Channel::new("Alice".to_string(), false);
    assert_eq!(c.name, "Alice");
    assert!(!c.is_group);
    assert!(c.last_msg.is_none());
}

#[test]
fn committed_message_has_fresh_buffer_each_time() {
    let mut app = new_app();
    app.on_key(Key::Char('a'));
    app.on_key(Key::Enter);
    app.on_key(Key::Char('b'));
    app.on_key(Key::Char('c'));
    app.on_key(Key::Enter);
    let n = msg_count(&app);
    assert_eq!(app.current_chat.msgs.items[n - 2].text, "a");
    assert_eq!(app.current_chat.msgs.items[n - 1].text, "bc");
}
