use vimgram::app::{App, FindResult, Mode, Panel};
use vimgram::input::{handle_key, KeyCode, KeyEvent};

fn key(code: KeyCode) -> KeyEvent {
    KeyEvent { code, ctrl: false }
}

fn ch(c: char) -> KeyEvent {
    key(KeyCode::Char(c))
}

fn app_with(names: &[&str]) -> App {
    let mut app = App::new();
    for (i, n) in names.iter().enumerate() {
        app.add_chat(10 + i as i64, n.to_string());
    }
    app
}

#[test]
fn navigation_stays_in_range() {
    let mut app = app_with(&["a", "b", "c"]);
    for _ in 0..10 {
        app.move_up();
        assert_eq!(app.selected_chat, 0);
    }
    for _ in 0..10 {
        app.move_down();
        assert!(app.selected_chat <= 2);
    }
    assert_eq!(app.selected_chat, 2);
    let seq = [true, false, false, true, true, true, false];
    for up in seq {
        if up {
            app.move_up();
        } else {
            app.move_down();
        }
        assert!(app.selected_chat < 3);
    }
}

#[test]
fn navigation_on_empty_list_does_nothing() {
    let mut app = App::new();
    app.move_down();
    app.move_up();
    assert_eq!(app.selected_chat, 0);
    assert_eq!(app.current_chat_id(), None);
    assert!(app.current_messages().is_empty());
}

#[test]
fn moving_clears_unread_and_requests_load() {
    let mut app = app_with(&["a", "b"]);
    app.add_message(11, "x".to_string(), "hey".to_string(), false);
    app.needs_message_load = false;
    app.scroll_offset = 4;
    app.move_down();
    assert_eq!(app.selected_chat, 1);
    assert_eq!(app.chats[1].unread, 0);
    assert_eq!(app.scroll_offset, 0);
    assert!(app.needs_message_load);
}

#[test]
fn conversation_panel_scrolls_instead() {
    let mut app = app_with(&["a", "b"]);
    app.switch_panel();
    assert_eq!(app.panel, Panel::Chats);
    app.move_up();
    app.move_up();
    assert_eq!(app.scroll_offset, 2);
    assert_eq!(app.selected_chat, 0);
    app.move_down();
    app.move_down();
    app.move_down();
    assert_eq!(app.scroll_offset, 0);
    app.switch_panel();
    assert_eq!(app.panel, Panel::Friends);
}

#[test]
fn unread_after_clear_then_inbound() {
    let mut app = app_with(&["a", "b"]);
    app.add_message(11, "x".to_string(), "one".to_string(), false);
    app.clear_unread(11);
    assert_eq!(app.chats[1].unread, 0);
    app.add_message(11, "x".to_string(), "two".to_string(), false);
    assert_eq!(app.chats[1].unread, 1);
    app.move_down();
    assert_eq!(app.chats[1].unread, 0);
}

#[test]
fn outgoing_message_does_not_count_unread() {
    let mut app = app_with(&["a"]);
    app.add_message(10, "You".to_string(), "out".to_string(), true);
    assert_eq!(app.chats[0].unread, 0);
    assert_eq!(app.chats[0].last_message.as_deref(), Some("out"));
}

#[test]
fn add_chat_keeps_first_name() {
    let mut app = App::new();
    app.add_chat(5, "First".to_string());
    app.add_chat(5, "Second".to_string());
    assert_eq!(app.chats.len(), 1);
    assert_eq!(app.chats[0].name, "First");
    assert_eq!(app.chats[0].unread, 0);
    assert!(app.chats[0].last_message.is_none());
}

#[test]
fn empty_query_lists_all_chats() {
    let mut app = app_with(&["Alpha", "beta", "Gamma"]);
    app.enter_search();
    assert_eq!(app.mode, Mode::Search);
    assert_eq!(app.filtered_chat_indices, vec![0, 1, 2]);
    assert_eq!(app.search_selected, 0);
}

#[test]
fn query_matches_case_insensitively_in_order() {
    let mut app = app_with(&["xABCx", "nothing", "abc", "AbC club", "ab c"]);
    app.enter_search();
    for c in "abc".chars() {
        handle_key(&mut app, ch(c));
    }
    assert_eq!(app.search_input, "abc");
    assert_eq!(app.filtered_chat_indices, vec![0, 2, 3]);
    handle_key(&mut app, key(KeyCode::Backspace));
    assert_eq!(app.search_input, "ab");
    assert_eq!(app.filtered_chat_indices, vec![0, 2, 3, 4]);
}

#[test]
fn query_folds_non_ascii_capitals() {
    let mut app = app_with(&["àbc", "abc"]);
    app.enter_search();
    handle_key(&mut app, ch('À'));
    assert_eq!(app.filtered_chat_indices, vec![0]);
}

#[test]
fn query_with_capitals_finds_lowercase_names() {
    let mut app = app_with(&["welcome", "Other"]);
    app.enter_search();
    handle_key(&mut app, ch('W'));
    handle_key(&mut app, ch('E'));
    assert_eq!(app.filtered_chat_indices, vec![0]);
}

#[test]
fn search_cursor_resets_when_out_of_range() {
    let mut app = app_with(&["aa", "ab", "b"]);
    app.enter_search();
    app.search_move_down();
    app.search_move_down();
    assert_eq!(app.search_selected, 2);
    app.search_move_down();
    assert_eq!(app.search_selected, 2);
    handle_key(&mut app, ch('a'));
    handle_key(&mut app, ch('b'));
    assert_eq!(app.filtered_chat_indices, vec![1]);
    assert_eq!(app.search_selected, 0);
    app.search_move_up();
    assert_eq!(app.search_selected, 0);
}

#[test]
fn confirm_search_jumps_to_result() {
    let mut app = app_with(&["one", "two", "three"]);
    app.add_message(12, "s".to_string(), "m".to_string(), false);
    app.needs_message_load = false;
    app.enter_search();
    for c in "thr".chars() {
        handle_key(&mut app, ch(c));
    }
    handle_key(&mut app, key(KeyCode::Enter));
    assert_eq!(app.mode, Mode::Normal);
    assert_eq!(app.selected_chat, 2);
    assert_eq!(app.chats[2].unread, 0);
    assert!(app.needs_message_load);
    assert!(app.search_input.is_empty());
    assert!(app.filtered_chat_indices.is_empty());
}

#[test]
fn confirm_search_without_results() {
    let mut app = app_with(&["one", "two"]);
    app.move_down();
    app.enter_search();
    handle_key(&mut app, ch('z'));
    assert!(app.filtered_chat_indices.is_empty());
    handle_key(&mut app, key(KeyCode::Enter));
    assert_eq!(app.selected_chat, 1);
    assert_eq!(app.mode, Mode::Normal);
    assert!(app.search_input.is_empty());
}

#[test]
fn cancel_search_keeps_selection() {
    let mut app = app_with(&["one", "two"]);
    app.enter_search();
    handle_key(&mut app, ch('t'));
    handle_key(&mut app, key(KeyCode::Esc));
    assert_eq!(app.mode, Mode::Normal);
    assert_eq!(app.selected_chat, 0);
    assert!(app.filtered_chat_indices.is_empty());
}

#[test]
fn search_navigation_with_control_keys() {
    let mut app = app_with(&["a1", "a2"]);
    app.enter_search();
    handle_key(&mut app, KeyEvent { code: KeyCode::Char('j'), ctrl: true });
    assert_eq!(app.search_selected, 1);
    handle_key(&mut app, KeyEvent { code: KeyCode::Char('k'), ctrl: true });
    assert_eq!(app.search_selected, 0);
    handle_key(&mut app, ch('j'));
    assert_eq!(app.search_input, "j");
}

#[test]
fn chat_added_during_search_joins_results() {
    let mut app = app_with(&["abc"]);
    app.enter_search();
    handle_key(&mut app, ch('b'));
    app.add_chat(99, "xbx".to_string());
    assert_eq!(app.filtered_chat_indices, vec![0, 1]);
    app.add_chat(98, "zzz".to_string());
    assert_eq!(app.filtered_chat_indices, vec![0, 1]);
}

#[test]
fn appended_messages_read_back_in_order() {
    let mut app = app_with(&["a"]);
    let texts = ["first", "second", "third", "fourth"];
    for (i, t) in texts.iter().enumerate() {
        app.add_message(10, format!("s{}", i), t.to_string(), i % 2 == 0);
    }
    let msgs = app.current_messages();
    assert_eq!(msgs.len(), 4);
    for (i, m) in msgs.iter().enumerate() {
        assert_eq!(m.text, texts[i]);
        assert_eq!(m.sender, format!("s{}", i));
        assert_eq!(m.outgoing, i % 2 == 0);
    }
}

#[test]
fn welcome_scenario() {
    let mut app = App::new();
    app.add_chat(1, "Welcome".to_string());
    app.add_message(1, "Bifrost".to_string(), "Welcome!".to_string(), false);
    assert_eq!(app.chats[0].unread, 1);
    app.select_chat(0);
    app.clear_current_unread();
    let msgs = app.current_messages();
    assert_eq!(msgs.len(), 1);
    assert_eq!(msgs[0].sender, "Bifrost");
    assert_eq!(msgs[0].text, "Welcome!");
    assert!(!msgs[0].outgoing);
    assert_eq!(app.chats[0].unread, 0);
}

#[test]
fn insert_submit_scenario() {
    let mut app = app_with(&["a"]);
    assert_eq!(handle_key(&mut app, ch('i')), None);
    assert_eq!(app.mode, Mode::Insert);
    assert_eq!(handle_key(&mut app, ch('h')), None);
    assert_eq!(handle_key(&mut app, ch('i')), None);
    let sent = handle_key(&mut app, key(KeyCode::Enter));
    assert_eq!(sent, Some("hi".to_string()));
    assert!(app.input.is_empty());
    assert_eq!(app.mode, Mode::Normal);
}

#[test]
fn insert_empty_submit_is_ignored() {
    let mut app = app_with(&["a"]);
    handle_key(&mut app, ch('i'));
    assert_eq!(handle_key(&mut app, key(KeyCode::Enter)), None);
    assert_eq!(app.mode, Mode::Insert);
}

#[test]
fn insert_cancel_discards_buffer() {
    let mut app = app_with(&["a"]);
    handle_key(&mut app, ch('i'));
    handle_key(&mut app, ch('x'));
    handle_key(&mut app, ch('y'));
    handle_key(&mut app, key(KeyCode::Backspace));
    assert_eq!(app.input, "x");
    handle_key(&mut app, key(KeyCode::Esc));
    assert_eq!(app.mode, Mode::Normal);
    assert!(app.input.is_empty());
}

#[test]
fn interrupt_quits_in_every_mode() {
    let modes = [Mode::Normal, Mode::Insert, Mode::Search, Mode::AccountPicker, Mode::Command, Mode::FindUser];
    for m in modes {
        let mut app = app_with(&["a"]);
        app.mode = m;
        let r = handle_key(&mut app, KeyEvent { code: KeyCode::Char('c'), ctrl: true });
        assert_eq!(r, None);
        assert!(app.should_quit);
    }
}

#[test]
fn normal_mode_flags_and_jumps() {
    let mut app = app_with(&["a", "b", "c"]);
    handle_key(&mut app, ch('r'));
    assert!(app.reload_requested);
    handle_key(&mut app, ch('D'));
    assert!(app.disconnect_requested);
    handle_key(&mut app, ch('G'));
    assert_eq!(app.selected_chat, 2);
    handle_key(&mut app, ch('g'));
    assert_eq!(app.selected_chat, 0);
    handle_key(&mut app, key(KeyCode::Right));
    assert_eq!(app.panel, Panel::Chats);
    handle_key(&mut app, ch('h'));
    assert_eq!(app.panel, Panel::Friends);
    handle_key(&mut app, ch('q'));
    assert!(app.should_quit);
}

#[test]
fn account_picker_starts_on_active_and_clamps() {
    let mut app = App::new();
    app.set_account_info(
        "account_2".to_string(),
        vec![
            ("account_1".to_string(), "A (1)".to_string()),
            ("account_2".to_string(), "B (2)".to_string()),
        ],
    );
    handle_key(&mut app, ch('A'));
    assert_eq!(app.mode, Mode::AccountPicker);
    assert_eq!(app.account_picker_selected, 1);
    for _ in 0..5 {
        handle_key(&mut app, ch('j'));
    }
    assert_eq!(app.account_picker_selected, 2);
    for _ in 0..5 {
        handle_key(&mut app, key(KeyCode::Up));
    }
    assert_eq!(app.account_picker_selected, 0);
}

#[test]
fn account_picker_not_found_starts_at_zero() {
    let mut app = App::new();
    app.set_account_info("zzz".to_string(), vec![("account_1".to_string(), "A".to_string())]);
    app.account_picker_selected = 1;
    app.enter_account_picker();
    assert_eq!(app.account_picker_selected, 0);
}

#[test]
fn select_other_account_requests_switch() {
    let mut app = App::new();
    app.set_account_info(
        "account_1".to_string(),
        vec![
            ("account_1".to_string(), "A".to_string()),
            ("account_2".to_string(), "B".to_string()),
        ],
    );
    app.enter_account_picker();
    app.account_picker_move_down();
    handle_key(&mut app, key(KeyCode::Enter));
    assert_eq!(app.switch_account_requested, Some("account_2".to_string()));
    assert!(!app.add_account_requested);
    assert_eq!(app.mode, Mode::Normal);
}

#[test]
fn select_active_account_requests_nothing() {
    let mut app = App::new();
    app.set_account_info("account_1".to_string(), vec![("account_1".to_string(), "A".to_string())]);
    app.enter_account_picker();
    app.select_account();
    assert_eq!(app.switch_account_requested, None);
    assert!(!app.add_account_requested);
    assert_eq!(app.mode, Mode::Normal);
}

#[test]
fn select_add_row_requests_new_account() {
    let mut app = App::new();
    app.set_account_info("account_1".to_string(), vec![("account_1".to_string(), "A".to_string())]);
    app.enter_account_picker();
    app.account_picker_move_down();
    app.select_account();
    assert!(app.add_account_requested);
    assert_eq!(app.switch_account_requested, None);
    assert_eq!(app.mode, Mode::Normal);
}

#[test]
fn command_find_starts_lookup() {
    let mut app = App::new();
    handle_key(&mut app, ch(':'));
    assert_eq!(app.mode, Mode::Command);
    for c in "find @alice".chars() {
        handle_key(&mut app, ch(c));
    }
    handle_key(&mut app, key(KeyCode::Enter));
    assert_eq!(app.mode, Mode::FindUser);
    assert_eq!(app.find_input, "alice");
    assert!(matches!(app.find_result, Some(FindResult::Searching)));
    assert_eq!(app.find_requested, Some("alice".to_string()));
    assert!(app.command_input.is_empty());
}

#[test]
fn command_find_without_at_sign() {
    let mut app = App::new();
    app.enter_command();
    app.command_input = "  find   bob ".to_string();
    app.execute_command();
    assert_eq!(app.find_input, "bob");
    assert_eq!(app.mode, Mode::FindUser);
}

#[test]
fn unknown_command_closes_line() {
    let mut app = App::new();
    app.enter_command();
    app.command_input = "quit".to_string();
    app.execute_command();
    assert_eq!(app.mode, Mode::Normal);
    assert!(app.find_requested.is_none());
    app.enter_command();
    app.command_input = "find @".to_string();
    app.execute_command();
    assert_eq!(app.mode, Mode::Normal);
    assert!(app.find_requested.is_none());
}

#[test]
fn command_backspace_on_empty_closes() {
    let mut app = App::new();
    handle_key(&mut app, ch(':'));
    handle_key(&mut app, ch('x'));
    handle_key(&mut app, key(KeyCode::Backspace));
    assert_eq!(app.mode, Mode::Command);
    assert!(app.command_input.is_empty());
    handle_key(&mut app, key(KeyCode::Backspace));
    assert_eq!(app.mode, Mode::Normal);
}

#[test]
fn found_user_jump_creates_chat() {
    let mut app = app_with(&["a"]);
    app.mode = Mode::FindUser;
    app.find_input = "carol".to_string();
    app.set_find_result(FindResult::Found { id: 77, name: "Carol".to_string() });
    handle_key(&mut app, key(KeyCode::Enter));
    assert_eq!(app.mode, Mode::Normal);
    assert_eq!(app.chats.len(), 2);
    assert_eq!(app.current_chat_id(), Some(77));
    assert!(app.find_result.is_none());
    assert!(app.find_input.is_empty());
    assert!(app.needs_message_load);
}

#[test]
fn found_user_jump_to_existing_chat() {
    let mut app = app_with(&["a", "b"]);
    app.add_message(11, "b".to_string(), "hi".to_string(), false);
    app.mode = Mode::FindUser;
    app.set_find_result(FindResult::Found { id: 11, name: "ignored".to_string() });
    app.jump_to_found_user();
    assert_eq!(app.chats.len(), 2);
    assert_eq!(app.selected_chat, 1);
    assert_eq!(app.chats[1].unread, 0);
    assert_eq!(app.chats[1].name, "b");
}

#[test]
fn find_enter_without_result_closes() {
    let mut app = app_with(&["a"]);
    app.mode = Mode::FindUser;
    app.set_find_result(FindResult::NotFound("x".to_string()));
    handle_key(&mut app, key(KeyCode::Enter));
    assert_eq!(app.mode, Mode::Normal);
    assert_eq!(app.selected_chat, 0);
    assert!(app.find_result.is_none());
}
