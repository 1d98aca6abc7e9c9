use vimgram::accounts::{session_file_name, Account, AccountRegistry};
use vimgram::app::{App, FindResult, Message, Mode};
use vimgram::orchestrator::{
    message_sender_label, prepare_backfill, unnamed, ExitAction, LookupOutcome, MAX_BACKFILL,
};
use vimgram::text::{blank, folded_contains};

fn msg(s: &str, t: &str, out: bool) -> Message {
    Message { sender: s.to_string(), text: t.to_string(), outgoing: out }
}

fn two_chats() -> App {
    let mut app = App::new();
    app.add_chat(1, "Welcome".to_string());
    app.add_chat(42, "Dana".to_string());
    app.add_chat(43, "Eve".to_string());
    app
}

#[test]
fn backfill_starts_for_selected_chat() {
    let mut app = two_chats();
    app.move_down();
    assert_eq!(app.take_message_load(), Some(42));
    assert_eq!(app.pending_load, Some(42));
    assert_eq!(app.loading_status.as_deref(), Some("Loading..."));
    assert!(!app.needs_message_load);
    assert_eq!(app.take_message_load(), None);
}

#[test]
fn pending_backfill_not_restarted() {
    let mut app = two_chats();
    app.move_down();
    assert_eq!(app.take_message_load(), Some(42));
    app.needs_message_load = true;
    assert_eq!(app.take_message_load(), None);
    assert_eq!(app.pending_load, Some(42));
}

#[test]
fn welcome_chat_never_backfills() {
    let mut app = two_chats();
    app.pending_load = Some(7);
    app.loading_status = Some("Loading...".to_string());
    assert_eq!(app.take_message_load(), None);
    assert_eq!(app.pending_load, None);
    assert!(app.loading_status.is_none());
}

#[test]
fn chat_with_messages_does_not_backfill() {
    let mut app = two_chats();
    app.add_message(42, "d".to_string(), "x".to_string(), false);
    app.move_down();
    assert_eq!(app.take_message_load(), None);
    assert_eq!(app.pending_load, None);
}

#[test]
fn backfill_replaces_messages() {
    let mut app = two_chats();
    app.move_down();
    app.take_message_load();
    app.add_message(42, "live".to_string(), "early".to_string(), false);
    let applied = app.apply_backfill(42, vec![msg("a", "1", false), msg("You", "2", true)]);
    assert!(applied);
    assert_eq!(app.pending_load, None);
    assert!(app.loading_status.is_none());
    let got = app.current_messages();
    assert_eq!(got.len(), 2);
    assert_eq!(got[0].text, "1");
    assert_eq!(got[1].text, "2");
}

#[test]
fn stale_backfill_is_discarded() {
    let mut app = two_chats();
    app.move_down();
    assert_eq!(app.take_message_load(), Some(42));
    app.move_down();
    assert_eq!(app.take_message_load(), Some(43));
    let applied = app.apply_backfill(42, vec![msg("a", "old", false)]);
    assert!(!applied);
    assert!(!app.messages.contains_key(&42));
    assert_eq!(app.pending_load, Some(43));
}

#[test]
fn prepare_backfill_orders_oldest_first() {
    let newest_first = vec![msg("a", "3", false), msg("a", "2", false), msg("a", "1", false)];
    let ordered = prepare_backfill(newest_first);
    let texts: Vec<&str> = ordered.iter().map(|m| m.text.as_str()).collect();
    assert_eq!(texts, vec!["1", "2", "3"]);
}

#[test]
fn prepare_backfill_keeps_newest_fifty() {
    let newest_first: Vec<Message> = (0..60).map(|i| msg("a", &format!("{}", i), false)).collect();
    let ordered = prepare_backfill(newest_first);
    assert_eq!(ordered.len(), MAX_BACKFILL);
    assert_eq!(ordered[0].text, "49");
    assert_eq!(ordered[49].text, "0");
    assert!(prepare_backfill(Vec::new()).is_empty());
}

#[test]
fn sender_labels() {
    assert_eq!(message_sender_label(true, Some("Ann"), "Chat"), "You");
    assert_eq!(message_sender_label(false, Some("Ann"), "Chat"), "Ann");
    assert_eq!(message_sender_label(false, Some("   "), "Chat"), "Chat");
    assert_eq!(message_sender_label(false, None, "Chat"), "Chat");
    assert_eq!(message_sender_label(false, None, " \t"), "");
}

#[test]
fn unnamed_names() {
    assert!(unnamed(""));
    assert!(unnamed("  "));
    assert!(unnamed("Unknown"));
    assert!(!unnamed("unknown"));
    assert!(!unnamed("Zed"));
    assert!(blank(" \n "));
    assert!(!blank(" a "));
}

#[test]
fn resolve_sender_prefers_label_then_chat() {
    let mut app = App::new();
    app.add_chat(5, "Listed".to_string());
    assert_eq!(app.resolve_sender(5, "Chat", "Ann"), Some("Ann".to_string()));
    assert_eq!(app.resolve_sender(5, "Chat", ""), Some("Chat".to_string()));
    assert_eq!(app.resolve_sender(5, "Unknown", "Unknown"), Some("Listed".to_string()));
    assert_eq!(app.resolve_sender(-5, "Group", ""), None);
    assert_eq!(app.resolve_sender(6, " ", ""), None);
}

#[test]
fn incoming_message_lists_chat_and_counts_unread() {
    let mut app = two_chats();
    app.apply_incoming(50, "Fay".to_string(), "Fay".to_string(), "yo".to_string());
    assert_eq!(app.chats.len(), 4);
    assert_eq!(app.chats[3].unread, 1);
    assert_eq!(app.chats[3].last_message.as_deref(), Some("yo"));
    assert_eq!(app.messages[&50].len(), 1);
}

#[test]
fn incoming_message_for_selected_chat_stays_read() {
    let mut app = two_chats();
    app.apply_incoming(1, "Welcome".to_string(), "Bot".to_string(), "hello".to_string());
    assert_eq!(app.chats[0].unread, 0);
    assert_eq!(app.messages[&1][0].text, "hello");
}

#[test]
fn record_sent_appends_outgoing() {
    let mut app = two_chats();
    app.record_sent(42, "hi there".to_string());
    let m = &app.messages[&42][0];
    assert_eq!(m.sender, "You");
    assert_eq!(m.text, "hi there");
    assert!(m.outgoing);
    assert_eq!(app.chats[1].unread, 0);
}

#[test]
fn reload_request_is_taken_once() {
    let mut app = two_chats();
    app.reload_requested = true;
    assert_eq!(app.take_reload_request(), Some(1));
    assert!(!app.reload_requested);
    assert_eq!(app.take_reload_request(), None);
}

#[test]
fn lookup_result_applies_to_current_query() {
    let mut app = App::new();
    app.mode = Mode::FindUser;
    app.find_input = "gus".to_string();
    app.find_requested = Some("gus".to_string());
    assert_eq!(app.take_find_request(), Some("gus".to_string()));
    assert_eq!(app.take_find_request(), None);
    assert!(app.apply_lookup("gus".to_string(), LookupOutcome::Found { id: 9, name: "Gus".to_string() }));
    assert!(matches!(app.find_result, Some(FindResult::Found { id: 9, .. })));
    assert_eq!(app.chats.len(), 1);
    assert_eq!(app.chats[0].name, "Gus");
}

#[test]
fn lookup_not_found_and_error() {
    let mut app = App::new();
    app.mode = Mode::FindUser;
    app.find_input = "hal".to_string();
    assert!(app.apply_lookup("hal".to_string(), LookupOutcome::NotFound));
    assert!(matches!(&app.find_result, Some(FindResult::NotFound(u)) if u == "hal"));
    assert!(app.apply_lookup("hal".to_string(), LookupOutcome::Failed("timeout".to_string())));
    assert!(matches!(&app.find_result, Some(FindResult::Error(e)) if e == "timeout"));
}

#[test]
fn superseded_lookup_is_dropped() {
    let mut app = App::new();
    app.mode = Mode::FindUser;
    app.find_input = "new".to_string();
    assert!(!app.apply_lookup("old".to_string(), LookupOutcome::Found { id: 3, name: "Old".to_string() }));
    assert!(app.chats.is_empty());
    assert!(app.find_result.is_none());
}

#[test]
fn exit_action_priority() {
    let mut app = App::new();
    assert!(!app.should_exit());
    assert!(matches!(app.exit_action(), ExitAction::Quit));
    app.add_account_requested = true;
    assert!(app.should_exit());
    assert!(matches!(app.exit_action(), ExitAction::AddAccount));
    app.switch_account_requested = Some("account_2".to_string());
    assert!(matches!(app.exit_action(), ExitAction::SwitchAccount(ref s) if s == "account_2"));
    app.disconnect_requested = true;
    assert!(matches!(app.exit_action(), ExitAction::Disconnect));
}

#[test]
fn registry_adds_numbered_accounts() {
    let mut reg = AccountRegistry::default();
    assert!(!reg.has_accounts());
    let first = reg.add_account("+1".to_string(), "Personal".to_string());
    assert_eq!(first, "account_1");
    assert_eq!(reg.active, "account_1");
    let second = reg.add_account("+2".to_string(), "Work".to_string());
    assert_eq!(second, "account_2");
    assert_eq!(reg.active, "account_1");
    assert!(reg.has_accounts());
    assert_eq!(reg.get_account_by_index(1).map(|a| a.name.clone()), Some("Work".to_string()));
    assert!(reg.get_account_by_index(2).is_none());
}

#[test]
fn registry_numbers_past_nine() {
    let mut reg = AccountRegistry::default();
    for i in 0..9 {
        reg.add_account(format!("{}", i), "n".to_string());
    }
    let tenth = reg.add_account("10".to_string(), "ten".to_string());
    assert_eq!(tenth, "account_10");
}

#[test]
fn registry_set_active_only_when_listed() {
    let mut reg = AccountRegistry::default();
    reg.add_account("+1".to_string(), "A".to_string());
    reg.add_account("+2".to_string(), "B".to_string());
    reg.set_active("account_2");
    assert_eq!(reg.active, "account_2");
    assert_eq!(reg.get_active_account().map(|a| a.phone.clone()), Some("+2".to_string()));
    reg.set_active("account_9");
    assert_eq!(reg.active, "account_2");
}

#[test]
fn registry_records_login() {
    let mut reg = AccountRegistry::default();
    reg.record_login("+7".to_string(), "Ivy".to_string());
    assert_eq!(reg.accounts.len(), 1);
    assert_eq!(reg.active, "account_1");
    reg.accounts.push(Account { id: "x".to_string(), phone: "New".to_string(), name: "New Account".to_string() });
    reg.set_active("x");
    reg.record_login("+8".to_string(), "Jon".to_string());
    assert_eq!(reg.accounts[1].phone, "+8");
    assert_eq!(reg.accounts[1].name, "Jon");
    assert_eq!(reg.accounts[0].name, "Ivy");
}

#[test]
fn registry_labels() {
    let mut reg = AccountRegistry::default();
    reg.add_account("+1 555".to_string(), "Home".to_string());
    let labels = reg.account_labels();
    assert_eq!(labels, vec![("account_1".to_string(), "Home (+1 555)".to_string())]);
}

#[test]
fn session_file_names() {
    assert_eq!(session_file_name("account_3"), "account_3.dat");
    assert_eq!(session_file_name("default"), "default.dat");
}

#[test]
fn folding_and_containment() {
    assert!(folded_contains("hello world", "o w"));
    assert!(!folded_contains("hello", "world"));
    assert!(folded_contains("abc", ""));
}
