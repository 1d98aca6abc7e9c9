//! The key dispatcher: a key event, read in the current mode, becomes a
//! change of the state and, for a submitted message, the text to send. It
//! performs no I/O and never blocks.
use vstd::prelude::*;
use crate::app::{
    step_account_picker_move_down, step_account_picker_move_up, step_enter_account_picker,
    step_enter_command, step_enter_insert, step_enter_search, step_execute_command,
    step_exit_account_picker, step_exit_command, step_exit_find, step_exit_insert,
    step_exit_search, step_jump_to_found_user, step_jump_to_selected_search_result,
    step_move_down, step_move_up, step_search_move_down, step_search_move_up, step_select_account,
    step_select_chat, step_switch_panel, step_update_search_filter, App, FindResult, Mode,
};
use crate::text::{pop_char, push_char};

verus! {

/// The key that was pressed.
#[derive(Debug, Clone, Copy, PartialEq, Eq, Structural)]
pub enum KeyCode {
    Char(char),
    Up,
    Down,
    Left,
    Right,
    Enter,
    Esc,
    Backspace,
    Other,
}

/// A key press, with whether the control modifier was held.
#[derive(Debug, Clone, Copy, PartialEq, Eq, Structural)]
pub struct KeyEvent {
    pub code: KeyCode,
    pub ctrl: bool,
}

/// The interrupt key, which quits in every mode.
pub open spec fn is_interrupt(key: KeyEvent) -> bool {
    key.ctrl && key.code == KeyCode::Char('c')
}

/// A text buffer after one editing key: a character is appended, backspace
/// removes the last one (nothing when empty).
pub open spec fn edited(text: Seq<char>, code: KeyCode) -> Seq<char> {
    match code {
        KeyCode::Char(c) => text.push(c),
        KeyCode::Backspace => if text.len() > 0 {
            text.drop_last()
        } else {
            text
        },
        _ => text,
    }
}

/// What a key does in `Normal` mode.
pub open spec fn normal_key_step(o: App, key: KeyEvent, n: App) -> bool {
    let c = key.code;
    if c == KeyCode::Char('j') || c == KeyCode::Down {
        step_move_down(o, n)
    } else if c == KeyCode::Char('k') || c == KeyCode::Up {
        step_move_up(o, n)
    } else if c == KeyCode::Char('h') || c == KeyCode::Left || c == KeyCode::Char('l') || c
        == KeyCode::Right {
        step_switch_panel(o, n)
    } else if c == KeyCode::Char('i') {
        step_enter_insert(o, n)
    } else if c == KeyCode::Char('/') {
        step_enter_search(o, n)
    } else if c == KeyCode::Char('r') {
        n == (App { reload_requested: true, ..o })
    } else if c == KeyCode::Char('q') {
        n == (App { should_quit: true, ..o })
    } else if c == KeyCode::Char('D') {
        n == (App { disconnect_requested: true, ..o })
    } else if c == KeyCode::Char('A') {
        step_enter_account_picker(o, n)
    } else if c == KeyCode::Char(':') {
        step_enter_command(o, n)
    } else if c == KeyCode::Char('g') {
        step_select_chat(o, 0, n)
    } else if c == KeyCode::Char('G') {
        step_select_chat(
            o,
            if o.chats@.len() == 0 {
                0
            } else {
                (o.chats@.len() - 1) as usize
            },
            n,
        )
    } else {
        n == o
    }
}

/// What a key does in `Insert` mode, and the text it hands out to send.
pub open spec fn insert_key_step(o: App, key: KeyEvent, n: App, r: Option<String>) -> bool {
    match key.code {
        KeyCode::Esc => r is None && step_exit_insert(o, n),
        KeyCode::Enter => if o.input@.len() > 0 {
            &&& r is Some
            &&& r->0@ == o.input@
            &&& n.input@.len() == 0
            &&& n == (App { mode: Mode::Normal, input: n.input, ..o })
        } else {
            r is None && n == o
        },
        KeyCode::Char(_) | KeyCode::Backspace => {
            &&& r is None
            &&& n.input@ == edited(o.input@, key.code)
            &&& n == (App { input: n.input, ..o })
        },
        _ => r is None && n == o,
    }
}

/// What a key does in `Search` mode: editing keys change the query and the
/// results follow it.
pub open spec fn search_key_step(o: App, key: KeyEvent, n: App) -> bool {
    let c = key.code;
    if c == KeyCode::Esc {
        step_exit_search(o, n)
    } else if c == KeyCode::Enter {
        step_jump_to_selected_search_result(o, n)
    } else if c == KeyCode::Down || (key.ctrl && c == KeyCode::Char('j')) {
        step_search_move_down(o, n)
    } else if c == KeyCode::Up || (key.ctrl && c == KeyCode::Char('k')) {
        step_search_move_up(o, n)
    } else if c is Char || c == KeyCode::Backspace {
        &&& n.search_input@ == edited(o.search_input@, c)
        &&& step_update_search_filter(App { search_input: n.search_input, ..o }, n)
    } else {
        n == o
    }
}

/// What a key does in the account picker.
pub open spec fn account_picker_key_step(o: App, key: KeyEvent, n: App) -> bool {
    let c = key.code;
    if c == KeyCode::Esc {
        step_exit_account_picker(o, n)
    } else if c == KeyCode::Enter {
        step_select_account(o, n)
    } else if c == KeyCode::Down || c == KeyCode::Char('j') {
        step_account_picker_move_down(o, n)
    } else if c == KeyCode::Up || c == KeyCode::Char('k') {
        step_account_picker_move_up(o, n)
    } else {
        n == o
    }
}

/// What a key does on the command line; backspace on an empty line closes
/// it.
pub open spec fn command_key_step(o: App, key: KeyEvent, n: App) -> bool {
    let c = key.code;
    if c == KeyCode::Esc {
        step_exit_command(o, n)
    } else if c == KeyCode::Enter {
        step_execute_command(o, n)
    } else if c == KeyCode::Backspace && o.command_input@.len() == 0 {
        step_exit_command(o, n)
    } else if c is Char || c == KeyCode::Backspace {
        &&& n.command_input@ == edited(o.command_input@, c)
        &&& n == (App { command_input: n.command_input, ..o })
    } else {
        n == o
    }
}

/// What a key does in the find-user overlay: confirming jumps to a found
/// user, and otherwise closes the overlay.
pub open spec fn find_user_key_step(o: App, key: KeyEvent, n: App) -> bool {
    let c = key.code;
    if c == KeyCode::Esc {
        step_exit_find(o, n)
    } else if c == KeyCode::Enter {
        match o.find_result {
            Some(FindResult::Found { .. }) => step_jump_to_found_user(o, n),
            _ => step_exit_find(o, n),
        }
    } else {
        n == o
    }
}

/// What a key does in any mode, and the text it hands out to send.
pub open spec fn key_step(o: App, key: KeyEvent, n: App, r: Option<String>) -> bool {
    if is_interrupt(key) {
        r is None && n == (App { should_quit: true, ..o })
    } else {
        match o.mode {
            Mode::Normal => r is None && normal_key_step(o, key, n),
            Mode::Insert => insert_key_step(o, key, n, r),
            Mode::Search => r is None && search_key_step(o, key, n),
            Mode::AccountPicker => r is None && account_picker_key_step(o, key, n),
            Mode::Command => r is None && command_key_step(o, key, n),
            Mode::FindUser => r is None && find_user_key_step(o, key, n),
        }
    }
}

/// Applies one key event to the state. The result is the text of a message
/// to send, when the key submitted one.
pub fn handle_key(app: &mut App, key: KeyEvent) -> (r: Option<String>)
    ensures
        key_step(*old(app), key, *final(app), r),
        old(app).wf() ==> final(app).wf(),
{
    if key.ctrl && key.code == KeyCode::Char('c') {
        app.should_quit = true;
        return None;
    }
    match app.mode {
        Mode::Normal => handle_normal_mode(app, key),
        Mode::Insert => handle_insert_mode(app, key),
        Mode::Search => handle_search_mode(app, key),
        Mode::AccountPicker => handle_account_picker_mode(app, key),
        Mode::Command => handle_command_mode(app, key),
        Mode::FindUser => handle_find_user_mode(app, key),
    }
}

/// Navigation, mode entry and the flags read by the host loop.
fn handle_normal_mode(app: &mut App, key: KeyEvent) -> (r: Option<String>)
    requires
        old(app).mode == Mode::Normal,
    ensures
        r is None,
        normal_key_step(*old(app), key, *final(app)),
        old(app).wf() ==> final(app).wf(),
{
    match key.code {
        KeyCode::Char('j') | KeyCode::Down => app.move_down(),
        KeyCode::Char('k') | KeyCode::Up => app.move_up(),
        KeyCode::Char('h') | KeyCode::Left => app.switch_panel(),
        KeyCode::Char('l') | KeyCode::Right => app.switch_panel(),
        KeyCode::Char('i') => app.enter_insert(),
        KeyCode::Char('/') => app.enter_search(),
        KeyCode::Char('r') => app.reload_requested = true,
        KeyCode::Char('q') => app.should_quit = true,
        KeyCode::Char('D') => app.disconnect_requested = true,
        KeyCode::Char('A') => app.enter_account_picker(),
        KeyCode::Char(':') => app.enter_command(),
        KeyCode::Char('g') => app.select_chat(0),
        KeyCode::Char('G') => {
            let last = app.chats.len().saturating_sub(1);
            app.select_chat(last);
        },
        _ => {},
    }
    None
}

/// Text entry: characters and backspace edit the buffer, Enter hands out a
/// non-empty buffer and returns to `Normal`, Esc discards it.
fn handle_insert_mode(app: &mut App, key: KeyEvent) -> (r: Option<String>)
    requires
        old(app).mode == Mode::Insert,
    ensures
        insert_key_step(*old(app), key, *final(app), r),
        old(app).wf() ==> final(app).wf(),
{
    match key.code {
        KeyCode::Esc => {
            app.exit_insert();
        },
        KeyCode::Enter => {
            if !app.input.as_str().is_empty() {
                let message = app.input.clone();
                app.input = String::new();
                app.mode = Mode::Normal;
                return Some(message);
            }
        },
        KeyCode::Backspace => {
            pop_char(&mut app.input);
        },
        KeyCode::Char(c) => {
            push_char(&mut app.input, c);
        },
        _ => {},
    }
    None
}

/// Search: typing edits the query and refilters, arrows (or control with
/// `j`/`k`) move through the results, Enter jumps, Esc cancels.
fn handle_search_mode(app: &mut App, key: KeyEvent) -> (r: Option<String>)
    requires
        old(app).mode == Mode::Search,
    ensures
        r is None,
        search_key_step(*old(app), key, *final(app)),
        old(app).wf() ==> final(app).wf(),
{
    match key.code {
        KeyCode::Esc => {
            app.exit_search();
        },
        KeyCode::Enter => {
            app.jump_to_selected_search_result();
        },
        KeyCode::Down => {
            app.search_move_down();
        },
        KeyCode::Up => {
            app.search_move_up();
        },
        KeyCode::Char('j') if key.ctrl => {
            app.search_move_down();
        },
        KeyCode::Char('k') if key.ctrl => {
            app.search_move_up();
        },
        KeyCode::Backspace => {
            pop_char(&mut app.search_input);
            app.update_search_filter();
        },
        KeyCode::Char(c) => {
            push_char(&mut app.search_input, c);
            app.update_search_filter();
        },
        _ => {},
    }
    None
}

/// The account picker: arrows or `j`/`k` move, Enter confirms, Esc closes.
fn handle_account_picker_mode(app: &mut App, key: KeyEvent) -> (r: Option<String>)
    requires
        old(app).mode == Mode::AccountPicker,
    ensures
        r is None,
        account_picker_key_step(*old(app), key, *final(app)),
        old(app).wf() ==> final(app).wf(),
{
    match key.code {
        KeyCode::Esc => {
            app.exit_account_picker();
        },
        KeyCode::Enter => {
            app.select_account();
        },
        KeyCode::Down | KeyCode::Char('j') => {
            app.account_picker_move_down();
        },
        KeyCode::Up | KeyCode::Char('k') => {
            app.account_picker_move_up();
        },
        _ => {},
    }
    None
}

/// The command line: typing edits it, Enter runs it, Esc (or backspace on
/// an empty line) closes it.
fn handle_command_mode(app: &mut App, key: KeyEvent) -> (r: Option<String>)
    requires
        old(app).mode == Mode::Command,
    ensures
        r is None,
        command_key_step(*old(app), key, *final(app)),
        old(app).wf() ==> final(app).wf(),
{
    match key.code {
        KeyCode::Esc => {
            app.exit_command();
        },
        KeyCode::Enter => {
            app.execute_command();
        },
        KeyCode::Backspace => {
            if app.command_input.as_str().is_empty() {
                app.exit_command();
            } else {
                pop_char(&mut app.command_input);
            }
        },
        KeyCode::Char(c) => {
            push_char(&mut app.command_input, c);
        },
        _ => {},
    }
    None
}

/// The find-user overlay: Enter jumps to a found user or closes the
/// overlay, Esc closes it.
fn handle_find_user_mode(app: &mut App, key: KeyEvent) -> (r: Option<String>)
    requires
        old(app).mode == Mode::FindUser,
    ensures
        r is None,
        find_user_key_step(*old(app), key, *final(app)),
        old(app).wf() ==> final(app).wf(),
{
    match key.code {
        KeyCode::Esc => {
            app.exit_find();
        },
        KeyCode::Enter => {
            let found = match &app.find_result {
                Some(FindResult::Found { .. }) => true,
                _ => false,
            };
            if found {
                app.jump_to_found_user();
            } else {
                app.exit_find();
            }
        },
        _ => {},
    }
    None
}

} // verus!
