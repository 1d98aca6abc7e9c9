//! The conversation store and the interaction state machine.
use std::collections::HashMap;
use vstd::prelude::*;
use crate::text::{
    folded_contains, lemma_contains_empty, lower_of, lowercase, owned, seq_contains, trim_of,
    trim_str,
};

verus! {

broadcast use vstd::std_specs::hash::group_hash_axioms;

/// The exclusive interaction mode that decides how a key is read.
#[derive(Debug, Clone, Copy, PartialEq, Eq, Structural)]
pub enum Mode {
    Normal,
    Insert,
    Search,
    AccountPicker,
    Command,
    FindUser,
}

/// Which of the two panels has the focus.
#[derive(Debug, Clone, Copy, PartialEq, Eq, Structural)]
pub enum Panel {
    Friends,
    Chats,
}

/// A conversation shown in the friends panel.
#[derive(Debug, Clone)]
pub struct Chat {
    pub id: i64,
    pub name: String,
    pub last_message: Option<String>,
    pub unread: u32,
}

/// One message of a conversation.
#[derive(Debug, Clone)]
pub struct Message {
    pub sender: String,
    pub text: String,
    pub outgoing: bool,
}

/// The state of a user lookup shown in the find-user overlay.
#[derive(Debug, Clone)]
pub enum FindResult {
    Searching,
    Found { id: i64, name: String },
    NotFound(String),
    Error(String),
}

/// The id of the synthetic welcome chat that exists from startup.
pub const WELCOME_CHAT_ID: i64 = 1;

/// The whole interactive state: the store of chats and messages together
/// with the mode, cursors, buffers and the flags read by the host loop.
pub struct App {
    pub mode: Mode,
    pub panel: Panel,
    pub chats: Vec<Chat>,
    pub messages: HashMap<i64, Vec<Message>>,
    pub selected_chat: usize,
    pub selected_message: usize,
    pub scroll_offset: usize,
    pub input: String,
    pub should_quit: bool,
    pub reload_requested: bool,
    pub loading_status: Option<String>,
    pub needs_message_load: bool,
    pub pending_load: Option<i64>,
    pub search_input: String,
    pub filtered_chat_indices: Vec<usize>,
    pub search_selected: usize,
    pub disconnect_requested: bool,
    pub current_account_id: String,
    pub account_names: Vec<(String, String)>,
    pub account_picker_selected: usize,
    pub switch_account_requested: Option<String>,
    pub add_account_requested: bool,
    pub command_input: String,
    pub find_input: String,
    pub find_result: Option<FindResult>,
    pub find_requested: Option<String>,
}

/// No two chats share an id.
pub open spec fn ids_unique(chats: Seq<Chat>) -> bool {
    forall|i: int, j: int|
        0 <= i < chats.len() && 0 <= j < chats.len() && i != j ==> #[trigger] chats[i].id
            != #[trigger] chats[j].id
}

/// Two chat lists with the same chats in the same order, up to previews and
/// unread counters.
pub open spec fn same_roster(a: Seq<Chat>, b: Seq<Chat>) -> bool {
    &&& a.len() == b.len()
    &&& forall|j: int| 0 <= j < a.len() ==> #[trigger] a[j].id == b[j].id && a[j].name == b[j].name
}

/// Lists with the same roster agree on where a chat id first occurs.
pub proof fn lemma_first_with_id_same_roster(a: Seq<Chat>, b: Seq<Chat>, id: i64, k: int)
    requires
        same_roster(a, b),
    ensures
        first_with_id(a, id, k) <==> first_with_id(b, id, k),
{
    if 0 <= k < a.len() {
        assert(a[k].id == b[k].id);
        if first_with_id(b, id, k) {
            assert forall|j: int| 0 <= j < k implies #[trigger] a[j].id != id by {
                assert(a[j].id == b[j].id);
                assert(b[j].id != id);
            }
        }
        if first_with_id(a, id, k) {
            assert forall|j: int| 0 <= j < k implies #[trigger] b[j].id != id by {
                assert(a[j].id == b[j].id);
                assert(a[j].id != id);
            }
        }
    }
}

/// Whether some chat carries `id`.
pub open spec fn has_id(chats: Seq<Chat>, id: i64) -> bool {
    exists|j: int| 0 <= j < chats.len() && #[trigger] chats[j].id == id
}

/// `k` is the first position whose chat carries `id`.
pub open spec fn first_with_id(chats: Seq<Chat>, id: i64, k: int) -> bool {
    &&& 0 <= k < chats.len()
    &&& chats[k].id == id
    &&& forall|j: int| 0 <= j < k ==> #[trigger] chats[j].id != id
}

/// The chats with the unread counter of position `i` set to zero (unchanged
/// when `i` is out of range).
pub open spec fn unread_cleared(chats: Seq<Chat>, i: int) -> Seq<Chat> {
    if 0 <= i < chats.len() {
        chats.update(i, Chat { unread: 0, ..chats[i] })
    } else {
        chats
    }
}

/// A chat after a message with `text` arrived: the preview shows the text,
/// and an inbound message counts as unread (saturating at the maximum).
pub open spec fn chat_after_message(c: Chat, text: String, outgoing: bool) -> Chat {
    Chat {
        last_message: Some(text),
        unread: if outgoing || c.unread == u32::MAX {
            c.unread
        } else {
            (c.unread + 1) as u32
        },
        ..c
    }
}

/// Case-insensitive substring test of a chat name against a search query;
/// the empty query matches every name.
pub open spec fn name_matches(name: Seq<char>, query: Seq<char>) -> bool {
    query.len() == 0 || seq_contains(lower_of(name), lower_of(query))
}

/// The positions of the chats whose name matches `query`, in list order.
pub open spec fn search_matches(chats: Seq<Chat>, query: Seq<char>) -> Seq<usize>
    decreases chats.len(),
{
    if chats.len() == 0 {
        Seq::empty()
    } else {
        let rest = search_matches(chats.drop_last(), query);
        if name_matches(chats.last().name@, query) {
            rest.push((chats.len() - 1) as usize)
        } else {
            rest
        }
    }
}

/// One step of friends-panel navigation over a list of `len` chats: up
/// moves towards the top, down towards the bottom, both clamped.
pub open spec fn nav_step(sel: usize, len: nat, up: bool) -> usize {
    if up {
        if sel > 0 {
            (sel - 1) as usize
        } else {
            sel
        }
    } else {
        if sel + 1 < len {
            (sel + 1) as usize
        } else {
            sel
        }
    }
}

/// The selection after a sequence of navigation steps (`true` is up).
pub open spec fn nav_walk(sel: usize, len: nat, moves: Seq<bool>) -> usize
    decreases moves.len(),
{
    if moves.len() == 0 {
        sel
    } else {
        nav_walk(nav_step(sel, len, moves[0]), len, moves.drop_first())
    }
}

/// Search results depend on the chat names alone.
pub proof fn lemma_search_matches_same_names(a: Seq<Chat>, b: Seq<Chat>, query: Seq<char>)
    requires
        a.len() == b.len(),
        forall|i: int| 0 <= i < a.len() ==> #[trigger] a[i].name == b[i].name,
    ensures
        search_matches(a, query) == search_matches(b, query),
    decreases a.len(),
{
    if a.len() > 0 {
        lemma_search_matches_same_names(a.drop_last(), b.drop_last(), query);
    }
}

/// Clearing an unread counter keeps the ids and the names.
pub proof fn lemma_unread_cleared_keeps(chats: Seq<Chat>, i: int, query: Seq<char>)
    ensures
        unread_cleared(chats, i).len() == chats.len(),
        forall|j: int|
            0 <= j < chats.len() ==> #[trigger] unread_cleared(chats, i)[j].id == chats[j].id
                && unread_cleared(chats, i)[j].name == chats[j].name,
        ids_unique(chats) ==> ids_unique(unread_cleared(chats, i)),
        search_matches(unread_cleared(chats, i), query) == search_matches(chats, query),
{
    let c = unread_cleared(chats, i);
    assert forall|j: int| 0 <= j < chats.len() implies #[trigger] c[j].name == chats[j].name by {}
    lemma_search_matches_same_names(c, chats, query);
}

/// Search results are positions of matching chats, strictly increasing, and
/// every matching chat is among them.
pub proof fn lemma_search_matches_exact(chats: Seq<Chat>, query: Seq<char>)
    requires
        chats.len() <= usize::MAX,
    ensures
        forall|k: int|
            0 <= k < search_matches(chats, query).len() ==> {
                let p = #[trigger] search_matches(chats, query)[k];
                p < chats.len() && name_matches(chats[p as int].name@, query)
            },
        forall|k: int, l: int|
            0 <= k < l < search_matches(chats, query).len() ==> #[trigger] search_matches(
                chats,
                query,
            )[k] < #[trigger] search_matches(chats, query)[l],
        forall|p: int|
            0 <= p < chats.len() && name_matches(#[trigger] chats[p].name@, query) ==> search_matches(
                chats,
                query,
            ).contains(p as usize),
    decreases chats.len(),
{
    if chats.len() > 0 {
        let init = chats.drop_last();
        lemma_search_matches_exact(init, query);
        let rest = search_matches(init, query);
        let r = search_matches(chats, query);
        let last = (chats.len() - 1) as usize;
        assert(last as int == chats.len() - 1);
        assert forall|k: int| 0 <= k < rest.len() implies #[trigger] rest[k] < last by {}
        assert forall|k: int| 0 <= k < r.len() implies {
            let p = #[trigger] r[k];
            p < chats.len() && name_matches(chats[p as int].name@, query)
        } by {
            if k < rest.len() {
                assert(r[k] == rest[k]);
                assert(init[rest[k] as int] == chats[rest[k] as int]);
            } else {
                assert(r[k] == last);
            }
        }
        assert forall|k: int, l: int| 0 <= k < l < r.len() implies #[trigger] r[k] < #[trigger] r[l] by {
            if l < rest.len() {
                assert(r[k] == rest[k] && r[l] == rest[l]);
            } else {
                assert(r[k] == rest[k]);
            }
        }
        assert forall|p: int|
            0 <= p < chats.len() && name_matches(#[trigger] chats[p].name@, query) implies r.contains(
            p as usize,
        ) by {
            if p < chats.len() - 1 {
                assert(init[p] == chats[p]);
                assert(rest.contains(p as usize));
                let k = choose|k: int| 0 <= k < rest.len() && rest[k] == p as usize;
                assert(r[k] == p as usize);
            } else {
                assert(r[r.len() - 1] == p as usize);
            }
        }
    }
}

/// `k` is the first position of an account list whose id is `id`.
pub open spec fn first_account_with(accounts: Seq<(String, String)>, id: Seq<char>, k: int) -> bool {
    &&& 0 <= k < accounts.len()
    &&& accounts[k].0@ == id
    &&& forall|j: int| 0 <= j < k ==> #[trigger] accounts[j].0@ != id
}

/// The chat list once a found user's chat is listed: unchanged when a chat
/// with that id exists, else extended by a fresh chat.
pub open spec fn chats_with_found(chats: Seq<Chat>, id: i64, name: String) -> Seq<Chat> {
    if has_id(chats, id) {
        chats
    } else {
        chats.push(Chat { id, name, last_message: None, unread: 0 })
    }
}

/// The word that opens a user lookup on the command line.
pub open spec fn find_word() -> Seq<char> {
    seq!['f', 'i', 'n', 'd', ' ']
}

/// The user a command line asks to look up: after trimming, the command
/// is `find` and a blank, followed by a name, itself trimmed, that may start
/// with `@`; the name without that `@` must not be empty.
pub open spec fn find_target(command: Seq<char>) -> Option<Seq<char>> {
    let t = trim_of(command);
    if t.len() > 5 && t.subrange(0, 5) == find_word() {
        let arg = trim_of(t.subrange(5, t.len() as int));
        let user = if arg.len() > 0 && arg[0] == '@' {
            arg.drop_first()
        } else {
            arg
        };
        if user.len() > 0 {
            Some(user)
        } else {
            None
        }
    } else {
        None
    }
}

/// The user that the command line `command` asks to look up.
pub fn command_target(command: &str) -> (r: Option<String>)
    ensures
        r is None <==> find_target(command@) is None,
        r is Some ==> r->0@ == find_target(command@)->0,
{
    let t = trim_str(command);
    proof {
        assert(t@ == trim_of(command@));
    }
    let n = t.unicode_len();
    if n > 5 && t.get_char(0) == 'f' && t.get_char(1) == 'i' && t.get_char(2) == 'n' && t.get_char(3)
        == 'd' && t.get_char(4) == ' ' {
        proof {
            assert(t@.subrange(0, 5) =~= find_word());
        }
        let arg = trim_str(t.substring_char(5, n));
        let m = arg.unicode_len();
        let user = if m > 0 && arg.get_char(0) == '@' {
            proof {
                assert(arg@.subrange(1, m as int) =~= arg@.drop_first());
            }
            arg.substring_char(1, m)
        } else {
            arg
        };
        if user.unicode_len() > 0 {
            Some(owned(user))
        } else {
            None
        }
    } else {
        proof {
            if n > 5 && t@.subrange(0, 5) == find_word() {
                assert(t@[0] == t@.subrange(0, 5)[0]);
                assert(t@[1] == t@.subrange(0, 5)[1]);
                assert(t@[2] == t@.subrange(0, 5)[2]);
                assert(t@[3] == t@.subrange(0, 5)[3]);
                assert(t@[4] == t@.subrange(0, 5)[4]);
            }
        }
        None
    }
}

/// The effect of `App::move_up`: moves the selection up: in the friends panel
/// to the previous chat, clearing its unread counter and asking for its
/// messages; in the conversation panel one step back in the history.
pub open spec fn step_move_up(o: App, n: App) -> bool {
    &&& o.panel == Panel::Friends && o.selected_chat > 0 ==> {
        &&& n.chats@ == unread_cleared(o.chats@, o.selected_chat - 1)
        &&& n == (App {
            chats: n.chats,
            selected_chat: (o.selected_chat - 1) as usize,
            scroll_offset: 0,
            needs_message_load: true,
            ..o
        })
    }
    &&& o.panel == Panel::Friends && o.selected_chat == 0 ==> n == o
    &&& o.panel == Panel::Chats ==> n == (App {
        scroll_offset: if o.scroll_offset == usize::MAX {
            usize::MAX
        } else {
            (o.scroll_offset + 1) as usize
        },
        ..o
    })
    &&& o.panel == Panel::Friends ==> n.selected_chat == nav_step(o.selected_chat, o.chats@.len(), true)
}

/// The effect of `App::move_down`: moves the selection down: in the friends
/// panel to the next chat, clearing its unread counter and asking for its
/// messages; in the conversation panel one step forward, stopping at the
/// newest.
pub open spec fn step_move_down(o: App, n: App) -> bool {
    &&& o.panel == Panel::Friends && o.selected_chat + 1 < o.chats@.len() ==> {
        &&& n.chats@ == unread_cleared(o.chats@, o.selected_chat + 1)
        &&& n == (App {
            chats: n.chats,
            selected_chat: (o.selected_chat + 1) as usize,
            scroll_offset: 0,
            needs_message_load: true,
            ..o
        })
    }
    &&& o.panel == Panel::Friends && o.selected_chat + 1 >= o.chats@.len() ==> n == o
    &&& o.panel == Panel::Chats ==> n == (App {
        scroll_offset: if o.scroll_offset == 0 {
            0
        } else {
            (o.scroll_offset - 1) as usize
        },
        ..o
    })
    &&& o.panel == Panel::Friends ==> n.selected_chat == nav_step(o.selected_chat, o.chats@.len(), false)
}

/// The effect of `App::select_chat`: a chat in range other than the
/// selected one becomes the selection, with its unread counter cleared, its
/// messages wanted and the view at the newest message.
pub open spec fn step_select_chat(o: App, index: usize, n: App) -> bool {
    &&& index < o.chats@.len() && index != o.selected_chat ==> {
        &&& n.chats@ == unread_cleared(o.chats@, index as int)
        &&& n == (App {
            chats: n.chats,
            selected_chat: index,
            scroll_offset: 0,
            needs_message_load: true,
            ..o
        })
    }
    &&& !(index < o.chats@.len() && index != o.selected_chat) ==> n == o
}

/// The effect of `App::switch_panel`: gives the focus to the other panel.
pub open spec fn step_switch_panel(o: App, n: App) -> bool {
    &&& n == (App {
        panel: if o.panel == Panel::Friends {
            Panel::Chats
        } else {
            Panel::Friends
        },
        ..o
    })
}

/// The effect of `App::enter_insert`: enters text entry; the input buffer is
/// kept as it is.
pub open spec fn step_enter_insert(o: App, n: App) -> bool {
    &&& n == (App { mode: Mode::Insert, ..o })
}

/// The effect of `App::exit_insert`: leaves text entry for `Normal` mode,
/// discarding the unsent text.
pub open spec fn step_exit_insert(o: App, n: App) -> bool {
    &&& n.input@.len() == 0
    &&& n == (App { mode: Mode::Normal, input: n.input, ..o })
}

/// The effect of `App::update_search_filter`: recomputes the search results
/// from the chat list and the query, and puts the search cursor back on the
/// first result when it fell out of range.
pub open spec fn step_update_search_filter(o: App, n: App) -> bool {
    &&& n.filtered_chat_indices@ == search_matches(o.chats@, o.search_input@)
    &&& n == (App {
        filtered_chat_indices: n.filtered_chat_indices,
        search_selected: if o.search_selected >= n.filtered_chat_indices@.len() {
            0
        } else {
            o.search_selected
        },
        ..o
    })
}

/// The effect of `App::enter_search`: enters search with an empty query: every
/// chat is a result and the first one is under the cursor.
pub open spec fn step_enter_search(o: App, n: App) -> bool {
    &&& n.search_input@.len() == 0
    &&& n.filtered_chat_indices@ == search_matches(o.chats@, Seq::<char>::empty())
    &&& n == (App {
        mode: Mode::Search,
        search_input: n.search_input,
        filtered_chat_indices: n.filtered_chat_indices,
        search_selected: 0,
        ..o
    })
}

/// The effect of `App::exit_search`: leaves search without moving the
/// selection; query and results are cleared.
pub open spec fn step_exit_search(o: App, n: App) -> bool {
    &&& n.search_input@.len() == 0
    &&& n.filtered_chat_indices@.len() == 0
    &&& n == (App {
        mode: Mode::Normal,
        search_input: n.search_input,
        filtered_chat_indices: n.filtered_chat_indices,
        ..o
    })
}

/// The effect of `App::jump_to_selected_search_result`: confirms search: the
/// result under the cursor becomes the selected chat (its unread counter
/// cleared, its messages wanted, the view at the newest message); with no such
/// result the selection stays. Search is left either way.
pub open spec fn step_jump_to_selected_search_result(o: App, n: App) -> bool {
    &&& ({
        let hit = o.search_selected < o.filtered_chat_indices@.len()
            && o.filtered_chat_indices@[o.search_selected as int] < o.chats@.len();
        let target = o.filtered_chat_indices@[o.search_selected as int];
        &&& hit ==> n.chats@ == unread_cleared(o.chats@, target as int)
        &&& hit ==> n.selected_chat == target
        &&& hit ==> n.scroll_offset == 0
        &&& hit ==> n.needs_message_load
        &&& !hit ==> n.chats == o.chats && n.selected_chat == o.selected_chat
            && n.scroll_offset == o.scroll_offset && n.needs_message_load == o.needs_message_load
    })
    &&& n.search_input@.len() == 0
    &&& n.filtered_chat_indices@.len() == 0
    &&& n == (App {
        mode: Mode::Normal,
        chats: n.chats,
        selected_chat: n.selected_chat,
        scroll_offset: n.scroll_offset,
        needs_message_load: n.needs_message_load,
        search_input: n.search_input,
        filtered_chat_indices: n.filtered_chat_indices,
        ..o
    })
}

/// The effect of `App::search_move_up`: moves the search cursor to the previous
/// result, stopping at the first.
pub open spec fn step_search_move_up(o: App, n: App) -> bool {
    &&& n == (App {
        search_selected: if o.search_selected > 0 {
            (o.search_selected - 1) as usize
        } else {
            0
        },
        ..o
    })
}

/// The effect of `App::search_move_down`: moves the search cursor to the next
/// result, stopping at the last.
pub open spec fn step_search_move_down(o: App, n: App) -> bool {
    &&& n == (App {
        search_selected: if o.search_selected + 1 < o.filtered_chat_indices@.len() {
            (o.search_selected + 1) as usize
        } else {
            o.search_selected
        },
        ..o
    })
}

/// The effect of `App::enter_account_picker`: opens the account picker on the
/// active account's row (the first row when the active account is not listed).
pub open spec fn step_enter_account_picker(o: App, n: App) -> bool {
    &&& forall|k: int|
        first_account_with(o.account_names@, o.current_account_id@, k)
            ==> n.account_picker_selected == k
    &&& (forall|j: int|
        0 <= j < o.account_names@.len() ==> #[trigger] o.account_names@[j].0@ != o.current_account_id@)
        ==> n.account_picker_selected == 0
    &&& n == (App {
        mode: Mode::AccountPicker,
        account_picker_selected: n.account_picker_selected,
        ..o
    })
}

/// The effect of `App::exit_account_picker`: closes the account picker.
pub open spec fn step_exit_account_picker(o: App, n: App) -> bool {
    &&& n == (App { mode: Mode::Normal, ..o })
}

/// The effect of `App::account_picker_move_up`: moves the picker cursor up,
/// stopping at the first row.
pub open spec fn step_account_picker_move_up(o: App, n: App) -> bool {
    &&& n == (App {
        account_picker_selected: if o.account_picker_selected > 0 {
            (o.account_picker_selected - 1) as usize
        } else {
            0
        },
        ..o
    })
}

/// The effect of `App::account_picker_move_down`: moves the picker cursor down,
/// stopping at the "add account" row that follows the accounts.
pub open spec fn step_account_picker_move_down(o: App, n: App) -> bool {
    &&& n == (App {
        account_picker_selected: if o.account_picker_selected < o.account_names@.len() {
            (o.account_picker_selected + 1) as usize
        } else {
            o.account_picker_selected
        },
        ..o
    })
}

/// The effect of `App::select_account`: confirms the picker: an account row
/// other than the active account asks for a switch to it, the row after the
/// accounts asks for a new account. The picker closes either way.
pub open spec fn step_select_account(o: App, n: App) -> bool {
    &&& ({
        let sel = o.account_picker_selected as int;
        let other = sel < o.account_names@.len() && o.account_names@[sel].0@ != o.current_account_id@;
        let same = sel < o.account_names@.len() && o.account_names@[sel].0@ == o.current_account_id@;
        &&& other ==> n.switch_account_requested == Some(o.account_names@[sel].0)
            && n.add_account_requested == o.add_account_requested
        &&& same ==> n.switch_account_requested == o.switch_account_requested
            && n.add_account_requested == o.add_account_requested
        &&& sel >= o.account_names@.len() ==> n.switch_account_requested
            == o.switch_account_requested && n.add_account_requested
    })
    &&& n == (App {
        mode: Mode::Normal,
        switch_account_requested: n.switch_account_requested,
        add_account_requested: n.add_account_requested,
        ..o
    })
}

/// The effect of `App::enter_command`: opens the command line, empty.
pub open spec fn step_enter_command(o: App, n: App) -> bool {
    &&& n.command_input@.len() == 0
    &&& n == (App {
        mode: Mode::Command,
        command_input: n.command_input,
        ..o
    })
}

/// The effect of `App::exit_command`: closes the command line and drops what
/// was typed.
pub open spec fn step_exit_command(o: App, n: App) -> bool {
    &&& n.command_input@.len() == 0
    &&& n == (App {
        mode: Mode::Normal,
        command_input: n.command_input,
        ..o
    })
}

/// The effect of `App::execute_command`: runs the command line. `find <user>`
/// (an `@` before the name is optional) opens the find-user overlay in its
/// searching state and asks for a lookup of that name; any other line just
/// closes the command line.
pub open spec fn step_execute_command(o: App, n: App) -> bool {
    &&& n.command_input@.len() == 0
    &&& find_target(o.command_input@) is Some ==> {
        let user = find_target(o.command_input@)->0;
        &&& n.find_input@ == user
        &&& n.find_result == Some(FindResult::Searching)
        &&& n.find_requested is Some
        &&& n.find_requested->0@ == user
        &&& n == (App {
            mode: Mode::FindUser,
            command_input: n.command_input,
            find_input: n.find_input,
            find_result: n.find_result,
            find_requested: n.find_requested,
            ..o
        })
    }
    &&& find_target(o.command_input@) is None ==> n == (App {
        mode: Mode::Normal,
        command_input: n.command_input,
        ..o
    })
}

/// The effect of `App::exit_find`: closes the find-user overlay and forgets its
/// query and result.
pub open spec fn step_exit_find(o: App, n: App) -> bool {
    &&& n.find_input@.len() == 0
    &&& n == (App {
        mode: Mode::Normal,
        find_input: n.find_input,
        find_result: None,
        ..o
    })
}

/// The effect of `App::jump_to_found_user`: confirms the find-user overlay:
/// when a user was found, that user's chat (listed first if it was not) becomes
/// the selected chat, with its unread counter cleared and its messages wanted.
/// The overlay closes either way.
pub open spec fn step_jump_to_found_user(o: App, n: App) -> bool {
    &&& n.find_input@.len() == 0
    &&& n.find_result is None
    &&& n.mode == Mode::Normal
    &&& (match o.find_result {
        Some(FindResult::Found { id, name }) => {
            let listed = chats_with_found(o.chats@, id, name);
            &&& exists|k: int| first_with_id(listed, id, k)
            &&& forall|k: int|
                first_with_id(listed, id, k) ==> n.selected_chat == k
                    && n.chats@ == unread_cleared(listed, k)
            &&& n.scroll_offset == 0
            &&& n.needs_message_load
        },
        _ => {
            &&& n.chats == o.chats
            &&& n.selected_chat == o.selected_chat
            &&& n.scroll_offset == o.scroll_offset
            &&& n.needs_message_load == o.needs_message_load
        },
    })
    &&& n == (App {
        mode: Mode::Normal,
        chats: n.chats,
        selected_chat: n.selected_chat,
        scroll_offset: n.scroll_offset,
        needs_message_load: n.needs_message_load,
        find_input: n.find_input,
        find_result: None,
        filtered_chat_indices: n.filtered_chat_indices,
        search_selected: n.search_selected,
        ..o
    })
    &&& o.mode != Mode::Search ==> n.filtered_chat_indices == o.filtered_chat_indices
        && n.search_selected == o.search_selected
}

impl App {
    /// The id of the selected chat, if the selection is in range.
    pub open spec fn selected_id(&self) -> Option<i64> {
        if self.selected_chat < self.chats@.len() {
            Some(self.chats@[self.selected_chat as int].id)
        } else {
            None
        }
    }

    /// The message sequence held for chat `id` (empty when none is held).
    pub open spec fn messages_of(&self, id: i64) -> Seq<Message> {
        if self.messages@.contains_key(id) {
            self.messages@[id]@
        } else {
            Seq::empty()
        }
    }

    /// The part of the invariant that holds between a change of the search
    /// query and the recomputation of its results.
    pub open spec fn wf_core(&self) -> bool {
        &&& self.chats@.len() == 0 ==> self.selected_chat == 0
        &&& self.chats@.len() > 0 ==> self.selected_chat < self.chats@.len()
        &&& ids_unique(self.chats@)
        &&& self.mode != Mode::Search ==> self.filtered_chat_indices@.len() == 0
            && self.search_input@.len() == 0
        &&& self.account_picker_selected <= self.account_names@.len()
    }

    /// The state's invariant: the selection is in range, chat ids are
    /// unique, and while searching the results are those of the query.
    pub open spec fn wf(&self) -> bool {
        &&& self.wf_core()
        &&& self.mode == Mode::Search ==> self.filtered_chat_indices@ == search_matches(
            self.chats@,
            self.search_input@,
        )
        &&& self.mode == Mode::Search ==> self.search_selected == 0 || self.search_selected
            < self.filtered_chat_indices@.len()
    }

    /// An empty state in `Normal` mode with the friends panel focused and a
    /// message load wanted.
    pub fn new() -> (r: App)
        ensures
            r.wf(),
            r.mode == Mode::Normal,
            r.panel == Panel::Friends,
            r.chats@.len() == 0,
            r.messages@.len() == 0,
            r.selected_chat == 0,
            r.selected_message == 0,
            r.scroll_offset == 0,
            r.input@.len() == 0,
            !r.should_quit,
            !r.reload_requested,
            r.loading_status is None,
            r.needs_message_load,
            r.pending_load is None,
            r.search_input@.len() == 0,
            r.filtered_chat_indices@.len() == 0,
            r.search_selected == 0,
            !r.disconnect_requested,
            r.current_account_id@.len() == 0,
            r.account_names@.len() == 0,
            r.account_picker_selected == 0,
            r.switch_account_requested is None,
            !r.add_account_requested,
            r.command_input@.len() == 0,
            r.find_input@.len() == 0,
            r.find_result is None,
            r.find_requested is None,
    {
        App {
            mode: Mode::Normal,
            panel: Panel::Friends,
            chats: Vec::new(),
            messages: HashMap::new(),
            selected_chat: 0,
            selected_message: 0,
            scroll_offset: 0,
            input: String::new(),
            should_quit: false,
            reload_requested: false,
            loading_status: None,
            needs_message_load: true,
            pending_load: None,
            search_input: String::new(),
            filtered_chat_indices: Vec::new(),
            search_selected: 0,
            disconnect_requested: false,
            current_account_id: String::new(),
            account_names: Vec::new(),
            account_picker_selected: 0,
            switch_account_requested: None,
            add_account_requested: false,
            command_input: String::new(),
            find_input: String::new(),
            find_result: None,
            find_requested: None,
        }
    }

    /// The id of the currently selected chat.
    pub fn current_chat_id(&self) -> (r: Option<i64>)
        ensures
            r == self.selected_id(),
    {
        if self.selected_chat < self.chats.len() {
            Some(self.chats[self.selected_chat].id)
        } else {
            None
        }
    }

    /// Sets the unread counter of the selected chat to zero.
    pub fn clear_current_unread(&mut self)
        ensures
            final(self).chats@ == unread_cleared(old(self).chats@, old(self).selected_chat as int),
            *final(self) == (App { chats: final(self).chats, ..*old(self) }),
    {
        if self.selected_chat < self.chats.len() {
            let i = self.selected_chat;
            self.chats[i].unread = 0;
        }
    }

    /// Moves the selection up: in the friends panel to the previous chat,
    /// clearing its unread counter and asking for its messages; in the
    /// conversation panel one step back in the history.
    pub fn move_up(&mut self)
        ensures
            step_move_up(*old(self), *final(self)),
            old(self).wf() ==> final(self).wf(),
    {
        match self.panel {
            Panel::Friends => {
                if self.selected_chat > 0 {
                    self.selected_chat = self.selected_chat - 1;
                    proof {
                        lemma_unread_cleared_keeps(
                            self.chats@,
                            self.selected_chat as int,
                            self.search_input@,
                        );
                    }
                    self.clear_current_unread();
                    self.scroll_offset = 0;
                    self.needs_message_load = true;
                }
            },
            Panel::Chats => {
                self.scroll_offset = self.scroll_offset.saturating_add(1);
            },
        }
    }

    /// Moves the selection down: in the friends panel to the next chat,
    /// clearing its unread counter and asking for its messages; in the
    /// conversation panel one step forward, stopping at the newest.
    pub fn move_down(&mut self)
        ensures
            step_move_down(*old(self), *final(self)),
            old(self).wf() ==> final(self).wf(),
    {
        match self.panel {
            Panel::Friends => {
                if self.selected_chat < self.chats.len().saturating_sub(1) {
                    self.selected_chat = self.selected_chat + 1;
                    proof {
                        lemma_unread_cleared_keeps(
                            self.chats@,
                            self.selected_chat as int,
                            self.search_input@,
                        );
                    }
                    self.clear_current_unread();
                    self.scroll_offset = 0;
                    self.needs_message_load = true;
                }
            },
            Panel::Chats => {
                self.scroll_offset = self.scroll_offset.saturating_sub(1);
            },
        }
    }

    /// Gives the focus to the other panel.
    pub fn switch_panel(&mut self)
        ensures
            step_switch_panel(*old(self), *final(self)),
    {
        self.panel = match self.panel {
            Panel::Friends => Panel::Chats,
            Panel::Chats => Panel::Friends,
        };
    }

    /// Enters text entry; the input buffer is kept as it is.
    pub fn enter_insert(&mut self)
        ensures
            step_enter_insert(*old(self), *final(self)),
    {
        self.mode = Mode::Insert;
    }

    /// Leaves text entry for `Normal` mode, discarding the unsent text.
    pub fn exit_insert(&mut self)
        ensures
            step_exit_insert(*old(self), *final(self)),
            old(self).wf() && old(self).mode != Mode::Search ==> final(self).wf(),
    {
        self.mode = Mode::Normal;
        self.input = String::new();
    }

    /// Selects the chat at `index`, when it is in range and not already
    /// selected: its unread counter is cleared, its messages are wanted and
    /// the view goes to the newest message.
    pub fn select_chat(&mut self, index: usize)
        ensures
            step_select_chat(*old(self), index, *final(self)),
            old(self).wf() ==> final(self).wf(),
    {
        if index < self.chats.len() && index != self.selected_chat {
            proof {
                lemma_unread_cleared_keeps(self.chats@, index as int, self.search_input@);
            }
            self.selected_chat = index;
            self.clear_current_unread();
            self.scroll_offset = 0;
            self.needs_message_load = true;
        }
    }

    /// The position of the first chat with `id`, if any.
    pub fn chat_index(&self, id: i64) -> (r: Option<usize>)
        ensures
            r is Some ==> first_with_id(self.chats@, id, r->0 as int),
            r is None ==> !has_id(self.chats@, id),
    {
        let mut i: usize = 0;
        while i < self.chats.len()
            invariant
                i <= self.chats@.len(),
                forall|j: int| 0 <= j < i ==> #[trigger] self.chats@[j].id != id,
            decreases self.chats@.len() - i,
        {
            if self.chats[i].id == id {
                return Some(i);
            }
            i += 1;
        }
        None
    }

    /// Recomputes the search results from the chat list and the query, and
    /// puts the search cursor back on the first result when it fell out of
    /// range.
    pub fn update_search_filter(&mut self)
        ensures
            step_update_search_filter(*old(self), *final(self)),
            old(self).wf_core() && old(self).mode == Mode::Search ==> final(self).wf(),
    {
        let match_all = self.search_input.as_str().is_empty();
        let query = lowercase(self.search_input.as_str());
        let mut found: Vec<usize> = Vec::new();
        let mut i: usize = 0;
        while i < self.chats.len()
            invariant
                i <= self.chats@.len(),
                query@ == lower_of(self.search_input@),
                match_all == (self.search_input@.len() == 0),
                found@ == search_matches(self.chats@.subrange(0, i as int), self.search_input@),
            decreases self.chats@.len() - i,
        {
            let hit = if match_all {
                true
            } else {
                let name = lowercase(self.chats[i].name.as_str());
                folded_contains(name.as_str(), query.as_str())
            };
            proof {
                let pre = self.chats@.subrange(0, i + 1);
                assert(pre.drop_last() =~= self.chats@.subrange(0, i as int));
                assert(pre.last() == self.chats@[i as int]);
            }
            if hit {
                found.push(i);
            }
            i += 1;
        }
        proof {
            assert(self.chats@.subrange(0, self.chats@.len() as int) =~= self.chats@);
        }
        self.filtered_chat_indices = found;
        if self.search_selected >= self.filtered_chat_indices.len() {
            self.search_selected = 0;
        }
    }

    /// Adds a chat with no preview and no unread message, unless a chat with
    /// that id is already listed (its name is then left as it is). While
    /// searching, the results follow the new list.
    pub fn add_chat(&mut self, id: i64, name: String)
        ensures
            has_id(old(self).chats@, id) ==> *final(self) == *old(self),
            !has_id(old(self).chats@, id) ==> {
                &&& final(self).chats@ == old(self).chats@.push(
                    Chat { id, name, last_message: None, unread: 0 },
                )
                &&& old(self).mode == Mode::Search ==> final(self).filtered_chat_indices@
                    == search_matches(final(self).chats@, old(self).search_input@)
                &&& old(self).mode == Mode::Search ==> final(self).search_selected == if old(
                    self,
                ).search_selected >= final(self).filtered_chat_indices@.len() {
                    0
                } else {
                    old(self).search_selected
                }
                &&& old(self).mode != Mode::Search ==> final(self).filtered_chat_indices
                    == old(self).filtered_chat_indices && final(self).search_selected == old(
                    self,
                ).search_selected
                &&& *final(self) == (App {
                    chats: final(self).chats,
                    filtered_chat_indices: final(self).filtered_chat_indices,
                    search_selected: final(self).search_selected,
                    ..*old(self)
                })
            },
            old(self).wf() ==> final(self).wf(),
    {
        match self.chat_index(id) {
            Some(_) => {},
            None => {
                self.chats.push(Chat { id, name, last_message: None, unread: 0 });
                if self.mode == Mode::Search {
                    self.update_search_filter();
                }
            },
        }
    }

    /// Appends a message to a chat's sequence; the chat's preview becomes
    /// the text and an inbound message raises its unread counter.
    pub fn add_message(&mut self, chat_id: i64, sender: String, text: String, outgoing: bool)
        ensures
            same_roster(final(self).chats@, old(self).chats@),
            final(self).messages@ == old(self).messages@.insert(
                chat_id,
                final(self).messages@[chat_id],
            ),
            final(self).messages@[chat_id]@ == old(self).messages_of(chat_id).push(
                Message { sender, text, outgoing },
            ),
            final(self).messages_of(chat_id) == old(self).messages_of(chat_id).push(
                Message { sender, text, outgoing },
            ),
            forall|k: int|
                first_with_id(old(self).chats@, chat_id, k) ==> final(self).chats@ == old(
                    self,
                ).chats@.update(k, chat_after_message(old(self).chats@[k], text, outgoing)),
            !has_id(old(self).chats@, chat_id) ==> final(self).chats@ == old(self).chats@,
            *final(self) == (App {
                chats: final(self).chats,
                messages: final(self).messages,
                ..*old(self)
            }),
            old(self).wf() ==> final(self).wf(),
    {
        let ghost before = self.chats@;
        let msg = Message { sender, text: text.clone(), outgoing };
        let mut list = match self.messages.remove(&chat_id) {
            Some(v) => v,
            None => Vec::new(),
        };
        list.push(msg);
        self.messages.insert(chat_id, list);
        match self.chat_index(chat_id) {
            Some(k) => {
                self.chats[k].last_message = Some(text);
                if !outgoing && self.chats[k].unread < u32::MAX {
                    self.chats[k].unread = self.chats[k].unread + 1;
                }
                proof {
                    assert(self.chats@ =~= before.update(
                        k as int,
                        chat_after_message(before[k as int], text, outgoing),
                    ));
                    assert forall|j: int| 0 <= j < before.len() implies #[trigger] self.chats@[j].name
                        == before[j].name by {}
                    lemma_search_matches_same_names(self.chats@, before, self.search_input@);
                }
            },
            None => {},
        }
        proof {
            assert forall|k: int| first_with_id(before, chat_id, k) implies self.chats@ == before.update(
                k,
                chat_after_message(before[k], text, outgoing),
            ) by {
                assert(has_id(before, chat_id));
            }
        }
    }

    /// Sets the unread counter of the chat with `chat_id` to zero.
    pub fn clear_unread(&mut self, chat_id: i64)
        ensures
            same_roster(final(self).chats@, old(self).chats@),
            forall|k: int|
                first_with_id(old(self).chats@, chat_id, k) ==> final(self).chats@
                    == unread_cleared(old(self).chats@, k),
            !has_id(old(self).chats@, chat_id) ==> final(self).chats@ == old(self).chats@,
            *final(self) == (App { chats: final(self).chats, ..*old(self) }),
            old(self).wf() ==> final(self).wf(),
    {
        match self.chat_index(chat_id) {
            Some(k) => {
                proof {
                    lemma_unread_cleared_keeps(self.chats@, k as int, self.search_input@);
                }
                self.chats[k].unread = 0;
            },
            None => {},
        }
    }

    /// Overwrites the message sequence of a chat wholesale.
    pub fn replace_messages(&mut self, chat_id: i64, messages: Vec<Message>)
        ensures
            final(self).messages@ == old(self).messages@.insert(chat_id, messages),
            *final(self) == (App { messages: final(self).messages, ..*old(self) }),
            old(self).wf() ==> final(self).wf(),
    {
        self.messages.insert(chat_id, messages);
    }

    /// Enters search with an empty query: every chat is a result and the
    /// first one is under the cursor.
    pub fn enter_search(&mut self)
        ensures
            step_enter_search(*old(self), *final(self)),
            old(self).wf() ==> final(self).wf(),
    {
        self.mode = Mode::Search;
        self.search_input = String::new();
        self.search_selected = 0;
        self.update_search_filter();
    }

    /// Leaves search without moving the selection; query and results are
    /// cleared.
    pub fn exit_search(&mut self)
        ensures
            step_exit_search(*old(self), *final(self)),
            old(self).wf() ==> final(self).wf(),
    {
        self.mode = Mode::Normal;
        self.search_input = String::new();
        self.filtered_chat_indices = Vec::new();
    }

    /// Confirms search: the result under the cursor becomes the selected
    /// chat (its unread counter cleared, its messages wanted, the view at the
    /// newest message); with no such result the selection stays. Search is
    /// left either way.
    pub fn jump_to_selected_search_result(&mut self)
        ensures
            step_jump_to_selected_search_result(*old(self), *final(self)),
            old(self).wf() ==> final(self).wf(),
    {
        if self.search_selected < self.filtered_chat_indices.len() {
            let chat_index = self.filtered_chat_indices[self.search_selected];
            if chat_index < self.chats.len() {
                proof {
                    lemma_unread_cleared_keeps(self.chats@, chat_index as int, self.search_input@);
                }
                self.selected_chat = chat_index;
                self.scroll_offset = 0;
                self.needs_message_load = true;
                self.clear_current_unread();
            }
        }
        self.exit_search();
    }

    /// Moves the search cursor to the previous result, stopping at the first.
    pub fn search_move_up(&mut self)
        ensures
            step_search_move_up(*old(self), *final(self)),
            old(self).wf() ==> final(self).wf(),
    {
        if self.search_selected > 0 {
            self.search_selected = self.search_selected - 1;
        }
    }

    /// Moves the search cursor to the next result, stopping at the last.
    pub fn search_move_down(&mut self)
        ensures
            step_search_move_down(*old(self), *final(self)),
            old(self).wf() ==> final(self).wf(),
    {
        if self.search_selected < self.filtered_chat_indices.len().saturating_sub(1) {
            self.search_selected = self.search_selected + 1;
        }
    }

    /// Opens the account picker on the active account's row (the first row
    /// when the active account is not listed).
    pub fn enter_account_picker(&mut self)
        ensures
            step_enter_account_picker(*old(self), *final(self)),
            old(self).wf() && old(self).mode != Mode::Search ==> final(self).wf(),
    {
        let row = self.active_account_row();
        self.mode = Mode::AccountPicker;
        self.account_picker_selected = row;
    }

    /// The picker row of the active account: its first position in the
    /// account list, or the first row when it is not listed.
    pub fn active_account_row(&self) -> (r: usize)
        ensures
            forall|k: int|
                first_account_with(self.account_names@, self.current_account_id@, k) ==> r == k,
            (forall|j: int|
                0 <= j < self.account_names@.len() ==> #[trigger] self.account_names@[j].0@
                    != self.current_account_id@) ==> r == 0,
            r <= self.account_names@.len(),
    {
        let mut i: usize = 0;
        while i < self.account_names.len()
            invariant
                i <= self.account_names@.len(),
                forall|j: int|
                    0 <= j < i ==> #[trigger] self.account_names@[j].0@
                        != self.current_account_id@,
            decreases self.account_names@.len() - i,
        {
            if self.account_names[i].0 == self.current_account_id {
                proof {
                    assert forall|k: int|
                        first_account_with(
                            self.account_names@,
                            self.current_account_id@,
                            k,
                        ) implies i == k by {
                        if k > i {
                            assert(self.account_names@[i as int].0@ == self.current_account_id@);
                        }
                    }
                }
                return i;
            }
            i += 1;
        }
        0
    }

    /// Closes the account picker.
    pub fn exit_account_picker(&mut self)
        ensures
            step_exit_account_picker(*old(self), *final(self)),
    {
        self.mode = Mode::Normal;
    }

    /// Moves the picker cursor up, stopping at the first row.
    pub fn account_picker_move_up(&mut self)
        ensures
            step_account_picker_move_up(*old(self), *final(self)),
            old(self).wf() ==> final(self).wf(),
    {
        if self.account_picker_selected > 0 {
            self.account_picker_selected = self.account_picker_selected - 1;
        }
    }

    /// Moves the picker cursor down, stopping at the "add account" row that
    /// follows the accounts.
    pub fn account_picker_move_down(&mut self)
        ensures
            step_account_picker_move_down(*old(self), *final(self)),
            old(self).wf() ==> final(self).wf(),
    {
        let max_index = self.account_names.len();
        if self.account_picker_selected < max_index {
            self.account_picker_selected = self.account_picker_selected + 1;
        }
    }

    /// Confirms the picker: an account row other than the active account
    /// asks for a switch to it, the row after the accounts asks for a new
    /// account. The picker closes either way.
    pub fn select_account(&mut self)
        ensures
            step_select_account(*old(self), *final(self)),
            old(self).wf() && old(self).mode != Mode::Search ==> final(self).wf(),
    {
        if self.account_picker_selected < self.account_names.len() {
            let account_id = &self.account_names[self.account_picker_selected].0;
            if *account_id != self.current_account_id {
                self.switch_account_requested = Some(account_id.clone());
            }
            self.exit_account_picker();
        } else {
            self.add_account_requested = true;
            self.exit_account_picker();
        }
    }

    /// Records the active account and the picker's rows as (id, label)
    /// pairs; the picker cursor is kept within the new rows.
    pub fn set_account_info(&mut self, account_id: String, accounts: Vec<(String, String)>)
        ensures
            *final(self) == (App {
                current_account_id: account_id,
                account_names: accounts,
                account_picker_selected: if old(self).account_picker_selected <= accounts@.len() {
                    old(self).account_picker_selected
                } else {
                    accounts@.len() as usize
                },
                ..*old(self)
            }),
            old(self).wf() ==> final(self).wf(),
    {
        self.current_account_id = account_id;
        self.account_names = accounts;
        if self.account_picker_selected > self.account_names.len() {
            self.account_picker_selected = self.account_names.len();
        }
    }

    /// Opens the command line, empty.
    pub fn enter_command(&mut self)
        ensures
            step_enter_command(*old(self), *final(self)),
            old(self).wf() && old(self).mode != Mode::Search ==> final(self).wf(),
    {
        self.mode = Mode::Command;
        self.command_input = String::new();
    }

    /// Closes the command line and drops what was typed.
    pub fn exit_command(&mut self)
        ensures
            step_exit_command(*old(self), *final(self)),
            old(self).wf() && old(self).mode != Mode::Search ==> final(self).wf(),
    {
        self.mode = Mode::Normal;
        self.command_input = String::new();
    }

    /// Runs the command line. `find <user>` (an `@` before the name is
    /// optional) opens the find-user overlay in its searching state and asks
    /// for a lookup of that name; any other line just closes the command
    /// line.
    pub fn execute_command(&mut self)
        ensures
            step_execute_command(*old(self), *final(self)),
            old(self).wf() && old(self).mode != Mode::Search ==> final(self).wf(),
    {
        let target = command_target(self.command_input.as_str());
        match target {
            Some(user) => {
                self.find_input = user.clone();
                self.find_result = Some(FindResult::Searching);
                self.find_requested = Some(user);
                self.mode = Mode::FindUser;
                self.command_input = String::new();
            },
            None => {
                self.exit_command();
            },
        }
    }

    /// Closes the find-user overlay and forgets its query and result.
    pub fn exit_find(&mut self)
        ensures
            step_exit_find(*old(self), *final(self)),
            old(self).wf() && old(self).mode != Mode::Search ==> final(self).wf(),
    {
        self.mode = Mode::Normal;
        self.find_input = String::new();
        self.find_result = None;
    }

    /// Stores the outcome of a user lookup for the overlay to show.
    pub fn set_find_result(&mut self, result: FindResult)
        ensures
            *final(self) == (App { find_result: Some(result), ..*old(self) }),
    {
        self.find_result = Some(result);
    }

    /// Confirms the find-user overlay: when a user was found, that user's
    /// chat (listed first if it was not) becomes the selected chat, with its
    /// unread counter cleared and its messages wanted. The overlay closes
    /// either way.
    pub fn jump_to_found_user(&mut self)
        ensures
            step_jump_to_found_user(*old(self), *final(self)),
            old(self).wf() && old(self).mode != Mode::Search ==> final(self).wf(),
    {
        let found = match &self.find_result {
            Some(FindResult::Found { id, name }) => Some((*id, name.clone())),
            _ => None,
        };
        match found {
            Some((id, name)) => {
                let ghost before = self.chats@;
                self.add_chat(id, name);
                proof {
                    assert(self.chats@ == chats_with_found(before, id, name));
                }
                match self.chat_index(id) {
                    Some(k) => {
                        proof {
                            lemma_unread_cleared_keeps(self.chats@, k as int, self.search_input@);
                            assert forall|j: int| first_with_id(self.chats@, id, j) implies j == k by {
                                if j < k {
                                    assert(self.chats@[j].id != id);
                                } else if j > k {
                                    assert(self.chats@[k as int].id != id);
                                }
                            }
                        }
                        self.selected_chat = k;
                        self.clear_current_unread();
                        self.scroll_offset = 0;
                        self.needs_message_load = true;
                    },
                    None => {
                        proof {
                            if !has_id(before, id) {
                                assert(self.chats@[before.len() as int].id == id);
                            }
                        }
                    },
                }
            },
            None => {},
        }
        self.exit_find();
    }

    /// The messages of the currently selected chat, oldest first.
    pub fn current_messages(&self) -> (r: Vec<&Message>)
        ensures
            self.selected_id() is None ==> r@.len() == 0,
            self.selected_id() is Some ==> r@.len() == self.messages_of(
                self.selected_id()->0,
            ).len() && forall|i: int|
                0 <= i < r@.len() ==> *#[trigger] r@[i] == self.messages_of(
                    self.selected_id()->0,
                )[i],
    {
        let mut out: Vec<&Message> = Vec::new();
        match self.current_chat_id() {
            None => out,
            Some(id) => {
                match self.messages.get(&id) {
                    None => out,
                    Some(v) => {
                        let mut i: usize = 0;
                        while i < v.len()
                            invariant
                                i <= v@.len(),
                                out@.len() == i,
                                forall|j: int| 0 <= j < i ==> *#[trigger] out@[j] == v@[j],
                            decreases v@.len() - i,
                        {
                            out.push(&v[i]);
                            i += 1;
                        }
                        out
                    },
                }
            },
        }
    }
}

} // verus!
