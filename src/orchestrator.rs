//! The decisions behind the background work: when a history backfill
//! starts, whether its result still applies, how live updates and lookup
//! results enter the store, and what the host does on exit. The host loop
//! performs the network calls and hands their results to these functions.
use vstd::prelude::*;
use crate::app::{
    chat_after_message, chats_with_found, first_with_id, has_id, lemma_first_with_id_same_roster,
    same_roster, unread_cleared, App, Chat, FindResult, Message, Mode, WELCOME_CHAT_ID,
};
use crate::text::{blank, is_blank, owned};

verus! {

broadcast use vstd::std_specs::hash::group_hash_axioms;

/// The most chats taken from the bulk listing at startup.
pub const MAX_CHATS: usize = 100;

/// The most messages a backfill brings in for one chat.
pub const MAX_BACKFILL: usize = 50;

/// The outcome of a user lookup, as the transport reports it.
#[derive(Debug, Clone)]
pub enum LookupOutcome {
    Found { id: i64, name: String },
    NotFound,
    Failed(String),
}

/// What the host does once the interactive loop ends.
#[derive(Debug, Clone)]
pub enum ExitAction {
    Disconnect,
    SwitchAccount(String),
    AddAccount,
    Quit,
}

/// The chat whose history a load request should fetch now: the selected
/// chat, unless its messages are already held, it is the welcome chat, or a
/// backfill for it is already pending.
pub open spec fn backfill_target(o: App) -> Option<i64> {
    match o.selected_id() {
        Some(id) => if o.needs_message_load && !o.messages@.contains_key(id) && id
            != WELCOME_CHAT_ID && o.pending_load != Some(id) {
            Some(id)
        } else {
            None
        },
        None => None,
    }
}

/// The effect of `App::take_message_load`.
pub open spec fn step_take_message_load(o: App, n: App, r: Option<i64>) -> bool {
    &&& r == backfill_target(o)
    &&& !o.needs_message_load ==> n == o
    &&& o.needs_message_load && o.selected_id() is None ==> n == (App {
        needs_message_load: false,
        ..o
    })
    &&& r is Some ==> {
        &&& n.loading_status is Some
        &&& n == (App {
            needs_message_load: false,
            loading_status: n.loading_status,
            pending_load: r,
            ..o
        })
    }
    &&& o.needs_message_load && o.selected_id() is Some && o.pending_load == o.selected_id()
        && !o.messages@.contains_key(o.selected_id()->0) && o.selected_id()->0
        != WELCOME_CHAT_ID ==> n == (App { needs_message_load: false, ..o })
    &&& o.needs_message_load && o.selected_id() is Some && (o.messages@.contains_key(
        o.selected_id()->0,
    ) || o.selected_id()->0 == WELCOME_CHAT_ID) ==> n == (App {
        needs_message_load: false,
        loading_status: None,
        pending_load: None,
        ..o
    })
}

/// The effect of `App::apply_backfill`: the result for `chat_id` replaces
/// that chat's messages only while it is the pending chat, which then is
/// pending no more.
pub open spec fn step_apply_backfill(o: App, chat_id: i64, messages: Vec<Message>, n: App, r: bool) -> bool {
    &&& r == (o.pending_load == Some(chat_id))
    &&& !r ==> n == o
    &&& r ==> n.messages@ == o.messages@.insert(chat_id, messages)
    &&& r ==> n == (App { messages: n.messages, loading_status: None, pending_load: None, ..o })
}

/// The messages of a backfill, oldest first, from what the transport
/// listed newest first: at most the `MAX_BACKFILL` newest.
pub open spec fn backfill_order(newest_first: Seq<Message>) -> Seq<Message> {
    let kept = if newest_first.len() <= MAX_BACKFILL {
        newest_first
    } else {
        newest_first.subrange(0, MAX_BACKFILL as int)
    };
    kept.reverse()
}

/// The name shown for the sender of a message: `You` for an outgoing one;
/// else the sender's name, or the chat's name when the sender's is blank,
/// or nothing when both are blank.
pub open spec fn sender_label(outgoing: bool, sender: Option<Seq<char>>, chat_name: Seq<char>) -> Seq<char> {
    if outgoing {
        seq!['Y', 'o', 'u']
    } else if sender is Some && !is_blank(sender->0) {
        sender->0
    } else if !is_blank(chat_name) {
        chat_name
    } else {
        Seq::empty()
    }
}

/// The placeholder some transports give a sender they cannot name.
pub open spec fn unknown_word() -> Seq<char> {
    seq!['U', 'n', 'k', 'n', 'o', 'w', 'n']
}

/// A name that says nothing: blank or the placeholder.
pub open spec fn is_unnamed(s: Seq<char>) -> bool {
    is_blank(s) || s == unknown_word()
}

/// The first chat with `id`, when one is listed.
pub open spec fn listed_name(chats: Seq<Chat>, id: i64) -> Option<String> {
    if exists|k: int| first_with_id(chats, id, k) {
        let k = choose|k: int| first_with_id(chats, id, k);
        Some(chats[k].name)
    } else {
        None
    }
}

/// The sender name of a live message, when it can be settled without
/// asking the transport: a label that names someone stands; otherwise, in a
/// one-to-one chat (positive id), the chat's name, or the name the chat is
/// listed under when that one says nothing either. `None` means the host
/// should consult the newest dialog.
pub open spec fn settled_sender(chats: Seq<Chat>, chat_id: i64, chat_name: Seq<char>, label: Seq<char>) -> Option<Seq<char>> {
    if !is_unnamed(label) {
        Some(label)
    } else {
        let resolved = if is_unnamed(chat_name) && chat_id > 0 && listed_name(chats, chat_id) is Some {
            listed_name(chats, chat_id)->0@
        } else {
            chat_name
        };
        if chat_id > 0 && !is_unnamed(resolved) {
            Some(resolved)
        } else {
            None
        }
    }
}

/// The exit the flags ask for, the strongest first.
pub open spec fn exit_for(o: App) -> ExitAction {
    if o.disconnect_requested {
        ExitAction::Disconnect
    } else if o.switch_account_requested is Some {
        ExitAction::SwitchAccount(o.switch_account_requested->0)
    } else if o.add_account_requested {
        ExitAction::AddAccount
    } else {
        ExitAction::Quit
    }
}

/// Whether `s` is the placeholder name.
fn is_unknown_name(s: &str) -> (r: bool)
    ensures
        r == (s@ == unknown_word()),
{
    let a = owned(s);
    let b = owned("Unknown");
    proof {
        reveal_strlit("Unknown");
        assert(b@ =~= unknown_word());
    }
    a == b
}

/// Whether `s` names nobody: blank or the placeholder.
pub fn unnamed(s: &str) -> (r: bool)
    ensures
        r == is_unnamed(s@),
{
    blank(s) || is_unknown_name(s)
}

/// The name shown for the sender of a message.
pub fn message_sender_label(outgoing: bool, sender: Option<&str>, chat_name: &str) -> (r: String)
    ensures
        r@ == sender_label(
            outgoing,
            match sender {
                Some(s) => Some(s@),
                None => None,
            },
            chat_name@,
        ),
{
    if outgoing {
        proof {
            reveal_strlit("You");
        }
        return owned("You");
    }
    match sender {
        Some(s) => {
            if !blank(s) {
                return owned(s);
            }
        },
        None => {},
    }
    if !blank(chat_name) {
        owned(chat_name)
    } else {
        String::new()
    }
}

/// Orders a fetched history for display: keeps the `MAX_BACKFILL` newest
/// of a newest-first listing and puts them oldest first.
pub fn prepare_backfill(newest_first: Vec<Message>) -> (r: Vec<Message>)
    ensures
        r@ == backfill_order(newest_first@),
{
    let mut kept = newest_first;
    if kept.len() > MAX_BACKFILL {
        kept.truncate(MAX_BACKFILL);
    }
    let ghost k = kept@;
    let mut out: Vec<Message> = Vec::new();
    while kept.len() > 0
        invariant
            kept@.len() + out@.len() == k.len(),
            kept@ == k.subrange(0, kept@.len() as int),
            out@ == k.subrange(kept@.len() as int, k.len() as int).reverse(),
        decreases kept@.len(),
    {
        let m = kept.pop().unwrap();
        proof {
            assert(out@.push(m) =~= k.subrange(kept@.len() as int, k.len() as int).reverse());
        }
        out.push(m);
    }
    proof {
        assert(k.subrange(0, k.len() as int) =~= k);
    }
    out
}

impl App {
    /// Answers a load request: returns the chat whose backfill should start
    /// now and marks it pending, so that a chat already pending is never
    /// fetched twice. When the selected chat needs no fetch, the pending
    /// marker and the loading status are cleared.
    pub fn take_message_load(&mut self) -> (r: Option<i64>)
        ensures
            step_take_message_load(*old(self), *final(self), r),
            old(self).wf() ==> final(self).wf(),
    {
        if !self.needs_message_load {
            return None;
        }
        self.needs_message_load = false;
        match self.current_chat_id() {
            None => None,
            Some(chat_id) => {
                if !self.messages.contains_key(&chat_id) && chat_id != WELCOME_CHAT_ID {
                    if self.pending_load != Some(chat_id) {
                        self.loading_status = Some(owned("Loading..."));
                        self.pending_load = Some(chat_id);
                        Some(chat_id)
                    } else {
                        None
                    }
                } else {
                    self.loading_status = None;
                    self.pending_load = None;
                    None
                }
            },
        }
    }

    /// Applies a finished backfill for `chat_id`, oldest first, as a
    /// wholesale replacement of that chat's messages, but only while that
    /// chat is the pending one; a stale result is dropped. Returns whether
    /// it was applied.
    pub fn apply_backfill(&mut self, chat_id: i64, messages: Vec<Message>) -> (r: bool)
        ensures
            step_apply_backfill(*old(self), chat_id, messages, *final(self), r),
            old(self).wf() ==> final(self).wf(),
    {
        if self.pending_load == Some(chat_id) {
            self.replace_messages(chat_id, messages);
            self.loading_status = None;
            self.pending_load = None;
            true
        } else {
            false
        }
    }

    /// Settles the sender name of a live message where the listed chats
    /// suffice; `None` asks the host to consult the newest dialog.
    pub fn resolve_sender(&self, chat_id: i64, chat_name: &str, label: &str) -> (r: Option<String>)
        ensures
            match r {
                Some(s) => settled_sender(self.chats@, chat_id, chat_name@, label@) == Some(s@),
                None => settled_sender(self.chats@, chat_id, chat_name@, label@) is None,
            },
    {
        if !unnamed(label) {
            return Some(owned(label));
        }
        let mut resolved = owned(chat_name);
        if unnamed(chat_name) && chat_id > 0 {
            match self.chat_index(chat_id) {
                Some(k) => {
                    proof {
                        assert(first_with_id(self.chats@, chat_id, k as int));
                        let c = choose|j: int| first_with_id(self.chats@, chat_id, j);
                        if c < k {
                            assert(self.chats@[c].id != chat_id);
                        } else if c > k {
                            assert(self.chats@[k as int].id != chat_id);
                        }
                    }
                    resolved = self.chats[k].name.clone();
                },
                None => {},
            }
        }
        if chat_id > 0 && !unnamed(resolved.as_str()) {
            Some(resolved)
        } else {
            None
        }
    }

    /// Takes in a live inbound message: the chat is listed if it was not,
    /// the message is appended, and when that chat is the selected one its
    /// unread counter stays at zero.
    pub fn apply_incoming(&mut self, chat_id: i64, chat_name: String, sender: String, text: String)
        ensures
            has_id(final(self).chats@, chat_id),
            same_roster(final(self).chats@, chats_with_found(old(self).chats@, chat_id, chat_name)),
            forall|k: int|
                first_with_id(final(self).chats@, chat_id, k) ==> final(self).chats@[k].last_message
                    == Some(text),
            final(self).messages@[chat_id]@ == old(self).messages_of(chat_id).push(
                Message { sender, text, outgoing: false },
            ),
            final(self).messages@ == old(self).messages@.insert(
                chat_id,
                final(self).messages@[chat_id],
            ),
            *final(self) == (App {
                chats: final(self).chats,
                messages: final(self).messages,
                filtered_chat_indices: final(self).filtered_chat_indices,
                search_selected: final(self).search_selected,
                ..*old(self)
            }),
            old(self).wf() ==> final(self).wf(),
            old(self).wf() ==> final(self).selected_id() == old(self).selected_id()
                || old(self).chats@.len() == 0,
            old(self).wf() && final(self).selected_id() == Some(chat_id)
                ==> final(self).chats@[final(self).selected_chat as int].unread == 0,
    {
        let ghost c0 = self.chats@;
        let ghost name0 = chat_name;
        self.add_chat(chat_id, chat_name);
        let ghost c1 = self.chats@;
        proof {
            assert(c1 == chats_with_found(c0, chat_id, name0));
            if !has_id(c0, chat_id) {
                assert(c1[c0.len() as int].id == chat_id);
            }
            assert(has_id(c1, chat_id));
            assert(forall|j: int| 0 <= j < c0.len() ==> c1[j] == c0[j]);
        }
        let ghost text0 = text;
        self.add_message(chat_id, sender, text, false);
        let ghost c2 = self.chats@;
        proof {
            assert forall|k: int| first_with_id(c2, chat_id, k) implies c2[k].last_message == Some(text0) by {
                lemma_first_with_id_same_roster(c2, c1, chat_id, k);
                assert(c2 == c1.update(k, chat_after_message(c1[k], text0, false)));
            }
            let w = choose|j: int| 0 <= j < c1.len() && c1[j].id == chat_id;
            assert(c2[w].id == chat_id);
        }
        if self.current_chat_id() == Some(chat_id) {
            let ghost sel = self.selected_chat as int;
            proof {
                if self.wf() {
                    assert forall|j: int| 0 <= j < sel implies #[trigger] c2[j].id != chat_id by {
                        assert(c2[sel].id == chat_id);
                    }
                    assert(first_with_id(c2, chat_id, sel));
                }
            }
            self.clear_unread(chat_id);
            proof {
                assert(c2[sel].id == chat_id);
                assert forall|k: int| first_with_id(self.chats@, chat_id, k) implies self.chats@[k].last_message
                    == Some(text0) by {
                    lemma_first_with_id_same_roster(self.chats@, c2, chat_id, k);
                    assert(self.chats@ == unread_cleared(c2, k));
                }
                if old(self).wf() {
                    assert(first_with_id(c2, chat_id, sel));
                    assert(self.chats@ == unread_cleared(c2, sel));
                    assert(self.chats@[sel].unread == 0);
                }
                let w = choose|j: int| 0 <= j < c2.len() && c2[j].id == chat_id;
                assert(self.chats@[w].id == chat_id);
            }
        }
    }

    /// Records a message this user sent to `chat_id`.
    pub fn record_sent(&mut self, chat_id: i64, text: String)
        ensures
            final(self).messages@[chat_id]@ == old(self).messages_of(chat_id).push(
                Message { sender: final(self).messages@[chat_id]@.last().sender, text, outgoing: true },
            ),
            final(self).messages@[chat_id]@.last().sender@ == seq!['Y', 'o', 'u'],
            final(self).messages@ == old(self).messages@.insert(
                chat_id,
                final(self).messages@[chat_id],
            ),
            forall|k: int|
                first_with_id(old(self).chats@, chat_id, k) ==> final(self).chats@ == old(
                    self,
                ).chats@.update(k, chat_after_message(old(self).chats@[k], text, true)),
            !has_id(old(self).chats@, chat_id) ==> final(self).chats@ == old(self).chats@,
            *final(self) == (App {
                chats: final(self).chats,
                messages: final(self).messages,
                ..*old(self)
            }),
            old(self).wf() ==> final(self).wf(),
    {
        proof {
            reveal_strlit("You");
        }
        let you = owned("You");
        self.add_message(chat_id, you, text, true);
    }

    /// Takes the pending reload request: the selected chat, whose history
    /// the host fetches again and applies wholesale.
    pub fn take_reload_request(&mut self) -> (r: Option<i64>)
        ensures
            r == if old(self).reload_requested {
                old(self).selected_id()
            } else {
                None
            },
            *final(self) == (App { reload_requested: false, ..*old(self) }),
            old(self).wf() ==> final(self).wf(),
    {
        if self.reload_requested {
            self.reload_requested = false;
            self.current_chat_id()
        } else {
            None
        }
    }

    /// Takes the pending lookup request, if any.
    pub fn take_find_request(&mut self) -> (r: Option<String>)
        ensures
            r == old(self).find_requested,
            *final(self) == (App { find_requested: None, ..*old(self) }),
            old(self).wf() ==> final(self).wf(),
    {
        self.find_requested.take()
    }

    /// Takes in the outcome of the lookup of `query`. It applies only while
    /// the find-user overlay still shows that query; a superseded outcome is
    /// dropped. A found user's chat is listed if it was not. Returns whether
    /// the outcome was applied.
    pub fn apply_lookup(&mut self, query: String, outcome: LookupOutcome) -> (r: bool)
        ensures
            r == (old(self).mode == Mode::FindUser && old(self).find_input@ == query@),
            !r ==> *final(self) == *old(self),
            r ==> match outcome {
                LookupOutcome::Found { id, name } => {
                    &&& final(self).find_result == Some(FindResult::Found { id, name })
                    &&& final(self).chats@ == chats_with_found(old(self).chats@, id, name)
                    &&& *final(self) == (App {
                        chats: final(self).chats,
                        find_result: final(self).find_result,
                        ..*old(self)
                    })
                },
                LookupOutcome::NotFound => *final(self) == (App {
                    find_result: Some(FindResult::NotFound(query)),
                    ..*old(self)
                }),
                LookupOutcome::Failed(msg) => *final(self) == (App {
                    find_result: Some(FindResult::Error(msg)),
                    ..*old(self)
                }),
            },
            old(self).wf() ==> final(self).wf(),
    {
        if self.mode != Mode::FindUser || self.find_input != query {
            return false;
        }
        match outcome {
            LookupOutcome::Found { id, name } => {
                self.add_chat(id, name.clone());
                self.set_find_result(FindResult::Found { id, name });
            },
            LookupOutcome::NotFound => {
                self.set_find_result(FindResult::NotFound(query));
            },
            LookupOutcome::Failed(msg) => {
                self.set_find_result(FindResult::Error(msg));
            },
        }
        true
    }

    /// Whether the interactive loop should end.
    pub fn should_exit(&self) -> (r: bool)
        ensures
            r == (self.should_quit || self.disconnect_requested || self.add_account_requested
                || self.switch_account_requested is Some),
    {
        self.should_quit || self.disconnect_requested || self.add_account_requested
            || self.switch_account_requested.is_some()
    }

    /// What the host does after the loop: disconnect first, then an account
    /// switch, then adding an account, else a plain quit.
    pub fn exit_action(&self) -> (r: ExitAction)
        ensures
            r == exit_for(*self),
    {
        if self.disconnect_requested {
            ExitAction::Disconnect
        } else if self.switch_account_requested.is_some() {
            ExitAction::SwitchAccount(self.switch_account_requested.clone().unwrap())
        } else if self.add_account_requested {
            ExitAction::AddAccount
        } else {
            ExitAction::Quit
        }
    }
}

} // verus!
