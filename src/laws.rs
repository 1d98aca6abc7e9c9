//! Properties that relate several operations of the library, stated over
//! the same models the operations' contracts use and proved here.
use vstd::prelude::*;
use crate::app::{
    chat_after_message, lemma_search_matches_exact, name_matches, nav_step, nav_walk,
    search_matches, step_jump_to_selected_search_result, unread_cleared, App, Chat, Message, Mode,
};
use crate::orchestrator::{backfill_target, step_apply_backfill, step_take_message_load};

verus! {

/// However long a sequence of up and down moves in the friends panel, the
/// selection of a non-empty list of `len` chats stays in `[0, len - 1]`.
pub proof fn law_navigation_stays_in_range(sel: usize, len: nat, moves: Seq<bool>)
    requires
        0 < len,
        sel < len,
    ensures
        nav_walk(sel, len, moves) < len,
    decreases moves.len(),
{
    if moves.len() > 0 {
        assert(nav_step(sel, len, moves[0]) < len);
        law_navigation_stays_in_range(nav_step(sel, len, moves[0]), len, moves.drop_first());
    }
}

/// A chat whose unread counter was cleared counts one unread message after
/// one inbound message arrives, and selecting it again clears it.
pub proof fn law_unread_after_clear(chats: Seq<Chat>, k: int, text: String)
    requires
        0 <= k < chats.len(),
    ensures
        chat_after_message(unread_cleared(chats, k)[k], text, false).unread == 1,
        unread_cleared(
            unread_cleared(chats, k).update(
                k,
                chat_after_message(unread_cleared(chats, k)[k], text, false),
            ),
            k,
        )[k].unread == 0,
{
}

/// The empty query finds every chat, in list order.
pub proof fn law_empty_query_finds_all(chats: Seq<Chat>)
    ensures
        search_matches(chats, Seq::<char>::empty()) == Seq::new(chats.len(), |i: int| i as usize),
    decreases chats.len(),
{
    let e = Seq::<char>::empty();
    if chats.len() > 0 {
        law_empty_query_finds_all(chats.drop_last());
        assert(search_matches(chats, e) =~= Seq::new(chats.len(), |i: int| i as usize));
    }
}

/// A query finds exactly the chats whose name contains it, ignoring case,
/// each once and in list order.
pub proof fn law_query_finds_exactly_matches(chats: Seq<Chat>, query: Seq<char>)
    requires
        chats.len() <= usize::MAX,
    ensures
        forall|p: int|
            0 <= p < chats.len() ==> (search_matches(chats, query).contains(p as usize)
                <==> name_matches(#[trigger] chats[p].name@, query)),
        forall|k: int, l: int|
            0 <= k < l < search_matches(chats, query).len() ==> #[trigger] search_matches(
                chats,
                query,
            )[k] < #[trigger] search_matches(chats, query)[l],
{
    lemma_search_matches_exact(chats, query);
    let r = search_matches(chats, query);
    assert forall|p: int|
        0 <= p < chats.len() && #[trigger] r.contains(p as usize) implies name_matches(
        chats[p].name@,
        query,
    ) by {
        let k = choose|k: int| 0 <= k < r.len() && r[k] == p as usize;
        assert(r[k] as int == p);
    }
}

/// Confirming a search with no results keeps the selection and leaves
/// search.
pub proof fn law_confirm_without_results(o: App, n: App)
    requires
        o.filtered_chat_indices@.len() == 0,
        step_jump_to_selected_search_result(o, n),
    ensures
        n.selected_chat == o.selected_chat,
        n.chats == o.chats,
        n.mode == Mode::Normal,
{
}

/// A backfill result for chat `x` that arrives once chat `y` is pending is
/// dropped: nothing of the state changes, the messages of `x` included.
pub proof fn law_stale_backfill_dropped(
    o: App,
    x: i64,
    y: i64,
    messages: Vec<Message>,
    n: App,
    applied: bool,
)
    requires
        o.pending_load == Some(y),
        x != y,
        step_apply_backfill(o, x, messages, n, applied),
    ensures
        !applied,
        n == o,
        n.messages_of(x) == o.messages_of(x),
{
}

/// A load request for the chat whose backfill is already pending starts no
/// second one; the pending marker stays on that chat or is cleared, never
/// moved to another.
pub proof fn law_pending_backfill_not_restarted(o: App, n: App, started: Option<i64>)
    requires
        o.selected_id() is Some,
        o.pending_load == o.selected_id(),
        step_take_message_load(o, n, started),
    ensures
        backfill_target(o) is None,
        started is None,
        n.pending_load == o.pending_load || n.pending_load is None,
{
}

/// Appending messages one by one to a chat with none gives back exactly
/// those messages in the order they were appended.
pub proof fn law_appends_read_back(states: Seq<App>, id: i64, sent: Seq<Message>)
    requires
        states.len() == sent.len() + 1,
        states[0].messages_of(id).len() == 0,
        forall|i: int|
            0 <= i < sent.len() ==> #[trigger] states[i + 1].messages_of(id) == states[i].messages_of(
                id,
            ).push(sent[i]),
    ensures
        states.last().messages_of(id) == sent,
{
    assert forall|m: int| 0 <= m <= sent.len() implies #[trigger] states[m].messages_of(id)
        == sent.subrange(0, m) by {
        lemma_prefix(states, id, sent, m);
    }
    assert(sent.subrange(0, sent.len() as int) =~= sent);
}

proof fn lemma_prefix(states: Seq<App>, id: i64, sent: Seq<Message>, m: int)
    requires
        states.len() == sent.len() + 1,
        states[0].messages_of(id).len() == 0,
        forall|i: int|
            0 <= i < sent.len() ==> #[trigger] states[i + 1].messages_of(id) == states[i].messages_of(
                id,
            ).push(sent[i]),
        0 <= m <= sent.len(),
    ensures
        states[m].messages_of(id) == sent.subrange(0, m),
    decreases m,
{
    if m == 0 {
        assert(states[0].messages_of(id) =~= sent.subrange(0, 0));
    } else {
        lemma_prefix(states, id, sent, m - 1);
        assert(states[m].messages_of(id) == states[m - 1].messages_of(id).push(sent[m - 1]));
        assert(sent.subrange(0, m - 1).push(sent[m - 1]) =~= sent.subrange(0, m));
    }
}

} // verus!
