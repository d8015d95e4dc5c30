//! The stated laws of the chat core, proved against the controller's
//! transition function [`step`] and the session manager's command
//! specifications.

use vstd::prelude::*;
use crate::{
    MessageV, ModelV, MsgV, lemma_fold_occupants, lemma_insert_user, lemma_step_preserves_no_dups,
    no_dups, step,
};
use crate::services::{CommandV, HereNowResponseV, connect_commands};

verus! {

/// The controller state after applying a sequence of intents, one at a time,
/// in order. `subscribed` is the transport's subscription list handed to
/// every step.
pub open spec fn run(v: ModelV, intents: Seq<MsgV>, subscribed: Seq<Seq<char>>) -> ModelV
    decreases intents.len(),
{
    if intents.len() == 0 {
        v
    } else {
        step(run(v, intents.drop_last(), subscribed), intents.last(), subscribed).0
    }
}

/// How many times an identifier occurs in the online-user list.
pub open spec fn count_user(users: Seq<Seq<char>>, id: Seq<char>) -> nat
    decreases users.len(),
{
    if users.len() == 0 {
        0
    } else {
        count_user(users.drop_last(), id) + if users.last() == id {
            1nat
        } else {
            0nat
        }
    }
}

/// How many subscribe operations a command batch asks for.
pub open spec fn count_subscribes(cmds: Seq<CommandV>) -> nat
    decreases cmds.len(),
{
    if cmds.len() == 0 {
        0
    } else {
        count_subscribes(cmds.drop_last()) + (match cmds.last() {
            CommandV::Subscribe(_) => 1nat,
            _ => 0nat,
        })
    }
}

/// How many listener registrations a command batch asks for.
pub open spec fn count_listeners(cmds: Seq<CommandV>) -> nat
    decreases cmds.len(),
{
    if cmds.len() == 0 {
        0
    } else {
        count_listeners(cmds.drop_last()) + (match cmds.last() {
            CommandV::AddListener => 1nat,
            _ => 0nat,
        })
    }
}

/// An element of a list is in its front part or is its last element.
proof fn lemma_contains_split(users: Seq<Seq<char>>, x: Seq<char>)
    requires
        users.len() > 0,
    ensures
        users.contains(x) <==> (users.drop_last().contains(x) || users.last() == x),
{
    let prefix = users.drop_last();
    if users.contains(x) {
        let k = choose|k: int| 0 <= k < users.len() && users[k] == x;
        if k < prefix.len() {
            assert(prefix[k] == x);
        }
    }
    if prefix.contains(x) {
        let k = choose|k: int| 0 <= k < prefix.len() && prefix[k] == x;
        assert(users[k] == x);
    }
    if users.last() == x {
        assert(users[users.len() - 1] == x);
    }
}

/// A duplicate-free list stays duplicate-free with its last element dropped.
proof fn lemma_no_dups_drop_last(users: Seq<Seq<char>>)
    requires
        users.len() > 0,
        no_dups(users),
    ensures
        no_dups(users.drop_last()),
        !users.drop_last().contains(users.last()),
{
    let prefix = users.drop_last();
    assert forall|i: int, j: int| 0 <= i < j < prefix.len() implies prefix[i] != prefix[j] by {
        assert(users[i] == prefix[i] && users[j] == prefix[j]);
    }
    if prefix.contains(users.last()) {
        let k = choose|k: int| 0 <= k < prefix.len() && prefix[k] == users.last();
        assert(users[k] == users[users.len() - 1]);
    }
}

/// In a duplicate-free list a present identifier is counted exactly once,
/// and an absent one not at all.
pub proof fn lemma_count_user(users: Seq<Seq<char>>, id: Seq<char>)
    ensures
        (no_dups(users) && users.contains(id)) ==> count_user(users, id) == 1,
        !users.contains(id) ==> count_user(users, id) == 0,
    decreases users.len(),
{
    if users.len() == 0 {
    } else {
        let prefix = users.drop_last();
        lemma_count_user(prefix, id);
        lemma_contains_split(users, id);
        if no_dups(users) {
            lemma_no_dups_drop_last(users);
        }
    }
}

/// Law: two connect requests for one topic make exactly one subscription and
/// register exactly one listener pair. The first request, finding the topic
/// not yet subscribed, asks for one subscribe and one listener registration;
/// the second, finding the topic subscribed, asks for neither — so no event
/// is ever delivered twice.
pub proof fn lemma_connect_idempotent(
    nickname1: Seq<char>,
    nickname2: Seq<char>,
    topic: Seq<char>,
    before: Seq<Seq<char>>,
    after: Seq<Seq<char>>,
)
    requires
        !before.contains(topic),
        after.contains(topic),
    ensures
        count_subscribes(connect_commands(topic, nickname1, before)) == 1,
        count_listeners(connect_commands(topic, nickname1, before)) == 1,
        count_subscribes(connect_commands(topic, nickname2, after)) == 0,
        count_listeners(connect_commands(topic, nickname2, after)) == 0,
{
    let first = connect_commands(topic, nickname1, before);
    let second = connect_commands(topic, nickname2, after);
    assert(first[0] == CommandV::SetUuid(nickname1));
    assert(first[1] matches CommandV::Subscribe(_));
    assert(first[2] == CommandV::AddListener);
    let one = seq![first[0]];
    let two = seq![first[0], first[1]];
    assert(one.drop_last() =~= Seq::<CommandV>::empty());
    assert(two.drop_last() =~= one);
    assert(first.drop_last() =~= two);
    assert(count_subscribes(Seq::<CommandV>::empty()) == 0);
    assert(count_listeners(Seq::<CommandV>::empty()) == 0);
    assert(count_subscribes(one) == 0);
    assert(count_subscribes(two) == 1);
    assert(count_listeners(one) == 0);
    assert(count_listeners(two) == 0);
    assert(second.drop_last() =~= Seq::<CommandV>::empty());
    assert(second.last() == CommandV::SetUuid(nickname2));
}

/// Law: once a session is established, a further connect intent is a no-op:
/// no state change and no transport operation at all.
pub proof fn lemma_connect_no_rebind(v: ModelV, sub1: Seq<Seq<char>>, sub2: Seq<Seq<char>>)
    requires
        v.alias.len() > 0,
        v.this_user.len() == 0,
    ensures
        ({
            let first = step(v, MsgV::Connect, sub1);
            let again = step(first.0, MsgV::Connect, sub2);
            again.0 == first.0 && again.1 == Seq::<CommandV>::empty()
        }),
{
}

/// Law: whatever sequence of intents runs — presence events, occupancy
/// results, anything else — the online-user list never holds a duplicate
/// identifier; and removing an absent identifier is by construction a no-op,
/// never an error.
pub proof fn lemma_online_users_set_invariant(
    v: ModelV,
    intents: Seq<MsgV>,
    subscribed: Seq<Seq<char>>,
)
    requires
        no_dups(v.users),
    ensures
        no_dups(run(v, intents, subscribed).users),
    decreases intents.len(),
{
    if intents.len() > 0 {
        lemma_online_users_set_invariant(v, intents.drop_last(), subscribed);
        lemma_step_preserves_no_dups(
            run(v, intents.drop_last(), subscribed),
            intents.last(),
            subscribed,
        );
    }
}

/// A prefix of a prefix is a prefix.
proof fn lemma_prefix_trans(a: Seq<MessageV>, b: Seq<MessageV>, c: Seq<MessageV>)
    requires
        a.is_prefix_of(b),
        b.is_prefix_of(c),
    ensures
        a.is_prefix_of(c),
{
    assert forall|i: int| 0 <= i < a.len() implies a[i] == #[trigger] c.subrange(
        0,
        a.len() as int,
    )[i] by {
        assert(a[i] == b.subrange(0, b.len() as int)[i]);
        assert(b[i] == c.subrange(0, c.len() as int)[i]);
    }
    assert(a =~= c.subrange(0, a.len() as int));
}

/// One transition never removes or reorders logged messages.
proof fn lemma_step_messages_append_only(v: ModelV, m: MsgV, subscribed: Seq<Seq<char>>)
    ensures
        v.messages.is_prefix_of(step(v, m, subscribed).0.messages),
{
    let after = step(v, m, subscribed).0.messages;
    assert(v.messages =~= after.subrange(0, v.messages.len() as int));
}

/// Law: the message log is append-only: after any sequence of intents the
/// old log is a prefix of the new one — no element is removed or reordered
/// once inserted.
pub proof fn lemma_message_log_append_only(
    v: ModelV,
    intents: Seq<MsgV>,
    subscribed: Seq<Seq<char>>,
)
    ensures
        v.messages.is_prefix_of(run(v, intents, subscribed).messages),
    decreases intents.len(),
{
    if intents.len() == 0 {
        assert(v.messages =~= v.messages.subrange(0, v.messages.len() as int));
    } else {
        let mid = run(v, intents.drop_last(), subscribed);
        lemma_message_log_append_only(v, intents.drop_last(), subscribed);
        lemma_step_messages_append_only(mid, intents.last(), subscribed);
        lemma_prefix_trans(v.messages, mid.messages, run(v, intents, subscribed).messages);
    }
}

/// Law: running exactly the message-received intents for `msgs` appends
/// exactly `msgs` to the log, in arrival order.
pub proof fn lemma_message_log_order(v: ModelV, msgs: Seq<MessageV>, subscribed: Seq<Seq<char>>)
    ensures
        run(v, msgs.map_values(|m: MessageV| MsgV::AddMessage(m)), subscribed).messages
            == v.messages + msgs,
    decreases msgs.len(),
{
    let intents = msgs.map_values(|m: MessageV| MsgV::AddMessage(m));
    if msgs.len() == 0 {
        assert(v.messages + msgs =~= v.messages);
    } else {
        let mp = msgs.drop_last();
        lemma_message_log_order(v, mp, subscribed);
        assert(intents.drop_last() =~= mp.map_values(|m: MessageV| MsgV::AddMessage(m)));
        assert(intents.last() == MsgV::AddMessage(msgs.last()));
        assert((v.messages + mp).push(msgs.last()) =~= v.messages + msgs);
    }
}

/// Law: a presence-join for a user followed by an occupancy result — whether
/// or not it lists that user again — leaves exactly one entry for the user:
/// reconciliation inserts through the same idempotent path as the live event.
pub proof fn lemma_reconciliation_single_entry(
    v: ModelV,
    id: Seq<char>,
    response: HereNowResponseV,
    subscribed: Seq<Seq<char>>,
)
    requires
        no_dups(v.users),
    ensures
        ({
            let joined = step(v, MsgV::UserOnline(id), subscribed).0;
            let reconciled = step(joined, MsgV::HereNowFetched(Ok(response)), subscribed).0;
            count_user(reconciled.users, id) == 1
        }),
{
    let joined = step(v, MsgV::UserOnline(id), subscribed).0;
    lemma_insert_user(v.users, id);
    let reconciled = step(joined, MsgV::HereNowFetched(Ok(response)), subscribed).0;
    match response.channels {
        Some(entries) => match crate::find_channel(entries, joined.topic) {
            Some(entry) => match entry.occupants {
                Some(occupants) => {
                    lemma_fold_occupants(joined.users, occupants);
                },
                None => {},
            },
            None => {},
        },
        None => {},
    }
    lemma_count_user(reconciled.users, id);
}

} // verus!
