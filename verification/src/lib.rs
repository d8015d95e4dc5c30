//! Core of a browser chat client: a verified session/state machine that
//! bridges an external publish/subscribe transport to application state.
//!
//! The library is pure: every transport operation is represented as a
//! [`services::TransportCommand`] value that the embedding host performs
//! against the real provider, and every asynchronous completion re-enters
//! the controller as a [`Msg`] intent, one at a time.

pub mod laws;
pub mod services;

use vstd::prelude::*;
use crate::services::{
    ChannelOccupancyV, ChatError, CommandV, HereNowParameters, HereNowParametersV,
    HereNowResponse, HereNowResponseV, OccupantsV, PubnubService, PubnubServiceV,
    TransportCommand, connect_commands, connect_state, disconnect_command,
    contains_string, send_command,
};

verus! {

/// A chat message shown in the log: immutable once received.
#[derive(Clone, Debug, PartialEq, Eq)]
pub struct Message {
    pub text: String,
    pub from: String,
}

/// Ghost mirror of [`Message`]: both fields as character sequences.
#[verifier::ext_equal]
pub ghost struct MessageV {
    pub text: Seq<char>,
    pub from: Seq<char>,
}

impl View for Message {
    type V = MessageV;

    open spec fn view(&self) -> MessageV {
        MessageV { text: self.text@, from: self.from@ }
    }
}

impl DeepView for Message {
    type V = MessageV;

    open spec fn deep_view(&self) -> MessageV {
        self.view()
    }
}

/// An intent processed by the controller, one at a time: user input,
/// a translated transport event, or a completion of an asynchronous request.
#[derive(Debug, PartialEq, Eq)]
pub enum Msg {
    /// Send the pending draft on the bound topic.
    SendChat,
    /// A translated inbound message event: append it to the log.
    AddMessage(Message),
    /// Establish the session under the candidate identity.
    Connect,
    /// Store a candidate identity, before the session is established.
    EnterName(String),
    /// A translated presence leave/timeout event: this user left.
    UserOffline(String),
    /// A translated presence join event: this user is here.
    UserOnline(String),
    /// Replace the pending draft.
    UpdatePendingText(String),
    /// Issue the one-shot occupancy snapshot query.
    FetchHereNow,
    /// The occupancy query finished, well or badly.
    HereNowFetched(Result<HereNowResponse, ChatError>),
    /// Tear the session down.
    Teardown,
    /// Do nothing.
    NoOp,
}

/// Ghost mirror of [`Msg`].
#[verifier::ext_equal]
pub ghost enum MsgV {
    SendChat,
    AddMessage(MessageV),
    Connect,
    EnterName(Seq<char>),
    UserOffline(Seq<char>),
    UserOnline(Seq<char>),
    UpdatePendingText(Seq<char>),
    FetchHereNow,
    HereNowFetched(Result<HereNowResponseV, ChatError>),
    Teardown,
    NoOp,
}

impl DeepView for Msg {
    type V = MsgV;

    open spec fn deep_view(&self) -> MsgV {
        self.view()
    }
}

impl View for Msg {
    type V = MsgV;

    open spec fn view(&self) -> MsgV {
        match self {
            Msg::SendChat => MsgV::SendChat,
            Msg::AddMessage(m) => MsgV::AddMessage(m@),
            Msg::Connect => MsgV::Connect,
            Msg::EnterName(n) => MsgV::EnterName(n@),
            Msg::UserOffline(u) => MsgV::UserOffline(u@),
            Msg::UserOnline(u) => MsgV::UserOnline(u@),
            Msg::UpdatePendingText(s) => MsgV::UpdatePendingText(s@),
            Msg::FetchHereNow => MsgV::FetchHereNow,
            Msg::HereNowFetched(r) => MsgV::HereNowFetched(
                match r {
                    Ok(resp) => Ok(resp@),
                    Err(e) => Err(*e),
                },
            ),
            Msg::Teardown => MsgV::Teardown,
            Msg::NoOp => MsgV::NoOp,
        }
    }
}

/// Whether no identifier occurs twice in the online-user list.
pub open spec fn no_dups(users: Seq<Seq<char>>) -> bool {
    forall|i: int, j: int| 0 <= i < j < users.len() ==> users[i] != users[j]
}

/// Insertion into the online-user list: appends the identifier unless it is
/// already present, so insertion is idempotent.
pub open spec fn insert_user(users: Seq<Seq<char>>, id: Seq<char>) -> Seq<Seq<char>> {
    if users.contains(id) {
        users
    } else {
        users.push(id)
    }
}

/// Removal from the online-user list: drops every occurrence of the
/// identifier and keeps the rest in order; removing an absent identifier
/// changes nothing.
pub open spec fn remove_user(users: Seq<Seq<char>>, id: Seq<char>) -> Seq<Seq<char>>
    decreases users.len(),
{
    if users.len() == 0 {
        Seq::empty()
    } else {
        let rest = remove_user(users.drop_last(), id);
        if users.last() == id {
            rest
        } else {
            rest.push(users.last())
        }
    }
}

/// Folds an occupancy snapshot's occupant list into the online-user list,
/// one idempotent insertion per occupant, in order.
pub open spec fn fold_occupants(users: Seq<Seq<char>>, occupants: Seq<OccupantsV>) -> Seq<
    Seq<char>,
>
    decreases occupants.len(),
{
    if occupants.len() == 0 {
        users
    } else {
        insert_user(fold_occupants(users, occupants.drop_last()), occupants.last().uuid)
    }
}

/// The first entry of an occupancy snapshot that names the given topic.
pub open spec fn find_channel(entries: Seq<ChannelOccupancyV>, name: Seq<char>) -> Option<
    ChannelOccupancyV,
>
    decreases entries.len(),
{
    if entries.len() == 0 {
        None
    } else {
        let found = find_channel(entries.drop_last(), name);
        if found is Some {
            found
        } else if entries.last().name == name {
            Some(entries.last())
        } else {
            None
        }
    }
}

/// What an occupancy result does to the online-user list: the occupants of
/// the entry naming the session's topic are folded in; a result without that
/// topic, without occupant lists, or without channels changes nothing.
pub open spec fn apply_occupancy(
    users: Seq<Seq<char>>,
    topic: Seq<char>,
    response: HereNowResponseV,
) -> Seq<Seq<char>> {
    match response.channels {
        Some(entries) => match find_channel(entries, topic) {
            Some(entry) => match entry.occupants {
                Some(occupants) => fold_occupants(users, occupants),
                None => users,
            },
            None => users,
        },
        None => users,
    }
}

/// Appending a fresh element keeps the list duplicate-free.
pub proof fn lemma_push_no_dups(users: Seq<Seq<char>>, id: Seq<char>)
    requires
        no_dups(users),
        !users.contains(id),
    ensures
        no_dups(users.push(id)),
{
    let r = users.push(id);
    assert forall|i: int, j: int| 0 <= i < j < r.len() implies r[i] != r[j] by {
        if j < users.len() {
        } else {
            assert(r[j] == id);
            assert(users[i] == r[i]);
            assert(users.contains(users[i]));
        }
    }
}

/// Idempotent insertion keeps the list duplicate-free, puts the identifier
/// in, and adds nothing else.
pub proof fn lemma_insert_user(users: Seq<Seq<char>>, id: Seq<char>)
    requires
        no_dups(users),
    ensures
        no_dups(insert_user(users, id)),
        insert_user(users, id).contains(id),
        forall|x: Seq<char>| #[trigger]
            insert_user(users, id).contains(x) <==> (users.contains(x) || x == id),
{
    if users.contains(id) {
    } else {
        lemma_push_no_dups(users, id);
        let r = users.push(id);
        assert(r[users.len() as int] == id);
        assert(r.contains(id));
        assert forall|x: Seq<char>| #[trigger] r.contains(x) implies (users.contains(x) || x
            == id) by {
            let k = choose|k: int| 0 <= k < r.len() && r[k] == x;
            if k < users.len() {
                assert(users[k] == x);
            }
        }
        assert forall|x: Seq<char>| users.contains(x) implies #[trigger] r.contains(x) by {
            let k = choose|k: int| 0 <= k < users.len() && users[k] == x;
            assert(r[k] == x);
        }
    }
}

/// Removal keeps the list duplicate-free, takes every occurrence of the
/// identifier out, keeps everything else, and is a no-op when the identifier
/// is absent.
pub proof fn lemma_remove_user(users: Seq<Seq<char>>, id: Seq<char>)
    ensures
        no_dups(users) ==> no_dups(remove_user(users, id)),
        !remove_user(users, id).contains(id),
        forall|x: Seq<char>| x != id ==> (#[trigger] remove_user(users, id).contains(x)
            <==> users.contains(x)),
        !users.contains(id) ==> remove_user(users, id) == users,
    decreases users.len(),
{
    if users.len() == 0 {
        assert(remove_user(users, id) =~= users);
    } else {
        let prefix = users.drop_last();
        let last = users.last();
        lemma_remove_user(prefix, id);
        let rest = remove_user(prefix, id);
        assert(users =~= prefix.push(last));
        assert forall|x: Seq<char>| #[trigger] users.contains(x) implies (prefix.contains(x) || x
            == last) by {
            let k = choose|k: int| 0 <= k < users.len() && users[k] == x;
            if k < prefix.len() {
                assert(prefix[k] == x);
            }
        }
        assert forall|x: Seq<char>| prefix.contains(x) implies #[trigger] users.contains(x) by {
            let k = choose|k: int| 0 <= k < prefix.len() && prefix[k] == x;
            assert(users[k] == x);
        }
        assert(users.contains(last)) by {
            assert(users[users.len() - 1] == last);
        }
        if no_dups(users) {
            assert(no_dups(prefix)) by {
                assert forall|i: int, j: int| 0 <= i < j < prefix.len() implies prefix[i]
                    != prefix[j] by {
                    assert(users[i] == prefix[i] && users[j] == prefix[j]);
                }
            }
            if last != id {
                assert(!prefix.contains(last)) by {
                    if prefix.contains(last) {
                        let k = choose|k: int| 0 <= k < prefix.len() && prefix[k] == last;
                        assert(users[k] == users[users.len() - 1]);
                    }
                }
                assert(!rest.contains(last));
                lemma_push_no_dups(rest, last);
            }
        }
        if last != id {
            let r = rest.push(last);
            assert(r[rest.len() as int] == last);
            assert forall|x: Seq<char>| #[trigger] r.contains(x) implies (rest.contains(x) || x
                == last) by {
                let k = choose|k: int| 0 <= k < r.len() && r[k] == x;
                if k < rest.len() {
                    assert(rest[k] == x);
                }
            }
            assert forall|x: Seq<char>| rest.contains(x) implies #[trigger] r.contains(x) by {
                let k = choose|k: int| 0 <= k < rest.len() && rest[k] == x;
                assert(r[k] == x);
            }
        }
        if !users.contains(id) {
            assert(remove_user(users, id) =~= users);
        }
    }
}

/// Folding occupants in keeps the list duplicate-free; afterwards it holds
/// exactly the old identifiers and the folded occupants' identifiers.
pub proof fn lemma_fold_occupants(users: Seq<Seq<char>>, occupants: Seq<OccupantsV>)
    requires
        no_dups(users),
    ensures
        no_dups(fold_occupants(users, occupants)),
        forall|x: Seq<char>| #[trigger] fold_occupants(users, occupants).contains(x) <==> (
        users.contains(x) || exists|k: int|
            0 <= k < occupants.len() && occupants[k].uuid == x),
    decreases occupants.len(),
{
    if occupants.len() == 0 {
    } else {
        let prefix = occupants.drop_last();
        lemma_fold_occupants(users, prefix);
        let folded = fold_occupants(users, prefix);
        lemma_insert_user(folded, occupants.last().uuid);
        assert forall|x: Seq<char>| #[trigger]
            fold_occupants(users, occupants).contains(x) implies (users.contains(x) || exists|
            k: int,
        | 0 <= k < occupants.len() && occupants[k].uuid == x) by {
            if !users.contains(x) {
                if x == occupants.last().uuid {
                    assert(occupants[occupants.len() - 1].uuid == x);
                } else {
                    let k = choose|k: int| 0 <= k < prefix.len() && prefix[k].uuid == x;
                    assert(occupants[k].uuid == x);
                }
            }
        }
        assert forall|x: Seq<char>|
            (users.contains(x) || exists|k: int|
                0 <= k < occupants.len() && occupants[k].uuid == x) implies #[trigger]
            fold_occupants(users, occupants).contains(x) by {
            if !users.contains(x) {
                let k = choose|k: int| 0 <= k < occupants.len() && occupants[k].uuid == x;
                if k < prefix.len() {
                    assert(prefix[k].uuid == x);
                }
            }
        }
    }
}

/// Inserts an identifier into the online-user list unless already present:
/// the single insertion path shared by live presence-join events and
/// occupancy reconciliation.
pub fn insert_online_user(users: &mut Vec<String>, id: String)
    ensures
        final(users).deep_view() == insert_user(old(users).deep_view(), id@),
{
    if !contains_string(users, id.as_str()) {
        let ghost before = users.deep_view();
        users.push(id);
        assert(users.deep_view() =~= before.push(id@));
    }
}

/// Removes an identifier from the online-user list; removing one that is
/// not present changes nothing.
pub fn remove_online_user(users: &mut Vec<String>, id: &str)
    ensures
        final(users).deep_view() == remove_user(old(users).deep_view(), id@),
{
    let wanted: String = id.to_owned();
    let mut kept: Vec<String> = Vec::new();
    let mut i: usize = 0;
    while i < users.len()
        invariant
            0 <= i <= users.len(),
            wanted@ == id@,
            kept.deep_view() == remove_user(users.deep_view().take(i as int), id@),
        decreases users.len() - i,
    {
        let ghost taken = users.deep_view().take(i as int);
        let ghost taken_next = users.deep_view().take(i + 1 as int);
        assert(taken_next.drop_last() =~= taken);
        assert(taken_next.last() == users.deep_view()[i as int]);
        if !(users[i] == wanted) {
            let ghost kept_before = kept.deep_view();
            kept.push(users[i].clone());
            assert(kept.deep_view() =~= kept_before.push(users.deep_view()[i as int]));
        }
        i += 1;
    }
    assert(users.deep_view().take(users.len() as int) =~= users.deep_view());
    *users = kept;
}


/// Once a prefix of the entries already holds a match, scanning further
/// entries cannot change which entry is found.
proof fn lemma_find_channel_extend(entries: Seq<ChannelOccupancyV>, name: Seq<char>, i: int)
    requires
        0 <= i <= entries.len(),
        find_channel(entries.take(i), name) is Some,
    ensures
        find_channel(entries, name) == find_channel(entries.take(i), name),
    decreases entries.len() - i,
{
    if i == entries.len() {
        assert(entries.take(i) =~= entries);
    } else {
        assert(entries.take(i + 1).drop_last() =~= entries.take(i));
        lemma_find_channel_extend(entries, name, i + 1);
    }
}

/// Folds an occupancy result into the online-user list, exactly as
/// [`apply_occupancy`] states: the occupants of the first entry naming the
/// topic are inserted one by one; anything missing means no change.
pub fn apply_occupancy_update(users: &mut Vec<String>, topic: &str, response: &HereNowResponse)
    ensures
        final(users).deep_view() == apply_occupancy(old(users).deep_view(), topic@, response@),
{
    let entries = match &response.channels {
        Some(entries) => entries,
        None => {
            return ;
        },
    };
    let wanted: String = topic.to_owned();
    let ghost eview = entries.deep_view();
    let mut i: usize = 0;
    while i < entries.len()
        invariant
            0 <= i <= entries.len(),
            wanted@ == topic@,
            eview == entries.deep_view(),
            users.deep_view() == old(users).deep_view(),
            response@.channels == Some(eview),
            find_channel(eview.take(i as int), topic@) is None,
        decreases entries.len() - i,
    {
        assert(eview.take(i + 1).drop_last() =~= eview.take(i as int));
        assert(eview.take(i + 1).last() == eview[i as int]);
        if entries[i].name == wanted {
            proof {
                lemma_find_channel_extend(eview, topic@, i + 1);
            }
            assert(find_channel(eview, topic@) == Some(eview[i as int]));
            match &entries[i].occupants {
                Some(occupants) => {
                    let ghost oview = occupants.deep_view();
                    assert(eview[i as int].occupants == Some(oview));
                    let mut k: usize = 0;
                    while k < occupants.len()
                        invariant
                            0 <= k <= occupants.len(),
                            oview == occupants.deep_view(),
                            users.deep_view() == fold_occupants(
                                old(users).deep_view(),
                                oview.take(k as int),
                            ),
                        decreases occupants.len() - k,
                    {
                        assert(oview.take(k + 1).drop_last() =~= oview.take(k as int));
                        assert(oview.take(k + 1).last() == oview[k as int]);
                        insert_online_user(users, occupants[k].uuid.clone());
                        k += 1;
                    }
                    assert(oview.take(occupants.len() as int) =~= oview);
                },
                None => {},
            }
            return ;
        }
        i += 1;
    }
    assert(eview.take(entries.len() as int) =~= eview);
}

/// The occupancy query the controller issues for its topic: identifiers
/// wanted, custom state not.
pub open spec fn here_now_request(topic: Seq<char>) -> HereNowParametersV {
    HereNowParametersV { channels: seq![topic], include_uuids: true, include_state: false }
}

/// An optional operation as a (possibly empty) batch.
pub open spec fn opt_cmds(cmd: Option<CommandV>) -> Seq<CommandV> {
    match cmd {
        Some(c) => seq![c],
        None => Seq::empty(),
    }
}

/// Ghost mirror of [`Model`]: the whole UI-visible state plus the session.
#[verifier::ext_equal]
pub ghost struct ModelV {
    pub alias: Seq<char>,
    pub this_user: Seq<char>,
    pub pending_text: Seq<char>,
    pub messages: Seq<MessageV>,
    pub users: Seq<Seq<char>>,
    pub topic: Seq<char>,
    pub service: PubnubServiceV,
}

/// The controller: the single source of truth for UI-visible state.
/// It applies one intent at a time and never touches the transport itself.
pub struct Model {
    /// The candidate identity typed so far.
    pub alias: String,
    /// The identity locked in at connect time; empty until then.
    pub this_user: String,
    /// The unsent message draft.
    pub pending_text: String,
    /// The ordered, append-only message log.
    pub messages: Vec<Message>,
    /// The online users, free of duplicates.
    pub users: Vec<String>,
    /// The one topic of this session.
    pub topic: String,
    /// The session manager.
    pub pubnub: PubnubService,
}

impl View for Model {
    type V = ModelV;

    open spec fn view(&self) -> ModelV {
        ModelV {
            alias: self.alias@,
            this_user: self.this_user@,
            pending_text: self.pending_text@,
            messages: self.messages.deep_view(),
            users: self.users.deep_view(),
            topic: self.topic@,
            service: self.pubnub@,
        }
    }
}

/// The state of a fresh controller bound to `topic`: everything empty,
/// no session live.
pub open spec fn initial_model(topic: Seq<char>) -> ModelV {
    ModelV {
        alias: Seq::empty(),
        this_user: Seq::empty(),
        pending_text: Seq::empty(),
        messages: Seq::empty(),
        users: Seq::empty(),
        topic: topic,
        service: PubnubServiceV { channel: None, username: None },
    }
}

/// One transition of the controller: the state after applying the intent,
/// and the operations the host must perform. `subscribed` is the transport's
/// current subscription list, queried by the host just before the call.
pub open spec fn step(v: ModelV, m: MsgV, subscribed: Seq<Seq<char>>) -> (ModelV, Seq<CommandV>) {
    match m {
        MsgV::SendChat => {
            if v.pending_text.len() > 0 {
                match send_command(v.service, v.pending_text) {
                    Some(c) => (ModelV { pending_text: Seq::empty(), ..v }, seq![c]),
                    None => (v, Seq::empty()),
                }
            } else {
                (v, Seq::empty())
            }
        },
        MsgV::AddMessage(msg) => (ModelV { messages: v.messages.push(msg), ..v }, Seq::empty()),
        MsgV::Connect => {
            if v.alias.len() > 0 && v.this_user.len() == 0 {
                (
                    ModelV {
                        this_user: v.alias,
                        service: connect_state(v.service, v.topic, v.alias, subscribed),
                        ..v
                    },
                    connect_commands(v.topic, v.alias, subscribed) + seq![
                        CommandV::HereNow(here_now_request(v.topic)),
                    ],
                )
            } else {
                (v, Seq::empty())
            }
        },
        MsgV::EnterName(n) => {
            if v.this_user.len() == 0 {
                (ModelV { alias: n, ..v }, Seq::empty())
            } else {
                (v, Seq::empty())
            }
        },
        MsgV::UserOffline(id) => (ModelV { users: remove_user(v.users, id), ..v }, Seq::empty()),
        MsgV::UserOnline(id) => (ModelV { users: insert_user(v.users, id), ..v }, Seq::empty()),
        MsgV::UpdatePendingText(s) => (ModelV { pending_text: s, ..v }, Seq::empty()),
        MsgV::FetchHereNow => (v, seq![CommandV::HereNow(here_now_request(v.topic))]),
        MsgV::HereNowFetched(r) => match r {
            Ok(resp) => (
                ModelV { users: apply_occupancy(v.users, v.topic, resp), ..v },
                Seq::empty(),
            ),
            Err(_) => (v, Seq::empty()),
        },
        MsgV::Teardown => (
            ModelV { service: PubnubServiceV { channel: None, username: None }, ..v },
            opt_cmds(disconnect_command(v.service)),
        ),
        MsgV::NoOp => (v, Seq::empty()),
    }
}

/// Every transition keeps the online-user list free of duplicates.
pub proof fn lemma_step_preserves_no_dups(v: ModelV, m: MsgV, subscribed: Seq<Seq<char>>)
    requires
        no_dups(v.users),
    ensures
        no_dups(step(v, m, subscribed).0.users),
{
    match m {
        MsgV::UserOnline(id) => lemma_insert_user(v.users, id),
        MsgV::UserOffline(id) => lemma_remove_user(v.users, id),
        MsgV::HereNowFetched(r) => match r {
            Ok(resp) => match resp.channels {
                Some(entries) => match find_channel(entries, v.topic) {
                    Some(entry) => match entry.occupants {
                        Some(occupants) => lemma_fold_occupants(v.users, occupants),
                        None => {},
                    },
                    None => {},
                },
                None => {},
            },
            Err(_) => {},
        },
        _ => {},
    }
}

impl Model {
    /// The controller's invariant: no online user is listed twice.
    pub open spec fn wf(&self) -> bool {
        no_dups(self@.users)
    }

    /// A fresh controller bound to `topic`.
    pub fn new(topic: String) -> (m: Model)
        ensures
            m@ == initial_model(topic@),
            m.wf(),
    {
        let m = Model {
            alias: String::new(),
            this_user: String::new(),
            pending_text: String::new(),
            messages: Vec::new(),
            users: Vec::new(),
            topic: topic,
            pubnub: PubnubService::new(),
        };
        assert(m@ =~~= initial_model(m.topic@));
        m
    }

    /// Whether the session has been established.
    pub fn is_connected(&self) -> (r: bool)
        ensures
            r == (self@.this_user.len() > 0),
    {
        !self.this_user.as_str().is_empty()
    }

    /// Applies one intent: mutates the state exactly as [`step`] says and
    /// returns the operations the host must now perform, in order.
    /// `subscribed` is the transport's current subscription list.
    pub fn update(&mut self, msg: Msg, subscribed: &Vec<String>) -> (cmds: Vec<TransportCommand>)
        requires
            old(self).wf(),
        ensures
            final(self).wf(),
            final(self)@ == step(old(self)@, msg@, subscribed.deep_view()).0,
            cmds.deep_view() == step(old(self)@, msg@, subscribed.deep_view()).1,
    {
        let ghost v0 = old(self)@;
        let ghost mv = msg@;
        let ghost subs = subscribed.deep_view();
        let cmds: Vec<TransportCommand> = match msg {
            Msg::SendChat => {
                if !self.pending_text.as_str().is_empty() {
                    match self.pubnub.send_message(self.pending_text.as_str()) {
                        Some(c) => {
                            self.pending_text = String::new();
                            let mut out: Vec<TransportCommand> = Vec::new();
                            out.push(c);
                            assert(out.deep_view() =~~= step(v0, mv, subs).1);
                            out
                        },
                        None => Vec::new(),
                    }
                } else {
                    Vec::new()
                }
            },
            Msg::AddMessage(m) => {
                let ghost mview = m@;
                self.messages.push(m);
                assert(self.messages.deep_view() =~= v0.messages.push(mview));
                Vec::new()
            },
            Msg::Connect => {
                if !self.alias.as_str().is_empty() && self.this_user.as_str().is_empty() {
                    self.this_user = self.alias.clone();
                    let mut out = self.pubnub.connect(
                        self.topic.as_str(),
                        self.alias.as_str(),
                        subscribed,
                    );
                    let mut topics: Vec<String> = Vec::new();
                    topics.push(self.topic.clone());
                    assert(topics.deep_view() =~= seq![v0.topic]);
                    let params = HereNowParameters {
                        channels: topics,
                        include_uuids: true,
                        include_state: false,
                    };
                    assert(params@ =~~= here_now_request(v0.topic));
                    let ghost before = out.deep_view();
                    let cmd = self.pubnub.fetch_here_now(params);
                    out.push(cmd);
                    assert(out.deep_view() =~= before.push(
                        CommandV::HereNow(here_now_request(v0.topic)),
                    ));
                    assert(out.deep_view() =~= connect_commands(v0.topic, v0.alias, subs) + seq![
                        CommandV::HereNow(here_now_request(v0.topic)),
                    ]);
                    out
                } else {
                    Vec::new()
                }
            },
            Msg::EnterName(n) => {
                if self.this_user.as_str().is_empty() {
                    self.alias = n;
                }
                Vec::new()
            },
            Msg::UserOffline(id) => {
                remove_online_user(&mut self.users, id.as_str());
                Vec::new()
            },
            Msg::UserOnline(id) => {
                insert_online_user(&mut self.users, id);
                Vec::new()
            },
            Msg::UpdatePendingText(s) => {
                self.pending_text = s;
                Vec::new()
            },
            Msg::FetchHereNow => {
                let mut topics: Vec<String> = Vec::new();
                topics.push(self.topic.clone());
                assert(topics.deep_view() =~= seq![v0.topic]);
                let params = HereNowParameters {
                    channels: topics,
                    include_uuids: true,
                    include_state: false,
                };
                assert(params@ =~~= here_now_request(v0.topic));
                let cmd = self.pubnub.fetch_here_now(params);
                let mut out: Vec<TransportCommand> = Vec::new();
                out.push(cmd);
                assert(out.deep_view() =~~= step(v0, mv, subs).1);
                out
            },
            Msg::HereNowFetched(result) => {
                match result {
                    Ok(response) => {
                        apply_occupancy_update(&mut self.users, self.topic.as_str(), &response);
                    },
                    Err(_) => {},
                }
                Vec::new()
            },
            Msg::Teardown => {
                match self.pubnub.disconnect() {
                    Some(c) => {
                        let mut out: Vec<TransportCommand> = Vec::new();
                        out.push(c);
                        assert(out.deep_view() =~~= step(v0, mv, subs).1);
                        out
                    },
                    None => Vec::new(),
                }
            },
            Msg::NoOp => Vec::new(),
        };
        proof {
            lemma_step_preserves_no_dups(v0, mv, subs);
        }
        assert(self@ =~~= step(v0, mv, subs).0);
        assert(cmds.deep_view() =~~= step(v0, mv, subs).1);
        cmds
    }
}

} // verus!

