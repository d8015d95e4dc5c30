//! Session management for the pub/sub transport: connection state,
//! idempotent subscribe decisions, payload framing and inbound event
//! translation. Nothing here touches the transport itself; each method
//! returns the [`TransportCommand`]s the host must perform against the
//! real provider, and inbound events arrive as plain field values that
//! the translation functions turn into typed intents.

use vstd::prelude::*;
use vstd::string::StringExecFns;
use crate::{Message, MessageV, Msg, MsgV};

verus! {

/// The error kinds of the chat core.
#[derive(Clone, Copy, Debug, PartialEq, Eq, Structural)]
pub enum ChatError {
    /// A payload could not be encoded or decoded against the expected shape.
    SerializationError,
    /// The remote provider rejected a call or a request resolved to a failure.
    TransportError,
    /// A caller ignored a stated precondition; the core treats this as a safe no-op.
    PreconditionViolation,
}

/// Configuration handed to the host when it constructs the transport handle.
#[derive(Clone, Debug, PartialEq, Eq)]
pub struct Initialize {
    pub publish_key: String,
    pub subscribe_key: String,
    pub heartbeat_interval: u32,
}

/// A subscribe request: the topics to join and whether presence events are wanted.
#[derive(Clone, Debug, PartialEq, Eq)]
pub struct Channels {
    pub channels: Vec<String>,
    pub with_presence: bool,
}

/// Ghost mirror of [`Channels`].
#[verifier::ext_equal]
pub ghost struct ChannelsV {
    pub channels: Seq<Seq<char>>,
    pub with_presence: bool,
}

impl View for Channels {
    type V = ChannelsV;

    open spec fn view(&self) -> ChannelsV {
        ChannelsV { channels: self.channels.deep_view(), with_presence: self.with_presence }
    }
}

/// An unsubscribe request: the topics to leave.
#[derive(Clone, Debug, PartialEq, Eq)]
pub struct UnsubscribeChannels {
    pub channels: Vec<String>,
}

/// Ghost mirror of [`UnsubscribeChannels`].
#[verifier::ext_equal]
pub ghost struct UnsubscribeChannelsV {
    pub channels: Seq<Seq<char>>,
}

impl View for UnsubscribeChannels {
    type V = UnsubscribeChannelsV;

    open spec fn view(&self) -> UnsubscribeChannelsV {
        UnsubscribeChannelsV { channels: self.channels.deep_view() }
    }
}

/// An inbound message event as it appears on the wire, fully decoded:
/// the topic it arrived on, who published it, and the message text.
#[derive(Clone, Debug, PartialEq, Eq)]
pub struct PubNubMessage {
    pub channel: String,
    pub publisher: String,
    pub message: String,
}

/// Ghost mirror of [`PubNubMessage`].
#[verifier::ext_equal]
pub ghost struct PubNubMessageV {
    pub channel: Seq<char>,
    pub publisher: Seq<char>,
    pub message: Seq<char>,
}

impl View for PubNubMessage {
    type V = PubNubMessageV;

    open spec fn view(&self) -> PubNubMessageV {
        PubNubMessageV {
            channel: self.channel@,
            publisher: self.publisher@,
            message: self.message@,
        }
    }
}

impl DeepView for PubNubMessage {
    type V = PubNubMessageV;

    open spec fn deep_view(&self) -> PubNubMessageV {
        self.view()
    }
}

/// A decoded presence event: the identifier of the user it concerns.
#[derive(Clone, Debug, PartialEq, Eq)]
pub struct Presence {
    pub uuid: String,
}

/// Ghost mirror of [`Presence`].
#[verifier::ext_equal]
pub ghost struct PresenceV {
    pub uuid: Seq<char>,
}

impl View for Presence {
    type V = PresenceV;

    open spec fn view(&self) -> PresenceV {
        PresenceV { uuid: self.uuid@ }
    }
}

impl DeepView for Presence {
    type V = PresenceV;

    open spec fn deep_view(&self) -> PresenceV {
        self.view()
    }
}

/// An occupancy query: the topics of interest and the detail flags.
#[derive(Clone, Debug, PartialEq, Eq)]
pub struct HereNowParameters {
    pub channels: Vec<String>,
    pub include_uuids: bool,
    pub include_state: bool,
}

/// Ghost mirror of [`HereNowParameters`].
#[verifier::ext_equal]
pub ghost struct HereNowParametersV {
    pub channels: Seq<Seq<char>>,
    pub include_uuids: bool,
    pub include_state: bool,
}

impl View for HereNowParameters {
    type V = HereNowParametersV;

    open spec fn view(&self) -> HereNowParametersV {
        HereNowParametersV {
            channels: self.channels.deep_view(),
            include_uuids: self.include_uuids,
            include_state: self.include_state,
        }
    }
}

/// One occupant in an occupancy snapshot: an identifier and optional custom state.
#[derive(Clone, Debug, PartialEq, Eq)]
pub struct Occupants {
    pub uuid: String,
    pub state: Option<String>,
}

/// Ghost mirror of [`Occupants`].
#[verifier::ext_equal]
pub ghost struct OccupantsV {
    pub uuid: Seq<char>,
    pub state: Option<Seq<char>>,
}

impl View for Occupants {
    type V = OccupantsV;

    open spec fn view(&self) -> OccupantsV {
        OccupantsV { uuid: self.uuid@, state: self.state.deep_view() }
    }
}

impl DeepView for Occupants {
    type V = OccupantsV;

    open spec fn deep_view(&self) -> OccupantsV {
        self.view()
    }
}

/// The occupancy of one topic in a snapshot: its name, an optional count,
/// and an optional list of occupants.
#[derive(Clone, Debug, PartialEq, Eq)]
pub struct ChannelOccupancy {
    pub name: String,
    pub occupancy: Option<u32>,
    pub occupants: Option<Vec<Occupants>>,
}

/// Ghost mirror of [`ChannelOccupancy`].
#[verifier::ext_equal]
pub ghost struct ChannelOccupancyV {
    pub name: Seq<char>,
    pub occupancy: Option<u32>,
    pub occupants: Option<Seq<OccupantsV>>,
}

impl View for ChannelOccupancy {
    type V = ChannelOccupancyV;

    open spec fn view(&self) -> ChannelOccupancyV {
        ChannelOccupancyV {
            name: self.name@,
            occupancy: self.occupancy,
            occupants: self.occupants.deep_view(),
        }
    }
}

impl DeepView for ChannelOccupancy {
    type V = ChannelOccupancyV;

    open spec fn deep_view(&self) -> ChannelOccupancyV {
        self.view()
    }
}

/// An occupancy snapshot: totals and the per-topic occupancies, each part
/// possibly absent when the provider omits it.
#[derive(Clone, Debug, PartialEq, Eq)]
pub struct HereNowResponse {
    pub total_channels: Option<u32>,
    pub total_occupancy: Option<u32>,
    pub channels: Option<Vec<ChannelOccupancy>>,
}

/// Ghost mirror of [`HereNowResponse`].
#[verifier::ext_equal]
pub ghost struct HereNowResponseV {
    pub total_channels: Option<u32>,
    pub total_occupancy: Option<u32>,
    pub channels: Option<Seq<ChannelOccupancyV>>,
}

impl View for HereNowResponse {
    type V = HereNowResponseV;

    open spec fn view(&self) -> HereNowResponseV {
        HereNowResponseV {
            total_channels: self.total_channels,
            total_occupancy: self.total_occupancy,
            channels: self.channels.deep_view(),
        }
    }
}

/// One operation the host must perform against the transport provider.
#[derive(Clone, Debug, PartialEq, Eq)]
pub enum TransportCommand {
    /// Bind the connection to this identity.
    SetUuid(String),
    /// Subscribe to the named topics.
    Subscribe(Channels),
    /// Register the message/presence listener pair for the live subscription.
    AddListener,
    /// Publish the given framed payload text on the bound topic.
    Publish(String),
    /// Unsubscribe from the named topics.
    Unsubscribe(UnsubscribeChannels),
    /// Issue a one-shot occupancy snapshot query.
    HereNow(HereNowParameters),
    /// Request the identity-metadata listing.
    GetAllUuidMetadata,
}

/// Ghost mirror of [`TransportCommand`].
#[verifier::ext_equal]
pub ghost enum CommandV {
    SetUuid(Seq<char>),
    Subscribe(ChannelsV),
    AddListener,
    Publish(Seq<char>),
    Unsubscribe(UnsubscribeChannelsV),
    HereNow(HereNowParametersV),
    GetAllUuidMetadata,
}

impl View for TransportCommand {
    type V = CommandV;

    open spec fn view(&self) -> CommandV {
        match self {
            TransportCommand::SetUuid(u) => CommandV::SetUuid(u@),
            TransportCommand::Subscribe(c) => CommandV::Subscribe(c@),
            TransportCommand::AddListener => CommandV::AddListener,
            TransportCommand::Publish(p) => CommandV::Publish(p@),
            TransportCommand::Unsubscribe(c) => CommandV::Unsubscribe(c@),
            TransportCommand::HereNow(p) => CommandV::HereNow(p@),
            TransportCommand::GetAllUuidMetadata => CommandV::GetAllUuidMetadata,
        }
    }
}

impl DeepView for TransportCommand {
    type V = CommandV;

    open spec fn deep_view(&self) -> CommandV {
        self.view()
    }
}

/// The text of a publish payload: a JSON object with the topic under
/// `channel` and the message text under `message`.
pub open spec fn publish_payload_text(channel: Seq<char>, message: Seq<char>) -> Seq<char> {
    "{\"channel\":\""@ + channel + "\",\"message\":\""@ + message + "\"}"@
}

/// Frames a publish payload as JSON text, exactly as [`publish_payload_text`] states.
pub fn encode_publish_payload(channel: &str, message: &str) -> (r: String)
    ensures
        r@ == publish_payload_text(channel@, message@),
{
    let mut r: String = "{\"channel\":\"".to_owned();
    r.append(channel);
    r.append("\",\"message\":\"");
    r.append(message);
    r.append("\"}");
    r
}

/// The session manager: owns at most one live subscription and decides,
/// without touching the transport, which operations the host must perform.
pub struct PubnubService {
    pub channel: Option<String>,
    pub username: Option<String>,
}

/// Ghost mirror of [`PubnubService`]: the bound topic and identity, if any.
#[verifier::ext_equal]
pub ghost struct PubnubServiceV {
    pub channel: Option<Seq<char>>,
    pub username: Option<Seq<char>>,
}

impl View for PubnubService {
    type V = PubnubServiceV;

    open spec fn view(&self) -> PubnubServiceV {
        PubnubServiceV { channel: self.channel.deep_view(), username: self.username.deep_view() }
    }
}

/// The session state after a connect request: the identity is always bound;
/// the topic is bound only when it was not already among the subscriptions.
pub open spec fn connect_state(
    s: PubnubServiceV,
    topic: Seq<char>,
    nickname: Seq<char>,
    subscribed: Seq<Seq<char>>,
) -> PubnubServiceV {
    PubnubServiceV {
        channel: if subscribed.contains(topic) {
            s.channel
        } else {
            Some(topic)
        },
        username: Some(nickname),
    }
}

/// The operations a connect request asks of the host: the identity is always
/// set; a subscription (with presence) and one listener pair are requested
/// only when the topic is not already subscribed, so that a repeated connect
/// never registers a second listener.
pub open spec fn connect_commands(
    topic: Seq<char>,
    nickname: Seq<char>,
    subscribed: Seq<Seq<char>>,
) -> Seq<CommandV> {
    if subscribed.contains(topic) {
        seq![CommandV::SetUuid(nickname)]
    } else {
        seq![
            CommandV::SetUuid(nickname),
            CommandV::Subscribe(ChannelsV { channels: seq![topic], with_presence: true }),
            CommandV::AddListener,
        ]
    }
}

/// The publish a send request asks of the host: the framed payload on the
/// bound topic, or nothing when no subscription is live or the text is empty.
pub open spec fn send_command(s: PubnubServiceV, message: Seq<char>) -> Option<CommandV> {
    match s.channel {
        Some(topic) => if message.len() > 0 {
            Some(CommandV::Publish(publish_payload_text(topic, message)))
        } else {
            None
        },
        None => None,
    }
}

/// The operation a disconnect asks of the host: leave the bound topic, or
/// nothing when no subscription is live.
pub open spec fn disconnect_command(s: PubnubServiceV) -> Option<CommandV> {
    match s.channel {
        Some(topic) => Some(
            CommandV::Unsubscribe(UnsubscribeChannelsV { channels: seq![topic] }),
        ),
        None => None,
    }
}

/// Whether one of the strings reads exactly as `target`.
pub fn contains_string(items: &Vec<String>, target: &str) -> (r: bool)
    ensures
        r == items.deep_view().contains(target@),
{
    let wanted: String = target.to_owned();
    let mut i: usize = 0;
    while i < items.len()
        invariant
            0 <= i <= items.len(),
            wanted@ == target@,
            forall|j: int| 0 <= j < i ==> items.deep_view()[j] != target@,
        decreases items.len() - i,
    {
        if items[i] == wanted {
            assert(items.deep_view()[i as int] == target@);
            return true;
        }
        i += 1;
    }
    false
}

impl PubnubService {
    /// A fresh session manager: no identity bound, no subscription live.
    pub fn new() -> (s: Self)
        ensures
            s@.channel is None,
            s@.username is None,
    {
        PubnubService { channel: None, username: None }
    }

    /// Handles a connect request: binds the identity, and asks for a
    /// subscription and one listener pair unless `topic` is already among
    /// `subscribed` (the transport's current subscription list, queried by
    /// the host), in which case the request is a no-op beyond the identity.
    ///
    /// The guard goes by the queried list alone, so two back-to-back connect
    /// requests both made before the first subscribe completes can still
    /// subscribe twice; the guard is deliberately no stronger than that.
    pub fn connect(&mut self, topic: &str, nickname: &str, subscribed: &Vec<String>) -> (cmds:
        Vec<TransportCommand>)
        requires
            nickname@.len() > 0,
        ensures
            final(self)@ == connect_state(old(self)@, topic@, nickname@, subscribed.deep_view()),
            cmds.deep_view() == connect_commands(topic@, nickname@, subscribed.deep_view()),
    {
        self.username = Some(nickname.to_owned());
        let mut cmds: Vec<TransportCommand> = Vec::new();
        cmds.push(TransportCommand::SetUuid(nickname.to_owned()));
        if !contains_string(subscribed, topic) {
            self.channel = Some(topic.to_owned());
            let mut topics: Vec<String> = Vec::new();
            topics.push(topic.to_owned());
            assert(topics.deep_view() =~= seq![topic@]);
            cmds.push(
                TransportCommand::Subscribe(Channels { channels: topics, with_presence: true }),
            );
            cmds.push(TransportCommand::AddListener);
            assert(cmds.deep_view() =~~= connect_commands(
                topic@,
                nickname@,
                subscribed.deep_view(),
            ));
        } else {
            assert(cmds.deep_view() =~~= connect_commands(
                topic@,
                nickname@,
                subscribed.deep_view(),
            ));
        }
        cmds
    }

    /// Handles a send request: asks the host to publish the framed payload on
    /// the bound topic. Without a live subscription, or with empty text, the
    /// request is a safe no-op and nothing is asked.
    pub fn send_message(&self, message: &str) -> (cmd: Option<TransportCommand>)
        ensures
            cmd.deep_view() == send_command(self@, message@),
    {
        match &self.channel {
            Some(topic) => if !message.is_empty() {
                Some(TransportCommand::Publish(encode_publish_payload(topic.as_str(), message)))
            } else {
                None
            },
            None => None,
        }
    }

    /// Handles a disconnect: clears the bound identity and topic and asks the
    /// host to leave the topic. Safe to call with no live subscription.
    pub fn disconnect(&mut self) -> (cmd: Option<TransportCommand>)
        ensures
            final(self)@.channel is None,
            final(self)@.username is None,
            cmd.deep_view() == disconnect_command(old(self)@),
    {
        let cmd: Option<TransportCommand> = match &self.channel {
            Some(topic) => {
                let mut topics: Vec<String> = Vec::new();
                topics.push(topic.clone());
                assert(topics.deep_view() =~= seq![topic@]);
                Some(TransportCommand::Unsubscribe(UnsubscribeChannels { channels: topics }))
            },
            None => None,
        };
        self.channel = None;
        self.username = None;
        assert(cmd.deep_view() =~~= disconnect_command(old(self)@));
        cmd
    }

    /// Asks the host to issue a one-shot occupancy snapshot query.
    pub fn fetch_here_now(&self, params: HereNowParameters) -> (cmd: TransportCommand)
        ensures
            cmd@ == CommandV::HereNow(params@),
    {
        TransportCommand::HereNow(params)
    }

    /// Asks the host to request the identity-metadata listing.
    pub fn fetch_uuid_metadata(&self) -> (cmd: TransportCommand)
        ensures
            cmd@ == CommandV::GetAllUuidMetadata,
    {
        TransportCommand::GetAllUuidMetadata
    }
}


/// The decode of an inbound message event: it succeeds exactly when the
/// topic, publisher and message text are all present.
pub open spec fn decoded_message(
    channel: Option<Seq<char>>,
    publisher: Option<Seq<char>>,
    message: Option<Seq<char>>,
) -> Option<PubNubMessageV> {
    match (channel, publisher, message) {
        (Some(c), Some(p), Some(m)) => Some(
            PubNubMessageV { channel: c, publisher: p, message: m },
        ),
        _ => None,
    }
}

/// What an inbound message event means to the controller: the message text
/// from its publisher, or nothing when the event is malformed.
pub open spec fn translated_message(
    channel: Option<Seq<char>>,
    publisher: Option<Seq<char>>,
    message: Option<Seq<char>>,
) -> Option<MessageV> {
    match decoded_message(channel, publisher, message) {
        Some(pm) => Some(MessageV { text: pm.message, from: pm.publisher }),
        None => None,
    }
}

/// The decode of an inbound presence event: it succeeds exactly when the
/// user identifier is present.
pub open spec fn decoded_presence(uuid: Option<Seq<char>>) -> Option<PresenceV> {
    match uuid {
        Some(u) => Some(PresenceV { uuid: u }),
        None => None,
    }
}

/// What an inbound presence event means to the controller: a join puts the
/// user online, a leave or timeout takes it offline, and anything malformed
/// or unrecognised is dropped.
pub open spec fn translated_presence(uuid: Option<Seq<char>>, action: Option<Seq<char>>) -> Option<
    MsgV,
> {
    match (decoded_presence(uuid), action) {
        (Some(p), Some(a)) => if a == "join"@ {
            Some(MsgV::UserOnline(p.uuid))
        } else if a == "leave"@ || a == "timeout"@ {
            Some(MsgV::UserOffline(p.uuid))
        } else {
            None
        },
        _ => None,
    }
}

/// Decodes an inbound message event from its extracted fields; a missing
/// field makes the whole event undecodable.
pub fn decode_message_event(
    channel: Option<String>,
    publisher: Option<String>,
    message: Option<String>,
) -> (r: Option<PubNubMessage>)
    ensures
        r.deep_view() == decoded_message(
            channel.deep_view(),
            publisher.deep_view(),
            message.deep_view(),
        ),
{
    match (channel, publisher, message) {
        (Some(c), Some(p), Some(m)) => Some(
            PubNubMessage { channel: c, publisher: p, message: m },
        ),
        _ => None,
    }
}

/// Translates an inbound message event into a chat message, or drops it
/// when a field is missing; a dropped event never stops the listener.
pub fn translate_message_event(
    channel: Option<String>,
    publisher: Option<String>,
    message: Option<String>,
) -> (r: Option<Message>)
    ensures
        r.deep_view() == translated_message(
            channel.deep_view(),
            publisher.deep_view(),
            message.deep_view(),
        ),
{
    match decode_message_event(channel, publisher, message) {
        Some(pm) => Some(Message { text: pm.message, from: pm.publisher }),
        None => None,
    }
}

/// Decodes an inbound presence event from its extracted fields.
pub fn decode_presence_event(uuid: Option<String>) -> (r: Option<Presence>)
    ensures
        r.deep_view() == decoded_presence(uuid.deep_view()),
{
    match uuid {
        Some(u) => Some(Presence { uuid: u }),
        None => None,
    }
}

/// Translates an inbound presence event into a controller intent: a join
/// puts the user online, a leave or timeout takes it offline; a malformed
/// or unrecognised event is dropped and never stops the listener.
pub fn translate_presence_event(uuid: Option<String>, action: Option<String>) -> (r: Option<Msg>)
    ensures
        r.deep_view() == translated_presence(uuid.deep_view(), action.deep_view()),
{
    match (decode_presence_event(uuid), action) {
        (Some(p), Some(a)) => {
            let join: String = "join".to_owned();
            let leave: String = "leave".to_owned();
            let timeout: String = "timeout".to_owned();
            if a == join {
                Some(Msg::UserOnline(p.uuid))
            } else if a == leave || a == timeout {
                Some(Msg::UserOffline(p.uuid))
            } else {
                None
            }
        },
        _ => None,
    }
}

/// Whether `x` is the identifier of one of the presence records.
pub open spec fn is_data_uuid(data: Seq<PresenceV>, x: Seq<char>) -> bool {
    exists|k: int| 0 <= k < data.len() && (#[trigger] data[k]).uuid == x
}

/// Whether `x` is the key of one of the metadata entries.
pub open spec fn is_entry_key(entries: Seq<(Seq<char>, Seq<char>)>, x: Seq<char>) -> bool {
    exists|i: int| 0 <= i < entries.len() && (#[trigger] entries[i]).0 == x
}

/// Whether one of the entries already carries this key.
fn contains_key(entries: &Vec<(String, String)>, key: &String) -> (r: bool)
    ensures
        r == is_entry_key(entries.deep_view(), key@),
{
    let mut t: usize = 0;
    while t < entries.len()
        invariant
            0 <= t <= entries.len(),
            forall|j: int| 0 <= j < t ==> (#[trigger] entries.deep_view()[j]).0 != key@,
        decreases entries.len() - t,
    {
        if entries[t].0 == *key {
            assert(entries.deep_view()[t as int].0 == key@);
            return true;
        }
        assert(entries.deep_view()[t as int].0 == entries@[t as int].0@);
        t += 1;
    }
    false
}

/// Builds the identity-metadata listing: one entry per distinct identifier
/// in the data, keyed and valued by the identifier itself.
pub fn uuid_metadata_map(data: &Vec<Presence>) -> (entries: Vec<(String, String)>)
    ensures
        forall|i: int, j: int|
            0 <= i < j < entries.deep_view().len() ==> (#[trigger] entries.deep_view()[i]).0 != (
            #[trigger] entries.deep_view()[j]).0,
        forall|i: int|
            0 <= i < entries.deep_view().len() ==> (#[trigger] entries.deep_view()[i]).1
                == entries.deep_view()[i].0,
        forall|i: int|
            0 <= i < entries.deep_view().len() ==> is_data_uuid(
                data.deep_view(),
                (#[trigger] entries.deep_view()[i]).0,
            ),
        forall|k: int|
            0 <= k < data.deep_view().len() ==> is_entry_key(
                entries.deep_view(),
                (#[trigger] data.deep_view()[k]).uuid,
            ),
{
    let mut entries: Vec<(String, String)> = Vec::new();
    let mut n: usize = 0;
    while n < data.len()
        invariant
            0 <= n <= data.len(),
            forall|i: int, j: int|
                0 <= i < j < entries.deep_view().len() ==> (#[trigger] entries.deep_view()[i]).0
                    != (#[trigger] entries.deep_view()[j]).0,
            forall|i: int|
                0 <= i < entries.deep_view().len() ==> (#[trigger] entries.deep_view()[i]).1
                    == entries.deep_view()[i].0,
            forall|i: int|
                0 <= i < entries.deep_view().len() ==> is_data_uuid(
                    data.deep_view().take(n as int),
                    (#[trigger] entries.deep_view()[i]).0,
                ),
            forall|k: int|
                0 <= k < n ==> is_entry_key(
                    entries.deep_view(),
                    (#[trigger] data.deep_view()[k]).uuid,
                ),
        decreases data.len() - n,
    {
        let ghost before = entries.deep_view();
        let ghost dview = data.deep_view();
        if !contains_key(&entries, &data[n].uuid) {
            entries.push((data[n].uuid.clone(), data[n].uuid.clone()));
            assert(entries.deep_view() =~= before.push(
                (dview[n as int].uuid, dview[n as int].uuid),
            ));
            assert(entries.deep_view()[before.len() as int].0 == dview[n as int].uuid);
            assert forall|i: int|
                0 <= i < entries.deep_view().len() implies is_data_uuid(
                dview.take(n + 1),
                (#[trigger] entries.deep_view()[i]).0,
            ) by {
                if i < before.len() {
                    let x = before[i].0;
                    let k = choose|k: int| 0 <= k < dview.take(n as int).len() && (#[trigger] dview.take(
                        n as int,
                    )[k]).uuid == x;
                    assert(dview.take(n + 1)[k].uuid == x);
                } else {
                    assert(dview.take(n + 1)[n as int].uuid == entries.deep_view()[i].0);
                }
            }
            assert forall|k: int|
                0 <= k < n + 1 implies is_entry_key(
                entries.deep_view(),
                (#[trigger] dview[k]).uuid,
            ) by {
                if k < n {
                    let i = choose|i: int|
                        0 <= i < before.len() && (#[trigger] before[i]).0 == dview[k].uuid;
                    assert(entries.deep_view()[i].0 == dview[k].uuid);
                } else {
                    assert(entries.deep_view()[before.len() as int].0 == dview[n as int].uuid);
                }
            }
        } else {
            assert forall|i: int|
                0 <= i < entries.deep_view().len() implies is_data_uuid(
                dview.take(n + 1),
                (#[trigger] entries.deep_view()[i]).0,
            ) by {
                let x = entries.deep_view()[i].0;
                let k = choose|k: int| 0 <= k < dview.take(n as int).len() && (#[trigger] dview.take(
                    n as int,
                )[k]).uuid == x;
                assert(dview.take(n + 1)[k].uuid == x);
            }
            assert(is_entry_key(entries.deep_view(), dview[n as int].uuid));
        }
        n += 1;
    }
    assert(data.deep_view().take(data.len() as int) =~= data.deep_view());
    entries
}

} // verus!
