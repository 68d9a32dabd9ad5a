//! The values that the client keeps and hands out.
use crate::ordered_map::OrderedMap;
use crate::replica::{copy_bytes, Replica};
use crate::text::decimal;
use crate::text::decimal_of;
use vstd::prelude::*;
use vstd::string::*;

verus! {

/// Why a request of the client failed.
#[derive(Debug, PartialEq, Eq)]
pub enum Error {
    /// The client has stopped.
    Stopped,
    /// The hub is not connected.
    NotConnected,
    /// The identity of the hub is not known.
    UnknownIdentity,
    /// The room name is not valid.
    InvalidRoom,
    /// The target of a command is not valid.
    InvalidTarget,
    /// The message is not valid.
    InvalidMessage,
    /// The resource is not valid.
    InvalidResource,
    /// The hub does not take resource envelopes.
    ResourcesUnsupported,
    /// The hub does not take actions.
    ActionsUnsupported,
    /// The hub does not take direct notices.
    DirectNoticesUnsupported,
    /// Nothing came in time.
    Timeout,
    /// The receiver missed this many events.
    EventLagged(u64),
    /// The transport failed, in its own words.
    Transport(String),
}

/// What [`Error`] holds.
#[verifier::ext_equal]
pub enum ErrorView {
    Stopped,
    NotConnected,
    UnknownIdentity,
    InvalidRoom,
    InvalidTarget,
    InvalidMessage,
    InvalidResource,
    ResourcesUnsupported,
    ActionsUnsupported,
    DirectNoticesUnsupported,
    Timeout,
    EventLagged(u64),
    Transport(Seq<char>),
}

impl View for Error {
    type V = ErrorView;

    open spec fn view(&self) -> ErrorView {
        match self {
            Error::Stopped => ErrorView::Stopped,
            Error::NotConnected => ErrorView::NotConnected,
            Error::UnknownIdentity => ErrorView::UnknownIdentity,
            Error::InvalidRoom => ErrorView::InvalidRoom,
            Error::InvalidTarget => ErrorView::InvalidTarget,
            Error::InvalidMessage => ErrorView::InvalidMessage,
            Error::InvalidResource => ErrorView::InvalidResource,
            Error::ResourcesUnsupported => ErrorView::ResourcesUnsupported,
            Error::ActionsUnsupported => ErrorView::ActionsUnsupported,
            Error::DirectNoticesUnsupported => ErrorView::DirectNoticesUnsupported,
            Error::Timeout => ErrorView::Timeout,
            Error::EventLagged(x) => ErrorView::EventLagged(*x),
            Error::Transport(x) => ErrorView::Transport(x@),
        }
    }
}

impl DeepView for Error {
    type V = ErrorView;

    open spec fn deep_view(&self) -> ErrorView {
        self@
    }
}

impl Clone for Error {
    fn clone(&self) -> (copy: Self)
        ensures
            copy@ == self@,
    {
        match self {
            Error::Stopped => Error::Stopped,
            Error::NotConnected => Error::NotConnected,
            Error::UnknownIdentity => Error::UnknownIdentity,
            Error::InvalidRoom => Error::InvalidRoom,
            Error::InvalidTarget => Error::InvalidTarget,
            Error::InvalidMessage => Error::InvalidMessage,
            Error::InvalidResource => Error::InvalidResource,
            Error::ResourcesUnsupported => Error::ResourcesUnsupported,
            Error::ActionsUnsupported => Error::ActionsUnsupported,
            Error::DirectNoticesUnsupported => Error::DirectNoticesUnsupported,
            Error::Timeout => Error::Timeout,
            Error::EventLagged(x) => Error::EventLagged(*x),
            Error::Transport(x) => Error::Transport(x.clone()),
        }
    }
}

impl Replica for Error {
    fn replica(&self) -> (copy: Self) {
        self.clone()
    }
}

/// Kind of a chat message.
#[derive(Clone, Copy, Debug, Eq, PartialEq, Structural)]
pub enum MessageKind {
    /// An ordinary message.
    Message,
    /// A notice.
    Notice,
    /// An action.
    Action,
    /// An error report of the hub.
    Error,
}

/// A mode of a room that can be switched on and off.
#[derive(Clone, Copy, Debug, Eq, PartialEq, Structural)]
pub enum RoomMode {
    /// Only voiced members and operators speak.
    Moderated,
    /// Only invited members join.
    InviteOnly,
    /// Only operators set the topic.
    TopicOperatorsOnly,
    /// Only members send to the room.
    NoOutsideMessages,
    /// The room is not listed.
    Private,
}

/// What a hub says in WELCOME that it can do.
#[derive(Clone, Copy, Debug, Eq, PartialEq, Structural)]
pub struct Capabilities {
    /// It takes actions.
    pub action: bool,
    /// It takes notices addressed to one identity.
    pub direct_notice: bool,
    /// It takes resource envelopes.
    pub resource_envelope: bool,
}

/// The limits that a hub announces in WELCOME.
#[derive(Clone, Copy, Debug, Eq, PartialEq, Structural)]
pub struct Limits {
    /// The most bytes that a message body may take.
    pub max_message_bytes: Option<usize>,
}

/// What an envelope is for.
#[derive(Clone, Copy, Debug, Eq, PartialEq, Structural)]
pub enum MessageType {
    /// The greeting of the hub.
    Welcome,
    /// A request to enter a room.
    Join,
    /// The hub says that a room was entered.
    Joined,
    /// A request to leave a room.
    Part,
    /// The hub says that a room was left.
    Parted,
    /// A message.
    Message,
    /// A notice.
    Notice,
    /// An action.
    Action,
    /// A request to answer.
    Ping,
    /// The answer to a ping.
    Pong,
    /// An error report.
    Error,
    /// The announcement of a resource.
    ResourceEnvelope,
    /// Anything else.
    Other,
}

/// A room of the public directory.
#[derive(Debug, PartialEq, Eq)]
pub struct RoomInfo {
    /// The name of the room.
    pub name: String,
    /// Its topic.
    pub topic: Option<String>,
}

/// What [`RoomInfo`] holds.
#[verifier::ext_equal]
pub struct RoomInfoView {
    pub name: Seq<char>,
    pub topic: Option<Seq<char>>,
}

impl View for RoomInfo {
    type V = RoomInfoView;

    open spec fn view(&self) -> RoomInfoView {
        RoomInfoView {
            name: self.name@,
            topic: self.topic.deep_view(),
        }
    }
}

impl DeepView for RoomInfo {
    type V = RoomInfoView;

    open spec fn deep_view(&self) -> RoomInfoView {
        self@
    }
}

impl Clone for RoomInfo {
    fn clone(&self) -> (copy: Self)
        ensures
            copy@ == self@,
    {
        RoomInfo {
            name: self.name.clone(),
            topic: self.topic.replica(),
        }
    }
}

impl Replica for RoomInfo {
    fn replica(&self) -> (copy: Self) {
        self.clone()
    }
}

/// The structured state of a room.
#[derive(Debug, PartialEq, Eq)]
pub struct RoomState {
    /// Whether the room is registered.
    pub registered: bool,
    /// Its modes, as the hub writes them.
    pub modes: String,
    /// Its topic.
    pub topic: Option<String>,
}

/// What [`RoomState`] holds.
#[verifier::ext_equal]
pub struct RoomStateView {
    pub registered: bool,
    pub modes: Seq<char>,
    pub topic: Option<Seq<char>>,
}

impl View for RoomState {
    type V = RoomStateView;

    open spec fn view(&self) -> RoomStateView {
        RoomStateView {
            registered: self.registered,
            modes: self.modes@,
            topic: self.topic.deep_view(),
        }
    }
}

impl DeepView for RoomState {
    type V = RoomStateView;

    open spec fn deep_view(&self) -> RoomStateView {
        self@
    }
}

impl Clone for RoomState {
    fn clone(&self) -> (copy: Self)
        ensures
            copy@ == self@,
    {
        RoomState {
            registered: self.registered,
            modes: self.modes.clone(),
            topic: self.topic.replica(),
        }
    }
}

impl Replica for RoomState {
    fn replica(&self) -> (copy: Self) {
        self.clone()
    }
}

/// A member of a room.
#[derive(Debug, PartialEq, Eq)]
pub struct UserInfo {
    /// The nickname.
    pub nick: Option<String>,
    /// The whole entry, as the protocol layer renders it.
    pub record: String,
}

/// What [`UserInfo`] holds.
#[verifier::ext_equal]
pub struct UserInfoView {
    pub nick: Option<Seq<char>>,
    pub record: Seq<char>,
}

impl View for UserInfo {
    type V = UserInfoView;

    open spec fn view(&self) -> UserInfoView {
        UserInfoView {
            nick: self.nick.deep_view(),
            record: self.record@,
        }
    }
}

impl DeepView for UserInfo {
    type V = UserInfoView;

    open spec fn deep_view(&self) -> UserInfoView {
        self@
    }
}

impl Clone for UserInfo {
    fn clone(&self) -> (copy: Self)
        ensures
            copy@ == self@,
    {
        UserInfo {
            nick: self.nick.replica(),
            record: self.record.clone(),
        }
    }
}

impl Replica for UserInfo {
    fn replica(&self) -> (copy: Self) {
        self.clone()
    }
}

/// What a hub says when it accepts a client.
#[derive(Debug, PartialEq, Eq)]
pub struct Welcome {
    /// The name of the hub.
    pub hub_name: Option<String>,
    /// What it can do.
    pub capabilities: Capabilities,
    /// The limits it sets.
    pub limits: Limits,
    /// The whole greeting, as the protocol layer renders it.
    pub record: String,
}

/// What [`Welcome`] holds.
#[verifier::ext_equal]
pub struct WelcomeView {
    pub hub_name: Option<Seq<char>>,
    pub capabilities: Capabilities,
    pub limits: Limits,
    pub record: Seq<char>,
}

impl View for Welcome {
    type V = WelcomeView;

    open spec fn view(&self) -> WelcomeView {
        WelcomeView {
            hub_name: self.hub_name.deep_view(),
            capabilities: self.capabilities,
            limits: self.limits,
            record: self.record@,
        }
    }
}

impl DeepView for Welcome {
    type V = WelcomeView;

    open spec fn deep_view(&self) -> WelcomeView {
        self@
    }
}

impl Clone for Welcome {
    fn clone(&self) -> (copy: Self)
        ensures
            copy@ == self@,
    {
        Welcome {
            hub_name: self.hub_name.replica(),
            capabilities: self.capabilities,
            limits: self.limits,
            record: self.record.clone(),
        }
    }
}

impl Replica for Welcome {
    fn replica(&self) -> (copy: Self) {
        self.clone()
    }
}

/// The announcement of a resource.
#[derive(Debug, PartialEq, Eq)]
pub struct ResourceDescriptor {
    /// What the resource is.
    pub kind: String,
    /// Its size in bytes.
    pub size: usize,
    /// Its SHA-256 digest.
    pub sha256: Option<[u8; 32]>,
    /// How its text is encoded.
    pub encoding: Option<String>,
}

/// What [`ResourceDescriptor`] holds.
#[verifier::ext_equal]
pub struct ResourceDescriptorView {
    pub kind: Seq<char>,
    pub size: usize,
    pub sha256: Option<[u8; 32]>,
    pub encoding: Option<Seq<char>>,
}

impl View for ResourceDescriptor {
    type V = ResourceDescriptorView;

    open spec fn view(&self) -> ResourceDescriptorView {
        ResourceDescriptorView {
            kind: self.kind@,
            size: self.size,
            sha256: self.sha256,
            encoding: self.encoding.deep_view(),
        }
    }
}

impl DeepView for ResourceDescriptor {
    type V = ResourceDescriptorView;

    open spec fn deep_view(&self) -> ResourceDescriptorView {
        self@
    }
}

impl Clone for ResourceDescriptor {
    fn clone(&self) -> (copy: Self)
        ensures
            copy@ == self@,
    {
        ResourceDescriptor {
            kind: self.kind.clone(),
            size: self.size,
            sha256: self.sha256,
            encoding: self.encoding.replica(),
        }
    }
}

impl Replica for ResourceDescriptor {
    fn replica(&self) -> (copy: Self) {
        self.clone()
    }
}

/// What the client reads in a protocol envelope.
#[derive(Debug, PartialEq, Eq)]
pub struct Envelope {
    /// What the envelope is for.
    pub message_type: Option<MessageType>,
    /// The room.
    pub room: Option<String>,
    /// The identity that sent it.
    pub source: Option<[u8; 16]>,
    /// The identity that it is addressed to, as it was written.
    pub destination: Option<Vec<u8>>,
    /// The nickname of the sender.
    pub nick: Option<String>,
    /// When it was sent, in milliseconds.
    pub timestamp_ms: Option<u64>,
    /// The body, where it is text.
    pub body_text: Option<String>,
    /// The body, where it is a number.
    pub body_integer: Option<u64>,
    /// The structured state of the room.
    pub room_state: Option<RoomState>,
    /// The structured list of members.
    pub user_list: Option<Vec<UserInfo>>,
    /// The greeting.
    pub welcome: Option<Welcome>,
    /// The announced resource.
    pub resource_descriptor: Option<ResourceDescriptor>,
}

/// What [`Envelope`] holds.
#[verifier::ext_equal]
pub struct EnvelopeView {
    pub message_type: Option<MessageType>,
    pub room: Option<Seq<char>>,
    pub source: Option<[u8; 16]>,
    pub destination: Option<Seq<u8>>,
    pub nick: Option<Seq<char>>,
    pub timestamp_ms: Option<u64>,
    pub body_text: Option<Seq<char>>,
    pub body_integer: Option<u64>,
    pub room_state: Option<RoomStateView>,
    pub user_list: Option<Seq<UserInfoView>>,
    pub welcome: Option<WelcomeView>,
    pub resource_descriptor: Option<ResourceDescriptorView>,
}

impl View for Envelope {
    type V = EnvelopeView;

    open spec fn view(&self) -> EnvelopeView {
        EnvelopeView {
            message_type: self.message_type,
            room: self.room.deep_view(),
            source: self.source,
            destination: self.destination.deep_view(),
            nick: self.nick.deep_view(),
            timestamp_ms: self.timestamp_ms,
            body_text: self.body_text.deep_view(),
            body_integer: self.body_integer,
            room_state: self.room_state.deep_view(),
            user_list: self.user_list.deep_view(),
            welcome: self.welcome.deep_view(),
            resource_descriptor: self.resource_descriptor.deep_view(),
        }
    }
}

impl DeepView for Envelope {
    type V = EnvelopeView;

    open spec fn deep_view(&self) -> EnvelopeView {
        self@
    }
}

impl Clone for Envelope {
    fn clone(&self) -> (copy: Self)
        ensures
            copy@ == self@,
    {
        Envelope {
            message_type: self.message_type,
            room: self.room.replica(),
            source: self.source,
            destination: self.destination.replica(),
            nick: self.nick.replica(),
            timestamp_ms: self.timestamp_ms,
            body_text: self.body_text.replica(),
            body_integer: self.body_integer,
            room_state: self.room_state.replica(),
            user_list: self.user_list.replica(),
            welcome: self.welcome.replica(),
            resource_descriptor: self.resource_descriptor.replica(),
        }
    }
}

impl Replica for Envelope {
    fn replica(&self) -> (copy: Self) {
        self.clone()
    }
}

/// What the client knows of a hub.
#[derive(Debug, PartialEq, Eq)]
pub struct Hub {
    /// The destination of the hub.
    pub destination_hash: [u8; 16],
    /// Its name.
    pub name: Option<String>,
    /// The nickname used there.
    pub nick: Option<String>,
    /// Its greeting.
    pub welcome: Option<Welcome>,
    /// Whether the link is up.
    pub connected: bool,
    /// The rooms that the client is in, in the order of entry.
    pub rooms: Vec<String>,
    /// The public directory.
    pub public_rooms: Vec<RoomInfo>,
    /// The structured state of rooms.
    pub room_states: OrderedMap<String, RoomState>,
    /// The members of rooms, as far as they are current.
    pub room_users: OrderedMap<String, Vec<UserInfo>>,
    /// The state of the link, in words.
    pub detail: String,
}

/// What [`Hub`] holds.
#[verifier::ext_equal]
pub struct HubView {
    pub destination_hash: [u8; 16],
    pub name: Option<Seq<char>>,
    pub nick: Option<Seq<char>>,
    pub welcome: Option<WelcomeView>,
    pub connected: bool,
    pub rooms: Seq<Seq<char>>,
    pub public_rooms: Seq<RoomInfoView>,
    pub room_states: Map<Seq<char>, RoomStateView>,
    pub room_users: Map<Seq<char>, Seq<UserInfoView>>,
    pub detail: Seq<char>,
}

impl View for Hub {
    type V = HubView;

    open spec fn view(&self) -> HubView {
        HubView {
            destination_hash: self.destination_hash,
            name: self.name.deep_view(),
            nick: self.nick.deep_view(),
            welcome: self.welcome.deep_view(),
            connected: self.connected,
            rooms: self.rooms.deep_view(),
            public_rooms: self.public_rooms.deep_view(),
            room_states: self.room_states@,
            room_users: self.room_users@,
            detail: self.detail@,
        }
    }
}

impl DeepView for Hub {
    type V = HubView;

    open spec fn deep_view(&self) -> HubView {
        self@
    }
}

impl Clone for Hub {
    fn clone(&self) -> (copy: Self)
        ensures
            copy@ == self@,
    {
        Hub {
            destination_hash: self.destination_hash,
            name: self.name.replica(),
            nick: self.nick.replica(),
            welcome: self.welcome.replica(),
            connected: self.connected,
            rooms: self.rooms.replica(),
            public_rooms: self.public_rooms.replica(),
            room_states: self.room_states.clone(),
            room_users: self.room_users.clone(),
            detail: self.detail.clone(),
        }
    }
}

impl Replica for Hub {
    fn replica(&self) -> (copy: Self) {
        self.clone()
    }
}

/// A chat message.
#[derive(Debug, PartialEq, Eq)]
pub struct Message {
    /// The hub that it came from.
    pub hub: [u8; 16],
    /// The room.
    pub room: Option<String>,
    /// The identity that sent it.
    pub source: Option<[u8; 16]>,
    /// The identity that it is addressed to.
    pub destination: Option<[u8; 16]>,
    /// The nickname of the sender.
    pub nick: Option<String>,
    /// The text.
    pub body: String,
    /// When it was sent, in milliseconds.
    pub timestamp_ms: u64,
    /// Its kind.
    pub kind: MessageKind,
}

/// What [`Message`] holds.
#[verifier::ext_equal]
pub struct MessageView {
    pub hub: [u8; 16],
    pub room: Option<Seq<char>>,
    pub source: Option<[u8; 16]>,
    pub destination: Option<[u8; 16]>,
    pub nick: Option<Seq<char>>,
    pub body: Seq<char>,
    pub timestamp_ms: u64,
    pub kind: MessageKind,
}

impl View for Message {
    type V = MessageView;

    open spec fn view(&self) -> MessageView {
        MessageView {
            hub: self.hub,
            room: self.room.deep_view(),
            source: self.source,
            destination: self.destination,
            nick: self.nick.deep_view(),
            body: self.body@,
            timestamp_ms: self.timestamp_ms,
            kind: self.kind,
        }
    }
}

impl DeepView for Message {
    type V = MessageView;

    open spec fn deep_view(&self) -> MessageView {
        self@
    }
}

impl Clone for Message {
    fn clone(&self) -> (copy: Self)
        ensures
            copy@ == self@,
    {
        Message {
            hub: self.hub,
            room: self.room.replica(),
            source: self.source,
            destination: self.destination,
            nick: self.nick.replica(),
            body: self.body.clone(),
            timestamp_ms: self.timestamp_ms,
            kind: self.kind,
        }
    }
}

impl Replica for Message {
    fn replica(&self) -> (copy: Self) {
        self.clone()
    }
}

/// A resource that arrived whole.
#[derive(Debug, PartialEq, Eq)]
pub struct Resource {
    /// The hub that it came from.
    pub hub: [u8; 16],
    /// The room.
    pub room: Option<String>,
    /// The identity that sent it.
    pub source: Option<[u8; 16]>,
    /// The nickname of the sender.
    pub nick: Option<String>,
    /// When it was sent, in milliseconds.
    pub timestamp_ms: u64,
    /// Its announcement.
    pub descriptor: ResourceDescriptor,
    /// Its bytes.
    pub data: Vec<u8>,
    /// The hash that the transport knows it by.
    pub resource_hash: [u8; 32],
}

/// What [`Resource`] holds.
#[verifier::ext_equal]
pub struct ResourceView {
    pub hub: [u8; 16],
    pub room: Option<Seq<char>>,
    pub source: Option<[u8; 16]>,
    pub nick: Option<Seq<char>>,
    pub timestamp_ms: u64,
    pub descriptor: ResourceDescriptorView,
    pub data: Seq<u8>,
    pub resource_hash: [u8; 32],
}

impl View for Resource {
    type V = ResourceView;

    open spec fn view(&self) -> ResourceView {
        ResourceView {
            hub: self.hub,
            room: self.room.deep_view(),
            source: self.source,
            nick: self.nick.deep_view(),
            timestamp_ms: self.timestamp_ms,
            descriptor: self.descriptor@,
            data: self.data@,
            resource_hash: self.resource_hash,
        }
    }
}

impl DeepView for Resource {
    type V = ResourceView;

    open spec fn deep_view(&self) -> ResourceView {
        self@
    }
}

impl Clone for Resource {
    fn clone(&self) -> (copy: Self)
        ensures
            copy@ == self@,
    {
        Resource {
            hub: self.hub,
            room: self.room.replica(),
            source: self.source,
            nick: self.nick.replica(),
            timestamp_ms: self.timestamp_ms,
            descriptor: self.descriptor.clone(),
            data: copy_bytes(&self.data),
            resource_hash: self.resource_hash,
        }
    }
}

impl Replica for Resource {
    fn replica(&self) -> (copy: Self) {
        self.clone()
    }
}

/// What the client tells its subscribers.
#[derive(Debug, PartialEq, Eq)]
pub enum Event {
    /// What is known of a hub changed.
    HubChanged(Hub),
    /// A message came.
    Message(Message),
    /// A room directory came.
    RoomList {
        /// The hub.
        hub: [u8; 16],
        /// The rooms.
        rooms: Vec<RoomInfo>,
    },
    /// A member list came.
    UserList {
        /// The hub.
        hub: [u8; 16],
        /// The room.
        room: String,
        /// The members.
        users: Vec<UserInfo>,
    },
    /// An envelope came.
    Envelope {
        /// The hub.
        hub: [u8; 16],
        /// The envelope.
        envelope: Envelope,
    },
    /// A resource came.
    Resource(Resource),
    /// Something came that cannot be used.
    InvalidEnvelope {
        /// The hub.
        hub: [u8; 16],
        /// Why not.
        error: String,
    },
}

/// What [`Event`] holds.
#[verifier::ext_equal]
pub enum EventView {
    HubChanged(HubView),
    Message(MessageView),
    RoomList { hub: [u8; 16], rooms: Seq<RoomInfoView> },
    UserList { hub: [u8; 16], room: Seq<char>, users: Seq<UserInfoView> },
    Envelope { hub: [u8; 16], envelope: EnvelopeView },
    Resource(ResourceView),
    InvalidEnvelope { hub: [u8; 16], error: Seq<char> },
}

impl View for Event {
    type V = EventView;

    open spec fn view(&self) -> EventView {
        match self {
            Event::HubChanged(x) => EventView::HubChanged(x@),
            Event::Message(x) => EventView::Message(x@),
            Event::RoomList { hub, rooms } => EventView::RoomList {
                hub: *hub,
                rooms: rooms.deep_view(),
            },
            Event::UserList { hub, room, users } => EventView::UserList {
                hub: *hub,
                room: room@,
                users: users.deep_view(),
            },
            Event::Envelope { hub, envelope } => EventView::Envelope {
                hub: *hub,
                envelope: envelope@,
            },
            Event::Resource(x) => EventView::Resource(x@),
            Event::InvalidEnvelope { hub, error } => EventView::InvalidEnvelope {
                hub: *hub,
                error: error@,
            },
        }
    }
}

impl DeepView for Event {
    type V = EventView;

    open spec fn deep_view(&self) -> EventView {
        self@
    }
}

impl Clone for Event {
    fn clone(&self) -> (copy: Self)
        ensures
            copy@ == self@,
    {
        match self {
            Event::HubChanged(x) => Event::HubChanged(x.clone()),
            Event::Message(x) => Event::Message(x.clone()),
            Event::RoomList { hub, rooms } => Event::RoomList { hub: *hub, rooms: rooms.replica() },
            Event::UserList { hub, room, users } => Event::UserList {
                hub: *hub,
                room: room.clone(),
                users: users.replica(),
            },
            Event::Envelope { hub, envelope } => Event::Envelope {
                hub: *hub,
                envelope: envelope.clone(),
            },
            Event::Resource(x) => Event::Resource(x.clone()),
            Event::InvalidEnvelope { hub, error } => Event::InvalidEnvelope {
                hub: *hub,
                error: error.clone(),
            },
        }
    }
}

impl Replica for Event {
    fn replica(&self) -> (copy: Self) {
        self.clone()
    }
}

/// The text that describes an error.
pub open spec fn error_text(error: ErrorView) -> Seq<char> {
    match error {
        ErrorView::Stopped => "RRC client has stopped"@,
        ErrorView::NotConnected => "hub is not connected"@,
        ErrorView::UnknownIdentity => "hub identity is not known"@,
        ErrorView::InvalidRoom => "invalid room name"@,
        ErrorView::InvalidTarget => "invalid RRC command target"@,
        ErrorView::InvalidMessage => "invalid RRC message"@,
        ErrorView::InvalidResource => "invalid RRC resource"@,
        ErrorView::ResourcesUnsupported => "RRC hub does not support resource envelopes"@,
        ErrorView::ActionsUnsupported => "RRC hub does not support actions"@,
        ErrorView::DirectNoticesUnsupported => "RRC hub does not support direct notices"@,
        ErrorView::Timeout => "timed out waiting for an RRC event"@,
        ErrorView::EventLagged(count) => "RRC event receiver lagged by "@ + decimal(count as nat)
            + " events"@,
        ErrorView::Transport(words) => words,
    }
}

impl Error {
    /// The text that describes the error.
    pub fn text(&self) -> (text: String)
        ensures
            text@ == error_text(self@),
    {
        match self {
            Error::Stopped => String::from_str("RRC client has stopped"),
            Error::NotConnected => String::from_str("hub is not connected"),
            Error::UnknownIdentity => String::from_str("hub identity is not known"),
            Error::InvalidRoom => String::from_str("invalid room name"),
            Error::InvalidTarget => String::from_str("invalid RRC command target"),
            Error::InvalidMessage => String::from_str("invalid RRC message"),
            Error::InvalidResource => String::from_str("invalid RRC resource"),
            Error::ResourcesUnsupported => String::from_str(
                "RRC hub does not support resource envelopes",
            ),
            Error::ActionsUnsupported => String::from_str("RRC hub does not support actions"),
            Error::DirectNoticesUnsupported => String::from_str(
                "RRC hub does not support direct notices",
            ),
            Error::Timeout => String::from_str("timed out waiting for an RRC event"),
            Error::EventLagged(count) => {
                let mut text = String::from_str("RRC event receiver lagged by ");
                text.append(decimal_of(*count).as_str());
                text.append(" events");
                text
            },
            Error::Transport(words) => words.clone(),
        }
    }
}

/// The letter by which a mode is named in commands.
pub open spec fn mode_flag(mode: RoomMode) -> char {
    match mode {
        RoomMode::Moderated => 'm',
        RoomMode::InviteOnly => 'i',
        RoomMode::TopicOperatorsOnly => 't',
        RoomMode::NoOutsideMessages => 'n',
        RoomMode::Private => 'p',
    }
}

impl RoomMode {
    /// The letter by which the mode is named in commands.
    pub fn flag(self) -> (letter: char)
        ensures
            letter == mode_flag(self),
    {
        match self {
            RoomMode::Moderated => 'm',
            RoomMode::InviteOnly => 'i',
            RoomMode::TopicOperatorsOnly => 't',
            RoomMode::NoOutsideMessages => 'n',
            RoomMode::Private => 'p',
        }
    }
}

} // verus!
