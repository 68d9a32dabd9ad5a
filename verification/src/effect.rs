//! What the actor takes in, and what it wants done.
use crate::ordered_map::OrderedMap;
use crate::request::{Draft, DraftView};
use crate::types::{
    Envelope, EnvelopeView, Error, ErrorView, Event, EventView, Hub, HubView, MessageKind, Resource,
    ResourceDescriptor, ResourceDescriptorView, ResourceView, RoomInfo, RoomInfoView, UserInfo,
    UserInfoView,
};
use vstd::prelude::*;

verus! {

/// What the text of a notice says, as the protocol layer reads it.
#[derive(Debug, PartialEq, Eq)]
pub struct NoticeReading {
    /// The rooms, where it answers LIST.
    pub rooms: Option<Vec<RoomInfo>>,
    /// The room and its members, where it answers WHO.
    pub who: Option<(String, Vec<UserInfo>)>,
}

/// What [`NoticeReading`] holds.
#[verifier::ext_equal]
pub struct NoticeReadingView {
    pub rooms: Option<Seq<RoomInfoView>>,
    pub who: Option<(Seq<char>, Seq<UserInfoView>)>,
}

impl View for NoticeReading {
    type V = NoticeReadingView;

    open spec fn view(&self) -> NoticeReadingView {
        NoticeReadingView {
            rooms: self.rooms.deep_view(),
            who: self.who.deep_view(),
        }
    }
}

impl DeepView for NoticeReading {
    type V = NoticeReadingView;

    open spec fn deep_view(&self) -> NoticeReadingView {
        self@
    }
}

/// What came over a link.
#[derive(Debug, PartialEq, Eq)]
pub enum Received {
    /// The link is gone, in the words of the transport.
    LinkLost(String),
    /// Bytes that are no envelope, and why not.
    Undecodable(String),
    /// An envelope.
    Envelope {
        /// The envelope.
        envelope: Envelope,
        /// What its text says.
        reading: NoticeReading,
    },
}

/// What [`Received`] holds.
#[verifier::ext_equal]
pub enum ReceivedView {
    LinkLost(Seq<char>),
    Undecodable(Seq<char>),
    Envelope { envelope: EnvelopeView, reading: NoticeReadingView },
}

impl View for Received {
    type V = ReceivedView;

    open spec fn view(&self) -> ReceivedView {
        match self {
            Received::LinkLost(x) => ReceivedView::LinkLost(x@),
            Received::Undecodable(x) => ReceivedView::Undecodable(x@),
            Received::Envelope { envelope, reading } => ReceivedView::Envelope {
                envelope: envelope@,
                reading: reading@,
            },
        }
    }
}

impl DeepView for Received {
    type V = ReceivedView;

    open spec fn deep_view(&self) -> ReceivedView {
        self@
    }
}

/// Queries that will not be answered.
#[derive(Debug, PartialEq, Eq)]
pub struct Released {
    /// The queries.
    pub query_ids: Vec<u64>,
}

impl View for Released {
    type V = Set<u64>;

    open spec fn view(&self) -> Set<u64> {
        self.query_ids@.to_set()
    }
}

impl DeepView for Released {
    type V = Set<u64>;

    open spec fn deep_view(&self) -> Set<u64> {
        self@
    }
}

/// What [`Released`] holds.
pub type ReleasedView = Set<u64>;

/// Work that the actor waits for.
#[allow(inconsistent_fields)]
#[derive(Debug, PartialEq, Eq)]
pub enum Work {
    /// Open a link; report to `finish_connect`.
    Open {
        /// The hub.
        destination: [u8; 16],
        /// The session to be.
        session_id: u64,
        /// The nickname.
        nick: Option<String>,
    },
    /// Open a link in place of a lost one; report to `finish_reconnect`.
    Reopen {
        /// The hub.
        destination: [u8; 16],
        /// The lost session.
        lost: u64,
        /// The session to be.
        session_id: u64,
        /// The nickname.
        nick: Option<String>,
        /// The rooms to be in, with their keys.
        desired_rooms: OrderedMap<String, Option<String>>,
    },
    /// Send an envelope; report to `finish_send`.
    Send {
        /// The hub.
        destination: [u8; 16],
        /// The session.
        session_id: u64,
        /// The identity to put on the envelope.
        source: [u8; 16],
        /// The nickname to put on the envelope, if any.
        nick: Option<String>,
        /// The envelope.
        envelope: Envelope,
    },
    /// Send an envelope and then the bytes; report to `finish_send_resource`.
    SendResource {
        /// The session.
        session_id: u64,
        /// The identity to put on the envelope.
        source: [u8; 16],
        /// The envelope.
        envelope: Envelope,
        /// The bytes.
        data: Vec<u8>,
    },
    /// Close a link; report to `finish_disconnect`.
    Disconnect {
        /// The session.
        session_id: u64,
        /// The queries that waited.
        released: Released,
    },
    /// Send a question; report to `finish_list_rooms`.
    ListRooms {
        /// The hub.
        destination: [u8; 16],
        /// The session.
        session_id: u64,
        /// The query.
        query_id: u64,
        /// The question.
        draft: Draft,
        /// The nickname to put on it, if any.
        nick: Option<String>,
    },
    /// Send a question; report to `finish_list_users`.
    ListUsers {
        /// The hub.
        destination: [u8; 16],
        /// The session.
        session_id: u64,
        /// The room.
        room: String,
        /// The query.
        query_id: u64,
        /// The question.
        draft: Draft,
        /// The nickname to put on it, if any.
        nick: Option<String>,
    },
    /// Send a ping; report to `finish_ping`.
    Ping {
        /// The hub.
        destination: [u8; 16],
        /// The session.
        session_id: u64,
        /// The query.
        query_id: u64,
        /// The ping.
        draft: Draft,
    },
    /// Ask to enter a room again; report to `finish_join`.
    Join {
        /// The hub.
        destination: [u8; 16],
        /// The session.
        session_id: u64,
        /// The request.
        draft: Draft,
        /// The nickname to put on it, if any.
        nick: Option<String>,
        /// The rooms that come after.
        rest: Vec<(String, Option<String>)>,
        /// The greeting that started this.
        envelope: Envelope,
    },
    /// Take in an announced resource; report to `inspect_resource` and then to `deliver`.
    Fetch {
        /// The hub.
        destination: [u8; 16],
        /// The session.
        session_id: u64,
        /// The announcement.
        descriptor: ResourceDescriptor,
        /// The envelope that carried it.
        envelope: Envelope,
    },
}

/// What [`Work`] holds.
#[allow(inconsistent_fields)]
#[verifier::ext_equal]
pub enum WorkView {
    Open { destination: [u8; 16], session_id: u64, nick: Option<Seq<char>> },
    Reopen {
        destination: [u8; 16],
        lost: u64,
        session_id: u64,
        nick: Option<Seq<char>>,
        desired_rooms: Map<Seq<char>, Option<Seq<char>>>,
    },
    Send {
        destination: [u8; 16],
        session_id: u64,
        source: [u8; 16],
        nick: Option<Seq<char>>,
        envelope: EnvelopeView,
    },
    SendResource { session_id: u64, source: [u8; 16], envelope: EnvelopeView, data: Seq<u8> },
    Disconnect { session_id: u64, released: ReleasedView },
    ListRooms {
        destination: [u8; 16],
        session_id: u64,
        query_id: u64,
        draft: DraftView,
        nick: Option<Seq<char>>,
    },
    ListUsers {
        destination: [u8; 16],
        session_id: u64,
        room: Seq<char>,
        query_id: u64,
        draft: DraftView,
        nick: Option<Seq<char>>,
    },
    Ping { destination: [u8; 16], session_id: u64, query_id: u64, draft: DraftView },
    Join {
        destination: [u8; 16],
        session_id: u64,
        draft: DraftView,
        nick: Option<Seq<char>>,
        rest: Seq<(Seq<char>, Option<Seq<char>>)>,
        envelope: EnvelopeView,
    },
    Fetch {
        destination: [u8; 16],
        session_id: u64,
        descriptor: ResourceDescriptorView,
        envelope: EnvelopeView,
    },
}

impl View for Work {
    type V = WorkView;

    open spec fn view(&self) -> WorkView {
        match self {
            Work::Open { destination, session_id, nick } => WorkView::Open {
                destination: *destination,
                session_id: *session_id,
                nick: nick.deep_view(),
            },
            Work::Reopen {
                destination,
                lost,
                session_id,
                nick,
                desired_rooms,
            } => WorkView::Reopen {
                destination: *destination,
                lost: *lost,
                session_id: *session_id,
                nick: nick.deep_view(),
                desired_rooms: desired_rooms@,
            },
            Work::Send { destination, session_id, source, nick, envelope } => WorkView::Send {
                destination: *destination,
                session_id: *session_id,
                source: *source,
                nick: nick.deep_view(),
                envelope: envelope@,
            },
            Work::SendResource { session_id, source, envelope, data } => WorkView::SendResource {
                session_id: *session_id,
                source: *source,
                envelope: envelope@,
                data: data@,
            },
            Work::Disconnect { session_id, released } => WorkView::Disconnect {
                session_id: *session_id,
                released: released@,
            },
            Work::ListRooms {
                destination,
                session_id,
                query_id,
                draft,
                nick,
            } => WorkView::ListRooms {
                destination: *destination,
                session_id: *session_id,
                query_id: *query_id,
                draft: draft@,
                nick: nick.deep_view(),
            },
            Work::ListUsers {
                destination,
                session_id,
                room,
                query_id,
                draft,
                nick,
            } => WorkView::ListUsers {
                destination: *destination,
                session_id: *session_id,
                room: room@,
                query_id: *query_id,
                draft: draft@,
                nick: nick.deep_view(),
            },
            Work::Ping { destination, session_id, query_id, draft } => WorkView::Ping {
                destination: *destination,
                session_id: *session_id,
                query_id: *query_id,
                draft: draft@,
            },
            Work::Join { destination, session_id, draft, nick, rest, envelope } => WorkView::Join {
                destination: *destination,
                session_id: *session_id,
                draft: draft@,
                nick: nick.deep_view(),
                rest: rest.deep_view(),
                envelope: envelope@,
            },
            Work::Fetch { destination, session_id, descriptor, envelope } => WorkView::Fetch {
                destination: *destination,
                session_id: *session_id,
                descriptor: descriptor@,
                envelope: envelope@,
            },
        }
    }
}

impl DeepView for Work {
    type V = WorkView;

    open spec fn deep_view(&self) -> WorkView {
        self@
    }
}

/// The answer to a request.
#[derive(Debug, PartialEq, Eq)]
pub enum Reply {
    /// What is known of the hub.
    Hub(Hub),
    /// What is known of every hub.
    Hubs(Vec<Hub>),
    /// It was done.
    Done,
    /// It failed.
    Failed(Error),
}

/// What [`Reply`] holds.
#[verifier::ext_equal]
pub enum ReplyView {
    Hub(HubView),
    Hubs(Seq<HubView>),
    Done,
    Failed(ErrorView),
}

impl View for Reply {
    type V = ReplyView;

    open spec fn view(&self) -> ReplyView {
        match self {
            Reply::Hub(x) => ReplyView::Hub(x@),
            Reply::Hubs(x) => ReplyView::Hubs(x.deep_view()),
            Reply::Done => ReplyView::Done,
            Reply::Failed(x) => ReplyView::Failed(x@),
        }
    }
}

impl DeepView for Reply {
    type V = ReplyView;

    open spec fn deep_view(&self) -> ReplyView {
        self@
    }
}

/// Something that the actor wants done. Effects are carried out in their order.
#[derive(Debug, PartialEq, Eq)]
pub enum Effect {
    /// Tell the subscribers.
    Emit(Event),
    /// Answer the request.
    Reply(Reply),
    /// Answer a query with an error.
    Refuse {
        /// The query.
        query_id: u64,
        /// The error.
        error: Error,
    },
    /// Answer a query for rooms.
    AnswerRooms {
        /// The query.
        query_id: u64,
        /// The rooms.
        rooms: Vec<RoomInfo>,
    },
    /// Answer a query for members.
    AnswerUsers {
        /// The query.
        query_id: u64,
        /// The members.
        users: Vec<UserInfo>,
    },
    /// Answer a ping with the time that it took.
    AnswerPing {
        /// The query.
        query_id: u64,
    },
    /// Give up queries without an answer.
    Release(Released),
    /// Close the link of a session.
    Close {
        /// The session.
        session_id: u64,
    },
    /// Ask for a reconnection after a pause.
    Schedule {
        /// The hub.
        destination: [u8; 16],
        /// The lost session.
        session_id: u64,
        /// The pause.
        seconds: u64,
    },
    /// Answer a ping over the link of a session; failure does not matter.
    Pong {
        /// The session.
        session_id: u64,
        /// The identity that answers.
        source: [u8; 16],
        /// The ping.
        envelope: Envelope,
    },
    /// Do this work and report.
    Perform(Work),
    /// Stop taking requests.
    Stop,
}

/// What [`Effect`] holds.
#[verifier::ext_equal]
pub enum EffectView {
    Emit(EventView),
    Reply(ReplyView),
    Refuse { query_id: u64, error: ErrorView },
    AnswerRooms { query_id: u64, rooms: Seq<RoomInfoView> },
    AnswerUsers { query_id: u64, users: Seq<UserInfoView> },
    AnswerPing { query_id: u64 },
    Release(ReleasedView),
    Close { session_id: u64 },
    Schedule { destination: [u8; 16], session_id: u64, seconds: u64 },
    Pong { session_id: u64, source: [u8; 16], envelope: EnvelopeView },
    Perform(WorkView),
    Stop,
}

impl View for Effect {
    type V = EffectView;

    open spec fn view(&self) -> EffectView {
        match self {
            Effect::Emit(x) => EffectView::Emit(x@),
            Effect::Reply(x) => EffectView::Reply(x@),
            Effect::Refuse { query_id, error } => EffectView::Refuse {
                query_id: *query_id,
                error: error@,
            },
            Effect::AnswerRooms { query_id, rooms } => EffectView::AnswerRooms {
                query_id: *query_id,
                rooms: rooms.deep_view(),
            },
            Effect::AnswerUsers { query_id, users } => EffectView::AnswerUsers {
                query_id: *query_id,
                users: users.deep_view(),
            },
            Effect::AnswerPing { query_id } => EffectView::AnswerPing { query_id: *query_id },
            Effect::Release(x) => EffectView::Release(x@),
            Effect::Close { session_id } => EffectView::Close { session_id: *session_id },
            Effect::Schedule { destination, session_id, seconds } => EffectView::Schedule {
                destination: *destination,
                session_id: *session_id,
                seconds: *seconds,
            },
            Effect::Pong { session_id, source, envelope } => EffectView::Pong {
                session_id: *session_id,
                source: *source,
                envelope: envelope@,
            },
            Effect::Perform(x) => EffectView::Perform(x@),
            Effect::Stop => EffectView::Stop,
        }
    }
}

impl DeepView for Effect {
    type V = EffectView;

    open spec fn deep_view(&self) -> EffectView {
        self@
    }
}

/// How the request to enter a room again went.
#[derive(Debug, PartialEq, Eq)]
pub enum JoinAttempt {
    /// No envelope can be built for the room.
    Unbuildable,
    /// It was sent.
    Sent,
    /// It could not be sent.
    Failed(Error),
}

/// What [`JoinAttempt`] holds.
#[verifier::ext_equal]
pub enum JoinAttemptView {
    Unbuildable,
    Sent,
    Failed(ErrorView),
}

impl View for JoinAttempt {
    type V = JoinAttemptView;

    open spec fn view(&self) -> JoinAttemptView {
        match self {
            JoinAttempt::Unbuildable => JoinAttemptView::Unbuildable,
            JoinAttempt::Sent => JoinAttemptView::Sent,
            JoinAttempt::Failed(x) => JoinAttemptView::Failed(x@),
        }
    }
}

impl DeepView for JoinAttempt {
    type V = JoinAttemptView;

    open spec fn deep_view(&self) -> JoinAttemptView {
        self@
    }
}

/// A resource as the transport hands it over.
#[derive(Debug, PartialEq, Eq)]
pub struct Fetched {
    /// The bytes.
    pub data: Vec<u8>,
    /// The hash that the transport knows it by.
    pub resource_hash: [u8; 32],
}

/// What [`Fetched`] holds.
#[verifier::ext_equal]
pub struct FetchedView {
    pub data: Seq<u8>,
    pub resource_hash: [u8; 32],
}

impl View for Fetched {
    type V = FetchedView;

    open spec fn view(&self) -> FetchedView {
        FetchedView {
            data: self.data@,
            resource_hash: self.resource_hash,
        }
    }
}

impl DeepView for Fetched {
    type V = FetchedView;

    open spec fn deep_view(&self) -> FetchedView {
        self@
    }
}

/// A resource that is what was announced.
#[derive(Debug, PartialEq, Eq)]
pub struct Delivery {
    /// The resource.
    pub resource: Resource,
    /// The message that it carries, where it carries one.
    pub text: Option<(String, MessageKind)>,
}

/// What [`Delivery`] holds.
#[verifier::ext_equal]
pub struct DeliveryView {
    pub resource: ResourceView,
    pub text: Option<(Seq<char>, MessageKind)>,
}

impl View for Delivery {
    type V = DeliveryView;

    open spec fn view(&self) -> DeliveryView {
        DeliveryView {
            resource: self.resource@,
            text: match self.text {
                Some((body, kind)) => Some((body@, kind)),
                None => None,
            },
        }
    }
}

impl DeepView for Delivery {
    type V = DeliveryView;

    open spec fn deep_view(&self) -> DeliveryView {
        self@
    }
}

} // verus!
