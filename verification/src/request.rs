//! What the client asks of the protocol layer and of the actor.
use crate::types::{Envelope, EnvelopeView, Error, ErrorView};
use vstd::prelude::*;

verus! {

/// What goes into an envelope that is to be built.
#[allow(inconsistent_fields)]
#[derive(Debug, PartialEq, Eq)]
pub enum Content {
    /// A greeting to a hub.
    Hello {
        /// The nickname.
        nick: Option<String>,
    },
    /// A request to enter a room.
    Join {
        /// The room.
        room: String,
        /// Its key.
        key: Option<String>,
    },
    /// A request to leave a room.
    Part {
        /// The room.
        room: String,
    },
    /// A message or an action.
    Message {
        /// The room.
        room: String,
        /// The text.
        body: String,
        /// Whether it is an action.
        action: bool,
    },
    /// A notice to one identity.
    DirectNotice {
        /// The identity.
        target: [u8; 16],
        /// The text.
        body: String,
    },
    /// A slash command.
    Command {
        /// The room.
        room: Option<String>,
        /// The command line.
        line: String,
    },
    /// A ping.
    Ping {
        /// The number that the answer repeats.
        query_id: u64,
    },
    /// The announcement of a resource.
    Resource {
        /// The room.
        room: Option<String>,
        /// What the resource is.
        kind: String,
        /// Its bytes.
        data: Vec<u8>,
        /// How its text is encoded.
        encoding: Option<String>,
    },
}

/// What [`Content`] holds.
#[allow(inconsistent_fields)]
#[verifier::ext_equal]
pub enum ContentView {
    Hello { nick: Option<Seq<char>> },
    Join { room: Seq<char>, key: Option<Seq<char>> },
    Part { room: Seq<char> },
    Message { room: Seq<char>, body: Seq<char>, action: bool },
    DirectNotice { target: [u8; 16], body: Seq<char> },
    Command { room: Option<Seq<char>>, line: Seq<char> },
    Ping { query_id: u64 },
    Resource {
        room: Option<Seq<char>>,
        kind: Seq<char>,
        data: Seq<u8>,
        encoding: Option<Seq<char>>,
    },
}

impl View for Content {
    type V = ContentView;

    open spec fn view(&self) -> ContentView {
        match self {
            Content::Hello { nick } => ContentView::Hello { nick: nick.deep_view() },
            Content::Join { room, key } => ContentView::Join { room: room@, key: key.deep_view() },
            Content::Part { room } => ContentView::Part { room: room@ },
            Content::Message { room, body, action } => ContentView::Message {
                room: room@,
                body: body@,
                action: *action,
            },
            Content::DirectNotice { target, body } => ContentView::DirectNotice {
                target: *target,
                body: body@,
            },
            Content::Command { room, line } => ContentView::Command {
                room: room.deep_view(),
                line: line@,
            },
            Content::Ping { query_id } => ContentView::Ping { query_id: *query_id },
            Content::Resource { room, kind, data, encoding } => ContentView::Resource {
                room: room.deep_view(),
                kind: kind@,
                data: data@,
                encoding: encoding.deep_view(),
            },
        }
    }
}

impl DeepView for Content {
    type V = ContentView;

    open spec fn deep_view(&self) -> ContentView {
        self@
    }
}

/// An envelope that is to be built.
#[derive(Debug, PartialEq, Eq)]
pub struct Draft {
    /// The identity that sends it.
    pub source: [u8; 16],
    /// What goes into it.
    pub content: Content,
}

/// What [`Draft`] holds.
#[verifier::ext_equal]
pub struct DraftView {
    pub source: [u8; 16],
    pub content: ContentView,
}

impl View for Draft {
    type V = DraftView;

    open spec fn view(&self) -> DraftView {
        DraftView {
            source: self.source,
            content: self.content@,
        }
    }
}

impl DeepView for Draft {
    type V = DraftView;

    open spec fn deep_view(&self) -> DraftView {
        self@
    }
}

/// A request to the actor.
#[allow(inconsistent_fields)]
#[derive(Debug, PartialEq, Eq)]
pub enum Command {
    /// Open a session with a hub.
    Connect {
        /// The hub.
        destination: [u8; 16],
        /// The nickname to use.
        nick: Option<String>,
    },
    /// Send an envelope.
    Send {
        /// The hub.
        destination: [u8; 16],
        /// The envelope.
        envelope: Envelope,
    },
    /// Announce a resource and send it.
    SendResource {
        /// The hub.
        destination: [u8; 16],
        /// The announcement.
        envelope: Envelope,
        /// The bytes.
        data: Vec<u8>,
    },
    /// End the session with a hub.
    Disconnect {
        /// The hub.
        destination: [u8; 16],
    },
    /// Change the nickname.
    SetNick {
        /// The hub.
        destination: [u8; 16],
        /// The new nickname.
        nick: String,
    },
    /// Tell what is known of every hub.
    Hubs,
    /// Ask a hub for its rooms.
    ListRooms {
        /// The hub.
        destination: [u8; 16],
        /// The query.
        query_id: u64,
    },
    /// Ask a hub for the members of a room.
    ListUsers {
        /// The hub.
        destination: [u8; 16],
        /// The room.
        room: String,
        /// The query.
        query_id: u64,
    },
    /// Ask a hub for an answer.
    Ping {
        /// The hub.
        destination: [u8; 16],
        /// The query.
        query_id: u64,
    },
    /// Forget a query.
    CancelQuery {
        /// The query.
        query_id: u64,
    },
    /// Try to replace a session that was lost.
    Reconnect {
        /// The hub.
        destination: [u8; 16],
        /// The lost session.
        session_id: u64,
    },
    /// Stop.
    Shutdown,
}

/// What [`Command`] holds.
#[allow(inconsistent_fields)]
#[verifier::ext_equal]
pub enum CommandView {
    Connect { destination: [u8; 16], nick: Option<Seq<char>> },
    Send { destination: [u8; 16], envelope: EnvelopeView },
    SendResource { destination: [u8; 16], envelope: EnvelopeView, data: Seq<u8> },
    Disconnect { destination: [u8; 16] },
    SetNick { destination: [u8; 16], nick: Seq<char> },
    Hubs,
    ListRooms { destination: [u8; 16], query_id: u64 },
    ListUsers { destination: [u8; 16], room: Seq<char>, query_id: u64 },
    Ping { destination: [u8; 16], query_id: u64 },
    CancelQuery { query_id: u64 },
    Reconnect { destination: [u8; 16], session_id: u64 },
    Shutdown,
}

impl View for Command {
    type V = CommandView;

    open spec fn view(&self) -> CommandView {
        match self {
            Command::Connect { destination, nick } => CommandView::Connect {
                destination: *destination,
                nick: nick.deep_view(),
            },
            Command::Send { destination, envelope } => CommandView::Send {
                destination: *destination,
                envelope: envelope@,
            },
            Command::SendResource { destination, envelope, data } => CommandView::SendResource {
                destination: *destination,
                envelope: envelope@,
                data: data@,
            },
            Command::Disconnect { destination } => CommandView::Disconnect {
                destination: *destination,
            },
            Command::SetNick { destination, nick } => CommandView::SetNick {
                destination: *destination,
                nick: nick@,
            },
            Command::Hubs => CommandView::Hubs,
            Command::ListRooms { destination, query_id } => CommandView::ListRooms {
                destination: *destination,
                query_id: *query_id,
            },
            Command::ListUsers { destination, room, query_id } => CommandView::ListUsers {
                destination: *destination,
                room: room@,
                query_id: *query_id,
            },
            Command::Ping { destination, query_id } => CommandView::Ping {
                destination: *destination,
                query_id: *query_id,
            },
            Command::CancelQuery { query_id } => CommandView::CancelQuery { query_id: *query_id },
            Command::Reconnect { destination, session_id } => CommandView::Reconnect {
                destination: *destination,
                session_id: *session_id,
            },
            Command::Shutdown => CommandView::Shutdown,
        }
    }
}

impl DeepView for Command {
    type V = CommandView;

    open spec fn deep_view(&self) -> CommandView {
        self@
    }
}

/// What a fallible request came to, in terms of what its result holds.
pub open spec fn shown<T: DeepView>(result: Result<T, Error>) -> Result<T::V, ErrorView> {
    match result {
        Ok(value) => Ok(value.deep_view()),
        Err(error) => Err(error@),
    }
}

} // verus!
