//! Waiting for events and for answers.
use crate::client::{hub_of, RrcClient};
use crate::order::same_hash;
use crate::request::{shown, Command, CommandView};
use crate::text::{lower, lowered, same, strip_leading, trim, trimmed, without_leading};
use crate::types::{Error, ErrorView, Event, EventView, Hub, HubView, Message, MessageView};
use vstd::prelude::*;

verus! {

/// What came while a caller waited for an event.
#[derive(Debug, PartialEq, Eq)]
pub enum Arrival {
    /// An event.
    Event(Event),
    /// The receiver missed this many events.
    Lagged(u64),
    /// There will be no more events.
    Closed,
    /// The time is over.
    TimedOut,
}

/// What [`Arrival`] holds.
#[verifier::ext_equal]
pub enum ArrivalView {
    Event(EventView),
    Lagged(u64),
    Closed,
    TimedOut,
}

impl View for Arrival {
    type V = ArrivalView;

    open spec fn view(&self) -> ArrivalView {
        match self {
            Arrival::Event(event) => ArrivalView::Event(event@),
            Arrival::Lagged(count) => ArrivalView::Lagged(*count),
            Arrival::Closed => ArrivalView::Closed,
            Arrival::TimedOut => ArrivalView::TimedOut,
        }
    }
}

impl DeepView for Arrival {
    type V = ArrivalView;

    open spec fn deep_view(&self) -> ArrivalView {
        self@
    }
}

/// What came while a caller waited for the answer to a query.
#[derive(Debug, PartialEq, Eq)]
pub enum Answer<T> {
    /// The answer.
    Given(Result<T, Error>),
    /// Nobody will answer.
    Dropped,
    /// The time is over.
    TimedOut,
}

/// The name of a room as callers may write it, reduced to how hubs write it.
pub open spec fn plain_room(room: Seq<char>) -> Seq<char> {
    lower(strip_leading(trim(room), '#'))
}

/// A wait for a hub: for its greeting, or for its word that a room was entered.
#[derive(Debug, PartialEq, Eq)]
pub struct HubWait {
    /// The hub.
    pub destination: [u8; 16],
    /// The room, where one is waited for.
    pub room: Option<String>,
}

/// A wait for a message.
#[derive(Debug, PartialEq, Eq)]
pub struct MessageWait {
    /// The hub, where it matters.
    pub destination: Option<[u8; 16]>,
    /// The room, where it matters.
    pub room: Option<String>,
}

/// Whether `hub` is what is waited for.
pub open spec fn hub_suffices(
    hub: HubView,
    destination: [u8; 16],
    room: Option<Seq<char>>,
) -> bool {
    &&& hub.destination_hash == destination
    &&& match room {
        None => hub.connected && hub.name is Some,
        Some(room) => hub.rooms.contains(room),
    }
}

/// Whether `message` passes the filters that are given.
pub open spec fn message_passes(
    message: MessageView,
    destination: Option<[u8; 16]>,
    room: Option<Seq<char>>,
) -> bool {
    &&& destination matches Some(d) ==> message.hub == d
    &&& room matches Some(r) ==> message.room == Some(r)
}

/// What a wait for a hub comes to with what arrived; nothing where it goes on.
pub open spec fn hub_step(
    arrival: ArrivalView,
    destination: [u8; 16],
    room: Option<Seq<char>>,
) -> Option<Result<HubView, ErrorView>> {
    match arrival {
        ArrivalView::Event(event) => match event {
            EventView::HubChanged(hub) => if hub_suffices(hub, destination, room) {
                Some(Ok(hub))
            } else {
                None
            },
            _ => None,
        },
        ArrivalView::Lagged(count) => Some(Err(ErrorView::EventLagged(count))),
        ArrivalView::Closed => Some(Err(ErrorView::Stopped)),
        ArrivalView::TimedOut => Some(Err(ErrorView::Timeout)),
    }
}

/// What a wait for a message comes to with what arrived; nothing where it goes on.
pub open spec fn message_step(
    arrival: ArrivalView,
    destination: Option<[u8; 16]>,
    room: Option<Seq<char>>,
) -> Option<Result<MessageView, ErrorView>> {
    match arrival {
        ArrivalView::Event(event) => match event {
            EventView::Message(message) => if message_passes(message, destination, room) {
                Some(Ok(message))
            } else {
                None
            },
            _ => None,
        },
        ArrivalView::Lagged(count) => Some(Err(ErrorView::EventLagged(count))),
        ArrivalView::Closed => Some(Err(ErrorView::Stopped)),
        ArrivalView::TimedOut => Some(Err(ErrorView::Timeout)),
    }
}

/// What a wait for a hub comes to before any event; nothing where it goes on.
pub open spec fn hub_begin(
    hubs: Seq<HubView>,
    destination: [u8; 16],
    room: Option<Seq<char>>,
) -> Option<HubView> {
    match hub_of(hubs, destination) {
        Some(known) => if hub_suffices(known, destination, room) {
            Some(known)
        } else {
            None
        },
        None => None,
    }
}

/// Whether `message` passes the filters that are given.
pub fn message_matches(
    message: &Message,
    destination: Option<[u8; 16]>,
    room: Option<&str>,
) -> (yes: bool)
    ensures
        yes == message_passes(message@, destination, room.deep_view()),
{
    let hub_fits = match destination {
        Some(destination) => same_hash(&message.hub, &destination),
        None => true,
    };
    let room_fits = match room {
        Some(room) => match &message.room {
            Some(name) => same(name.as_str(), room),
            None => false,
        },
        None => true,
    };
    hub_fits && room_fits
}

/// Whether `room` is among `rooms`.
pub fn in_rooms(rooms: &Vec<String>, room: &str) -> (yes: bool)
    ensures
        yes == rooms.deep_view().contains(room@),
{
    let ghost all = rooms.deep_view();
    let mut i: usize = 0;
    while i < rooms.len()
        invariant
            i <= rooms.len(),
            all == rooms.deep_view(),
            forall|j: int| 0 <= j < i ==> all[j] != room@,
        decreases rooms.len() - i,
    {
        if same(rooms[i].as_str(), room) {
            assert(all[i as int] == room@);
            return true;
        }
        i += 1;
    }
    false
}

fn reduced(room: &str) -> (name: String)
    ensures
        name@ == plain_room(room@),
{
    lowered(without_leading(trimmed(room).as_str(), '#').as_str())
}

impl RrcClient {
    /// Starts a wait for the greeting of a hub.
    pub fn wait_until_connected(&self, destination: [u8; 16]) -> (wait: HubWait)
        ensures
            wait.destination == destination,
            wait.room is None,
    {
        HubWait { destination, room: None }
    }

    /// Starts a wait for the word of a hub that a room was entered.
    pub fn wait_until_joined(&self, destination: [u8; 16], room: &str) -> (wait: HubWait)
        ensures
            wait.destination == destination,
            wait.room.deep_view() == Some(plain_room(room@)),
    {
        HubWait { destination, room: Some(reduced(room)) }
    }

    /// Starts a wait for a message.
    pub fn wait_for_message(&self, destination: Option<[u8; 16]>, room: Option<&str>) -> (wait:
        MessageWait)
        ensures
            wait.destination == destination,
            wait.room.deep_view() == match room {
                Some(room) => Some(plain_room(room@)),
                None => None,
            },
    {
        let room = match room {
            Some(room) => Some(reduced(room)),
            None => None,
        };
        MessageWait { destination, room }
    }
}

impl HubWait {
    /// Whether `hub` is what is waited for.
    pub fn suffices(&self, hub: &Hub) -> (yes: bool)
        ensures
            yes == hub_suffices(hub@, self.destination, self.room.deep_view()),
    {
        if !same_hash(&hub.destination_hash, &self.destination) {
            return false;
        }
        match &self.room {
            None => hub.connected && hub.name.is_some(),
            Some(room) => in_rooms(&hub.rooms, room.as_str()),
        }
    }

    /// What the wait comes to before any event, from what is known of the hubs.
    pub fn begin(&self, client: &RrcClient, hubs: &Vec<Hub>) -> (hub: Option<Hub>)
        ensures
            hub.deep_view() == hub_begin(
                hubs.deep_view(),
                self.destination,
                self.room.deep_view(),
            ),
    {
        match client.hub(hubs, self.destination) {
            Some(known) => if self.suffices(known) {
                Some(known.clone())
            } else {
                None
            },
            None => None,
        }
    }

    /// What the wait comes to with what arrived; nothing where it goes on.
    pub fn step(&self, arrival: Arrival) -> (end: Option<Result<Hub, Error>>)
        ensures
            match end {
                Some(result) => Some(shown(result)),
                None => None,
            } == hub_step(arrival@, self.destination, self.room.deep_view()),
    {
        match arrival {
            Arrival::Event(Event::HubChanged(hub)) => if self.suffices(&hub) {
                Some(Ok(hub))
            } else {
                None
            },
            Arrival::Event(_) => None,
            Arrival::Lagged(count) => Some(Err(Error::EventLagged(count))),
            Arrival::Closed => Some(Err(Error::Stopped)),
            Arrival::TimedOut => Some(Err(Error::Timeout)),
        }
    }
}

impl MessageWait {
    /// What the wait comes to with what arrived; nothing where it goes on.
    pub fn step(&self, arrival: Arrival) -> (end: Option<Result<Message, Error>>)
        ensures
            match end {
                Some(result) => Some(shown(result)),
                None => None,
            } == message_step(arrival@, self.destination, self.room.deep_view()),
    {
        match arrival {
            Arrival::Event(Event::Message(message)) => {
                let room = match &self.room {
                    Some(room) => Some(room.as_str()),
                    None => None,
                };
                if message_matches(&message, self.destination, room) {
                    Some(Ok(message))
                } else {
                    None
                }
            },
            Arrival::Event(_) => None,
            Arrival::Lagged(count) => Some(Err(Error::EventLagged(count))),
            Arrival::Closed => Some(Err(Error::Stopped)),
            Arrival::TimedOut => Some(Err(Error::Timeout)),
        }
    }
}

/// What a request comes to with what its receiver got; nothing stands for a receiver
/// that nobody will serve.
pub fn served<T: DeepView>(reply: Option<Result<T, Error>>) -> (result: Result<T, Error>)
    ensures
        shown(result) == match reply {
            Some(given) => shown(given),
            None => Err(ErrorView::Stopped),
        },
{
    match reply {
        Some(given) => given,
        None => Err(Error::Stopped),
    }
}

/// What a query comes to with what its receiver got, and the request that follows:
/// a query that was not answered in time is cancelled.
pub fn settle<T: DeepView>(query_id: u64, answer: Answer<T>) -> (end: (
    Result<T, Error>,
    Option<Command>,
))
    ensures
        shown(end.0) == match answer {
            Answer::Given(given) => shown(given),
            Answer::Dropped => Err(ErrorView::Stopped),
            Answer::TimedOut => Err(ErrorView::Timeout),
        },
        end.1.deep_view() == if answer is TimedOut {
            Some(CommandView::CancelQuery { query_id })
        } else {
            None
        },
{
    match answer {
        Answer::Given(given) => (given, None),
        Answer::Dropped => (Err(Error::Stopped), None),
        Answer::TimedOut => (Err(Error::Timeout), Some(Command::CancelQuery { query_id })),
    }
}

} // verus!
