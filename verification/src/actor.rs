//! The state machine of the client: requests come in, effects come out.
use crate::effect::{Effect, EffectView, Released, Reply, ReplyView, Work, WorkView};
use crate::link::{session_id_after, take_session_id};
use crate::ordered_map::{ascending, OrderedMap};
use crate::order::{lex_irreflexive, Ranked};
use crate::replica::{push_onto, Replica};
use crate::request::{Command, CommandView, Content, ContentView, Draft, DraftView};
use crate::session::{waiting, without_query, Session, SessionView};
use crate::types::{Error, ErrorView, Event, EventView, Hub, HubView, MessageType};
use vstd::prelude::*;

verus! {

/// The sessions of a client.
#[derive(Debug, PartialEq, Eq)]
pub struct Actor {
    /// The identity that the client sends as.
    pub source: [u8; 16],
    /// The sessions, by hub.
    pub sessions: OrderedMap<[u8; 16], Session>,
    /// The number for the next session.
    pub next_session_id: u64,
}

/// What [`Actor`] holds.
#[verifier::ext_equal]
pub struct ActorView {
    pub source: [u8; 16],
    pub sessions: Map<Seq<u8>, SessionView>,
    pub next_session_id: u64,
}

impl View for Actor {
    type V = ActorView;

    open spec fn view(&self) -> ActorView {
        ActorView {
            source: self.source,
            sessions: self.sessions@,
            next_session_id: self.next_session_id,
        }
    }
}

impl DeepView for Actor {
    type V = ActorView;

    open spec fn deep_view(&self) -> ActorView {
        self@
    }
}

/// The actor of a client without sessions.
pub open spec fn idle(source: [u8; 16]) -> ActorView {
    ActorView { source, sessions: Map::empty(), next_session_id: 1 }
}

/// The session with a hub, where there is one.
pub open spec fn session_of(actor: ActorView, destination: [u8; 16]) -> Option<SessionView> {
    if actor.sessions.contains_key(destination@) {
        Some(actor.sessions[destination@])
    } else {
        None
    }
}

/// The actor with this session in place of the one with the hub.
pub open spec fn with_session(
    actor: ActorView,
    destination: [u8; 16],
    session: SessionView,
) -> ActorView {
    ActorView { sessions: actor.sessions.insert(destination@, session), ..actor }
}

/// The reply that there is no session with the hub.
pub open spec fn not_connected() -> Seq<EffectView> {
    seq![EffectView::Reply(ReplyView::Failed(ErrorView::NotConnected))]
}

/// The refusal of a query because there is no session with the hub.
pub open spec fn unreachable_hub(query_id: u64) -> Seq<EffectView> {
    seq![EffectView::Refuse { query_id, error: ErrorView::NotConnected }]
}

/// Whether the nickname is put on envelopes of this type.
pub open spec fn carries_nick(message_type: Option<MessageType>) -> bool {
    match message_type {
        Some(MessageType::Join) => true,
        Some(MessageType::Message) => true,
        Some(MessageType::Notice) => true,
        Some(MessageType::Action) => true,
        _ => false,
    }
}

/// What is known of a hub after the session with it was ended.
pub open spec fn ended(hub: HubView) -> HubView {
    HubView { connected: false, detail: "Disconnected"@, ..hub }
}

/// A session under another nickname.
pub open spec fn renamed(session: SessionView, nick: Seq<char>) -> SessionView {
    SessionView {
        nick: Some(nick),
        hub: HubView { nick: Some(nick), ..session.hub },
        ..session
    }
}

/// What is known of every hub, in the order of their identities.
pub open spec fn known_hubs(actor: ActorView) -> Seq<HubView> {
    ascending::<[u8; 16], SessionView>(actor.sessions).map_values(
        |key: Seq<u8>| actor.sessions[key].hub,
    )
}

/// The numbers of all sessions, in the order of the identities of their hubs.
pub open spec fn open_sessions(actor: ActorView) -> Seq<u64> {
    ascending::<[u8; 16], SessionView>(actor.sessions).map_values(
        |key: Seq<u8>| actor.sessions[key].id,
    )
}

/// Whether a lost session is to be replaced.
pub open spec fn needs_link(actor: ActorView, destination: [u8; 16], session_id: u64) -> bool {
    session_of(actor, destination) matches Some(session) && session.id == session_id
        && !session.hub.connected
}

/// The question for the rooms of a hub.
pub open spec fn list_draft(source: [u8; 16]) -> DraftView {
    DraftView { source, content: ContentView::Command { room: None, line: "/list"@ } }
}

/// The question for the members of a room.
pub open spec fn who_draft(source: [u8; 16], room: Seq<char>) -> DraftView {
    DraftView {
        source,
        content: ContentView::Command { room: Some(room), line: "/who "@ + room },
    }
}

/// The actor after a request was taken in.
pub open spec fn after_command(actor: ActorView, command: CommandView) -> ActorView {
    match command {
        CommandView::Connect { .. } => ActorView {
            next_session_id: session_id_after(actor.next_session_id),
            ..actor
        },
        CommandView::Disconnect { destination } => ActorView {
            sessions: actor.sessions.remove(destination@),
            ..actor
        },
        CommandView::SetNick { destination, nick } => match session_of(actor, destination) {
            Some(session) => with_session(actor, destination, renamed(session, nick)),
            None => actor,
        },
        CommandView::CancelQuery { query_id } => ActorView {
            sessions: actor.sessions.map_values(
                |session: SessionView| without_query(session, query_id),
            ),
            ..actor
        },
        CommandView::Reconnect { destination, session_id } => if needs_link(
            actor,
            destination,
            session_id,
        ) {
            ActorView { next_session_id: session_id_after(actor.next_session_id), ..actor }
        } else {
            actor
        },
        _ => actor,
    }
}

/// What is to be done when a request was taken in.
pub open spec fn command_effects(actor: ActorView, command: CommandView) -> Seq<EffectView> {
    let source = actor.source;
    match command {
        CommandView::Connect { destination, nick } => seq![
            EffectView::Perform(
                WorkView::Open { destination, session_id: actor.next_session_id, nick },
            ),
        ],
        CommandView::Send { destination, envelope } => match session_of(actor, destination) {
            Some(session) => seq![
                EffectView::Perform(
                    WorkView::Send {
                        destination,
                        session_id: session.id,
                        source,
                        nick: if carries_nick(envelope.message_type) {
                            session.nick
                        } else {
                            None
                        },
                        envelope,
                    },
                ),
            ],
            None => not_connected(),
        },
        CommandView::SendResource { destination, envelope, data } => match session_of(
            actor,
            destination,
        ) {
            Some(session) => seq![
                EffectView::Perform(
                    WorkView::SendResource { session_id: session.id, source, envelope, data },
                ),
            ],
            None => not_connected(),
        },
        CommandView::Disconnect { destination } => match session_of(actor, destination) {
            Some(session) => seq![
                EffectView::Emit(EventView::HubChanged(ended(session.hub))),
                EffectView::Perform(
                    WorkView::Disconnect { session_id: session.id, released: waiting(session) },
                ),
            ],
            None => not_connected(),
        },
        CommandView::SetNick { destination, nick } => match session_of(actor, destination) {
            Some(session) => seq![
                EffectView::Emit(EventView::HubChanged(renamed(session, nick).hub)),
                EffectView::Reply(ReplyView::Hub(renamed(session, nick).hub)),
            ],
            None => not_connected(),
        },
        CommandView::Hubs => seq![EffectView::Reply(ReplyView::Hubs(known_hubs(actor)))],
        CommandView::ListRooms { destination, query_id } => match session_of(actor, destination) {
            Some(session) => seq![
                EffectView::Perform(
                    WorkView::ListRooms {
                        destination,
                        session_id: session.id,
                        query_id,
                        draft: list_draft(source),
                        nick: session.nick,
                    },
                ),
            ],
            None => unreachable_hub(query_id),
        },
        CommandView::ListUsers { destination, room, query_id } => match session_of(
            actor,
            destination,
        ) {
            Some(session) => seq![
                EffectView::Perform(
                    WorkView::ListUsers {
                        destination,
                        session_id: session.id,
                        room,
                        query_id,
                        draft: who_draft(source, room),
                        nick: session.nick,
                    },
                ),
            ],
            None => unreachable_hub(query_id),
        },
        CommandView::Ping { destination, query_id } => match session_of(actor, destination) {
            Some(session) => seq![
                EffectView::Perform(
                    WorkView::Ping {
                        destination,
                        session_id: session.id,
                        query_id,
                        draft: (DraftView { source, content: ContentView::Ping { query_id } }),
                    },
                ),
            ],
            None => unreachable_hub(query_id),
        },
        CommandView::CancelQuery { query_id } => seq![EffectView::Release(set![query_id])],
        CommandView::Reconnect { destination, session_id } => if needs_link(
            actor,
            destination,
            session_id,
        ) {
            seq![
                EffectView::Perform(
                    WorkView::Reopen {
                        destination,
                        lost: session_id,
                        session_id: actor.next_session_id,
                        nick: session_of(actor, destination)->0.nick,
                        desired_rooms: session_of(actor, destination)->0.desired_rooms,
                    },
                ),
            ]
        } else {
            Seq::empty()
        },
        CommandView::Shutdown => seq![EffectView::Stop],
    }
}

/// The greeting of a client to a hub.
pub open spec fn hello_draft(source: [u8; 16], nick: Option<Seq<char>>) -> DraftView {
    DraftView { source, content: ContentView::Hello { nick } }
}

/// Whether effects ask to stop: no request and nothing from a link is taken in after them.
pub open spec fn asks_to_stop(effects: Seq<EffectView>) -> bool {
    effects.contains(EffectView::Stop)
}

/// Whether effects ask to stop.
pub fn stops(effects: &Vec<Effect>) -> (yes: bool)
    ensures
        yes == asks_to_stop(effects.deep_view()),
{
    let ghost all = effects.deep_view();
    let mut i: usize = 0;
    while i < effects.len()
        invariant
            i <= effects.len(),
            all == effects.deep_view(),
            forall|j: int| 0 <= j < i ==> all[j] != EffectView::Stop,
        decreases effects.len() - i,
    {
        if let Effect::Stop = &effects[i] {
            assert(all[i as int] == EffectView::Stop);
            return true;
        }
        assert(all[i as int] != EffectView::Stop);
        i += 1;
    }
    false
}

/// One effect alone.
fn only(effect: Effect) -> (effects: Vec<Effect>)
    ensures
        effects.deep_view() == seq![effect@],
{
    let ghost wanted = effect@;
    let mut effects: Vec<Effect> = Vec::new();
    push_onto(&mut effects, effect);
    assert(effects.deep_view() =~= seq![wanted]);
    effects
}

impl Actor {
    /// The actor of a client without sessions.
    pub fn new(source: [u8; 16]) -> (actor: Actor)
        ensures
            actor@ == idle(source),
    {
        Actor { source, sessions: OrderedMap::new(), next_session_id: 1 }
    }

    /// Drafts the greeting to a hub.
    pub fn hello(&self, nick: Option<String>) -> (draft: Draft)
        ensures
            draft@ == hello_draft(self.source, nick.deep_view()),
    {
        Draft { source: self.source, content: Content::Hello { nick } }
    }

    /// What is known of every hub, in the order of their identities.
    pub fn known_hubs(&self) -> (hubs: Vec<Hub>)
        ensures
            hubs.deep_view() == known_hubs(self@),
    {
        let mut hubs: Vec<Hub> = Vec::new();
        let count = self.sessions.len();
        let ghost keys = self.sessions.keys();
        let ghost wanted = known_hubs(self@);
        let mut i: usize = 0;
        assert(hubs.deep_view() =~= wanted.take(0));
        while i < count
            invariant
                i <= count == keys.len(),
                keys == self.sessions.keys(),
                keys == ascending::<[u8; 16], SessionView>(self@.sessions),
                wanted == known_hubs(self@),
                hubs.deep_view() == wanted.take(i as int),
            decreases count - i,
        {
            let (_, session) = self.sessions.entry(i);
            push_onto(&mut hubs, session.hub.clone());
            i += 1;
            assert(wanted.take(i as int) =~= wanted.take(i - 1).push(wanted[i - 1]));
        }
        assert(wanted.take(count as int) =~= wanted);
        hubs
    }

    /// The numbers of all sessions, in the order of the identities of their hubs: what is to be
    /// closed when the client stops.
    pub fn open_sessions(&self) -> (ids: Vec<u64>)
        ensures
            ids@ == open_sessions(self@),
    {
        let mut ids: Vec<u64> = Vec::new();
        let count = self.sessions.len();
        let ghost keys = self.sessions.keys();
        let ghost wanted = open_sessions(self@);
        let mut i: usize = 0;
        assert(ids@ =~= wanted.take(0));
        while i < count
            invariant
                i <= count == keys.len(),
                keys == self.sessions.keys(),
                keys == ascending::<[u8; 16], SessionView>(self@.sessions),
                wanted == open_sessions(self@),
                ids@ == wanted.take(i as int),
            decreases count - i,
        {
            let (_, session) = self.sessions.entry(i);
            ids.push(session.id);
            i += 1;
            assert(wanted.take(i as int) =~= wanted.take(i - 1).push(wanted[i - 1]));
        }
        assert(wanted.take(count as int) =~= wanted);
        ids
    }

    /// The hubs that there are sessions with, in the order of their identities.
    fn destinations(&self) -> (hubs: Vec<[u8; 16]>)
        ensures
            forall|key: Seq<u8>| #[trigger] self@.sessions.contains_key(key) ==> exists|j: int|
                0 <= j < hubs.len() && (#[trigger] hubs@[j])@ == key,
            forall|j: int| 0 <= j < hubs.len() ==> self@.sessions.contains_key(
                (#[trigger] hubs@[j])@,
            ),
            forall|i: int, j: int|
                0 <= i < j < hubs.len() ==> (#[trigger] hubs@[i])@ != (#[trigger] hubs@[j])@,
    {
        let mut hubs: Vec<[u8; 16]> = Vec::new();
        let count = self.sessions.len();
        let ghost keys = self.sessions.keys();
        let mut i: usize = 0;
        while i < count
            invariant
                i <= count == keys.len(),
                keys == self.sessions.keys(),
                hubs.len() == i,
                forall|j: int| 0 <= j < i ==> (#[trigger] hubs@[j])@ == keys[j],
            decreases count - i,
        {
            let (hub, _) = self.sessions.entry(i);
            hubs.push(*hub);
            i += 1;
        }
        proof {
            assert forall|key: Seq<u8>| #[trigger]
                self@.sessions.contains_key(key) implies exists|j: int|
                0 <= j < hubs.len() && (#[trigger] hubs@[j])@ == key by {
                assert(keys.contains(key));
                let j = choose|j: int| 0 <= j < keys.len() && keys[j] == key;
                assert(hubs@[j]@ == key);
            }
            assert forall|j: int| 0 <= j < hubs.len() implies self@.sessions.contains_key(
                (#[trigger] hubs@[j])@,
            ) by {
                assert(keys.contains(keys[j]));
            }
            assert forall|i: int, j: int| 0 <= i < j < hubs.len() implies (
            #[trigger] hubs@[i])@ != (#[trigger] hubs@[j])@ by {
                lex_irreflexive(<[u8; 16] as Ranked>::rank(keys[i]));
            }
        }
        hubs
    }

    /// Forgets a query.
    fn cancel_query(&mut self, query_id: u64)
        ensures
            final(self)@ == after_command(old(self)@, CommandView::CancelQuery { query_id }),
    {
        let ghost before = self@.sessions;
        let hubs = self.destinations();
        let mut i: usize = 0;
        while i < hubs.len()
            invariant
                i <= hubs.len(),
                before == old(self)@.sessions,
                self@.source == old(self)@.source,
                self@.next_session_id == old(self)@.next_session_id,
                self@.sessions.dom() =~= before.dom(),
                forall|j: int| 0 <= j < hubs.len() ==> before.contains_key(
                    (#[trigger] hubs@[j])@,
                ),
                forall|m: int, n: int|
                    0 <= m < n < hubs.len() ==> (#[trigger] hubs@[m])@ != (#[trigger] hubs@[n])@,
                forall|j: int|
                    0 <= j < i ==> self@.sessions[(#[trigger] hubs@[j])@] == without_query(
                        before[hubs@[j]@],
                        query_id,
                    ),
                forall|j: int|
                    i <= j < hubs.len() ==> self@.sessions[(#[trigger] hubs@[j])@]
                        == before[hubs@[j]@],
            decreases hubs.len() - i,
        {
            let hub = hubs[i];
            if let Some(mut session) = self.sessions.remove(&hub) {
                session.cancel(query_id);
                self.sessions.insert(hub, session);
            }
            i += 1;
        }
        let ghost wanted = after_command(old(self)@, CommandView::CancelQuery { query_id });
        assert forall|key: Seq<u8>| self@.sessions.contains_key(key) implies #[trigger]
            self@.sessions[key] == wanted.sessions[key] by {
            assert(before.contains_key(key));
            let j = choose|j: int| 0 <= j < hubs.len() && (#[trigger] hubs@[j])@ == key;
            assert(self@.sessions[hubs@[j]@] == without_query(before[key], query_id));
        }
        assert(self@.sessions =~= wanted.sessions);
    }

    /// Takes in a request, and says what is to be done.
    pub fn handle_command(&mut self, command: Command) -> (effects: Vec<Effect>)
        ensures
            final(self)@ == after_command(old(self)@, command@),
            effects.deep_view() == command_effects(old(self)@, command@),
    {
        let ghost before = self@;
        let source = self.source;
        match command {
            Command::Connect { destination, nick } => {
                let session_id = take_session_id(&mut self.next_session_id);
                only(Effect::Perform(Work::Open { destination, session_id, nick }))
            },
            Command::Send { destination, envelope } => match self.sessions.get(&destination) {
                Some(session) => {
                    let stamped = match envelope.message_type {
                        Some(MessageType::Join) => true,
                        Some(MessageType::Message) => true,
                        Some(MessageType::Notice) => true,
                        Some(MessageType::Action) => true,
                        _ => false,
                    };
                    let nick = if stamped {
                        session.nick.replica()
                    } else {
                        None
                    };
                    only(
                        Effect::Perform(
                            Work::Send {
                                destination,
                                session_id: session.id,
                                source,
                                nick,
                                envelope,
                            },
                        ),
                    )
                },
                None => only(Effect::Reply(Reply::Failed(Error::NotConnected))),
            },
            Command::SendResource { destination, envelope, data } => match self.sessions.get(
                &destination,
            ) {
                Some(session) => only(
                    Effect::Perform(
                        Work::SendResource { session_id: session.id, source, envelope, data },
                    ),
                ),
                None => only(Effect::Reply(Reply::Failed(Error::NotConnected))),
            },
            Command::Disconnect { destination } => match self.sessions.remove(&destination) {
                Some(session) => {
                    let released = session.waiting_queries();
                    let session_id = session.id;
                    let mut hub = session.hub;
                    hub.connected = false;
                    hub.detail = "Disconnected".to_owned();
                    let mut effects = only(Effect::Emit(Event::HubChanged(hub)));
                    push_onto(
                        &mut effects,
                        Effect::Perform(Work::Disconnect { session_id, released }),
                    );
                    assert(effects.deep_view() =~= command_effects(before, command@));
                    effects
                },
                None => {
                    assert(self@.sessions =~= before.sessions.remove(destination@));
                    only(Effect::Reply(Reply::Failed(Error::NotConnected)))
                },
            },
            Command::SetNick { destination, nick } => match self.sessions.remove(&destination) {
                Some(mut session) => {
                    session.nick = Some(nick.clone());
                    session.hub.nick = Some(nick);
                    let mut effects = only(Effect::Emit(Event::HubChanged(session.hub.clone())));
                    push_onto(&mut effects, Effect::Reply(Reply::Hub(session.hub.clone())));
                    self.sessions.insert(destination, session);
                    assert(self@ =~= after_command(before, command@));
                    assert(effects.deep_view() =~= command_effects(before, command@));
                    effects
                },
                None => {
                    assert(self@.sessions =~= before.sessions);
                    only(Effect::Reply(Reply::Failed(Error::NotConnected)))
                },
            },
            Command::Hubs => only(Effect::Reply(Reply::Hubs(self.known_hubs()))),
            Command::ListRooms { destination, query_id } => match self.sessions.get(
                &destination,
            ) {
                Some(session) => {
                    let content = Content::Command { room: None, line: "/list".to_owned() };
                    only(
                        Effect::Perform(
                            Work::ListRooms {
                                destination,
                                session_id: session.id,
                                query_id,
                                draft: Draft { source, content },
                                nick: session.nick.replica(),
                            },
                        ),
                    )
                },
                None => only(Effect::Refuse { query_id, error: Error::NotConnected }),
            },
            Command::ListUsers { destination, room, query_id } => match self.sessions.get(
                &destination,
            ) {
                Some(session) => {
                    let mut line = "/who ".to_owned();
                    line.append(room.as_str());
                    let content = Content::Command { room: Some(room.clone()), line };
                    only(
                        Effect::Perform(
                            Work::ListUsers {
                                destination,
                                session_id: session.id,
                                room,
                                query_id,
                                draft: Draft { source, content },
                                nick: session.nick.replica(),
                            },
                        ),
                    )
                },
                None => only(Effect::Refuse { query_id, error: Error::NotConnected }),
            },
            Command::Ping { destination, query_id } => match self.sessions.get(&destination) {
                Some(session) => only(
                    Effect::Perform(
                        Work::Ping {
                            destination,
                            session_id: session.id,
                            query_id,
                            draft: Draft { source, content: Content::Ping { query_id } },
                        },
                    ),
                ),
                None => only(Effect::Refuse { query_id, error: Error::NotConnected }),
            },
            Command::CancelQuery { query_id } => {
                self.cancel_query(query_id);
                let mut query_ids: Vec<u64> = Vec::new();
                query_ids.push(query_id);
                let released = Released { query_ids };
                assert(released@ =~= set![query_id]) by {
                    assert(query_ids@[0] == query_id);
                    assert(query_ids@.contains(query_id));
                }
                only(Effect::Release(released))
            },
            Command::Reconnect { destination, session_id } => self.reconnect(
                destination,
                session_id,
            ),
            Command::Shutdown => only(Effect::Stop),
        }
    }

    /// Asks for a link in place of a lost one, where that is still missing.
    fn reconnect(&mut self, destination: [u8; 16], expected_session_id: u64) -> (effects: Vec<
        Effect,
    >)
        ensures
            final(self)@ == after_command(
                old(self)@,
                CommandView::Reconnect { destination, session_id: expected_session_id },
            ),
            effects.deep_view() == command_effects(
                old(self)@,
                CommandView::Reconnect { destination, session_id: expected_session_id },
            ),
    {
        let (nick, desired_rooms) = match self.sessions.get(&destination) {
            Some(current) => {
                if current.id != expected_session_id || current.hub.connected {
                    let effects: Vec<Effect> = Vec::new();
                    assert(effects.deep_view() =~= Seq::<EffectView>::empty());
                    return effects;
                }
                (current.nick.replica(), current.desired_rooms.clone())
            },
            None => {
                let effects: Vec<Effect> = Vec::new();
                assert(effects.deep_view() =~= Seq::<EffectView>::empty());
                return effects;
            },
        };
        let session_id = take_session_id(&mut self.next_session_id);
        only(
            Effect::Perform(
                Work::Reopen {
                    destination,
                    lost: expected_session_id,
                    session_id,
                    nick,
                    desired_rooms,
                },
            ),
        )
    }
}

} // verus!
