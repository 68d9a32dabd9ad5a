//! What the actor makes of what came over a link, and of work that was done.
use crate::actor::{session_of, with_session, Actor, ActorView};
use crate::delivery::{after_delivery, delivery_effects, take_delivery, worded};
use crate::effect::{
    Delivery, DeliveryView, Effect, EffectView, JoinAttempt, JoinAttemptView, NoticeReading,
    NoticeReadingView, Received, ReceivedView, Released, Reply, ReplyView,
};
use crate::inbound::{
    after_join, after_received, attempt_after, join_effects, next_attempt, received_effects, retry,
    retry_effects, take_join, take_received,
};
use crate::ordered_map::OrderedMap;
use crate::queue::enqueue;
use crate::replica::{push_onto, Replica};
use crate::request::shown;
use crate::session::{fresh_session, waiting, Session, SessionView};
use crate::types::{
    error_text, Envelope, EnvelopeView, Error, ErrorView, Event, EventView, HubView, MessageType,
};
use std::collections::VecDeque;
use vstd::prelude::*;

verus! {

/// The session with a hub, where it is still the one that is meant.
pub open spec fn live_session(
    actor: ActorView,
    destination: [u8; 16],
    session_id: u64,
) -> Option<SessionView> {
    match session_of(actor, destination) {
        Some(session) if session.id == session_id => Some(session),
        _ => None,
    }
}

/// The actor after something came over the link of a session.
pub open spec fn after_inbound(
    actor: ActorView,
    hub: [u8; 16],
    session_id: u64,
    received: ReceivedView,
) -> ActorView {
    match live_session(actor, hub, session_id) {
        Some(session) => with_session(actor, hub, after_received(session, received)),
        None => actor,
    }
}

/// What is to be done when something came over the link of a session.
pub open spec fn inbound_effects(
    actor: ActorView,
    hub: [u8; 16],
    session_id: u64,
    received: ReceivedView,
) -> Seq<EffectView> {
    match live_session(actor, hub, session_id) {
        Some(session) => received_effects(actor.source, session, hub, received),
        None => Seq::empty(),
    }
}

/// The end of the session that another one takes the place of.
pub open spec fn replacement_effects(actor: ActorView, destination: [u8; 16]) -> Seq<EffectView> {
    match session_of(actor, destination) {
        Some(previous) => seq![
            EffectView::Close { session_id: previous.id },
            EffectView::Release(waiting(previous)),
        ],
        None => Seq::empty(),
    }
}

/// The actor after the attempt to open a link ended.
pub open spec fn after_connect(
    actor: ActorView,
    destination: [u8; 16],
    session_id: u64,
    nick: Option<Seq<char>>,
    result: Result<(), ErrorView>,
) -> ActorView {
    match result {
        Ok(_) => with_session(actor, destination, fresh_session(session_id, destination, nick)),
        Err(_) => actor,
    }
}

/// What is to be done when the attempt to open a link ended.
pub open spec fn connect_effects(
    actor: ActorView,
    destination: [u8; 16],
    session_id: u64,
    nick: Option<Seq<char>>,
    result: Result<(), ErrorView>,
) -> Seq<EffectView> {
    match result {
        Ok(_) => {
            let hub = fresh_session(session_id, destination, nick).hub;
            replacement_effects(actor, destination) + seq![
                EffectView::Emit(EventView::HubChanged(hub)),
                EffectView::Reply(ReplyView::Hub(hub)),
            ]
        },
        Err(error) => seq![EffectView::Reply(ReplyView::Failed(error))],
    }
}

/// The session that takes the place of a lost one.
pub open spec fn restored_session(
    session_id: u64,
    destination: [u8; 16],
    nick: Option<Seq<char>>,
    desired_rooms: Map<Seq<char>, Option<Seq<char>>>,
) -> SessionView {
    let fresh = fresh_session(session_id, destination, nick);
    SessionView {
        hub: HubView { detail: "Reconnected; waiting for WELCOME"@, ..fresh.hub },
        desired_rooms,
        restore_rooms_on_welcome: true,
        ..fresh
    }
}

/// A lost session that could not be replaced.
pub open spec fn still_lost(session: SessionView, error: ErrorView) -> SessionView {
    SessionView {
        hub: HubView { detail: "Reconnect failed: "@ + error_text(error), ..session.hub },
        reconnect_attempt: attempt_after(session.reconnect_attempt),
        ..session
    }
}

/// The actor after the attempt to replace a lost link ended.
pub open spec fn after_reconnect(
    actor: ActorView,
    destination: [u8; 16],
    lost: u64,
    session_id: u64,
    nick: Option<Seq<char>>,
    desired_rooms: Map<Seq<char>, Option<Seq<char>>>,
    result: Result<(), ErrorView>,
) -> ActorView {
    match result {
        Ok(_) => with_session(
            actor,
            destination,
            restored_session(session_id, destination, nick, desired_rooms),
        ),
        Err(error) => match live_session(actor, destination, lost) {
            Some(session) => with_session(actor, destination, still_lost(session, error)),
            None => actor,
        },
    }
}

/// What is to be done when the attempt to replace a lost link ended.
pub open spec fn reconnect_effects(
    actor: ActorView,
    destination: [u8; 16],
    lost: u64,
    session_id: u64,
    nick: Option<Seq<char>>,
    desired_rooms: Map<Seq<char>, Option<Seq<char>>>,
    result: Result<(), ErrorView>,
) -> Seq<EffectView> {
    match result {
        Ok(_) => replacement_effects(actor, destination).push(
            EffectView::Emit(
                EventView::HubChanged(
                    restored_session(session_id, destination, nick, desired_rooms).hub,
                ),
            ),
        ),
        Err(error) => match live_session(actor, destination, lost) {
            Some(session) => retry_effects(destination, still_lost(session, error)),
            None => Seq::empty(),
        },
    }
}

/// The reply to a request that ended like this.
pub open spec fn reply_to(result: Result<(), ErrorView>) -> EffectView {
    match result {
        Ok(_) => EffectView::Reply(ReplyView::Done),
        Err(error) => EffectView::Reply(ReplyView::Failed(error)),
    }
}

/// The desired rooms after an envelope was sent: JOIN adds its room, and PART takes it away.
pub open spec fn rooms_after_send(
    desired_rooms: Map<Seq<char>, Option<Seq<char>>>,
    envelope: EnvelopeView,
) -> Map<Seq<char>, Option<Seq<char>>> {
    match (envelope.message_type, envelope.room) {
        (Some(MessageType::Join), Some(room)) => desired_rooms.insert(room, envelope.body_text),
        (Some(MessageType::Part), Some(room)) => desired_rooms.remove(room),
        _ => desired_rooms,
    }
}

/// The actor after the attempt to send an envelope ended.
pub open spec fn after_send(
    actor: ActorView,
    destination: [u8; 16],
    session_id: u64,
    envelope: EnvelopeView,
    result: Result<(), ErrorView>,
) -> ActorView {
    match (result, live_session(actor, destination, session_id)) {
        (Ok(_), Some(session)) => with_session(
            actor,
            destination,
            SessionView {
                desired_rooms: rooms_after_send(session.desired_rooms, envelope),
                ..session
            },
        ),
        _ => actor,
    }
}

/// Queues in which the query `id` waits for the members of `room`, after all that wait
/// for them already.
pub open spec fn queued(
    queues: Map<Seq<char>, Seq<u64>>,
    room: Seq<char>,
    id: u64,
) -> Map<Seq<char>, Seq<u64>> {
    if queues.contains_key(room) {
        queues.insert(room, queues[room].push(id))
    } else {
        queues.insert(room, seq![id])
    }
}

/// A question that was put to a hub.
pub enum QuestionView {
    /// What rooms there are.
    Rooms,
    /// Who is in a room.
    Users(Seq<char>),
    /// Whether it answers.
    Ping,
}

/// A session that waits for the answer to a question.
pub open spec fn asked(session: SessionView, question: QuestionView, id: u64) -> SessionView {
    match question {
        QuestionView::Rooms => SessionView {
            pending_room_queries: session.pending_room_queries.push(id),
            ..session
        },
        QuestionView::Users(room) => SessionView {
            pending_user_queries: queued(session.pending_user_queries, room, id),
            ..session
        },
        QuestionView::Ping => SessionView {
            pending_pings: session.pending_pings.insert(id),
            ..session
        },
    }
}

/// The actor after the attempt to put a question to a hub ended.
pub open spec fn after_question(
    actor: ActorView,
    destination: [u8; 16],
    session_id: u64,
    question: QuestionView,
    query_id: u64,
    result: Result<(), ErrorView>,
) -> ActorView {
    match (result, live_session(actor, destination, session_id)) {
        (Ok(_), Some(session)) => with_session(
            actor,
            destination,
            asked(session, question, query_id),
        ),
        _ => actor,
    }
}

/// What is to be done when the attempt to put a question to a hub ended: nothing, where
/// the question waits for its answer.
pub open spec fn question_effects(
    actor: ActorView,
    destination: [u8; 16],
    session_id: u64,
    query_id: u64,
    result: Result<(), ErrorView>,
) -> Seq<EffectView> {
    match (result, live_session(actor, destination, session_id)) {
        (Err(error), _) => seq![EffectView::Refuse { query_id, error }],
        (Ok(_), None) => seq![EffectView::Refuse { query_id, error: ErrorView::NotConnected }],
        (Ok(_), Some(_)) => Seq::empty(),
    }
}

/// The actor after the request to enter a room again went like this.
pub open spec fn after_rejoin(
    actor: ActorView,
    destination: [u8; 16],
    session_id: u64,
    attempt: JoinAttemptView,
) -> ActorView {
    match live_session(actor, destination, session_id) {
        Some(session) => with_session(actor, destination, after_join(session, attempt)),
        None => actor,
    }
}

/// What is to be done when the request to enter a room again went like this.
pub open spec fn rejoin_effects(
    actor: ActorView,
    destination: [u8; 16],
    session_id: u64,
    attempt: JoinAttemptView,
    rest: Seq<(Seq<char>, Option<Seq<char>>)>,
    envelope: EnvelopeView,
) -> Seq<EffectView> {
    match live_session(actor, destination, session_id) {
        Some(session) => join_effects(
            actor.source,
            session,
            destination,
            attempt,
            rest,
            envelope,
        ),
        None => Seq::empty(),
    }
}

/// The actor after a resource came.
pub open spec fn after_resource(
    actor: ActorView,
    destination: [u8; 16],
    session_id: u64,
    delivery: Result<DeliveryView, Seq<char>>,
    reading: NoticeReadingView,
) -> ActorView {
    match live_session(actor, destination, session_id) {
        Some(session) => with_session(
            actor,
            destination,
            after_delivery(session, delivery, reading),
        ),
        None => actor,
    }
}

/// What is to be done when a resource came.
pub open spec fn resource_effects(
    actor: ActorView,
    destination: [u8; 16],
    session_id: u64,
    envelope: EnvelopeView,
    delivery: Result<DeliveryView, Seq<char>>,
    reading: NoticeReadingView,
) -> Seq<EffectView> {
    match live_session(actor, destination, session_id) {
        Some(session) => delivery_effects(session, destination, envelope, delivery, reading),
        None => Seq::empty(),
    }
}

/// Nothing to be done.
fn nothing() -> (effects: Vec<Effect>)
    ensures
        effects.deep_view() == Seq::<EffectView>::empty(),
{
    let effects: Vec<Effect> = Vec::new();
    assert(effects.deep_view() =~= Seq::<EffectView>::empty());
    effects
}

/// The reply to a request that ended like this.
fn reply(result: Result<(), Error>) -> (effect: Effect)
    ensures
        effect@ == reply_to(shown(result)),
{
    match result {
        Ok(()) => Effect::Reply(Reply::Done),
        Err(error) => Effect::Reply(Reply::Failed(error)),
    }
}

impl Actor {
    /// Takes the session with a hub out, where it is still the one that is meant.
    fn take_live(&mut self, destination: [u8; 16], session_id: u64) -> (session: Option<Session>)
        ensures
            match session {
                Some(session) => {
                    &&& live_session(old(self)@, destination, session_id) == Some(session@)
                    &&& final(self)@ == (ActorView {
                        sessions: old(self)@.sessions.remove(destination@),
                        ..old(self)@
                    })
                },
                None => {
                    &&& live_session(old(self)@, destination, session_id) is None
                    &&& final(self)@ == old(self)@
                },
            },
    {
        let ghost before = self@;
        match self.sessions.remove(&destination) {
            Some(session) => {
                if session.id == session_id {
                    Some(session)
                } else {
                    self.sessions.insert(destination, session);
                    assert(self@.sessions =~= before.sessions);
                    None
                }
            },
            None => {
                assert(self@.sessions =~= before.sessions);
                None
            },
        }
    }

    /// Puts a session in the place of the one with the hub.
    fn put(&mut self, destination: [u8; 16], session: Session)
        ensures
            final(self)@ == with_session(old(self)@, destination, session@),
    {
        self.sessions.insert(destination, session);
    }

    /// Takes in what came over the link of a session, and says what is to be done.
    pub fn handle_inbound(
        &mut self,
        hub: [u8; 16],
        session_id: u64,
        received: Received,
    ) -> (effects: Vec<Effect>)
        ensures
            final(self)@ == after_inbound(old(self)@, hub, session_id, received@),
            effects.deep_view() == inbound_effects(old(self)@, hub, session_id, received@),
    {
        match self.take_live(hub, session_id) {
            Some(mut session) => {
                let effects = take_received(self.source, &mut session, hub, received);
                self.put(hub, session);
                assert(self@ =~= after_inbound(old(self)@, hub, session_id, received@));
                effects
            },
            None => nothing(),
        }
    }

    /// Puts a new session in place, and says what is to be done with the one before.
    fn replace(&mut self, destination: [u8; 16], session: Session) -> (effects: Vec<Effect>)
        ensures
            final(self)@ == with_session(old(self)@, destination, session@),
            effects.deep_view() == replacement_effects(old(self)@, destination),
    {
        let mut effects = nothing();
        if let Some(previous) = self.sessions.insert(destination, session) {
            push_onto(&mut effects, Effect::Close { session_id: previous.id });
            push_onto(&mut effects, Effect::Release(previous.waiting_queries()));
        }
        assert(effects.deep_view() =~= replacement_effects(old(self)@, destination));
        effects
    }

    /// Takes in how the attempt to open a link ended, and says what is to be done.
    pub fn finish_connect(
        &mut self,
        destination: [u8; 16],
        session_id: u64,
        nick: Option<String>,
        result: Result<(), Error>,
    ) -> (effects: Vec<Effect>)
        ensures
            final(self)@ == after_connect(
                old(self)@,
                destination,
                session_id,
                nick.deep_view(),
                shown(result),
            ),
            effects.deep_view() == connect_effects(
                old(self)@,
                destination,
                session_id,
                nick.deep_view(),
                shown(result),
            ),
    {
        let ghost wanted = connect_effects(
            self@,
            destination,
            session_id,
            nick.deep_view(),
            shown(result),
        );
        let mut effects = nothing();
        match result {
            Ok(()) => {
                let session = Session::fresh(session_id, destination, nick);
                let hub = session.hub.clone();
                effects = self.replace(destination, session);
                push_onto(&mut effects, Effect::Emit(Event::HubChanged(hub.clone())));
                push_onto(&mut effects, Effect::Reply(Reply::Hub(hub)));
            },
            Err(error) => {
                push_onto(&mut effects, Effect::Reply(Reply::Failed(error)));
            },
        }
        assert(effects.deep_view() =~= wanted);
        effects
    }

    /// Takes in how the attempt to replace a lost link ended, and says what is to be done.
    pub fn finish_reconnect(
        &mut self,
        destination: [u8; 16],
        lost: u64,
        session_id: u64,
        nick: Option<String>,
        desired_rooms: OrderedMap<String, Option<String>>,
        result: Result<(), Error>,
    ) -> (effects: Vec<Effect>)
        ensures
            final(self)@ == after_reconnect(
                old(self)@,
                destination,
                lost,
                session_id,
                nick.deep_view(),
                desired_rooms@,
                shown(result),
            ),
            effects.deep_view() == reconnect_effects(
                old(self)@,
                destination,
                lost,
                session_id,
                nick.deep_view(),
                desired_rooms@,
                shown(result),
            ),
    {
        let ghost before = self@;
        let ghost wanted = reconnect_effects(
            self@,
            destination,
            lost,
            session_id,
            nick.deep_view(),
            desired_rooms@,
            shown(result),
        );
        match result {
            Ok(()) => {
                let mut session = Session::fresh(session_id, destination, nick);
                session.desired_rooms = desired_rooms;
                session.restore_rooms_on_welcome = true;
                session.hub.detail = "Reconnected; waiting for WELCOME".to_owned();
                let hub = session.hub.clone();
                let mut effects = self.replace(destination, session);
                push_onto(&mut effects, Effect::Emit(Event::HubChanged(hub)));
                assert(effects.deep_view() =~= wanted);
                effects
            },
            Err(error) => match self.take_live(destination, lost) {
                Some(mut session) => {
                    session.reconnect_attempt = next_attempt(session.reconnect_attempt);
                    let mut detail = "Reconnect failed: ".to_owned();
                    detail.append(error.text().as_str());
                    session.hub.detail = detail;
                    let effects = retry(destination, &session);
                    self.put(destination, session);
                    assert(self@ =~= with_session(
                        before,
                        destination,
                        still_lost(live_session(before, destination, lost)->0, error@),
                    ));
                    effects
                },
                None => nothing(),
            },
        }
    }

    /// Takes in how the attempt to send an envelope ended, and says what is to be done.
    pub fn finish_send(
        &mut self,
        destination: [u8; 16],
        session_id: u64,
        envelope: &Envelope,
        result: Result<(), Error>,
    ) -> (effects: Vec<Effect>)
        ensures
            final(self)@ == after_send(
                old(self)@,
                destination,
                session_id,
                envelope@,
                shown(result),
            ),
            effects.deep_view() == seq![reply_to(shown(result))],
    {
        let ghost before = self@;
        if result.is_ok() {
            if let Some(mut session) = self.take_live(destination, session_id) {
                match (envelope.message_type, &envelope.room) {
                    (Some(MessageType::Join), Some(room)) => {
                        session.desired_rooms.insert(room.clone(), envelope.body_text.replica());
                    },
                    (Some(MessageType::Part), Some(room)) => {
                        session.desired_rooms.remove(room);
                    },
                    _ => {},
                }
                self.put(destination, session);
                assert(self@ =~= after_send(
                    before,
                    destination,
                    session_id,
                    envelope@,
                    shown(result),
                ));
            }
        }
        let ghost wanted = reply_to(shown(result));
        let mut effects = nothing();
        push_onto(&mut effects, reply(result));
        assert(effects.deep_view() =~= seq![wanted]);
        effects
    }

    /// Takes in how the attempt to send a resource ended, and says what is to be done.
    pub fn finish_send_resource(&self, result: Result<(), Error>) -> (effects: Vec<Effect>)
        ensures
            effects.deep_view() == seq![reply_to(shown(result))],
    {
        let ghost wanted = reply_to(shown(result));
        let mut effects = nothing();
        push_onto(&mut effects, reply(result));
        assert(effects.deep_view() =~= seq![wanted]);
        effects
    }

    /// Takes in how the attempt to close a link ended, and says what is to be done.
    pub fn finish_disconnect(&self, released: Released, result: Result<(), Error>) -> (effects: Vec<
        Effect,
    >)
        ensures
            effects.deep_view() == seq![
                EffectView::Release(released@),
                reply_to(shown(result)),
            ],
    {
        let ghost wanted = seq![EffectView::Release(released@), reply_to(shown(result))];
        let mut effects = nothing();
        push_onto(&mut effects, Effect::Release(released));
        push_onto(&mut effects, reply(result));
        assert(effects.deep_view() =~= wanted);
        effects
    }

    /// Takes in how the attempt to ask a hub for its rooms ended, and says what is to be done.
    pub fn finish_list_rooms(
        &mut self,
        destination: [u8; 16],
        session_id: u64,
        query_id: u64,
        result: Result<(), Error>,
    ) -> (effects: Vec<Effect>)
        ensures
            final(self)@ == after_question(
                old(self)@,
                destination,
                session_id,
                QuestionView::Rooms,
                query_id,
                shown(result),
            ),
            effects.deep_view() == question_effects(
                old(self)@,
                destination,
                session_id,
                query_id,
                shown(result),
            ),
    {
        let ghost before = self@;
        if let Err(error) = result {
            return refused(query_id, error);
        }
        match self.take_live(destination, session_id) {
            Some(mut session) => {
                enqueue(&mut session.pending_room_queries, query_id);
                self.put(destination, session);
                assert(self@ =~= with_session(before, destination, session@));
                nothing()
            },
            None => refused(query_id, Error::NotConnected),
        }
    }

    /// Takes in how the attempt to ask for the members of a room ended, and says what is to
    /// be done.
    pub fn finish_list_users(
        &mut self,
        destination: [u8; 16],
        session_id: u64,
        room: String,
        query_id: u64,
        result: Result<(), Error>,
    ) -> (effects: Vec<Effect>)
        ensures
            final(self)@ == after_question(
                old(self)@,
                destination,
                session_id,
                QuestionView::Users(room@),
                query_id,
                shown(result),
            ),
            effects.deep_view() == question_effects(
                old(self)@,
                destination,
                session_id,
                query_id,
                shown(result),
            ),
    {
        let ghost before = self@;
        if let Err(error) = result {
            return refused(query_id, error);
        }
        match self.take_live(destination, session_id) {
            Some(mut session) => {
                let ghost queues = session.pending_user_queries@;
                let mut queue: VecDeque<u64> = match session.pending_user_queries.remove(&room) {
                    Some(queue) => queue,
                    None => VecDeque::new(),
                };
                let ghost waited = queue.deep_view();
                assert(!queues.contains_key(room@) ==> waited =~= Seq::<u64>::empty());
                enqueue(&mut queue, query_id);
                session.pending_user_queries.insert(room, queue);
                assert(waited.len() == 0 ==> waited.push(query_id) =~= seq![query_id]);
                assert(session@.pending_user_queries =~= queued(queues, room@, query_id));
                self.put(destination, session);
                assert(self@ =~= with_session(before, destination, session@));
                nothing()
            },
            None => refused(query_id, Error::NotConnected),
        }
    }

    /// Takes in how the attempt to ping a hub ended, and says what is to be done.
    pub fn finish_ping(
        &mut self,
        destination: [u8; 16],
        session_id: u64,
        query_id: u64,
        result: Result<(), Error>,
    ) -> (effects: Vec<Effect>)
        ensures
            final(self)@ == after_question(
                old(self)@,
                destination,
                session_id,
                QuestionView::Ping,
                query_id,
                shown(result),
            ),
            effects.deep_view() == question_effects(
                old(self)@,
                destination,
                session_id,
                query_id,
                shown(result),
            ),
    {
        let ghost before = self@;
        if let Err(error) = result {
            return refused(query_id, error);
        }
        match self.take_live(destination, session_id) {
            Some(mut session) => {
                let ghost pings = session@.pending_pings;
                session.pending_pings.insert(query_id);
                assert(session@.pending_pings =~= pings.insert(query_id));
                self.put(destination, session);
                assert(self@ =~= with_session(before, destination, session@));
                nothing()
            },
            None => refused(query_id, Error::NotConnected),
        }
    }

    /// Takes in how the request to enter a room again went, and says what is to be done.
    pub fn finish_join(
        &mut self,
        destination: [u8; 16],
        session_id: u64,
        attempt: JoinAttempt,
        rest: Vec<(String, Option<String>)>,
        envelope: Envelope,
    ) -> (effects: Vec<Effect>)
        ensures
            final(self)@ == after_rejoin(old(self)@, destination, session_id, attempt@),
            effects.deep_view() == rejoin_effects(
                old(self)@,
                destination,
                session_id,
                attempt@,
                rest.deep_view(),
                envelope@,
            ),
    {
        match self.take_live(destination, session_id) {
            Some(mut session) => {
                let effects = take_join(
                    self.source,
                    &mut session,
                    destination,
                    attempt,
                    rest,
                    envelope,
                );
                self.put(destination, session);
                assert(self@ =~= after_rejoin(old(self)@, destination, session_id, attempt@));
                effects
            },
            None => nothing(),
        }
    }

    /// Takes in a resource that was held against its announcement, and says what is to be
    /// done. `reading` is what its text says, where it is a notice.
    pub fn deliver(
        &mut self,
        destination: [u8; 16],
        session_id: u64,
        envelope: Envelope,
        delivery: Result<Delivery, String>,
        reading: NoticeReading,
    ) -> (effects: Vec<Effect>)
        ensures
            final(self)@ == after_resource(
                old(self)@,
                destination,
                session_id,
                worded(delivery),
                reading@,
            ),
            effects.deep_view() == resource_effects(
                old(self)@,
                destination,
                session_id,
                envelope@,
                worded(delivery),
                reading@,
            ),
    {
        let ghost told = worded(delivery);
        match self.take_live(destination, session_id) {
            Some(mut session) => {
                let effects = take_delivery(
                    &mut session,
                    destination,
                    envelope,
                    delivery,
                    reading,
                );
                self.put(destination, session);
                assert(self@ =~= after_resource(
                    old(self)@,
                    destination,
                    session_id,
                    told,
                    reading@,
                ));
                effects
            },
            None => nothing(),
        }
    }
}

/// The refusal of a query.
fn refused(query_id: u64, error: Error) -> (effects: Vec<Effect>)
    ensures
        effects.deep_view() == seq![EffectView::Refuse { query_id, error: error@ }],
{
    let ghost wanted = seq![EffectView::Refuse { query_id, error: error@ }];
    let mut effects = nothing();
    push_onto(&mut effects, Effect::Refuse { query_id, error });
    assert(effects.deep_view() =~= wanted);
    effects
}

} // verus!
