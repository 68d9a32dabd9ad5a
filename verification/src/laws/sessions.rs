//! What can be relied on across sessions, requests and reports.
use crate::actor::{
    after_command, command_effects, known_hubs, not_connected, session_of, ActorView,
};
use crate::client::hub_of;
use crate::effect::{
    DeliveryView, EffectView, JoinAttemptView, NoticeReadingView, ReceivedView, WorkView,
};
use crate::inbound::{
    after_envelope, after_join, envelope_effects, join_effects, joins_of, restore_effects,
    room_state_effects,
};
use crate::link::backoff;
use crate::order::{lex_irreflexive, lex_less, text_less, Ranked};
use crate::ordered_map::{ascending, listing_exists};
use crate::report::{
    after_connect, after_inbound, after_question, after_reconnect, after_rejoin, after_resource,
    after_send, connect_effects, inbound_effects, live_session, rooms_after_send, QuestionView,
};
use crate::request::{CommandView, ContentView, DraftView};
use crate::session::{fresh_session, waiting, SessionView};
use crate::soundness::sound;
use crate::types::{EnvelopeView, ErrorView, EventView, HubView, MessageType};
use vstd::prelude::*;

verus! {

/// The hub that a request is about, where it is about one.
pub open spec fn hub_meant(command: CommandView) -> Option<[u8; 16]> {
    match command {
        CommandView::Connect { destination, .. } => Some(destination),
        CommandView::Send { destination, .. } => Some(destination),
        CommandView::SendResource { destination, .. } => Some(destination),
        CommandView::Disconnect { destination } => Some(destination),
        CommandView::SetNick { destination, .. } => Some(destination),
        CommandView::ListRooms { destination, .. } => Some(destination),
        CommandView::ListUsers { destination, .. } => Some(destination),
        CommandView::Ping { destination, .. } => Some(destination),
        CommandView::Reconnect { destination, .. } => Some(destination),
        CommandView::Hubs => None,
        CommandView::CancelQuery { .. } => None,
        CommandView::Shutdown => None,
    }
}

/// A request leaves the sessions with hubs that it is not about as they are, unless it
/// forgets a query.
pub proof fn command_touches_one_hub(actor: ActorView, command: CommandView, other: [u8; 16])
    requires
        hub_meant(command) matches Some(hub) ==> hub@ != other@,
        !(command is CancelQuery),
    ensures
        session_of(after_command(actor, command), other) == session_of(actor, other),
{
}

/// What comes over the link to one hub leaves the sessions with others as they are.
pub proof fn inbound_touches_one_hub(
    actor: ActorView,
    hub: [u8; 16],
    session_id: u64,
    received: ReceivedView,
    other: [u8; 16],
)
    requires
        hub@ != other@,
    ensures
        session_of(after_inbound(actor, hub, session_id, received), other) == session_of(
            actor,
            other,
        ),
{
}

/// A report on work for one hub leaves the sessions with others as they are.
pub proof fn report_touches_one_hub(
    actor: ActorView,
    hub: [u8; 16],
    lost: u64,
    session_id: u64,
    nick: Option<Seq<char>>,
    desired_rooms: Map<Seq<char>, Option<Seq<char>>>,
    envelope: EnvelopeView,
    question: QuestionView,
    query_id: u64,
    attempt: JoinAttemptView,
    delivery: Result<DeliveryView, Seq<char>>,
    reading: NoticeReadingView,
    result: Result<(), ErrorView>,
    other: [u8; 16],
)
    requires
        hub@ != other@,
    ensures
        session_of(after_connect(actor, hub, session_id, nick, result), other) == session_of(
            actor,
            other,
        ),
        session_of(
            after_reconnect(actor, hub, lost, session_id, nick, desired_rooms, result),
            other,
        ) == session_of(actor, other),
        session_of(after_send(actor, hub, session_id, envelope, result), other) == session_of(
            actor,
            other,
        ),
        session_of(
            after_question(actor, hub, session_id, question, query_id, result),
            other,
        ) == session_of(actor, other),
        session_of(after_rejoin(actor, hub, session_id, attempt), other) == session_of(
            actor,
            other,
        ),
        session_of(after_resource(actor, hub, session_id, delivery, reading), other) == session_of(
            actor,
            other,
        ),
{
}

/// What comes over a link that was replaced or ended changes nothing and has no effect.
pub proof fn stale_link_is_ignored(
    actor: ActorView,
    hub: [u8; 16],
    session_id: u64,
    received: ReceivedView,
)
    requires
        session_of(actor, hub) matches Some(session) ==> session.id != session_id,
    ensures
        after_inbound(actor, hub, session_id, received) == actor,
        inbound_effects(actor, hub, session_id, received) == Seq::<EffectView>::empty(),
{
}

proof fn first_match(hubs: Seq<HubView>, destination: [u8; 16], at: int)
    requires
        0 <= at < hubs.len(),
        hubs[at].destination_hash == destination,
        forall|j: int| 0 <= j < at ==> (#[trigger] hubs[j]).destination_hash != destination,
    ensures
        hub_of(hubs, destination) == Some(hubs[at]),
    decreases hubs.len(),
{
    if at > 0 {
        let rest = hubs.drop_first();
        assert(hubs[0].destination_hash != destination);
        assert forall|j: int| 0 <= j < at - 1 implies (
        #[trigger] rest[j]).destination_hash != destination by {
            assert(rest[j] == hubs[j + 1]);
        }
        first_match(rest, destination, at - 1);
    }
}

proof fn no_match(hubs: Seq<HubView>, destination: [u8; 16])
    requires
        forall|j: int|
            0 <= j < hubs.len() ==> (#[trigger] hubs[j]).destination_hash != destination,
    ensures
        hub_of(hubs, destination) is None,
    decreases hubs.len(),
{
    if hubs.len() > 0 {
        let rest = hubs.drop_first();
        assert(hubs[0].destination_hash != destination);
        assert forall|j: int| 0 <= j < rest.len() implies (
        #[trigger] rest[j]).destination_hash != destination by {
            assert(rest[j] == hubs[j + 1]);
        }
        no_match(rest, destination);
    }
}

/// What a session knows of its hub is what a lookup of the hub finds among all hubs.
pub proof fn hub_is_found(actor: ActorView, destination: [u8; 16])
    requires
        sound(actor),
    ensures
        hub_of(known_hubs(actor), destination) == match session_of(actor, destination) {
            Some(session) => Some(session.hub),
            None => None,
        },
{
    let hubs = known_hubs(actor);
    let keys = ascending::<[u8; 16], SessionView>(actor.sessions);
    listing_exists::<[u8; 16], SessionView>(actor.sessions);
    assert forall|j: int| 0 <= j < keys.len() implies (
    #[trigger] hubs[j]).destination_hash@ == keys[j] by {
        assert(keys.contains(keys[j]));
        assert(actor.sessions.contains_key(keys[j]));
    }
    if actor.sessions.contains_key(destination@) {
        assert(keys.contains(destination@));
        let at = choose|j: int| 0 <= j < keys.len() && keys[j] == destination@;
        assert(hubs[at].destination_hash =~= destination);
        assert forall|j: int| 0 <= j < at implies (
        #[trigger] hubs[j]).destination_hash != destination by {
            lex_irreflexive(<[u8; 16] as Ranked>::rank(keys[j]));
            assert(keys[j] != keys[at]);
        }
        first_match(hubs, destination, at);
    } else {
        assert forall|j: int| 0 <= j < hubs.len() implies (
        #[trigger] hubs[j]).destination_hash != destination by {
            assert(keys.contains(keys[j]));
        }
        no_match(hubs, destination);
    }
}

/// After a session was ended there is none with the hub, and requests that need one fail.
pub proof fn disconnect_ends_session(
    actor: ActorView,
    destination: [u8; 16],
    envelope: EnvelopeView,
)
    ensures
        ({
            let after = after_command(actor, CommandView::Disconnect { destination });
            &&& session_of(after, destination) is None
            &&& command_effects(after, CommandView::Send { destination, envelope })
                == not_connected()
            &&& command_effects(after, CommandView::Disconnect { destination }) == not_connected()
        }),
{
}

/// After the nickname was changed, the hub is known under it, and the envelopes that carry a
/// nickname are sent under it.
pub proof fn nick_is_used(
    actor: ActorView,
    destination: [u8; 16],
    nick: Seq<char>,
    envelope: EnvelopeView,
)
    requires
        session_of(actor, destination) is Some,
        envelope.message_type == Some(MessageType::Message) || envelope.message_type == Some(
            MessageType::Action,
        ) || envelope.message_type == Some(MessageType::Notice) || envelope.message_type == Some(
            MessageType::Join,
        ),
    ensures
        ({
            let after = after_command(actor, CommandView::SetNick { destination, nick });
            &&& session_of(after, destination) matches Some(session) && session.hub.nick == Some(
                nick,
            )
            &&& command_effects(after, CommandView::Send { destination, envelope }) == seq![
                EffectView::Perform(
                    WorkView::Send {
                        destination,
                        session_id: session_of(actor, destination)->0.id,
                        source: actor.source,
                        nick: Some(nick),
                        envelope,
                    },
                ),
            ]
        }),
{
}

/// When a session takes the place of another, that one is closed, and every query that waited
/// in it is given up; the new one waits for nothing.
pub proof fn replaced_session_is_released(
    actor: ActorView,
    destination: [u8; 16],
    session_id: u64,
    nick: Option<Seq<char>>,
)
    requires
        session_of(actor, destination) is Some,
    ensures
        ({
            let previous = session_of(actor, destination)->0;
            let effects = connect_effects(actor, destination, session_id, nick, Ok(()));
            let after = after_connect(actor, destination, session_id, nick, Ok(()));
            &&& effects[0] == EffectView::Close { session_id: previous.id }
            &&& effects[1] == EffectView::Release(waiting(previous))
            &&& waiting(session_of(after, destination)->0) == Set::<u64>::empty()
        }),
{
    let after = after_connect(actor, destination, session_id, nick, Ok(()));
    let fresh = fresh_session(session_id, destination, nick);
    assert(session_of(after, destination) == Some(fresh));
    assert forall|q: u64| !waiting(fresh).contains(q) by {
        assert(!Seq::<u64>::empty().contains(q));
    }
    assert(waiting(fresh) =~= Set::<u64>::empty());
}

/// A session that is lost is opened anew when its pause is over, under the same nickname and
/// for the same rooms.
pub proof fn lost_session_is_reopened(
    actor: ActorView,
    hub: [u8; 16],
    session_id: u64,
    words: Seq<char>,
)
    requires
        live_session(actor, hub, session_id) is Some,
    ensures
        ({
            let session = live_session(actor, hub, session_id)->0;
            let lost = after_inbound(actor, hub, session_id, ReceivedView::LinkLost(words));
            &&& session_of(lost, hub) matches Some(s) && !s.hub.connected && s.hub.detail == words
            &&& inbound_effects(actor, hub, session_id, ReceivedView::LinkLost(words)).last()
                == EffectView::Schedule {
                destination: hub,
                session_id,
                seconds: backoff(session_of(lost, hub)->0.reconnect_attempt as nat) as u64,
            }
            &&& command_effects(lost, CommandView::Reconnect { destination: hub, session_id })
                == seq![
                EffectView::Perform(
                    WorkView::Reopen {
                        destination: hub,
                        lost: session_id,
                        session_id: actor.next_session_id,
                        nick: session.nick,
                        desired_rooms: session.desired_rooms,
                    },
                ),
            ]
        }),
{
}

/// A reconnection is not started where the session is up, was replaced or has ended.
pub proof fn needless_reconnect_is_ignored(
    actor: ActorView,
    destination: [u8; 16],
    session_id: u64,
)
    requires
        session_of(actor, destination) matches Some(session) ==> session.id != session_id
            || session.hub.connected,
    ensures
        after_command(actor, CommandView::Reconnect { destination, session_id }) == actor,
        command_effects(actor, CommandView::Reconnect { destination, session_id }) == Seq::<
            EffectView,
        >::empty(),
{
}

/// A room that was asked for is desired until it is left, and leaving it takes away nothing else.
pub proof fn join_then_part(
    desired_rooms: Map<Seq<char>, Option<Seq<char>>>,
    join: EnvelopeView,
    part: EnvelopeView,
    room: Seq<char>,
)
    requires
        join.message_type == Some(MessageType::Join),
        join.room == Some(room),
        part.message_type == Some(MessageType::Part),
        part.room == Some(room),
    ensures
        ({
            let joined = rooms_after_send(desired_rooms, join);
            let parted = rooms_after_send(joined, part);
            &&& joined.contains_key(room) && joined[room] == join.body_text
            &&& !parted.contains_key(room)
            &&& parted == desired_rooms.remove(room)
        }),
{
    let joined = rooms_after_send(desired_rooms, join);
    assert(joined.remove(room) =~= desired_rooms.remove(room));
}

/// An envelope that could not be sent changes no desired room.
pub proof fn failed_send_changes_nothing(
    actor: ActorView,
    destination: [u8; 16],
    session_id: u64,
    envelope: EnvelopeView,
    error: ErrorView,
)
    ensures
        after_send(actor, destination, session_id, envelope, Err(error)) == actor,
{
}

/// The requests that are made when every room that is asked for again is sent.
pub open spec fn restore_requests(
    source: [u8; 16],
    session: SessionView,
    destination: [u8; 16],
    joins: Seq<(Seq<char>, Option<Seq<char>>)>,
    envelope: EnvelopeView,
) -> Seq<EffectView>
    decreases joins.len(),
{
    let effects = restore_effects(source, session, destination, joins, envelope);
    if joins.len() == 0 {
        effects
    } else {
        effects + restore_requests(
            source,
            after_join(session, JoinAttemptView::Sent),
            destination,
            joins.drop_first(),
            envelope,
        )
    }
}

proof fn restore_requests_listed(
    source: [u8; 16],
    session: SessionView,
    destination: [u8; 16],
    joins: Seq<(Seq<char>, Option<Seq<char>>)>,
    envelope: EnvelopeView,
)
    ensures
        ({
            let effects = restore_requests(source, session, destination, joins, envelope);
            &&& effects.len() == joins.len() + 2
            &&& forall|i: int|
                0 <= i < joins.len() ==> (#[trigger] effects[i] matches EffectView::Perform(work)
                    && work matches WorkView::Join { session_id, draft, nick, .. } && session_id
                    == session.id && nick == session.nick && draft == (DraftView {
                    source,
                    content: ContentView::Join { room: joins[i].0, key: joins[i].1 },
                }))
            &&& effects[joins.len() as int] == EffectView::Emit(EventView::HubChanged(session.hub))
            &&& effects.last() == EffectView::Emit(
                EventView::Envelope { hub: destination, envelope },
            )
        }),
    decreases joins.len(),
{
    if joins.len() > 0 {
        let rest = joins.drop_first();
        let more = restore_requests(source, session, destination, rest, envelope);
        restore_requests_listed(source, session, destination, rest, envelope);
        let effects = restore_requests(source, session, destination, joins, envelope);
        assert(effects =~= restore_effects(source, session, destination, joins, envelope) + more);
        assert forall|i: int| 0 <= i < joins.len() implies (#[trigger] effects[i] matches
            EffectView::Perform(work) && work matches
            WorkView::Join { session_id, draft, nick, .. } && session_id == session.id && nick
            == session.nick && draft == (DraftView {
            source,
            content: ContentView::Join { room: joins[i].0, key: joins[i].1 },
        })) by {
            if i > 0 {
                assert(effects[i] == more[i - 1]);
                assert(rest[i - 1] == joins[i]);
            }
        }
    }
}

/// A session that takes the place of a lost one is up, keeps its rooms and its nickname, and
/// enters the rooms again at the next greeting.
pub proof fn reconnect_keeps_rooms(
    actor: ActorView,
    destination: [u8; 16],
    lost: u64,
    session_id: u64,
    nick: Option<Seq<char>>,
    desired_rooms: Map<Seq<char>, Option<Seq<char>>>,
)
    ensures
        ({
            let after = after_reconnect(
                actor,
                destination,
                lost,
                session_id,
                nick,
                desired_rooms,
                Ok(()),
            );
            &&& session_of(after, destination) matches Some(session)
            &&& session.id == session_id
            &&& session.hub.connected
            &&& session.nick == nick
            &&& session.desired_rooms == desired_rooms
            &&& session.restore_rooms_on_welcome
        }),
{
}

/// After a reconnection, the greeting of the hub has the client ask for exactly the rooms that
/// it wants to be in, each once and in ascending order, with their keys; then the subscribers
/// are told of the hub and of the greeting.
pub proof fn welcome_restores_rooms(
    source: [u8; 16],
    session: SessionView,
    hub: [u8; 16],
    envelope: EnvelopeView,
    reading: NoticeReadingView,
)
    requires
        session.desired_rooms.dom().finite(),
        session.restore_rooms_on_welcome,
        envelope.message_type == Some(MessageType::Welcome),
    ensures
        ({
            let desired_rooms = session.desired_rooms;
            let joins = joins_of(desired_rooms);
            let after = after_envelope(session, envelope, reading);
            let effects = restore_requests(source, after, hub, joins, envelope);
            &&& envelope_effects(source, session, hub, envelope, reading) == room_state_effects(
                session,
                envelope,
            ) + restore_effects(source, after, hub, joins, envelope)
            &&& forall|room: Seq<char>| #[trigger]
                desired_rooms.contains_key(room) <==> exists|i: int|
                    0 <= i < joins.len() && (#[trigger] joins[i]).0 == room
            &&& forall|i: int| 0 <= i < joins.len() ==> (#[trigger] joins[i]).1
                == desired_rooms[joins[i].0]
            &&& forall|i: int, j: int|
                0 <= i < j < joins.len() ==> text_less(
                    (#[trigger] joins[i]).0,
                    (#[trigger] joins[j]).0,
                )
            &&& effects.len() == joins.len() + 2
            &&& forall|i: int|
                0 <= i < joins.len() ==> (#[trigger] effects[i] matches EffectView::Perform(work)
                    && work matches WorkView::Join { draft, .. } && draft == (DraftView {
                    source,
                    content: ContentView::Join { room: joins[i].0, key: joins[i].1 },
                }))
            &&& effects[joins.len() as int] == EffectView::Emit(EventView::HubChanged(after.hub))
            &&& effects.last() == EffectView::Emit(EventView::Envelope { hub, envelope })
            &&& !after.restore_rooms_on_welcome
            &&& after.desired_rooms == desired_rooms
        }),
{
    let desired_rooms = session.desired_rooms;
    let joins = joins_of(desired_rooms);
    let keys = ascending::<String, Option<Seq<char>>>(desired_rooms);
    let after = after_envelope(session, envelope, reading);
    listing_exists::<String, Option<Seq<char>>>(desired_rooms);
    restore_requests_listed(source, after, hub, joins, envelope);
    assert forall|room: Seq<char>| #[trigger]
        desired_rooms.contains_key(room) <==> exists|i: int|
            0 <= i < joins.len() && (#[trigger] joins[i]).0 == room by {
        if desired_rooms.contains_key(room) {
            assert(keys.contains(room));
            let i = choose|i: int| 0 <= i < keys.len() && keys[i] == room;
            assert(joins[i].0 == room);
        }
        if exists|i: int| 0 <= i < joins.len() && (#[trigger] joins[i]).0 == room {
            let i = choose|i: int| 0 <= i < joins.len() && (#[trigger] joins[i]).0 == room;
            assert(keys[i] == room);
            assert(keys.contains(room));
        }
    }
    assert forall|i: int, j: int| 0 <= i < j < joins.len() implies text_less(
        (#[trigger] joins[i]).0,
        (#[trigger] joins[j]).0,
    ) by {
        assert(lex_less(<String as Ranked>::rank(keys[i]), <String as Ranked>::rank(keys[j])));
    }
}

/// A room that cannot be asked for does not keep the others from being asked for; a failure to
/// send does, and it is told of.
pub proof fn restore_stops_at_failure(
    source: [u8; 16],
    session: SessionView,
    destination: [u8; 16],
    error: ErrorView,
    rest: Seq<(Seq<char>, Option<Seq<char>>)>,
    envelope: EnvelopeView,
)
    ensures
        join_effects(source, session, destination, JoinAttemptView::Unbuildable, rest, envelope)
            == join_effects(source, session, destination, JoinAttemptView::Sent, rest, envelope),
        join_effects(source, session, destination, JoinAttemptView::Failed(error), rest, envelope)
            == seq![
            EffectView::Emit(
                EventView::HubChanged(after_join(session, JoinAttemptView::Failed(error)).hub),
            ),
            EffectView::Emit(EventView::Envelope { hub: destination, envelope }),
        ],
{
}

} // verus!
