//! What can be relied on when something comes from a hub.
use crate::actor::{session_of, ActorView};
use crate::delivery::{after_delivery, delivery_effects, inspected, is_notice, message_of};
use crate::directory::directory_after;
use crate::effect::{
    DeliveryView, EffectView, FetchedView, JoinAttemptView, NoticeReadingView, ReceivedView,
    WorkView,
};
use crate::inbound::{
    after_envelope, after_join, after_received, due_joins, envelope_effects, joins_of, kind_of_type,
    message_in, received_effects, restore_effects, room_state_effects, stale_users_effects,
    tells_of_nick, type_effects, with_room_state, without_stale_users,
};
use crate::notice::{answers_query, notice_effects, told_users};
use crate::report::{
    after_inbound, after_rejoin, after_resource, inbound_effects, live_session, rejoin_effects,
    resource_effects,
};
use crate::resource::sha256_digest;
use crate::sequence::{filter_keeps, other_than};
use crate::session::SessionView;
use crate::types::{
    EnvelopeView, EventView, MessageKind, MessageType, ResourceDescriptorView, RoomInfoView,
    RoomStateView, UserInfoView,
};
use vstd::prelude::*;

verus! {

/// A ping is answered over the link that it came by.
pub proof fn ping_is_answered(
    source: [u8; 16],
    session: SessionView,
    hub: [u8; 16],
    envelope: EnvelopeView,
    reading: NoticeReadingView,
)
    requires
        envelope.message_type == Some(MessageType::Ping),
    ensures
        envelope_effects(source, session, hub, envelope, reading).contains(
            EffectView::Pong { session_id: session.id, source, envelope },
        ),
{
    let effects = envelope_effects(source, session, hub, envelope, reading);
    let n = room_state_effects(session, envelope).len();
    assert(effects[n as int] == EffectView::Pong { session_id: session.id, source, envelope });
}

/// Whether an effect hands an envelope to the subscribers.
pub open spec fn hands_on(effect: EffectView) -> bool {
    effect matches EffectView::Emit(event) && event is Envelope
}

/// Whether effects hand on this envelope and no other, once and last.
pub open spec fn handed_on_once(
    effects: Seq<EffectView>,
    hub: [u8; 16],
    envelope: EnvelopeView,
) -> bool {
    &&& effects.len() > 0
    &&& effects.last() == EffectView::Emit(EventView::Envelope { hub, envelope })
    &&& forall|i: int| 0 <= i < effects.len() - 1 ==> !hands_on(#[trigger] effects[i])
}

/// All that is done when `effects` are carried out and the work in them is done and reported:
/// requests to enter rooms again go like `attempts`, and a resource comes like `fetched` and
/// reads like `told`.
pub open spec fn carried_out(
    actor: ActorView,
    effects: Seq<EffectView>,
    attempts: Seq<JoinAttemptView>,
    fetched: Result<FetchedView, Seq<char>>,
    told: NoticeReadingView,
) -> Seq<EffectView>
    decreases attempts.len(),
{
    match effects.last() {
        EffectView::Perform(work) => match work {
            WorkView::Join { destination, session_id, rest, envelope, .. } => if attempts.len()
                > 0 {
                effects + carried_out(
                    after_rejoin(actor, destination, session_id, attempts[0]),
                    rejoin_effects(
                        actor,
                        destination,
                        session_id,
                        attempts[0],
                        rest,
                        envelope,
                    ),
                    attempts.drop_first(),
                    fetched,
                    told,
                )
            } else {
                effects
            },
            WorkView::Fetch { destination, session_id, descriptor, envelope } => effects
                + resource_effects(
                actor,
                destination,
                session_id,
                envelope,
                inspected(destination, envelope, descriptor, fetched),
                told,
            ),
            _ => effects,
        },
        _ => effects,
    }
}

/// The actor when `effects` were carried out and the work in them was done and reported.
pub open spec fn actor_when_done(
    actor: ActorView,
    effects: Seq<EffectView>,
    attempts: Seq<JoinAttemptView>,
    fetched: Result<FetchedView, Seq<char>>,
    told: NoticeReadingView,
) -> ActorView
    decreases attempts.len(),
{
    match effects.last() {
        EffectView::Perform(work) => match work {
            WorkView::Join { destination, session_id, rest, envelope, .. } => if attempts.len()
                > 0 {
                actor_when_done(
                    after_rejoin(actor, destination, session_id, attempts[0]),
                    rejoin_effects(
                        actor,
                        destination,
                        session_id,
                        attempts[0],
                        rest,
                        envelope,
                    ),
                    attempts.drop_first(),
                    fetched,
                    told,
                )
            } else {
                actor
            },
            WorkView::Fetch { destination, session_id, descriptor, envelope } => after_resource(
                actor,
                destination,
                session_id,
                inspected(destination, envelope, descriptor, fetched),
                told,
            ),
            _ => actor,
        },
        _ => actor,
    }
}

proof fn carried_out_after(
    actor: ActorView,
    first: Seq<EffectView>,
    effects: Seq<EffectView>,
    attempts: Seq<JoinAttemptView>,
    fetched: Result<FetchedView, Seq<char>>,
    told: NoticeReadingView,
)
    requires
        effects.len() > 0,
    ensures
        carried_out(actor, first + effects, attempts, fetched, told) == first + carried_out(
            actor,
            effects,
            attempts,
            fetched,
            told,
        ),
{
    let whole = first + effects;
    assert(whole.last() == effects.last());
    let more = carried_out(actor, effects, attempts, fetched, told);
    let all = carried_out(actor, whole, attempts, fetched, told);
    assert(all =~= first + more);
}

proof fn handed_on_after(
    first: Seq<EffectView>,
    effects: Seq<EffectView>,
    hub: [u8; 16],
    envelope: EnvelopeView,
)
    requires
        forall|i: int| 0 <= i < first.len() ==> !hands_on(#[trigger] first[i]),
        handed_on_once(effects, hub, envelope),
    ensures
        handed_on_once(first + effects, hub, envelope),
{
    let whole = first + effects;
    assert forall|i: int| 0 <= i < whole.len() - 1 implies !hands_on(#[trigger] whole[i]) by {
        if i < first.len() {
            assert(whole[i] == first[i]);
        } else {
            assert(whole[i] == effects[i - first.len()]);
        }
    }
}

proof fn greeting_is_handed_on(
    actor: ActorView,
    session: SessionView,
    hub: [u8; 16],
    joins: Seq<(Seq<char>, Option<Seq<char>>)>,
    envelope: EnvelopeView,
    attempts: Seq<JoinAttemptView>,
    fetched: Result<FetchedView, Seq<char>>,
    told: NoticeReadingView,
)
    requires
        live_session(actor, hub, session.id) == Some(session),
        attempts.len() >= joins.len(),
    ensures
        handed_on_once(
            carried_out(
                actor,
                restore_effects(actor.source, session, hub, joins, envelope),
                attempts,
                fetched,
                told,
            ),
            hub,
            envelope,
        ),
    decreases joins.len(),
{
    let effects = restore_effects(actor.source, session, hub, joins, envelope);
    if joins.len() > 0 {
        let attempt = attempts[0];
        let next = after_rejoin(actor, hub, session.id, attempt);
        let rest = if attempt is Failed {
            Seq::empty()
        } else {
            joins.drop_first()
        };
        greeting_is_handed_on(
            next,
            after_join(session, attempt),
            hub,
            rest,
            envelope,
            attempts.drop_first(),
            fetched,
            told,
        );
        handed_on_after(
            effects,
            carried_out(
                next,
                restore_effects(actor.source, after_join(session, attempt), hub, rest, envelope),
                attempts.drop_first(),
                fetched,
                told,
            ),
            hub,
            envelope,
        );
    }
}

proof fn resource_is_handed_on(
    session: SessionView,
    hub: [u8; 16],
    envelope: EnvelopeView,
    delivery: Result<DeliveryView, Seq<char>>,
    reading: NoticeReadingView,
)
    ensures
        handed_on_once(
            delivery_effects(session, hub, envelope, delivery, reading),
            hub,
            envelope,
        ),
{
}

proof fn notice_effects_hand_nothing_on(
    session: SessionView,
    hub: [u8; 16],
    reading: NoticeReadingView,
    structured: Option<Seq<UserInfoView>>,
)
    ensures
        forall|i: int|
            0 <= i < notice_effects(session, hub, reading, structured).len() ==> !hands_on(
                #[trigger] notice_effects(session, hub, reading, structured)[i],
            ),
{
}

proof fn typed_envelope_is_handed_on(
    source: [u8; 16],
    s: SessionView,
    hub: [u8; 16],
    envelope: EnvelopeView,
    reading: NoticeReadingView,
)
    requires
        envelope.message_type != Some(MessageType::Welcome),
        envelope.message_type == Some(MessageType::ResourceEnvelope)
            ==> envelope.resource_descriptor is None,
    ensures
        handed_on_once(type_effects(source, s, hub, envelope, reading), hub, envelope),
        !(type_effects(source, s, hub, envelope, reading).last() is Perform),
{
    if envelope.message_type == Some(MessageType::Notice) {
        notice_effects_hand_nothing_on(
            without_stale_users(s, envelope),
            hub,
            reading,
            envelope.user_list,
        );
    }
}

/// Every envelope that comes in a session is handed to the subscribers exactly once, after all
/// else that it gives rise to: the greeting that has rooms entered again when that is over,
/// however it goes, and the announcement of a resource when the resource came or did not.
pub proof fn envelope_is_handed_on(
    actor: ActorView,
    hub: [u8; 16],
    session_id: u64,
    envelope: EnvelopeView,
    reading: NoticeReadingView,
    attempts: Seq<JoinAttemptView>,
    fetched: Result<FetchedView, Seq<char>>,
    told: NoticeReadingView,
)
    requires
        live_session(actor, hub, session_id) matches Some(session) && attempts.len()
            >= joins_of(session.desired_rooms).len(),
    ensures
        ({
            let received = ReceivedView::Envelope { envelope, reading };
            handed_on_once(
                carried_out(
                    after_inbound(actor, hub, session_id, received),
                    inbound_effects(actor, hub, session_id, received),
                    attempts,
                    fetched,
                    told,
                ),
                hub,
                envelope,
            )
        }),
{
    let session = live_session(actor, hub, session_id)->0;
    let received = ReceivedView::Envelope { envelope, reading };
    let next = after_inbound(actor, hub, session_id, received);
    let after = after_envelope(session, envelope, reading);
    assert(live_session(next, hub, session_id) == Some(after));
    let s = with_room_state(session, envelope);
    let first = room_state_effects(session, envelope);
    let effects = type_effects(actor.source, s, hub, envelope, reading);
    carried_out_after(next, first, effects, attempts, fetched, told);
    let more = carried_out(next, effects, attempts, fetched, told);
    match envelope.message_type {
        Some(MessageType::Welcome) => {
            greeting_is_handed_on(
                next,
                after,
                hub,
                due_joins(s),
                envelope,
                attempts,
                fetched,
                told,
            );
        },
        Some(MessageType::ResourceEnvelope) => {
            if let Some(descriptor) = envelope.resource_descriptor {
                let delivery = inspected(hub, envelope, descriptor, fetched);
                resource_is_handed_on(after, hub, envelope, delivery, told);
                handed_on_after(
                    effects,
                    delivery_effects(after, hub, envelope, delivery, told),
                    hub,
                    envelope,
                );
            } else {
                typed_envelope_is_handed_on(actor.source, s, hub, envelope, reading);
            }
        },
        _ => {
            typed_envelope_is_handed_on(actor.source, s, hub, envelope, reading);
        },
    }
    handed_on_after(first, more, hub, envelope);
}

/// A resource that is what was announced is handed to the subscribers, and then its
/// announcement; one that is not is refused with an event, its announcement is handed on, and
/// nothing changes.
pub proof fn resource_is_published(
    session: SessionView,
    hub: [u8; 16],
    envelope: EnvelopeView,
    delivery: Result<DeliveryView, Seq<char>>,
    reading: NoticeReadingView,
)
    ensures
        ({
            let effects = delivery_effects(session, hub, envelope, delivery, reading);
            match delivery {
                Ok(d) => {
                    &&& effects.len() >= 2
                    &&& effects[effects.len() - 2] == EffectView::Emit(
                        EventView::Resource(d.resource),
                    )
                    &&& effects.last() == EffectView::Emit(EventView::Envelope { hub, envelope })
                },
                Err(words) => {
                    &&& effects == seq![
                        EffectView::Emit(EventView::InvalidEnvelope { hub, error: words }),
                        EffectView::Emit(EventView::Envelope { hub, envelope }),
                    ]
                    &&& after_delivery(session, delivery, reading) == session
                },
            }
        }),
{
}

/// A resource is accepted exactly where it came, has the announced size and, where a digest was
/// announced, that digest.
pub proof fn accepted_resource_is_intact(
    hub: [u8; 16],
    envelope: EnvelopeView,
    descriptor: ResourceDescriptorView,
    fetched: Result<FetchedView, Seq<char>>,
)
    ensures
        inspected(hub, envelope, descriptor, fetched) is Ok <==> (fetched matches Ok(f)
            && f.data.len() == descriptor.size && (descriptor.sha256 matches Some(expected)
            ==> expected@ == sha256_digest(f.data))),
        inspected(hub, envelope, descriptor, fetched) matches Ok(d) ==> d.resource.data
            == fetched->Ok_0.data && d.resource.descriptor == descriptor,
{
}

/// A resource that is text of a kind that messages have is handed to the subscribers both as a
/// message and as a resource, also where it is a list that a query waited for.
pub proof fn text_resource_is_a_message(
    session: SessionView,
    hub: [u8; 16],
    envelope: EnvelopeView,
    delivery: DeliveryView,
    reading: NoticeReadingView,
    body: Seq<char>,
    kind: MessageKind,
)
    requires
        delivery.text == Some((body, kind)),
    ensures
        ({
            let effects = delivery_effects(session, hub, envelope, Ok(delivery), reading);
            &&& effects.contains(
                EffectView::Emit(EventView::Message(message_of(delivery.resource, body, kind))),
            )
            &&& effects.contains(EffectView::Emit(EventView::Resource(delivery.resource)))
        }),
{
    let effects = delivery_effects(session, hub, envelope, Ok(delivery), reading);
    let n = effects.len();
    assert(effects[n - 3] == EffectView::Emit(
        EventView::Message(message_of(delivery.resource, body, kind)),
    ));
    assert(effects[n - 2] == EffectView::Emit(EventView::Resource(delivery.resource)));
}

/// A resource that is no message is handed to the subscribers as a resource alone, and it
/// changes nothing.
pub proof fn other_resource_is_no_message(
    session: SessionView,
    hub: [u8; 16],
    envelope: EnvelopeView,
    delivery: DeliveryView,
    reading: NoticeReadingView,
)
    requires
        delivery.text is None,
    ensures
        delivery_effects(session, hub, envelope, Ok(delivery), reading) == seq![
            EffectView::Emit(EventView::Resource(delivery.resource)),
            EffectView::Emit(EventView::Envelope { hub, envelope }),
        ],
        after_delivery(session, Ok(delivery), reading) == session,
{
    assert(delivery_effects(session, hub, envelope, Ok(delivery), reading) =~= seq![
        EffectView::Emit(EventView::Resource(delivery.resource)),
        EffectView::Emit(EventView::Envelope { hub, envelope }),
    ]);
}

proof fn notice_part(
    source: [u8; 16],
    session: SessionView,
    hub: [u8; 16],
    envelope: EnvelopeView,
    reading: NoticeReadingView,
    i: int,
)
    requires
        envelope.message_type == Some(MessageType::Notice),
        ({
            let t = without_stale_users(with_room_state(session, envelope), envelope);
            0 <= i < notice_effects(t, hub, reading, envelope.user_list).len()
        }),
    ensures
        ({
            let t = without_stale_users(with_room_state(session, envelope), envelope);
            envelope_effects(source, session, hub, envelope, reading).contains(
                notice_effects(t, hub, reading, envelope.user_list)[i],
            )
        }),
{
    let s = with_room_state(session, envelope);
    let t = without_stale_users(s, envelope);
    let told = notice_effects(t, hub, reading, envelope.user_list);
    let effects = envelope_effects(source, session, hub, envelope, reading);
    let n = room_state_effects(session, envelope).len() + stale_users_effects(s, envelope).len();
    assert(effects[n + i] == told[i]);
}

/// Every list of rooms that a notice brings is handed to the subscribers and kept with the hub.
pub proof fn room_list_is_published(
    source: [u8; 16],
    session: SessionView,
    hub: [u8; 16],
    envelope: EnvelopeView,
    reading: NoticeReadingView,
    rooms: Seq<RoomInfoView>,
)
    requires
        envelope.message_type == Some(MessageType::Notice),
        reading.rooms == Some(rooms),
    ensures
        ({
            let after = after_envelope(session, envelope, reading);
            let effects = envelope_effects(source, session, hub, envelope, reading);
            &&& after.hub.public_rooms == rooms
            &&& effects.contains(EffectView::Emit(EventView::RoomList { hub, rooms }))
            &&& effects.contains(EffectView::Emit(EventView::HubChanged(after.hub)))
        }),
{
    notice_part(source, session, hub, envelope, reading, 0);
    notice_part(source, session, hub, envelope, reading, 1);
}

/// Every list of members that a notice brings is handed to the subscribers and kept with the
/// hub; a structured list goes before one that was read from the text.
pub proof fn user_list_is_published(
    source: [u8; 16],
    session: SessionView,
    hub: [u8; 16],
    envelope: EnvelopeView,
    reading: NoticeReadingView,
    room: Seq<char>,
    parsed: Seq<UserInfoView>,
)
    requires
        envelope.message_type == Some(MessageType::Notice),
        reading.rooms is None,
        reading.who == Some((room, parsed)),
    ensures
        ({
            let users = told_users(parsed, envelope.user_list);
            let after = after_envelope(session, envelope, reading);
            let effects = envelope_effects(source, session, hub, envelope, reading);
            &&& after.hub.room_users.contains_key(room)
            &&& after.hub.room_users[room] == users
            &&& effects.contains(EffectView::Emit(EventView::UserList { hub, room, users }))
            &&& effects.contains(EffectView::Emit(EventView::HubChanged(after.hub)))
        }),
{
    notice_part(source, session, hub, envelope, reading, 0);
    notice_part(source, session, hub, envelope, reading, 1);
}

/// Lists that come as a resource are handed to the subscribers and kept like those that come in
/// a notice.
pub proof fn resource_lists_are_published(
    session: SessionView,
    hub: [u8; 16],
    envelope: EnvelopeView,
    delivery: DeliveryView,
    reading: NoticeReadingView,
)
    requires
        is_notice(delivery),
    ensures
        ({
            let after = after_delivery(session, Ok(delivery), reading);
            let effects = delivery_effects(session, hub, envelope, Ok(delivery), reading);
            match (reading.rooms, reading.who) {
                (Some(rooms), _) => {
                    &&& after.hub.public_rooms == rooms
                    &&& effects[0] == EffectView::Emit(EventView::RoomList { hub, rooms })
                    &&& effects[1] == EffectView::Emit(EventView::HubChanged(after.hub))
                },
                (None, Some((room, users))) => {
                    &&& after.hub.room_users.contains_key(room)
                    &&& after.hub.room_users[room] == users
                    &&& effects[0] == EffectView::Emit(EventView::UserList { hub, room, users })
                    &&& effects[1] == EffectView::Emit(EventView::HubChanged(after.hub))
                },
                (None, None) => after == session,
            }
        }),
{
}

/// When the membership of a room changes, the members that were kept of it are dropped; those of
/// other rooms are kept.
pub proof fn membership_drops_users(
    session: SessionView,
    envelope: EnvelopeView,
    reading: NoticeReadingView,
    room: Seq<char>,
)
    requires
        envelope.message_type == Some(MessageType::Joined) || envelope.message_type == Some(
            MessageType::Parted,
        ),
        envelope.room == Some(room),
    ensures
        after_envelope(session, envelope, reading).hub.room_users
            == session.hub.room_users.remove(room),
{
}

/// When a member of a room changes the nickname, the members that were kept of the room are
/// dropped: what is known of them then is what the notice itself tells, if anything.
pub proof fn nick_change_drops_users(
    session: SessionView,
    envelope: EnvelopeView,
    reading: NoticeReadingView,
    room: Seq<char>,
)
    requires
        envelope.message_type == Some(MessageType::Notice),
        envelope.room == Some(room),
        tells_of_nick(envelope),
    ensures
        ({
            let users = after_envelope(session, envelope, reading).hub.room_users;
            &&& users.contains_key(room) ==> reading.rooms is None && (reading.who matches Some(
                (told, _),
            ) && told == room)
            &&& reading.who is None ==> users == session.hub.room_users.remove(room)
        }),
{
}

/// A room that was entered is among the rooms of the hub, and one that was left is not; the
/// others stay.
pub proof fn rooms_follow_membership(
    session: SessionView,
    envelope: EnvelopeView,
    reading: NoticeReadingView,
    room: Seq<char>,
    other: Seq<char>,
)
    requires
        envelope.room == Some(room),
        other != room,
    ensures
        ({
            let rooms = after_envelope(session, envelope, reading).hub.rooms;
            &&& envelope.message_type == Some(MessageType::Joined) ==> rooms.contains(room)
            &&& envelope.message_type == Some(MessageType::Parted) ==> !rooms.contains(room)
            &&& rooms.contains(other) <==> session.hub.rooms.contains(other)
        }),
{
    let before = session.hub.rooms;
    let rooms = after_envelope(session, envelope, reading).hub.rooms;
    if envelope.message_type == Some(MessageType::Parted) {
        filter_keeps(before, other_than(room), room);
        filter_keeps(before, other_than(room), other);
    }
    if envelope.message_type == Some(MessageType::Joined) && !before.contains(room) {
        assert(rooms[before.len() as int] == room);
        if before.contains(other) {
            let k = choose|k: int| 0 <= k < before.len() && before[k] == other;
            assert(rooms[k] == other);
        }
        if rooms.contains(other) {
            let k = choose|k: int| 0 <= k < rooms.len() && rooms[k] == other;
            assert(before[k] == other);
        }
    }
}

/// The greeting of a hub is exposed, and the pauses between attempts start anew.
pub proof fn greeting_is_exposed(
    session: SessionView,
    envelope: EnvelopeView,
    reading: NoticeReadingView,
)
    requires
        envelope.message_type == Some(MessageType::Welcome),
    ensures
        ({
            let after = after_envelope(session, envelope, reading);
            &&& after.hub.welcome == envelope.welcome
            &&& envelope.welcome matches Some(welcome) ==> after.hub.name == welcome.hub_name
            &&& after.reconnect_attempt == 0
            &&& after.hub.connected == session.hub.connected
        }),
{
}

/// The structured state of a room is tracked while the client is in it, and it keeps the
/// directory of public rooms current, unless the same envelope brings a new directory.
pub proof fn room_state_is_tracked(
    session: SessionView,
    envelope: EnvelopeView,
    reading: NoticeReadingView,
    room: Seq<char>,
    state: RoomStateView,
)
    requires
        envelope.room == Some(room),
        envelope.room_state == Some(state),
    ensures
        ({
            let hub = after_envelope(session, envelope, reading).hub;
            &&& envelope.message_type != Some(MessageType::Parted) ==> hub.room_states
                == session.hub.room_states.insert(room, state)
            &&& envelope.message_type == Some(MessageType::Parted) ==> hub.room_states
                == session.hub.room_states.remove(room)
            &&& envelope.message_type != Some(MessageType::Notice) || reading.rooms is None
                ==> hub.public_rooms == directory_after(session.hub.public_rooms, room, state)
        }),
{
    assert(session.hub.room_states.insert(room, state).remove(room)
        =~= session.hub.room_states.remove(room));
}

/// A notice to one identity keeps its target.
pub proof fn direct_notice_keeps_target(
    hub: [u8; 16],
    envelope: EnvelopeView,
    kind: MessageKind,
    target: [u8; 16],
)
    requires
        envelope.destination == Some(target@),
    ensures
        message_in(hub, envelope, kind).destination == Some(target),
{
    let chosen = choose|hash: [u8; 16]| hash@ == target@;
    assert(chosen@ == target@);
    assert(chosen =~= target);
}

/// Messages, actions and errors reach the subscribers as messages of that kind.
pub proof fn message_is_published(
    source: [u8; 16],
    session: SessionView,
    hub: [u8; 16],
    envelope: EnvelopeView,
    reading: NoticeReadingView,
    kind: MessageKind,
)
    requires
        kind_of_type(envelope.message_type) == Some(kind),
    ensures
        envelope_effects(source, session, hub, envelope, reading).contains(
            EffectView::Emit(EventView::Message(message_in(hub, envelope, kind))),
        ),
{
    let effects = envelope_effects(source, session, hub, envelope, reading);
    let n = room_state_effects(session, envelope).len();
    assert(effects[n as int] == EffectView::Emit(
        EventView::Message(message_in(hub, envelope, kind)),
    ));
}

/// A notice reaches the subscribers as a message exactly where no query waited for it.
pub proof fn notice_is_published(
    source: [u8; 16],
    session: SessionView,
    hub: [u8; 16],
    envelope: EnvelopeView,
    reading: NoticeReadingView,
)
    requires
        envelope.message_type == Some(MessageType::Notice),
    ensures
        envelope_effects(source, session, hub, envelope, reading).contains(
            EffectView::Emit(EventView::Message(message_in(hub, envelope, MessageKind::Notice))),
        ) <==> !answers_query(session, reading),
{
    let message = EffectView::Emit(
        EventView::Message(message_in(hub, envelope, MessageKind::Notice)),
    );
    let effects = envelope_effects(source, session, hub, envelope, reading);
    let s = with_room_state(session, envelope);
    let t = without_stale_users(s, envelope);
    assert(answers_query(t, reading) == answers_query(session, reading));
    if !answers_query(session, reading) {
        assert(effects[effects.len() - 2] == message);
    }
}

proof fn greeted_hub_is_announced(
    actor: ActorView,
    session: SessionView,
    hub: [u8; 16],
    joins: Seq<(Seq<char>, Option<Seq<char>>)>,
    envelope: EnvelopeView,
    attempts: Seq<JoinAttemptView>,
    fetched: Result<FetchedView, Seq<char>>,
    told: NoticeReadingView,
)
    requires
        live_session(actor, hub, session.id) == Some(session),
        attempts.len() >= joins.len(),
    ensures
        ({
            let effects = restore_effects(actor.source, session, hub, joins, envelope);
            let done = actor_when_done(actor, effects, attempts, fetched, told);
            &&& session_of(done, hub) is Some
            &&& carried_out(actor, effects, attempts, fetched, told).contains(
                EffectView::Emit(EventView::HubChanged(session_of(done, hub)->0.hub)),
            )
        }),
    decreases joins.len(),
{
    let effects = restore_effects(actor.source, session, hub, joins, envelope);
    let all = carried_out(actor, effects, attempts, fetched, told);
    if joins.len() > 0 {
        let attempt = attempts[0];
        let next = after_rejoin(actor, hub, session.id, attempt);
        let rest = if attempt is Failed {
            Seq::empty()
        } else {
            joins.drop_first()
        };
        let later = after_join(session, attempt);
        greeted_hub_is_announced(
            next,
            later,
            hub,
            rest,
            envelope,
            attempts.drop_first(),
            fetched,
            told,
        );
        let more = carried_out(
            next,
            restore_effects(actor.source, later, hub, rest, envelope),
            attempts.drop_first(),
            fetched,
            told,
        );
        let done = actor_when_done(actor, effects, attempts, fetched, told);
        let changed = EffectView::Emit(EventView::HubChanged(session_of(done, hub)->0.hub));
        assert(all =~= effects + more);
        contained_in_sum(effects, more, changed);
    } else {
        assert(all[0] == EffectView::Emit(EventView::HubChanged(session.hub)));
    }
}

proof fn contained_in_sum(a: Seq<EffectView>, b: Seq<EffectView>, effect: EffectView)
    requires
        a.contains(effect) || b.contains(effect),
    ensures
        (a + b).contains(effect),
{
    if a.contains(effect) {
        let k = choose|k: int| 0 <= k < a.len() && a[k] == effect;
        assert((a + b)[k] == effect);
    } else {
        let k = choose|k: int| 0 <= k < b.len() && b[k] == effect;
        assert((a + b)[a.len() + k] == effect);
    }
}

proof fn typed_change_is_announced(
    source: [u8; 16],
    session: SessionView,
    hub: [u8; 16],
    envelope: EnvelopeView,
    reading: NoticeReadingView,
)
    requires
        envelope.message_type != Some(MessageType::Welcome),
        after_envelope(session, envelope, reading).hub != session.hub,
    ensures
        envelope_effects(source, session, hub, envelope, reading).contains(
            EffectView::Emit(
                EventView::HubChanged(after_envelope(session, envelope, reading).hub),
            ),
        ),
{
    let s = with_room_state(session, envelope);
    let after = after_envelope(session, envelope, reading);
    let changed = EffectView::Emit(EventView::HubChanged(after.hub));
    let first = room_state_effects(session, envelope);
    let told = type_effects(source, s, hub, envelope, reading);
    match envelope.message_type {
        Some(MessageType::Joined) | Some(MessageType::Parted) => {
            assert(told[0] == changed);
            contained_in_sum(first, told, changed);
        },
        Some(MessageType::Notice) => {
            let t = without_stale_users(s, envelope);
            let stale = stale_users_effects(s, envelope);
            if reading.rooms is Some || reading.who is Some {
                notice_part(source, session, hub, envelope, reading, 1);
            } else if stale.len() > 0 {
                assert(stale[0] == changed);
                assert(told[0] == changed);
                contained_in_sum(first, told, changed);
            } else {
                assert(t.hub =~= s.hub);
                assert(first[0] == changed);
                contained_in_sum(first, told, changed);
            }
        },
        _ => {
            assert(first[0] == changed);
            contained_in_sum(first, told, changed);
        },
    }
}

proof fn delivered_change_is_announced(
    session: SessionView,
    hub: [u8; 16],
    envelope: EnvelopeView,
    delivery: Result<DeliveryView, Seq<char>>,
    reading: NoticeReadingView,
)
    requires
        after_delivery(session, delivery, reading).hub != session.hub,
    ensures
        delivery_effects(session, hub, envelope, delivery, reading).contains(
            EffectView::Emit(
                EventView::HubChanged(after_delivery(session, delivery, reading).hub),
            ),
        ),
{
    assert(delivery_effects(session, hub, envelope, delivery, reading)[1] == EffectView::Emit(
        EventView::HubChanged(after_delivery(session, delivery, reading).hub),
    ));
}

/// What is known of a hub does not change by an envelope, or by the work that the envelope gives
/// rise to, without the subscribers being told of the hub as it then stands; and they are told
/// of it after every greeting, however the rooms were entered again.
pub proof fn hub_change_is_announced(
    actor: ActorView,
    hub: [u8; 16],
    session_id: u64,
    envelope: EnvelopeView,
    reading: NoticeReadingView,
    attempts: Seq<JoinAttemptView>,
    fetched: Result<FetchedView, Seq<char>>,
    told: NoticeReadingView,
)
    requires
        live_session(actor, hub, session_id) matches Some(session) && attempts.len()
            >= joins_of(session.desired_rooms).len(),
    ensures
        ({
            let received = ReceivedView::Envelope { envelope, reading };
            let next = after_inbound(actor, hub, session_id, received);
            let effects = inbound_effects(actor, hub, session_id, received);
            let done = actor_when_done(next, effects, attempts, fetched, told);
            &&& session_of(done, hub) matches Some(after)
            &&& after.hub != session_of(actor, hub)->0.hub || envelope.message_type == Some(
                MessageType::Welcome,
            ) ==> carried_out(next, effects, attempts, fetched, told).contains(
                EffectView::Emit(EventView::HubChanged(after.hub)),
            )
        }),
{
    let source = actor.source;
    let session = live_session(actor, hub, session_id)->0;
    let received = ReceivedView::Envelope { envelope, reading };
    let next = after_inbound(actor, hub, session_id, received);
    let after = after_envelope(session, envelope, reading);
    assert(live_session(next, hub, session_id) == Some(after));
    let s = with_room_state(session, envelope);
    let first = room_state_effects(session, envelope);
    let typed = type_effects(source, s, hub, envelope, reading);
    let effects = inbound_effects(actor, hub, session_id, received);
    assert(effects == first + typed);
    let done = actor_when_done(next, effects, attempts, fetched, told);
    let all = carried_out(next, effects, attempts, fetched, told);
    if envelope.message_type == Some(MessageType::Welcome) {
        greeted_hub_is_announced(
            next,
            after,
            hub,
            due_joins(s),
            envelope,
            attempts,
            fetched,
            told,
        );
        carried_out_after(next, first, typed, attempts, fetched, told);
        assert(effects.last() == typed.last());
        let later = actor_when_done(next, typed, attempts, fetched, told);
        assert(done == later);
        contained_in_sum(
            first,
            carried_out(next, typed, attempts, fetched, told),
            EffectView::Emit(EventView::HubChanged(session_of(later, hub)->0.hub)),
        );
    } else {
        if after.hub != session.hub {
            typed_change_is_announced(source, session, hub, envelope, reading);
        }
        if envelope.message_type == Some(MessageType::ResourceEnvelope)
            && envelope.resource_descriptor is Some {
            let descriptor = envelope.resource_descriptor->0;
            let delivery = inspected(hub, envelope, descriptor, fetched);
            let more = delivery_effects(after, hub, envelope, delivery, told);
            assert(effects.last() == typed.last());
            assert(all == effects + more);
            let end = after_delivery(after, delivery, told);
            assert(session_of(done, hub) == Some(end));
            let changed = EffectView::Emit(EventView::HubChanged(end.hub));
            if end.hub != after.hub {
                delivered_change_is_announced(after, hub, envelope, delivery, told);
                contained_in_sum(effects, more, changed);
            } else if after.hub != session.hub {
                contained_in_sum(effects, more, changed);
            }
        } else {
            typed_envelope_is_handed_on(source, s, hub, envelope, reading);
            assert(effects.last() == typed.last());
            assert(all == effects);
        }
    }
}

/// Bytes that are no envelope change nothing, and the subscribers are told of them.
pub proof fn undecodable_changes_nothing(
    source: [u8; 16],
    session: SessionView,
    hub: [u8; 16],
    words: Seq<char>,
)
    ensures
        after_received(session, ReceivedView::Undecodable(words)) == session,
        received_effects(source, session, hub, ReceivedView::Undecodable(words)) == seq![
            EffectView::Emit(EventView::InvalidEnvelope { hub, error: words }),
        ],
{
}

} // verus!
