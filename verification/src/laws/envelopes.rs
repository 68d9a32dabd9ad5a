//! What an envelope comes to, type by type.
use crate::actor::ActorView;
use crate::directory::directory_after;
use crate::effect::{EffectView, NoticeReadingView, ReceivedView, WorkView};
use crate::inbound::{identity_in, message_in, with_room_state};
use crate::report::{after_inbound, inbound_effects};
use crate::session::SessionView;
use crate::types::{EnvelopeView, EventView, HubView, MessageKind, MessageType, MessageView};
use vstd::prelude::*;

verus! {

/// Whether a session with the hub has this number.
pub open spec fn has_session(actor: ActorView, hub: [u8; 16], session_id: u64) -> bool {
    actor.sessions.contains_key(hub@) && actor.sessions[hub@].id == session_id
}

/// Whether nothing of an actor changed but what its session with the hub holds.
pub open spec fn only_session_changed(before: ActorView, after: ActorView, hub: [u8; 16]) -> bool {
    &&& after.source == before.source
    &&& after.next_session_id == before.next_session_id
    &&& forall|key: Seq<u8>| #[trigger]
        after.sessions.contains_key(key) <==> before.sessions.contains_key(key)
    &&& forall|key: Seq<u8>| #[trigger]
        after.sessions.contains_key(key) && key != hub@ ==> after.sessions[key]
            == before.sessions[key]
}

/// Whether nothing of a session changed but what is known of its hub.
pub open spec fn only_hub_changed(before: SessionView, after: SessionView) -> bool {
    after == SessionView { hub: after.hub, ..before }
}

/// Whether `after` is what is known of a hub when the structured state that an envelope carries
/// was taken in: the state is kept for its room, the directory goes by it, and nothing else
/// changed.
pub open spec fn with_state(before: HubView, envelope: EnvelopeView, after: HubView) -> bool {
    match (envelope.room, envelope.room_state) {
        (Some(room), Some(state)) => {
            &&& after == HubView {
                public_rooms: after.public_rooms,
                room_states: after.room_states,
                ..before
            }
            &&& after.public_rooms == directory_after(before.public_rooms, room, state)
            &&& after.room_states.contains_key(room)
            &&& after.room_states[room] == state
            &&& forall|other: Seq<char>|
                other != room ==> (#[trigger] after.room_states.contains_key(other)
                    <==> before.room_states.contains_key(other))
            &&& forall|other: Seq<char>|
                other != room && #[trigger] after.room_states.contains_key(other)
                    ==> after.room_states[other] == before.room_states[other]
        },
        _ => after == before,
    }
}

/// Structured state that came with an envelope is taken in in one way only.
pub proof fn state_is_unique(session: SessionView, envelope: EnvelopeView, stated: HubView)
    requires
        with_state(session.hub, envelope, stated),
    ensures
        with_room_state(session, envelope) == (SessionView { hub: stated, ..session }),
{
    if let (Some(room), Some(state)) = (envelope.room, envelope.room_state) {
        assert(stated.room_states =~= session.hub.room_states.insert(room, state));
    }
}

/// What the subscribers are told first: of the hub, where structured state changed what is known
/// of it.
pub open spec fn told_of_state(before: HubView, stated: HubView) -> Seq<EffectView> {
    if stated == before {
        Seq::empty()
    } else {
        seq![EffectView::Emit(EventView::HubChanged(stated))]
    }
}

/// Whether `message` is what an envelope of this hub says, as a message of this kind.
pub open spec fn says(
    message: MessageView,
    hub: [u8; 16],
    envelope: EnvelopeView,
    kind: MessageKind,
) -> bool {
    &&& message.hub == hub
    &&& message.room == envelope.room
    &&& message.source == envelope.source
    &&& message.nick == envelope.nick
    &&& message.kind == kind
    &&& envelope.body_text matches Some(text) ==> message.body == text
    &&& envelope.body_text is None ==> message.body.len() == 0
    &&& envelope.timestamp_ms matches Some(at) ==> message.timestamp_ms == at
    &&& envelope.timestamp_ms is None ==> message.timestamp_ms == 0
    &&& match envelope.destination {
        Some(bytes) if bytes.len() == 16 => message.destination matches Some(target) && target@
            == bytes,
        _ => message.destination is None,
    }
}

/// Sixteen bytes write an identity, and no other bytes do.
pub proof fn identity_is_sixteen_bytes(bytes: Seq<u8>)
    ensures
        bytes.len() == 16 ==> (identity_in(Some(bytes)) matches Some(hash) && hash@ == bytes),
        bytes.len() != 16 ==> identity_in(Some(bytes)) is None,
        identity_in(None) is None,
{
    if bytes.len() == 16 {
        let hash: [u8; 16] = [
            bytes[0],
            bytes[1],
            bytes[2],
            bytes[3],
            bytes[4],
            bytes[5],
            bytes[6],
            bytes[7],
            bytes[8],
            bytes[9],
            bytes[10],
            bytes[11],
            bytes[12],
            bytes[13],
            bytes[14],
            bytes[15],
        ];
        assert(hash@ =~= bytes);
    }
}

/// The message that an envelope carries says what the envelope says.
pub proof fn message_says(hub: [u8; 16], envelope: EnvelopeView, kind: MessageKind)
    ensures
        says(message_in(hub, envelope, kind), hub, envelope, kind),
{
    if let Some(bytes) = envelope.destination {
        identity_is_sixteen_bytes(bytes);
    }
}

/// Messages, actions and errors are told as messages of that kind, with what the envelope says,
/// and then handed on; what else they do is to bring structured state.
pub proof fn spoken_envelope(
    actor: ActorView,
    hub: [u8; 16],
    session_id: u64,
    envelope: EnvelopeView,
    reading: NoticeReadingView,
    stated: HubView,
) -> (message: MessageView)
    requires
        has_session(actor, hub, session_id),
        with_state(actor.sessions[hub@].hub, envelope, stated),
        envelope.message_type == Some(MessageType::Message) || envelope.message_type == Some(
            MessageType::Action,
        ) || envelope.message_type == Some(MessageType::Error),
    ensures
        ({
            let received = ReceivedView::Envelope { envelope, reading };
            let after = after_inbound(actor, hub, session_id, received);
            let before = actor.sessions[hub@];
            let kind = match envelope.message_type {
                Some(MessageType::Message) => MessageKind::Message,
                Some(MessageType::Action) => MessageKind::Action,
                _ => MessageKind::Error,
            };
            &&& says(message, hub, envelope, kind)
            &&& inbound_effects(actor, hub, session_id, received) == told_of_state(
                before.hub,
                stated,
            ) + seq![
                EffectView::Emit(EventView::Message(message)),
                EffectView::Emit(EventView::Envelope { hub, envelope }),
            ]
            &&& only_session_changed(actor, after, hub)
            &&& only_hub_changed(before, after.sessions[hub@])
            &&& after.sessions[hub@].hub == stated
        }),
{
    let kind = match envelope.message_type {
        Some(MessageType::Message) => MessageKind::Message,
        Some(MessageType::Action) => MessageKind::Action,
        _ => MessageKind::Error,
    };
    state_is_unique(actor.sessions[hub@], envelope, stated);
    message_says(hub, envelope, kind);
    message_in(hub, envelope, kind)
}

/// An envelope without a type, a request that only clients send, and anything that is not known
/// are handed on and do nothing else but to bring structured state.
pub proof fn unspoken_envelope(
    actor: ActorView,
    hub: [u8; 16],
    session_id: u64,
    envelope: EnvelopeView,
    reading: NoticeReadingView,
    stated: HubView,
)
    requires
        has_session(actor, hub, session_id),
        with_state(actor.sessions[hub@].hub, envelope, stated),
        envelope.message_type is None || envelope.message_type == Some(MessageType::Join)
            || envelope.message_type == Some(MessageType::Part) || envelope.message_type == Some(
            MessageType::Other,
        ),
    ensures
        ({
            let received = ReceivedView::Envelope { envelope, reading };
            let after = after_inbound(actor, hub, session_id, received);
            let before = actor.sessions[hub@];
            &&& inbound_effects(actor, hub, session_id, received) == told_of_state(
                before.hub,
                stated,
            ) + seq![EffectView::Emit(EventView::Envelope { hub, envelope })]
            &&& only_session_changed(actor, after, hub)
            &&& only_hub_changed(before, after.sessions[hub@])
            &&& after.sessions[hub@].hub == stated
        }),
{
    state_is_unique(actor.sessions[hub@], envelope, stated);
}

/// A ping is answered over the session that it came in, under the identity of the client, and
/// handed on; it does nothing else but to bring structured state.
pub proof fn ping_envelope(
    actor: ActorView,
    hub: [u8; 16],
    session_id: u64,
    envelope: EnvelopeView,
    reading: NoticeReadingView,
    stated: HubView,
)
    requires
        has_session(actor, hub, session_id),
        with_state(actor.sessions[hub@].hub, envelope, stated),
        envelope.message_type == Some(MessageType::Ping),
    ensures
        ({
            let received = ReceivedView::Envelope { envelope, reading };
            let after = after_inbound(actor, hub, session_id, received);
            let before = actor.sessions[hub@];
            &&& inbound_effects(actor, hub, session_id, received) == told_of_state(
                before.hub,
                stated,
            ) + seq![
                EffectView::Pong { session_id, source: actor.source, envelope },
                EffectView::Emit(EventView::Envelope { hub, envelope }),
            ]
            &&& only_session_changed(actor, after, hub)
            &&& only_hub_changed(before, after.sessions[hub@])
            &&& after.sessions[hub@].hub == stated
        }),
{
    state_is_unique(actor.sessions[hub@], envelope, stated);
}

/// A pong answers the ping whose number it repeats, where that ping waits, and then that ping
/// waits no more; every other query waits on.
pub proof fn pong_envelope(
    actor: ActorView,
    hub: [u8; 16],
    session_id: u64,
    envelope: EnvelopeView,
    reading: NoticeReadingView,
    stated: HubView,
)
    requires
        has_session(actor, hub, session_id),
        with_state(actor.sessions[hub@].hub, envelope, stated),
        envelope.message_type == Some(MessageType::Pong),
    ensures
        ({
            let received = ReceivedView::Envelope { envelope, reading };
            let after = after_inbound(actor, hub, session_id, received);
            let before = actor.sessions[hub@];
            let answer = match envelope.body_integer {
                Some(id) if before.pending_pings.contains(id) => seq![
                    EffectView::AnswerPing { query_id: id },
                ],
                _ => Seq::empty(),
            };
            &&& inbound_effects(actor, hub, session_id, received) == told_of_state(
                before.hub,
                stated,
            ) + answer + seq![EffectView::Emit(EventView::Envelope { hub, envelope })]
            &&& only_session_changed(actor, after, hub)
            &&& after.sessions[hub@] == (SessionView {
                hub: stated,
                pending_pings: after.sessions[hub@].pending_pings,
                ..before
            })
            &&& forall|id: u64| #[trigger]
                after.sessions[hub@].pending_pings.contains(id) <==> before.pending_pings.contains(
                    id,
                ) && envelope.body_integer != Some(id)
        }),
{
    let received = ReceivedView::Envelope { envelope, reading };
    let before = actor.sessions[hub@];
    state_is_unique(before, envelope, stated);
    let answer = match envelope.body_integer {
        Some(id) if before.pending_pings.contains(id) => seq![
            EffectView::AnswerPing { query_id: id },
        ],
        _ => Seq::empty(),
    };
    assert(inbound_effects(actor, hub, session_id, received) =~= told_of_state(
        before.hub,
        stated,
    ) + answer + seq![EffectView::Emit(EventView::Envelope { hub, envelope })]);
}

/// The announcement of a resource has it fetched over the session that it came in; one that
/// cannot be read is told of as invalid and handed on. It does nothing else but to bring
/// structured state.
pub proof fn resource_envelope(
    actor: ActorView,
    hub: [u8; 16],
    session_id: u64,
    envelope: EnvelopeView,
    reading: NoticeReadingView,
    stated: HubView,
)
    requires
        has_session(actor, hub, session_id),
        with_state(actor.sessions[hub@].hub, envelope, stated),
        envelope.message_type == Some(MessageType::ResourceEnvelope),
    ensures
        ({
            let received = ReceivedView::Envelope { envelope, reading };
            let after = after_inbound(actor, hub, session_id, received);
            let before = actor.sessions[hub@];
            let effects = inbound_effects(actor, hub, session_id, received);
            let told = told_of_state(before.hub, stated);
            &&& envelope.resource_descriptor matches Some(descriptor) ==> effects == told + seq![
                EffectView::Perform(
                    WorkView::Fetch { destination: hub, session_id, descriptor, envelope },
                ),
            ]
            &&& envelope.resource_descriptor is None ==> effects == told + seq![
                EffectView::Emit(
                    EventView::InvalidEnvelope { hub, error: "invalid RRC resource descriptor"@ },
                ),
                EffectView::Emit(EventView::Envelope { hub, envelope }),
            ]
            &&& only_session_changed(actor, after, hub)
            &&& only_hub_changed(before, after.sessions[hub@])
            &&& after.sessions[hub@].hub == stated
        }),
{
    state_is_unique(actor.sessions[hub@], envelope, stated);
}

/// When a room was entered, it comes to the end of the rooms unless it is among them, and the
/// members that were kept of it are dropped; the subscribers are told of the hub once, as it
/// then stands, and the envelope is handed on.
pub proof fn joined_envelope(
    actor: ActorView,
    hub: [u8; 16],
    session_id: u64,
    envelope: EnvelopeView,
    reading: NoticeReadingView,
    stated: HubView,
)
    requires
        has_session(actor, hub, session_id),
        with_state(actor.sessions[hub@].hub, envelope, stated),
        envelope.message_type == Some(MessageType::Joined),
    ensures
        ({
            let received = ReceivedView::Envelope { envelope, reading };
            let after = after_inbound(actor, hub, session_id, received);
            let before = actor.sessions[hub@];
            let known = after.sessions[hub@].hub;
            &&& inbound_effects(actor, hub, session_id, received) == seq![
                EffectView::Emit(EventView::HubChanged(known)),
                EffectView::Emit(EventView::Envelope { hub, envelope }),
            ]
            &&& only_session_changed(actor, after, hub)
            &&& only_hub_changed(before, after.sessions[hub@])
            &&& envelope.room is None ==> known == stated
            &&& envelope.room matches Some(room) ==> {
                &&& known == HubView {
                    rooms: known.rooms,
                    room_users: stated.room_users.remove(room),
                    ..stated
                }
                &&& before.hub.rooms.contains(room) ==> known.rooms == before.hub.rooms
                &&& !before.hub.rooms.contains(room) ==> known.rooms.len()
                    == before.hub.rooms.len() + 1 && known.rooms.last() == room
                    && known.rooms.drop_last() == before.hub.rooms
            }
        }),
{
    let before = actor.sessions[hub@];
    state_is_unique(before, envelope, stated);
    if let Some(room) = envelope.room {
        assert(before.hub.rooms.push(room).drop_last() =~= before.hub.rooms);
    }
}

/// When a room was left, it is among the rooms no more, and the others keep their order; the
/// state and the members that were kept of it are dropped. The subscribers are told of the hub
/// as it then stands, and the envelope is handed on.
pub proof fn parted_envelope(
    actor: ActorView,
    hub: [u8; 16],
    session_id: u64,
    envelope: EnvelopeView,
    reading: NoticeReadingView,
    stated: HubView,
)
    requires
        has_session(actor, hub, session_id),
        with_state(actor.sessions[hub@].hub, envelope, stated),
        envelope.message_type == Some(MessageType::Parted),
    ensures
        ({
            let received = ReceivedView::Envelope { envelope, reading };
            let after = after_inbound(actor, hub, session_id, received);
            let before = actor.sessions[hub@];
            let known = after.sessions[hub@].hub;
            &&& inbound_effects(actor, hub, session_id, received) == told_of_state(
                before.hub,
                stated,
            ) + seq![
                EffectView::Emit(EventView::HubChanged(known)),
                EffectView::Emit(EventView::Envelope { hub, envelope }),
            ]
            &&& only_session_changed(actor, after, hub)
            &&& only_hub_changed(before, after.sessions[hub@])
            &&& envelope.room is None ==> known == stated
            &&& envelope.room matches Some(room) ==> {
                &&& known == HubView {
                    rooms: known.rooms,
                    room_states: stated.room_states.remove(room),
                    room_users: stated.room_users.remove(room),
                    ..stated
                }
                &&& known.rooms == before.hub.rooms.filter(|other: Seq<char>| other != room)
            }
        }),
{
    let before = actor.sessions[hub@];
    state_is_unique(before, envelope, stated);
    if let Some(room) = envelope.room {
        assert(crate::sequence::other_than(room) =~= (|other: Seq<char>| other != room));
    }
}

/// At a greeting, the hub is known with what the greeting says, under the name that it gives, and
/// nothing was lost since; the rooms to enter again are asked for at once, or else the
/// subscribers are told of the hub and the envelope is handed on.
pub proof fn welcome_envelope(
    actor: ActorView,
    hub: [u8; 16],
    session_id: u64,
    envelope: EnvelopeView,
    reading: NoticeReadingView,
    stated: HubView,
)
    requires
        has_session(actor, hub, session_id),
        with_state(actor.sessions[hub@].hub, envelope, stated),
        envelope.message_type == Some(MessageType::Welcome),
    ensures
        ({
            let received = ReceivedView::Envelope { envelope, reading };
            let after = after_inbound(actor, hub, session_id, received);
            let before = actor.sessions[hub@];
            let known = after.sessions[hub@].hub;
            let told = told_of_state(before.hub, stated);
            let effects = inbound_effects(actor, hub, session_id, received);
            &&& only_session_changed(actor, after, hub)
            &&& after.sessions[hub@] == (SessionView {
                hub: known,
                reconnect_attempt: 0,
                restore_rooms_on_welcome: false,
                ..before
            })
            &&& known == HubView {
                welcome: envelope.welcome,
                name: known.name,
                detail: "Connected"@,
                ..stated
            }
            &&& envelope.welcome matches Some(welcome) ==> known.name == welcome.hub_name
            &&& envelope.welcome is None ==> known.name is None
            &&& !before.restore_rooms_on_welcome ==> effects == told + seq![
                EffectView::Emit(EventView::HubChanged(known)),
                EffectView::Emit(EventView::Envelope { hub, envelope }),
            ]
            &&& before.restore_rooms_on_welcome ==> effects == told + seq![
                EffectView::Emit(EventView::HubChanged(known)),
                EffectView::Emit(EventView::Envelope { hub, envelope }),
            ] || (effects.len() == told.len() + 1 && effects.take(told.len() as int) == told && (
            effects.last() matches EffectView::Perform(
                WorkView::Join { destination, session_id: id, draft, nick, envelope: kept, .. },
            ) && destination == hub && id == session_id && nick == before.nick && kept == envelope
                && draft.source == actor.source && draft.content is Join))
        }),
{
    let before = actor.sessions[hub@];
    state_is_unique(before, envelope, stated);
    let told = told_of_state(before.hub, stated);
    let effects = inbound_effects(
        actor,
        hub,
        session_id,
        ReceivedView::Envelope { envelope, reading },
    );
    assert(effects.take(told.len() as int) =~= told);
}

} // verus!
