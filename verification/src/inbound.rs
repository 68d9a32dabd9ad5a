//! What an envelope does to the session that it came in.
use crate::directory::{apply_room_state_to_directory, directory_after, same_topic};
use crate::effect::{
    Effect, EffectView, JoinAttempt, JoinAttemptView, NoticeReading, NoticeReadingView, Received,
    ReceivedView, Work, WorkView,
};
use crate::link::{backoff, reconnect_delay};
use crate::notice::{after_notice, answers_query, notice_effects, resolve_query_notice};
use crate::ordered_map::{ascending, OrderedMap};
use crate::replica::{push_onto, Replica};
use crate::request::{Content, ContentView, Draft, DraftView};
use crate::resource::{stamp, stamp_of};
use crate::sequence::all_but;
use crate::session::{Session, SessionView};
use crate::text::{same, starts_with};
use crate::types::{
    error_text, Envelope, EnvelopeView, Event, EventView, HubView, Message, MessageKind,
    MessageType, MessageView, RoomState,
};
use crate::wait::in_rooms;
use vstd::prelude::*;

verus! {

/// The identity that `bytes` write, where they write one.
pub open spec fn identity_in(bytes: Option<Seq<u8>>) -> Option<[u8; 16]> {
    match bytes {
        Some(b) => if b.len() == 16 {
            Some(choose|hash: [u8; 16]| hash@ == b)
        } else {
            None
        },
        None => None,
    }
}

/// The text of an envelope; empty where it has none.
pub open spec fn body_of(envelope: EnvelopeView) -> Seq<char> {
    match envelope.body_text {
        Some(text) => text,
        None => Seq::empty(),
    }
}

/// The message that an envelope carries.
pub open spec fn message_in(
    hub: [u8; 16],
    envelope: EnvelopeView,
    kind: MessageKind,
) -> MessageView {
    MessageView {
        hub,
        room: envelope.room,
        source: envelope.source,
        destination: identity_in(envelope.destination),
        nick: envelope.nick,
        body: body_of(envelope),
        timestamp_ms: stamp(envelope),
        kind,
    }
}

/// A session after the structured state that an envelope may carry was taken in.
pub open spec fn with_room_state(session: SessionView, envelope: EnvelopeView) -> SessionView {
    match (envelope.room, envelope.room_state) {
        (Some(room), Some(state)) => SessionView {
            hub: HubView {
                public_rooms: directory_after(session.hub.public_rooms, room, state),
                room_states: session.hub.room_states.insert(room, state),
                ..session.hub
            },
            ..session
        },
        _ => session,
    }
}

/// What is to be done when the structured state of a room was taken in: the subscribers
/// are told of a change, unless the envelope tells them anyway.
pub open spec fn room_state_effects(
    session: SessionView,
    envelope: EnvelopeView,
) -> Seq<EffectView> {
    let after = with_room_state(session, envelope);
    if after.hub != session.hub && envelope.message_type != Some(MessageType::Joined) {
        seq![EffectView::Emit(EventView::HubChanged(after.hub))]
    } else {
        Seq::empty()
    }
}

/// A session whose hub sent its greeting.
pub open spec fn greeted(session: SessionView, envelope: EnvelopeView) -> SessionView {
    SessionView {
        hub: HubView {
            welcome: envelope.welcome,
            name: match envelope.welcome {
                Some(welcome) => welcome.hub_name,
                None => None,
            },
            detail: "Connected"@,
            ..session.hub
        },
        reconnect_attempt: 0,
        restore_rooms_on_welcome: false,
        ..session
    }
}

/// The desired rooms with their keys, in ascending order.
pub open spec fn joins_of(
    desired: Map<Seq<char>, Option<Seq<char>>>,
) -> Seq<(Seq<char>, Option<Seq<char>>)> {
    ascending::<String, Option<Seq<char>>>(desired).map_values(
        |room: Seq<char>| (room, desired[room]),
    )
}

/// The request to enter the first of `joins` again.
pub open spec fn join_work(
    source: [u8; 16],
    session: SessionView,
    destination: [u8; 16],
    joins: Seq<(Seq<char>, Option<Seq<char>>)>,
    envelope: EnvelopeView,
) -> WorkView {
    WorkView::Join {
        destination,
        session_id: session.id,
        draft: DraftView {
            source,
            content: ContentView::Join { room: joins[0].0, key: joins[0].1 },
        },
        nick: session.nick,
        rest: joins.drop_first(),
        envelope,
    }
}

/// What is to be done while rooms are entered again: the next one, or, after the last,
/// the subscribers are told.
pub open spec fn restore_effects(
    source: [u8; 16],
    session: SessionView,
    destination: [u8; 16],
    joins: Seq<(Seq<char>, Option<Seq<char>>)>,
    envelope: EnvelopeView,
) -> Seq<EffectView> {
    if joins.len() > 0 {
        seq![EffectView::Perform(join_work(source, session, destination, joins, envelope))]
    } else {
        seq![
            EffectView::Emit(EventView::HubChanged(session.hub)),
            EffectView::Emit(EventView::Envelope { hub: destination, envelope }),
        ]
    }
}

/// What is known of a hub after it said that `room` was entered.
pub open spec fn entered(hub: HubView, room: Seq<char>) -> HubView {
    HubView {
        rooms: if hub.rooms.contains(room) {
            hub.rooms
        } else {
            hub.rooms.push(room)
        },
        room_users: hub.room_users.remove(room),
        ..hub
    }
}

/// The rooms other than `room`, in their order.
pub open spec fn rooms_without(rooms: Seq<Seq<char>>, room: Seq<char>) -> Seq<Seq<char>> {
    all_but(rooms, room)
}

/// What is known of a hub after it said that `room` was left.
pub open spec fn left(hub: HubView, room: Seq<char>) -> HubView {
    HubView {
        rooms: rooms_without(hub.rooms, room),
        room_states: hub.room_states.remove(room),
        room_users: hub.room_users.remove(room),
        ..hub
    }
}

/// A session whose hub said that a room was entered.
pub open spec fn after_joined(s: SessionView, room: Option<Seq<char>>) -> SessionView {
    match room {
        Some(room) => SessionView { hub: entered(s.hub, room), ..s },
        None => s,
    }
}

/// A session whose hub said that a room was left.
pub open spec fn after_parted(s: SessionView, room: Option<Seq<char>>) -> SessionView {
    match room {
        Some(room) => SessionView { hub: left(s.hub, room), ..s },
        None => s,
    }
}

/// A session in which a pong with this number came.
pub open spec fn after_pong(s: SessionView, number: Option<u64>) -> SessionView {
    match number {
        Some(id) => SessionView { pending_pings: s.pending_pings.remove(id), ..s },
        None => s,
    }
}

/// Whether an envelope says that a member of a room changed the nickname.
pub open spec fn tells_of_nick(envelope: EnvelopeView) -> bool {
    "nick changed:"@.is_prefix_of(body_of(envelope)) && envelope.room is Some
}

/// A session that does not rely on members that an envelope made stale.
pub open spec fn without_stale_users(
    session: SessionView,
    envelope: EnvelopeView,
) -> SessionView {
    if tells_of_nick(envelope) {
        SessionView {
            hub: HubView {
                room_users: session.hub.room_users.remove(envelope.room->0),
                ..session.hub
            },
            ..session
        }
    } else {
        session
    }
}

/// What is to be done when members became stale: the subscribers are told.
pub open spec fn stale_users_effects(
    session: SessionView,
    envelope: EnvelopeView,
) -> Seq<EffectView> {
    if tells_of_nick(envelope) && session.hub.room_users.contains_key(envelope.room->0) {
        seq![EffectView::Emit(EventView::HubChanged(without_stale_users(session, envelope).hub))]
    } else {
        Seq::empty()
    }
}

/// The kind of message that an envelope of this type is, apart from notices.
pub open spec fn kind_of_type(message_type: Option<MessageType>) -> Option<MessageKind> {
    match message_type {
        Some(MessageType::Message) => Some(MessageKind::Message),
        Some(MessageType::Action) => Some(MessageKind::Action),
        Some(MessageType::Error) => Some(MessageKind::Error),
        _ => None,
    }
}

/// A session after what the type of an envelope calls for was done.
pub open spec fn after_type(
    s: SessionView,
    envelope: EnvelopeView,
    reading: NoticeReadingView,
) -> SessionView {
    match envelope.message_type {
        Some(MessageType::Welcome) => greeted(s, envelope),
        Some(MessageType::Joined) => after_joined(s, envelope.room),
        Some(MessageType::Parted) => after_parted(s, envelope.room),
        Some(MessageType::Pong) => after_pong(s, envelope.body_integer),
        Some(MessageType::Notice) => after_notice(
            without_stale_users(s, envelope),
            reading,
            envelope.user_list,
        ),
        _ => s,
    }
}

/// A session after an envelope came in it.
pub open spec fn after_envelope(
    session: SessionView,
    envelope: EnvelopeView,
    reading: NoticeReadingView,
) -> SessionView {
    after_type(with_room_state(session, envelope), envelope, reading)
}

/// The rooms to enter again at a greeting, with their keys.
pub open spec fn due_joins(s: SessionView) -> Seq<(Seq<char>, Option<Seq<char>>)> {
    if s.restore_rooms_on_welcome {
        joins_of(s.desired_rooms)
    } else {
        Seq::empty()
    }
}

/// What the announcement of a resource calls for: to take the resource in, or, where the
/// announcement cannot be read, to say so.
pub open spec fn announcement_effects(
    s: SessionView,
    hub: [u8; 16],
    envelope: EnvelopeView,
) -> Seq<EffectView> {
    match envelope.resource_descriptor {
        Some(descriptor) => seq![
            EffectView::Perform(
                WorkView::Fetch { destination: hub, session_id: s.id, descriptor, envelope },
            ),
        ],
        None => seq![
            EffectView::Emit(
                EventView::InvalidEnvelope { hub, error: "invalid RRC resource descriptor"@ },
            ),
            EffectView::Emit(EventView::Envelope { hub, envelope }),
        ],
    }
}

/// What a pong calls for: to answer the ping that waits for it, if any.
pub open spec fn pong_effects(s: SessionView, number: Option<u64>) -> Seq<EffectView> {
    match number {
        Some(id) => if s.pending_pings.contains(id) {
            seq![EffectView::AnswerPing { query_id: id }]
        } else {
            Seq::empty()
        },
        None => Seq::empty(),
    }
}

/// What a notice calls for.
pub open spec fn told_notice_effects(
    s: SessionView,
    hub: [u8; 16],
    envelope: EnvelopeView,
    reading: NoticeReadingView,
) -> Seq<EffectView> {
    let t = without_stale_users(s, envelope);
    stale_users_effects(s, envelope) + notice_effects(t, hub, reading, envelope.user_list)
        + if answers_query(t, reading) {
        Seq::empty()
    } else {
        seq![EffectView::Emit(EventView::Message(message_in(hub, envelope, MessageKind::Notice)))]
    }
}

/// What the type of an envelope calls for, when its structured state was taken in.
pub open spec fn type_effects(
    source: [u8; 16],
    s: SessionView,
    hub: [u8; 16],
    envelope: EnvelopeView,
    reading: NoticeReadingView,
) -> Seq<EffectView> {
    let passed_on = EffectView::Emit(EventView::Envelope { hub, envelope });
    match envelope.message_type {
        Some(MessageType::Welcome) => restore_effects(
            source,
            greeted(s, envelope),
            hub,
            due_joins(s),
            envelope,
        ),
        Some(MessageType::Joined) => seq![
            EffectView::Emit(EventView::HubChanged(after_joined(s, envelope.room).hub)),
            passed_on,
        ],
        Some(MessageType::Parted) => seq![
            EffectView::Emit(EventView::HubChanged(after_parted(s, envelope.room).hub)),
            passed_on,
        ],
        Some(MessageType::Ping) => seq![
            EffectView::Pong { session_id: s.id, source, envelope },
            passed_on,
        ],
        Some(MessageType::Pong) => pong_effects(s, envelope.body_integer).push(passed_on),
        Some(MessageType::ResourceEnvelope) => announcement_effects(s, hub, envelope),
        Some(MessageType::Notice) => told_notice_effects(s, hub, envelope, reading).push(passed_on),
        _ => match kind_of_type(envelope.message_type) {
            Some(kind) => seq![
                EffectView::Emit(EventView::Message(message_in(hub, envelope, kind))),
                passed_on,
            ],
            None => seq![passed_on],
        },
    }
}

/// What is to be done when an envelope came in a session.
pub open spec fn envelope_effects(
    source: [u8; 16],
    session: SessionView,
    hub: [u8; 16],
    envelope: EnvelopeView,
    reading: NoticeReadingView,
) -> Seq<EffectView> {
    room_state_effects(session, envelope) + type_effects(
        source,
        with_room_state(session, envelope),
        hub,
        envelope,
        reading,
    )
}

/// The identity that `bytes` write, where they write one.
pub fn read_identity(bytes: &Option<Vec<u8>>) -> (identity: Option<[u8; 16]>)
    ensures
        identity == identity_in(bytes.deep_view()),
{
    match bytes {
        Some(bytes) => {
            if bytes.len() != 16 {
                return None;
            }
            let mut hash: [u8; 16] = [0u8;16];
            let mut i: usize = 0;
            while i < 16
                invariant
                    i <= 16,
                    bytes.len() == 16,
                    forall|j: int| 0 <= j < i ==> hash@[j] == bytes@[j],
                decreases 16 - i,
            {
                hash[i] = bytes[i];
                i += 1;
            }
            assert(hash@ =~= bytes.deep_view());
            proof {
                let chosen = choose|h: [u8; 16]| h@ == bytes.deep_view();
                assert(chosen@ == hash@);
                assert(chosen =~= hash);
            }
            Some(hash)
        },
        None => None,
    }
}

/// The text of an envelope; empty where it has none.
pub fn text_of(envelope: &Envelope) -> (body: String)
    ensures
        body@ == body_of(envelope@),
{
    match &envelope.body_text {
        Some(text) => text.clone(),
        None => String::new(),
    }
}

/// The message that an envelope carries.
pub fn message_from(hub: [u8; 16], envelope: &Envelope, kind: MessageKind) -> (message: Message)
    ensures
        message@ == message_in(hub, envelope@, kind),
{
    Message {
        hub,
        room: envelope.room.replica(),
        source: envelope.source,
        destination: read_identity(&envelope.destination),
        nick: envelope.nick.replica(),
        body: text_of(envelope),
        timestamp_ms: stamp_of(envelope),
        kind,
    }
}

/// Whether two states of a room are the same.
pub fn same_state(a: &RoomState, b: &RoomState) -> (yes: bool)
    ensures
        yes == (a@ == b@),
{
    a.registered == b.registered && same(a.modes.as_str(), b.modes.as_str()) && same_topic(
        &a.topic,
        &b.topic,
    )
}

/// Takes in the structured state that an envelope may carry, and says whether that
/// changed what is known of the hub.
pub fn take_room_state(session: &mut Session, envelope: &Envelope) -> (changed: bool)
    ensures
        final(session)@ == with_room_state(old(session)@, envelope@),
        changed == (final(session)@.hub != old(session)@.hub),
{
    let (room, state) = match (&envelope.room, &envelope.room_state) {
        (Some(room), Some(state)) => (room, state),
        _ => return false,
    };
    let ghost before = session@;
    let directory_changed = apply_room_state_to_directory(
        &mut session.hub.public_rooms,
        room.as_str(),
        state,
    );
    let previous = session.hub.room_states.insert(room.clone(), state.clone());
    let state_changed = match previous {
        Some(previous) => !same_state(&previous, state),
        None => true,
    };
    proof {
        let states = before.hub.room_states;
        assert(states.insert(room@, state@).contains_key(room@));
        assert(states.insert(room@, state@)[room@] == state@);
        if !state_changed {
            assert(states.insert(room@, state@) =~= states);
        }
        if !state_changed && !directory_changed {
            assert(session@.hub =~= before.hub);
        }
    }
    state_changed || directory_changed
}

/// The desired rooms with their keys, in ascending order.
pub fn list_joins(desired: &OrderedMap<String, Option<String>>) -> (joins: Vec<
    (String, Option<String>),
>)
    ensures
        joins.deep_view() == joins_of(desired@),
{
    let mut joins: Vec<(String, Option<String>)> = Vec::new();
    let count = desired.len();
    let ghost keys = desired.keys();
    let mut i: usize = 0;
    assert(joins.deep_view() =~= joins_of(desired@).take(0));
    while i < count
        invariant
            i <= count == keys.len(),
            keys == desired.keys(),
            keys == ascending::<String, Option<Seq<char>>>(desired@),
            joins.deep_view() == joins_of(desired@).take(i as int),
        decreases count - i,
    {
        let (room, key) = desired.entry(i);
        let pair = (room.clone(), key.replica());
        push_onto(&mut joins, pair);
        i += 1;
        assert(joins_of(desired@).take(i as int) =~= joins_of(desired@).take(i - 1).push(
            joins_of(desired@)[i - 1],
        ));
    }
    assert(joins_of(desired@).take(count as int) =~= joins_of(desired@));
    joins
}

/// Asks for the next room to be entered again, or tells the subscribers that this is over.
pub fn restore_step(
    source: [u8; 16],
    session: &Session,
    destination: [u8; 16],
    joins: Vec<(String, Option<String>)>,
    envelope: Envelope,
    effects: &mut Vec<Effect>,
)
    ensures
        final(effects).deep_view() == old(effects).deep_view() + restore_effects(
            source,
            session@,
            destination,
            joins.deep_view(),
            envelope@,
        ),
{
    let ghost before = effects.deep_view();
    let ghost wanted = restore_effects(
        source,
        session@,
        destination,
        joins.deep_view(),
        envelope@,
    );
    let ghost listed = joins.deep_view();
    let mut rest = joins;
    if rest.len() > 0 {
        let (room, key) = rest.remove(0);
        assert(rest.deep_view() =~= listed.drop_first());
        push_onto(
            effects,
            Effect::Perform(
                Work::Join {
                    destination,
                    session_id: session.id,
                    draft: Draft { source, content: Content::Join { room, key } },
                    nick: session.nick.replica(),
                    rest,
                    envelope,
                },
            ),
        );
    } else {
        push_onto(effects, Effect::Emit(Event::HubChanged(session.hub.clone())));
        push_onto(effects, Effect::Emit(Event::Envelope { hub: destination, envelope }));
    }
    assert(effects.deep_view() =~= before + wanted);
}

/// Notes that `room` was entered.
pub fn enter_room(session: &mut Session, room: &String)
    ensures
        final(session)@ == (SessionView {
            hub: entered(old(session)@.hub, room@),
            ..old(session)@
        }),
{
    if !in_rooms(&session.hub.rooms, room.as_str()) {
        push_onto(&mut session.hub.rooms, room.clone());
    }
    session.hub.room_users.remove(room);
}

/// The rooms other than `room`, in their order.
pub fn rooms_but(rooms: &Vec<String>, room: &String) -> (rest: Vec<String>)
    ensures
        rest.deep_view() == rooms_without(rooms.deep_view(), room@),
{
    let ghost all = rooms.deep_view();
    let mut rest: Vec<String> = Vec::new();
    let mut i: usize = 0;
    proof {
        reveal(Seq::filter);
        assert(rest.deep_view() =~= rooms_without(all.take(0), room@));
    }
    while i < rooms.len()
        invariant
            i <= rooms.len(),
            all == rooms.deep_view(),
            rest.deep_view() == rooms_without(all.take(i as int), room@),
        decreases rooms.len() - i,
    {
        proof {
            reveal(Seq::filter);
            assert(all.take(i + 1).drop_last() =~= all.take(i as int));
            assert(all.take(i + 1).last() == rooms@[i as int]@);
        }
        if !same(rooms[i].as_str(), room.as_str()) {
            push_onto(&mut rest, rooms[i].clone());
        }
        i += 1;
    }
    assert(all.take(all.len() as int) =~= all);
    rest
}

/// Notes that `room` was left.
pub fn leave_room(session: &mut Session, room: &String)
    ensures
        final(session)@ == (SessionView { hub: left(old(session)@.hub, room@), ..old(session)@ }),
{
    let rest = rooms_but(&session.hub.rooms, room);
    session.hub.rooms = rest;
    session.hub.room_states.remove(room);
    session.hub.room_users.remove(room);
}

/// Takes in a greeting.
pub fn take_greeting(
    source: [u8; 16],
    session: &mut Session,
    hub: [u8; 16],
    envelope: Envelope,
    effects: &mut Vec<Effect>,
)
    ensures
        final(session)@ == greeted(old(session)@, envelope@),
        final(effects).deep_view() == old(effects).deep_view() + restore_effects(
            source,
            greeted(old(session)@, envelope@),
            hub,
            due_joins(old(session)@),
            envelope@,
        ),
{
    let ghost s = session@;
    session.reconnect_attempt = 0;
    session.hub.welcome = envelope.welcome.replica();
    session.hub.name = match &envelope.welcome {
        Some(welcome) => welcome.hub_name.replica(),
        None => None,
    };
    session.hub.detail = "Connected".to_owned();
    let joins = if session.restore_rooms_on_welcome {
        list_joins(&session.desired_rooms)
    } else {
        Vec::new()
    };
    session.restore_rooms_on_welcome = false;
    assert(session@ =~= greeted(s, envelope@));
    assert(joins.deep_view() =~= due_joins(s));
    restore_step(source, session, hub, joins, envelope, effects);
}

/// Takes in that a room was entered.
pub fn take_joined(session: &mut Session, room: &Option<String>, effects: &mut Vec<Effect>)
    ensures
        final(session)@ == after_joined(old(session)@, room.deep_view()),
        final(effects).deep_view() == old(effects).deep_view().push(
            EffectView::Emit(
                EventView::HubChanged(after_joined(old(session)@, room.deep_view()).hub),
            ),
        ),
{
    if let Some(room) = room {
        enter_room(session, room);
    }
    push_onto(effects, Effect::Emit(Event::HubChanged(session.hub.clone())));
}

/// Takes in that a room was left.
pub fn take_parted(session: &mut Session, room: &Option<String>, effects: &mut Vec<Effect>)
    ensures
        final(session)@ == after_parted(old(session)@, room.deep_view()),
        final(effects).deep_view() == old(effects).deep_view().push(
            EffectView::Emit(
                EventView::HubChanged(after_parted(old(session)@, room.deep_view()).hub),
            ),
        ),
{
    if let Some(room) = room {
        leave_room(session, room);
    }
    push_onto(effects, Effect::Emit(Event::HubChanged(session.hub.clone())));
}

/// Takes in a pong.
pub fn take_pong(session: &mut Session, number: Option<u64>, effects: &mut Vec<Effect>)
    ensures
        final(session)@ == after_pong(old(session)@, number),
        final(effects).deep_view() == old(effects).deep_view() + pong_effects(
            old(session)@,
            number,
        ),
{
    let ghost before = effects.deep_view();
    let ghost wanted = pong_effects(session@, number);
    if let Some(query_id) = number {
        if session.pending_pings.remove(&query_id) {
            push_onto(effects, Effect::AnswerPing { query_id });
        }
    }
    assert(effects.deep_view() =~= before + wanted);
}

/// Takes in the announcement of a resource.
pub fn take_announcement(
    session: &Session,
    hub: [u8; 16],
    envelope: Envelope,
    effects: &mut Vec<Effect>,
)
    ensures
        final(effects).deep_view() == old(effects).deep_view() + announcement_effects(
            session@,
            hub,
            envelope@,
        ),
{
    let ghost before = effects.deep_view();
    let ghost wanted = announcement_effects(session@, hub, envelope@);
    match envelope.resource_descriptor.replica() {
        Some(descriptor) => {
            push_onto(
                effects,
                Effect::Perform(
                    Work::Fetch {
                        destination: hub,
                        session_id: session.id,
                        descriptor,
                        envelope,
                    },
                ),
            );
        },
        None => {
            push_onto(
                effects,
                Effect::Emit(
                    Event::InvalidEnvelope {
                        hub,
                        error: "invalid RRC resource descriptor".to_owned(),
                    },
                ),
            );
            push_onto(effects, Effect::Emit(Event::Envelope { hub, envelope }));
        },
    }
    assert(effects.deep_view() =~= before + wanted);
}

/// Takes in a notice.
pub fn take_notice(
    session: &mut Session,
    effects: &mut Vec<Effect>,
    hub: [u8; 16],
    envelope: &Envelope,
    reading: NoticeReading,
)
    ensures
        final(session)@ == after_notice(
            without_stale_users(old(session)@, envelope@),
            reading@,
            envelope@.user_list,
        ),
        final(effects).deep_view() == old(effects).deep_view() + told_notice_effects(
            old(session)@,
            hub,
            envelope@,
            reading@,
        ),
{
    let ghost before = effects.deep_view();
    let ghost started = session@;
    let ghost wanted = told_notice_effects(session@, hub, envelope@, reading@);
    let body = text_of(envelope);
    let users = envelope.user_list.replica();
    if starts_with(body.as_str(), "nick changed:") {
        if let Some(room) = &envelope.room {
            let stale = session.hub.room_users.remove(room);
            if stale.is_some() {
                push_onto(effects, Effect::Emit(Event::HubChanged(session.hub.clone())));
            }
        }
    }
    assert(session@ =~= without_stale_users(started, envelope@));
    assert(effects.deep_view() =~= before + stale_users_effects(started, envelope@));
    if !resolve_query_notice(session, effects, hub, reading, users) {
        push_onto(
            effects,
            Effect::Emit(Event::Message(message_from(hub, envelope, MessageKind::Notice))),
        );
    }
    assert(effects.deep_view() =~= before + wanted);
}

/// Takes in a message, an action, an error or an envelope of another type.
fn take_text(hub: [u8; 16], envelope: Envelope, effects: &mut Vec<Effect>)
    ensures
        final(effects).deep_view() == old(effects).deep_view() + match kind_of_type(
            envelope@.message_type,
        ) {
            Some(kind) => seq![
                EffectView::Emit(EventView::Message(message_in(hub, envelope@, kind))),
                EffectView::Emit(EventView::Envelope { hub, envelope: envelope@ }),
            ],
            None => seq![EffectView::Emit(EventView::Envelope { hub, envelope: envelope@ })],
        },
{
    let kind = match envelope.message_type {
        Some(MessageType::Message) => Some(MessageKind::Message),
        Some(MessageType::Action) => Some(MessageKind::Action),
        Some(MessageType::Error) => Some(MessageKind::Error),
        _ => None,
    };
    if let Some(kind) = kind {
        push_onto(effects, Effect::Emit(Event::Message(message_from(hub, &envelope, kind))));
    }
    push_onto(effects, Effect::Emit(Event::Envelope { hub, envelope }));
}

/// Does what the type of an envelope calls for.
fn take_typed(
    source: [u8; 16],
    session: &mut Session,
    hub: [u8; 16],
    envelope: Envelope,
    reading: NoticeReading,
    effects: &mut Vec<Effect>,
)
    ensures
        final(session)@ == after_type(old(session)@, envelope@, reading@),
        final(effects).deep_view() == old(effects).deep_view() + type_effects(
            source,
            old(session)@,
            hub,
            envelope@,
            reading@,
        ),
{
    let ghost before = effects.deep_view();
    let ghost wanted = type_effects(source, session@, hub, envelope@, reading@);
    match envelope.message_type {
        Some(MessageType::Welcome) => {
            take_greeting(source, session, hub, envelope, effects);
        },
        Some(MessageType::Joined) => {
            take_joined(session, &envelope.room, effects);
            push_onto(effects, Effect::Emit(Event::Envelope { hub, envelope }));
            assert(effects.deep_view() =~= before + wanted);
        },
        Some(MessageType::Parted) => {
            take_parted(session, &envelope.room, effects);
            push_onto(effects, Effect::Emit(Event::Envelope { hub, envelope }));
            assert(effects.deep_view() =~= before + wanted);
        },
        Some(MessageType::Ping) => {
            let ping = envelope.clone();
            push_onto(effects, Effect::Pong { session_id: session.id, source, envelope: ping });
            push_onto(effects, Effect::Emit(Event::Envelope { hub, envelope }));
            assert(effects.deep_view() =~= before + wanted);
        },
        Some(MessageType::Pong) => {
            take_pong(session, envelope.body_integer, effects);
            push_onto(effects, Effect::Emit(Event::Envelope { hub, envelope }));
            assert(effects.deep_view() =~= before + wanted);
        },
        Some(MessageType::ResourceEnvelope) => {
            take_announcement(session, hub, envelope, effects);
        },
        Some(MessageType::Notice) => {
            take_notice(session, effects, hub, &envelope, reading);
            push_onto(effects, Effect::Emit(Event::Envelope { hub, envelope }));
            assert(effects.deep_view() =~= before + wanted);
        },
        _ => {
            take_text(hub, envelope, effects);
        },
    }
}

/// Takes in an envelope, and says what is to be done.
pub fn take_envelope(
    source: [u8; 16],
    session: &mut Session,
    hub: [u8; 16],
    envelope: Envelope,
    reading: NoticeReading,
) -> (effects: Vec<Effect>)
    ensures
        final(session)@ == after_envelope(old(session)@, envelope@, reading@),
        effects.deep_view() == envelope_effects(
            source,
            old(session)@,
            hub,
            envelope@,
            reading@,
        ),
{
    let ghost started = session@;
    let mut effects: Vec<Effect> = Vec::new();
    let changed = take_room_state(session, &envelope);
    let announced = match envelope.message_type {
        Some(MessageType::Joined) => true,
        _ => false,
    };
    if changed && !announced {
        push_onto(&mut effects, Effect::Emit(Event::HubChanged(session.hub.clone())));
    }
    assert(effects.deep_view() =~= room_state_effects(started, envelope@));
    take_typed(source, session, hub, envelope, reading, &mut effects);
    effects
}

/// A session whose link was lost.
pub open spec fn after_loss(session: SessionView, words: Seq<char>) -> SessionView {
    SessionView {
        hub: HubView { connected: false, detail: words, ..session.hub },
        reconnect_attempt: attempt_after(session.reconnect_attempt),
        ..session
    }
}

/// The number of an attempt that follows `attempt`; it stops at the last one.
pub open spec fn attempt_after(attempt: u32) -> u32 {
    if attempt == u32::MAX {
        attempt
    } else {
        (attempt + 1) as u32
    }
}

/// What is to be done when a hub cannot be reached: the subscribers are told, and a
/// reconnection is asked for after a pause.
pub open spec fn retry_effects(hub: [u8; 16], session: SessionView) -> Seq<EffectView> {
    seq![
        EffectView::Emit(EventView::HubChanged(session.hub)),
        EffectView::Schedule {
            destination: hub,
            session_id: session.id,
            seconds: backoff(session.reconnect_attempt as nat) as u64,
        },
    ]
}

/// Tells the subscribers that a hub cannot be reached, and asks for a reconnection.
pub fn retry(hub: [u8; 16], session: &Session) -> (effects: Vec<Effect>)
    ensures
        effects.deep_view() == retry_effects(hub, session@),
{
    let mut effects: Vec<Effect> = Vec::new();
    push_onto(&mut effects, Effect::Emit(Event::HubChanged(session.hub.clone())));
    push_onto(
        &mut effects,
        Effect::Schedule {
            destination: hub,
            session_id: session.id,
            seconds: reconnect_delay(session.reconnect_attempt),
        },
    );
    assert(effects.deep_view() =~= retry_effects(hub, session@));
    effects
}

/// A session after something came over its link.
pub open spec fn after_received(session: SessionView, received: ReceivedView) -> SessionView {
    match received {
        ReceivedView::LinkLost(words) => after_loss(session, words),
        ReceivedView::Undecodable(_) => session,
        ReceivedView::Envelope { envelope, reading } => after_envelope(session, envelope, reading),
    }
}

/// What is to be done when something came over the link of a session.
pub open spec fn received_effects(
    source: [u8; 16],
    session: SessionView,
    hub: [u8; 16],
    received: ReceivedView,
) -> Seq<EffectView> {
    match received {
        ReceivedView::LinkLost(words) => retry_effects(hub, after_loss(session, words)),
        ReceivedView::Undecodable(words) => seq![
            EffectView::Emit(EventView::InvalidEnvelope { hub, error: words }),
        ],
        ReceivedView::Envelope { envelope, reading } => envelope_effects(
            source,
            session,
            hub,
            envelope,
            reading,
        ),
    }
}

/// The event that something unusable came.
pub fn emit_invalid(hub: [u8; 16], error: String) -> (effects: Vec<Effect>)
    ensures
        effects.deep_view() == seq![
            EffectView::Emit(EventView::InvalidEnvelope { hub, error: error@ }),
        ],
{
    let ghost words = error@;
    let mut effects: Vec<Effect> = Vec::new();
    push_onto(&mut effects, Effect::Emit(Event::InvalidEnvelope { hub, error }));
    assert(effects.deep_view() =~= seq![
        EffectView::Emit(EventView::InvalidEnvelope { hub, error: words }),
    ]);
    effects
}

/// Takes in what came over the link of a session, and says what is to be done.
pub fn take_received(
    source: [u8; 16],
    session: &mut Session,
    hub: [u8; 16],
    received: Received,
) -> (effects: Vec<Effect>)
    ensures
        final(session)@ == after_received(old(session)@, received@),
        effects.deep_view() == received_effects(source, old(session)@, hub, received@),
{
    match received {
        Received::LinkLost(words) => {
            session.hub.connected = false;
            session.hub.detail = words;
            session.reconnect_attempt = next_attempt(session.reconnect_attempt);
            retry(hub, session)
        },
        Received::Undecodable(words) => emit_invalid(hub, words),
        Received::Envelope { envelope, reading } => take_envelope(
            source,
            session,
            hub,
            envelope,
            reading,
        ),
    }
}

/// The number of an attempt that follows `attempt`.
pub fn next_attempt(attempt: u32) -> (next: u32)
    ensures
        next == attempt_after(attempt),
{
    attempt.saturating_add(1)
}

/// A session after the request to enter a room again went like this.
pub open spec fn after_join(session: SessionView, attempt: JoinAttemptView) -> SessionView {
    match attempt {
        JoinAttemptView::Failed(error) => SessionView {
            hub: HubView {
                detail: "Room restore failed: "@ + error_text(error),
                ..session.hub
            },
            ..session
        },
        _ => session,
    }
}

/// What is to be done when the request to enter a room again went like this: a failure
/// ends the matter, and the rooms that come after are left alone.
pub open spec fn join_effects(
    source: [u8; 16],
    session: SessionView,
    destination: [u8; 16],
    attempt: JoinAttemptView,
    rest: Seq<(Seq<char>, Option<Seq<char>>)>,
    envelope: EnvelopeView,
) -> Seq<EffectView> {
    restore_effects(
        source,
        after_join(session, attempt),
        destination,
        if attempt is Failed {
            Seq::empty()
        } else {
            rest
        },
        envelope,
    )
}

/// Takes in how the request to enter a room again went, and says what is to be done.
pub fn take_join(
    source: [u8; 16],
    session: &mut Session,
    destination: [u8; 16],
    attempt: JoinAttempt,
    rest: Vec<(String, Option<String>)>,
    envelope: Envelope,
) -> (effects: Vec<Effect>)
    ensures
        final(session)@ == after_join(old(session)@, attempt@),
        effects.deep_view() == join_effects(
            source,
            old(session)@,
            destination,
            attempt@,
            rest.deep_view(),
            envelope@,
        ),
{
    let ghost wanted = join_effects(
        source,
        session@,
        destination,
        attempt@,
        rest.deep_view(),
        envelope@,
    );
    let joins = match attempt {
        JoinAttempt::Failed(error) => {
            let mut detail = "Room restore failed: ".to_owned();
            detail.append(error.text().as_str());
            session.hub.detail = detail;
            Vec::new()
        },
        _ => rest,
    };
    assert(attempt@ is Failed ==> joins.deep_view() =~= Seq::empty());
    let mut effects: Vec<Effect> = Vec::new();
    restore_step(source, session, destination, joins, envelope, &mut effects);
    assert(effects.deep_view() =~= wanted);
    effects
}

} // verus!
