//! What a notice comes to.
use crate::actor::ActorView;
use crate::effect::{EffectView, NoticeReadingView, ReceivedView};
use crate::inbound::{
    message_in, room_state_effects, stale_users_effects, with_room_state, without_stale_users,
};
use crate::laws::envelopes::{
    has_session, message_says, only_session_changed, says, state_is_unique, told_of_state,
    with_state,
};
use crate::notice::notice_effects;
use crate::report::{after_inbound, inbound_effects};
use crate::session::SessionView;
use crate::types::{
    EnvelopeView, EventView, HubView, MessageKind, MessageType, MessageView, RoomInfoView,
    UserInfoView,
};
use vstd::prelude::*;

verus! {

/// Whether effects tell the subscribers of a message.
pub open spec fn tell_of_message(effects: Seq<EffectView>) -> bool {
    exists|i: int|
        0 <= i < effects.len() && (#[trigger] effects[i] matches EffectView::Emit(event)
            && event is Message)
}

/// Whether effects answer a query for rooms or for members.
pub open spec fn answer_a_query(effects: Seq<EffectView>) -> bool {
    exists|i: int|
        0 <= i < effects.len() && (#[trigger] effects[i] is AnswerRooms
            || effects[i] is AnswerUsers)
}

/// The query that a notice answers, where it answers one: the one that has waited longest for
/// the list that it brings.
pub open spec fn answered_query(session: SessionView, reading: NoticeReadingView) -> Option<u64> {
    let queue = match (reading.rooms, reading.who) {
        (Some(_), _) => session.pending_room_queries,
        (None, Some((room, _))) => if session.pending_user_queries.contains_key(room) {
            session.pending_user_queries[room]
        } else {
            Seq::empty()
        },
        (None, None) => Seq::empty(),
    };
    if queue.len() == 0 {
        None
    } else {
        Some(queue[0])
    }
}

/// Whether an effect answers a query with the list that a notice brings.
pub open spec fn gives_list(
    effect: EffectView,
    query_id: u64,
    reading: NoticeReadingView,
    structured: Option<Seq<UserInfoView>>,
) -> bool {
    match (reading.rooms, reading.who, structured) {
        (Some(rooms), _, _) => effect == EffectView::AnswerRooms { query_id, rooms },
        (None, Some(_), Some(users)) => effect == EffectView::AnswerUsers { query_id, users },
        (None, Some((_, users)), None) => effect == EffectView::AnswerUsers { query_id, users },
        (None, None, _) => false,
    }
}

proof fn list_is_answered(
    session: SessionView,
    hub: [u8; 16],
    reading: NoticeReadingView,
    structured: Option<Seq<UserInfoView>>,
)
    ensures
        ({
            let effects = notice_effects(session, hub, reading, structured);
            &&& !tell_of_message(effects)
            &&& answered_query(session, reading) is None ==> !answer_a_query(effects)
            &&& answered_query(session, reading) matches Some(id) ==> effects.len() == 3
                && gives_list(effects[2], id, reading, structured)
            &&& effects.len() <= 3
            &&& forall|i: int| 0 <= i < 2 && i < effects.len() ==> #[trigger] effects[i] is Emit
        }),
{
}

/// A notice is told as a message exactly where it answers no query, and it answers one exactly
/// where it brings a list that a query waits for: then the query that has waited longest gets
/// the list, and no other query gets anything.
pub proof fn notice_is_told_or_answers(
    actor: ActorView,
    hub: [u8; 16],
    session_id: u64,
    envelope: EnvelopeView,
    reading: NoticeReadingView,
)
    requires
        has_session(actor, hub, session_id),
        envelope.message_type == Some(MessageType::Notice),
    ensures
        ({
            let effects = inbound_effects(
                actor,
                hub,
                session_id,
                ReceivedView::Envelope { envelope, reading },
            );
            &&& tell_of_message(effects) <==> !answer_a_query(effects)
            &&& match answered_query(actor.sessions[hub@], reading) {
                Some(id) => exists|k: int|
                    0 <= k < effects.len() && gives_list(
                        #[trigger] effects[k],
                        id,
                        reading,
                        envelope.user_list,
                    ) && forall|i: int|
                        0 <= i < effects.len() && i != k ==> !(#[trigger] effects[i] is AnswerRooms)
                            && !(effects[i] is AnswerUsers),
                None => !answer_a_query(effects),
            }
            &&& forall|i: int|
                0 <= i < effects.len() ==> (#[trigger] effects[i] matches EffectView::Emit(
                    EventView::Message(message),
                ) ==> says(message, hub, envelope, MessageKind::Notice))
        }),
{
    let session = actor.sessions[hub@];
    let effects = inbound_effects(
        actor,
        hub,
        session_id,
        ReceivedView::Envelope { envelope, reading },
    );
    let s = with_room_state(session, envelope);
    let t = without_stale_users(s, envelope);
    let first = room_state_effects(session, envelope) + stale_users_effects(s, envelope);
    let list = notice_effects(t, hub, reading, envelope.user_list);
    list_is_answered(t, hub, reading, envelope.user_list);
    message_says(hub, envelope, MessageKind::Notice);
    assert(answered_query(t, reading) == answered_query(session, reading));
    let told = EffectView::Emit(
        EventView::Message(message_in(hub, envelope, MessageKind::Notice)),
    );
    let passed_on = EffectView::Emit(EventView::Envelope { hub, envelope });
    match answered_query(session, reading) {
        Some(id) => {
            assert(effects =~= first + list + seq![passed_on]);
            let k = first.len() as int + 2;
            assert(effects[k] == list[2]);
            assert(answer_a_query(effects));
            assert forall|i: int| 0 <= i < effects.len() && i != k implies !(
            #[trigger] effects[i] is AnswerRooms) && !(effects[i] is AnswerUsers) by {
                if first.len() <= i < k {
                    assert(effects[i] == list[i - first.len()]);
                }
            }
            assert forall|i: int| 0 <= i < effects.len() implies !(#[trigger] effects[i] matches
                EffectView::Emit(event) && event is Message) by {
                if first.len() <= i < k {
                    assert(effects[i] == list[i - first.len()]);
                }
            }
        },
        None => {
            assert(effects =~= first + list + seq![told, passed_on]);
            let n = first.len() + list.len();
            assert(effects[n as int] == told);
            assert forall|i: int| 0 <= i < effects.len() implies !(
            #[trigger] effects[i] is AnswerRooms) && !(effects[i] is AnswerUsers) by {
                if first.len() <= i < n {
                    assert(effects[i] == list[i - first.len()]);
                }
            }
            assert forall|i: int| 0 <= i < effects.len() implies (#[trigger] effects[i] matches
                EffectView::Emit(EventView::Message(message)) ==> says(
                message,
                hub,
                envelope,
                MessageKind::Notice,
            )) by {
                if first.len() <= i < n {
                    assert(effects[i] == list[i - first.len()]);
                    assert(!(list[i - first.len()] matches EffectView::Emit(event)
                        && event is Message));
                }
            }
        },
    }
}

/// Whether `after` is what is known of a hub when a notice that tells of a new nickname made the
/// members of its room stale; any other notice leaves what is known.
pub open spec fn without_members(before: HubView, envelope: EnvelopeView, after: HubView) -> bool {
    match (envelope.room, envelope.body_text) {
        (Some(room), Some(text)) if "nick changed:"@.is_prefix_of(text) => after == HubView {
            room_users: before.room_users.remove(room),
            ..before
        },
        _ => after == before,
    }
}

/// What the subscribers are told when members that were kept became stale.
pub open spec fn told_of_members(
    before: HubView,
    envelope: EnvelopeView,
    after: HubView,
) -> Seq<EffectView> {
    match (envelope.room, envelope.body_text) {
        (Some(room), Some(text)) if "nick changed:"@.is_prefix_of(text)
            && before.room_users.contains_key(room) => seq![
            EffectView::Emit(EventView::HubChanged(after)),
        ],
        _ => Seq::empty(),
    }
}

proof fn staleness_is_unique(session: SessionView, envelope: EnvelopeView, left: HubView)
    requires
        without_members(session.hub, envelope, left),
    ensures
        without_stale_users(session, envelope) == (SessionView { hub: left, ..session }),
        stale_users_effects(session, envelope) == told_of_members(session.hub, envelope, left),
{
    reveal_strlit("nick changed:");
}

/// A notice that brings a list of rooms makes it the directory and tells of it; the query that
/// has waited longest for it is answered and waits no more, and where none waits the notice is
/// told as a message.
pub proof fn notice_with_rooms(
    actor: ActorView,
    hub: [u8; 16],
    session_id: u64,
    envelope: EnvelopeView,
    reading: NoticeReadingView,
    stated: HubView,
    left: HubView,
    rooms: Seq<RoomInfoView>,
) -> (message: MessageView)
    requires
        has_session(actor, hub, session_id),
        with_state(actor.sessions[hub@].hub, envelope, stated),
        without_members(stated, envelope, left),
        envelope.message_type == Some(MessageType::Notice),
        reading.rooms == Some(rooms),
    ensures
        ({
            let received = ReceivedView::Envelope { envelope, reading };
            let after = after_inbound(actor, hub, session_id, received);
            let before = actor.sessions[hub@];
            let known = HubView { public_rooms: rooms, ..left };
            let queue = before.pending_room_queries;
            &&& says(message, hub, envelope, MessageKind::Notice)
            &&& inbound_effects(actor, hub, session_id, received) == told_of_state(
                before.hub,
                stated,
            ) + told_of_members(stated, envelope, left) + seq![
                EffectView::Emit(EventView::RoomList { hub, rooms }),
                EffectView::Emit(EventView::HubChanged(known)),
                if queue.len() > 0 {
                    EffectView::AnswerRooms { query_id: queue[0], rooms }
                } else {
                    EffectView::Emit(EventView::Message(message))
                },
                EffectView::Emit(EventView::Envelope { hub, envelope }),
            ]
            &&& only_session_changed(actor, after, hub)
            &&& after.sessions[hub@] == (SessionView {
                hub: known,
                pending_room_queries: after.sessions[hub@].pending_room_queries,
                ..before
            })
            &&& queue.len() > 0 ==> queue == seq![queue[0]]
                + after.sessions[hub@].pending_room_queries
            &&& queue.len() == 0 ==> after.sessions[hub@].pending_room_queries.len() == 0
        }),
{
    let received = ReceivedView::Envelope { envelope, reading };
    let before = actor.sessions[hub@];
    let queue = before.pending_room_queries;
    let message = message_in(hub, envelope, MessageKind::Notice);
    state_is_unique(before, envelope, stated);
    staleness_is_unique(with_room_state(before, envelope), envelope, left);
    message_says(hub, envelope, MessageKind::Notice);
    assert(inbound_effects(actor, hub, session_id, received) =~= told_of_state(
        before.hub,
        stated,
    ) + told_of_members(stated, envelope, left) + seq![
        EffectView::Emit(EventView::RoomList { hub, rooms }),
        EffectView::Emit(EventView::HubChanged(HubView { public_rooms: rooms, ..left })),
        if queue.len() > 0 {
            EffectView::AnswerRooms { query_id: queue[0], rooms }
        } else {
            EffectView::Emit(EventView::Message(message))
        },
        EffectView::Emit(EventView::Envelope { hub, envelope }),
    ]);
    if queue.len() > 0 {
        assert(queue =~= seq![queue[0]] + queue.drop_first());
    }
    message
}

/// A notice that brings the members of a room keeps them and tells of them, those of the
/// structured list where there is one; the query that has waited longest for them is answered
/// and waits no more, a queue that becomes empty is dropped, and where no query waits the notice
/// is told as a message.
pub proof fn notice_with_members(
    actor: ActorView,
    hub: [u8; 16],
    session_id: u64,
    envelope: EnvelopeView,
    reading: NoticeReadingView,
    stated: HubView,
    left: HubView,
    room: Seq<char>,
    users: Seq<UserInfoView>,
) -> (message: MessageView)
    requires
        has_session(actor, hub, session_id),
        with_state(actor.sessions[hub@].hub, envelope, stated),
        without_members(stated, envelope, left),
        envelope.message_type == Some(MessageType::Notice),
        reading.rooms is None,
        reading.who matches Some((named, _)) && named == room,
        envelope.user_list == Some(users) || (envelope.user_list is None && reading.who == Some(
            (room, users),
        )),
    ensures
        ({
            let received = ReceivedView::Envelope { envelope, reading };
            let after = after_inbound(actor, hub, session_id, received);
            let before = actor.sessions[hub@];
            let known = HubView { room_users: left.room_users.insert(room, users), ..left };
            let queues = before.pending_user_queries;
            let waits = queues.contains_key(room) && queues[room].len() > 0;
            let rest = after.sessions[hub@].pending_user_queries;
            &&& says(message, hub, envelope, MessageKind::Notice)
            &&& inbound_effects(actor, hub, session_id, received) == told_of_state(
                before.hub,
                stated,
            ) + told_of_members(stated, envelope, left) + seq![
                EffectView::Emit(EventView::UserList { hub, room, users }),
                EffectView::Emit(EventView::HubChanged(known)),
                if waits {
                    EffectView::AnswerUsers { query_id: queues[room][0], users }
                } else {
                    EffectView::Emit(EventView::Message(message))
                },
                EffectView::Emit(EventView::Envelope { hub, envelope }),
            ]
            &&& only_session_changed(actor, after, hub)
            &&& after.sessions[hub@] == (SessionView {
                hub: known,
                pending_user_queries: rest,
                ..before
            })
            &&& !waits ==> rest == queues
            &&& waits && queues[room].len() == 1 ==> rest == queues.remove(room)
            &&& waits && queues[room].len() > 1 ==> rest.contains_key(room) && queues[room] == seq![
                queues[room][0],
            ] + rest[room] && rest.remove(room) == queues.remove(room)
        }),
{
    let received = ReceivedView::Envelope { envelope, reading };
    let before = actor.sessions[hub@];
    let queues = before.pending_user_queries;
    let waits = queues.contains_key(room) && queues[room].len() > 0;
    let message = message_in(hub, envelope, MessageKind::Notice);
    state_is_unique(before, envelope, stated);
    staleness_is_unique(with_room_state(before, envelope), envelope, left);
    message_says(hub, envelope, MessageKind::Notice);
    let known = HubView { room_users: left.room_users.insert(room, users), ..left };
    assert(inbound_effects(actor, hub, session_id, received) =~= told_of_state(
        before.hub,
        stated,
    ) + told_of_members(stated, envelope, left) + seq![
        EffectView::Emit(EventView::UserList { hub, room, users }),
        EffectView::Emit(EventView::HubChanged(known)),
        if waits {
            EffectView::AnswerUsers { query_id: queues[room][0], users }
        } else {
            EffectView::Emit(EventView::Message(message))
        },
        EffectView::Emit(EventView::Envelope { hub, envelope }),
    ]);
    if waits {
        let rest = queues[room].drop_first();
        assert(queues[room] =~= seq![queues[room][0]] + rest);
        assert(queues.insert(room, rest).remove(room) =~= queues.remove(room));
    }
    message
}

/// A notice that brings no list is told as a message and handed on, and no query is touched.
pub proof fn notice_without_list(
    actor: ActorView,
    hub: [u8; 16],
    session_id: u64,
    envelope: EnvelopeView,
    reading: NoticeReadingView,
    stated: HubView,
    left: HubView,
) -> (message: MessageView)
    requires
        has_session(actor, hub, session_id),
        with_state(actor.sessions[hub@].hub, envelope, stated),
        without_members(stated, envelope, left),
        envelope.message_type == Some(MessageType::Notice),
        reading.rooms is None,
        reading.who is None,
    ensures
        ({
            let received = ReceivedView::Envelope { envelope, reading };
            let after = after_inbound(actor, hub, session_id, received);
            let before = actor.sessions[hub@];
            &&& says(message, hub, envelope, MessageKind::Notice)
            &&& inbound_effects(actor, hub, session_id, received) == told_of_state(
                before.hub,
                stated,
            ) + told_of_members(stated, envelope, left) + seq![
                EffectView::Emit(EventView::Message(message)),
                EffectView::Emit(EventView::Envelope { hub, envelope }),
            ]
            &&& only_session_changed(actor, after, hub)
            &&& after.sessions[hub@] == (SessionView { hub: left, ..before })
        }),
{
    let received = ReceivedView::Envelope { envelope, reading };
    let before = actor.sessions[hub@];
    let message = message_in(hub, envelope, MessageKind::Notice);
    state_is_unique(before, envelope, stated);
    staleness_is_unique(with_room_state(before, envelope), envelope, left);
    message_says(hub, envelope, MessageKind::Notice);
    assert(inbound_effects(actor, hub, session_id, received) =~= told_of_state(
        before.hub,
        stated,
    ) + told_of_members(stated, envelope, left) + seq![
        EffectView::Emit(EventView::Message(message)),
        EffectView::Emit(EventView::Envelope { hub, envelope }),
    ]);
    message
}

} // verus!
