//! What a report on work that was done comes to.
use crate::actor::ActorView;
use crate::effect::{
    EffectView, JoinAttemptView, NoticeReadingView, ReceivedView, ReplyView, WorkView,
};
use crate::inbound::{due_joins, joins_of};
use crate::laws::envelopes::{
    has_session, only_hub_changed, only_session_changed, state_is_unique, told_of_state, with_state,
};
use crate::laws::sessions::welcome_restores_rooms;
use crate::order::text_less;
use crate::report::{
    after_inbound, after_question, after_rejoin, after_resource, after_send, inbound_effects,
    question_effects, rejoin_effects, reply_to, resource_effects, QuestionView,
};
use crate::request::{ContentView, DraftView};
use crate::session::SessionView;
use crate::types::{EnvelopeView, ErrorView, EventView, HubView, MessageType};
use vstd::prelude::*;

verus! {

/// The caller is told of success or of the error, whatever was asked for.
pub proof fn replies_tell_the_result(error: ErrorView)
    ensures
        reply_to(Ok(())) == EffectView::Reply(ReplyView::Done),
        reply_to(Err(error)) == EffectView::Reply(ReplyView::Failed(error)),
{
}

/// Reports on a session that was replaced or has ended change nothing; what came over its link
/// and what was done for it has no effect, and a question that was put over it is refused.
pub proof fn reports_on_other_sessions_are_ignored(
    actor: ActorView,
    hub: [u8; 16],
    session_id: u64,
    received: ReceivedView,
    envelope: EnvelopeView,
    result: Result<(), ErrorView>,
    question: QuestionView,
    query_id: u64,
    attempt: JoinAttemptView,
    rest: Seq<(Seq<char>, Option<Seq<char>>)>,
    reading: NoticeReadingView,
    delivery: Result<crate::effect::DeliveryView, Seq<char>>,
)
    requires
        !has_session(actor, hub, session_id),
    ensures
        after_inbound(actor, hub, session_id, received) == actor,
        inbound_effects(actor, hub, session_id, received) == Seq::<EffectView>::empty(),
        after_send(actor, hub, session_id, envelope, result) == actor,
        after_question(actor, hub, session_id, question, query_id, result) == actor,
        question_effects(actor, hub, session_id, query_id, result) == seq![
            EffectView::Refuse {
                query_id,
                error: match result {
                    Err(error) => error,
                    Ok(_) => ErrorView::NotConnected,
                },
            },
        ],
        after_rejoin(actor, hub, session_id, attempt) == actor,
        rejoin_effects(actor, hub, session_id, attempt, rest, envelope)
            == Seq::<EffectView>::empty(),
        after_resource(actor, hub, session_id, delivery, reading) == actor,
        resource_effects(actor, hub, session_id, envelope, delivery, reading)
            == Seq::<EffectView>::empty(),
{
}

/// A room is wanted, with its key, once a request to enter it was sent, and not wanted once one
/// to leave it was sent; nothing else that is sent touches the wanted rooms, and nothing at all
/// touches anything else.
pub proof fn sending_moves_the_wanted_rooms(
    actor: ActorView,
    hub: [u8; 16],
    session_id: u64,
    envelope: EnvelopeView,
)
    requires
        has_session(actor, hub, session_id),
    ensures
        ({
            let after = after_send(actor, hub, session_id, envelope, Ok(()));
            let before = actor.sessions[hub@];
            let wanted = after.sessions[hub@].desired_rooms;
            let join = envelope.message_type == Some(MessageType::Join);
            let part = envelope.message_type == Some(MessageType::Part);
            &&& only_session_changed(actor, after, hub)
            &&& after.sessions[hub@] == (SessionView { desired_rooms: wanted, ..before })
            &&& envelope.room matches Some(room) ==> {
                &&& join ==> wanted.contains_key(room) && wanted[room] == envelope.body_text
                &&& part ==> !wanted.contains_key(room)
                &&& forall|other: Seq<char>|
                    other != room ==> (#[trigger] wanted.contains_key(other)
                        <==> before.desired_rooms.contains_key(other))
                &&& forall|other: Seq<char>|
                    other != room && #[trigger] wanted.contains_key(other) ==> wanted[other]
                        == before.desired_rooms[other]
            }
            &&& envelope.room is None || (!join && !part) ==> wanted == before.desired_rooms
        }),
{
}

/// What could not be sent changes nothing.
pub proof fn failed_sending_changes_nothing(
    actor: ActorView,
    hub: [u8; 16],
    session_id: u64,
    envelope: EnvelopeView,
    question: QuestionView,
    query_id: u64,
    error: ErrorView,
)
    ensures
        after_send(actor, hub, session_id, envelope, Err(error)) == actor,
        after_question(actor, hub, session_id, question, query_id, Err(error)) == actor,
        question_effects(actor, hub, session_id, query_id, Err(error)) == seq![
            EffectView::Refuse { query_id, error },
        ],
{
}

/// A question that was put waits behind all that wait for the same answer, and for nothing else;
/// nothing is to be done for it.
pub proof fn question_waits_last(
    actor: ActorView,
    hub: [u8; 16],
    session_id: u64,
    room: Seq<char>,
    query_id: u64,
)
    requires
        has_session(actor, hub, session_id),
    ensures
        ({
            let before = actor.sessions[hub@];
            let rooms = after_question(
                actor,
                hub,
                session_id,
                QuestionView::Rooms,
                query_id,
                Ok(()),
            );
            let users = after_question(
                actor,
                hub,
                session_id,
                QuestionView::Users(room),
                query_id,
                Ok(()),
            );
            let ping = after_question(
                actor,
                hub,
                session_id,
                QuestionView::Ping,
                query_id,
                Ok(()),
            );
            let queues = users.sessions[hub@].pending_user_queries;
            let line = if before.pending_user_queries.contains_key(room) {
                before.pending_user_queries[room]
            } else {
                Seq::empty()
            };
            &&& question_effects(actor, hub, session_id, query_id, Ok(()))
                == Seq::<EffectView>::empty()
            &&& only_session_changed(actor, rooms, hub)
            &&& only_session_changed(actor, users, hub)
            &&& only_session_changed(actor, ping, hub)
            &&& rooms.sessions[hub@] == (SessionView {
                pending_room_queries: before.pending_room_queries + seq![query_id],
                ..before
            })
            &&& users.sessions[hub@] == (SessionView { pending_user_queries: queues, ..before })
            &&& queues.contains_key(room)
            &&& queues[room] == line + seq![query_id]
            &&& queues.remove(room) == before.pending_user_queries.remove(room)
            &&& ping.sessions[hub@] == (SessionView {
                pending_pings: ping.sessions[hub@].pending_pings,
                ..before
            })
            &&& forall|id: u64| #[trigger]
                ping.sessions[hub@].pending_pings.contains(id) <==> before.pending_pings.contains(
                    id,
                ) || id == query_id
        }),
{
    let before = actor.sessions[hub@];
    let users = after_question(
        actor,
        hub,
        session_id,
        QuestionView::Users(room),
        query_id,
        Ok(()),
    );
    let queues = users.sessions[hub@].pending_user_queries;
    assert(before.pending_room_queries.push(query_id) =~= before.pending_room_queries + seq![
        query_id,
    ]);
    assert(queues.remove(room) =~= before.pending_user_queries.remove(room));
    assert(seq![query_id] =~= Seq::empty() + seq![query_id]);
}

/// Bytes that are no envelope are told of as such, and nothing changes.
pub proof fn undecodable_is_told(
    actor: ActorView,
    hub: [u8; 16],
    session_id: u64,
    words: Seq<char>,
)
    requires
        has_session(actor, hub, session_id),
    ensures
        ({
            let received = ReceivedView::Undecodable(words);
            let after = after_inbound(actor, hub, session_id, received);
            &&& inbound_effects(actor, hub, session_id, received) == seq![
                EffectView::Emit(EventView::InvalidEnvelope { hub, error: words }),
            ]
            &&& only_session_changed(actor, after, hub)
            &&& after.sessions[hub@] == actor.sessions[hub@]
        }),
{
}

/// Whether `joins` are exactly these rooms, each once and in ascending order, with their keys.
pub open spec fn lists_rooms(
    joins: Seq<(Seq<char>, Option<Seq<char>>)>,
    wanted: Map<Seq<char>, Option<Seq<char>>>,
) -> bool {
    &&& forall|i: int|
        0 <= i < joins.len() ==> wanted.contains_key((#[trigger] joins[i]).0)
            && wanted[joins[i].0] == joins[i].1
    &&& forall|room: Seq<char>| #[trigger]
        wanted.contains_key(room) ==> exists|i: int|
            0 <= i < joins.len() && (#[trigger] joins[i]).0 == room
    &&& forall|i: int, j: int|
        0 <= i < j < joins.len() ==> text_less((#[trigger] joins[i]).0, (#[trigger] joins[j]).0)
}

/// After a reconnection, a greeting has the first of the wanted rooms asked for under the identity
/// of the client, and the others are to be asked for behind it, in ascending order; where no
/// room is wanted, or after a first connection, none is asked for and the greeting is handed on.
pub proof fn greeting_asks_for_wanted_rooms(
    actor: ActorView,
    hub: [u8; 16],
    session_id: u64,
    envelope: EnvelopeView,
    reading: NoticeReadingView,
    stated: HubView,
) -> (joins: Seq<(Seq<char>, Option<Seq<char>>)>)
    requires
        has_session(actor, hub, session_id),
        actor.sessions[hub@].desired_rooms.dom().finite(),
        with_state(actor.sessions[hub@].hub, envelope, stated),
        envelope.message_type == Some(MessageType::Welcome),
    ensures
        ({
            let received = ReceivedView::Envelope { envelope, reading };
            let after = after_inbound(actor, hub, session_id, received);
            let before = actor.sessions[hub@];
            &&& before.restore_rooms_on_welcome ==> lists_rooms(joins, before.desired_rooms)
            &&& !before.restore_rooms_on_welcome ==> joins.len() == 0
            &&& inbound_effects(actor, hub, session_id, received) == told_of_state(
                before.hub,
                stated,
            ) + if joins.len() > 0 {
                seq![
                    EffectView::Perform(
                        WorkView::Join {
                            destination: hub,
                            session_id,
                            draft: (DraftView {
                                source: actor.source,
                                content: ContentView::Join { room: joins[0].0, key: joins[0].1 },
                            }),
                            nick: before.nick,
                            rest: joins.skip(1),
                            envelope,
                        },
                    ),
                ]
            } else {
                seq![
                    EffectView::Emit(EventView::HubChanged(after.sessions[hub@].hub)),
                    EffectView::Emit(EventView::Envelope { hub, envelope }),
                ]
            }
        }),
{
    let before = actor.sessions[hub@];
    let joins = due_joins(before);
    state_is_unique(before, envelope, stated);
    if before.restore_rooms_on_welcome {
        welcome_restores_rooms(actor.source, before, hub, envelope, reading);
        assert(joins == joins_of(before.desired_rooms));
        assert forall|i: int| 0 <= i < joins.len() implies before.desired_rooms.contains_key(
            (#[trigger] joins[i]).0,
        ) && before.desired_rooms[joins[i].0] == joins[i].1 by {
            let room = joins[i].0;
            assert(before.desired_rooms.contains_key(room) <==> exists|k: int|
                0 <= k < joins.len() && (#[trigger] joins[k]).0 == room);
        }
    }
    if joins.len() > 0 {
        assert(joins.skip(1) =~= joins.drop_first());
    }
    joins
}

/// After a room was asked for again, or could not be written down, the next one is asked for in
/// the same way; after the last, the subscribers are told of the hub and the greeting is handed
/// on. Nothing changes.
pub proof fn rooms_are_asked_for_in_turn(
    actor: ActorView,
    hub: [u8; 16],
    session_id: u64,
    attempt: JoinAttemptView,
    rest: Seq<(Seq<char>, Option<Seq<char>>)>,
    envelope: EnvelopeView,
)
    requires
        has_session(actor, hub, session_id),
        !(attempt is Failed),
    ensures
        ({
            let session = actor.sessions[hub@];
            let after = after_rejoin(actor, hub, session_id, attempt);
            let effects = rejoin_effects(actor, hub, session_id, attempt, rest, envelope);
            &&& only_session_changed(actor, after, hub)
            &&& after.sessions[hub@] == session
            &&& rest.len() > 0 ==> effects == seq![
                EffectView::Perform(
                    WorkView::Join {
                        destination: hub,
                        session_id,
                        draft: (DraftView {
                            source: actor.source,
                            content: ContentView::Join { room: rest[0].0, key: rest[0].1 },
                        }),
                        nick: session.nick,
                        rest: rest.skip(1),
                        envelope,
                    },
                ),
            ]
            &&& rest.len() == 0 ==> effects == seq![
                EffectView::Emit(EventView::HubChanged(session.hub)),
                EffectView::Emit(EventView::Envelope { hub, envelope }),
            ]
        }),
{
    if rest.len() > 0 {
        assert(rest.skip(1) =~= rest.drop_first());
    }
}

/// Where a room could not be asked for again, the rest is given up: the hub is known with the
/// error, the subscribers are told of it, and the greeting is handed on. Nothing else changes.
pub proof fn failed_room_ends_the_turn(
    actor: ActorView,
    hub: [u8; 16],
    session_id: u64,
    words: Seq<char>,
    rest: Seq<(Seq<char>, Option<Seq<char>>)>,
    envelope: EnvelopeView,
)
    requires
        has_session(actor, hub, session_id),
    ensures
        ({
            let session = actor.sessions[hub@];
            let attempt = JoinAttemptView::Failed(ErrorView::Transport(words));
            let after = after_rejoin(actor, hub, session_id, attempt);
            let known = HubView { detail: "Room restore failed: "@ + words, ..session.hub };
            &&& only_session_changed(actor, after, hub)
            &&& only_hub_changed(session, after.sessions[hub@])
            &&& after.sessions[hub@].hub == known
            &&& rejoin_effects(actor, hub, session_id, attempt, rest, envelope) == seq![
                EffectView::Emit(EventView::HubChanged(known)),
                EffectView::Emit(EventView::Envelope { hub, envelope }),
            ]
        }),
{
}

/// Whatever the error is that keeps a room from being asked for again, the rest is given up.
pub proof fn any_failure_ends_the_turn(
    actor: ActorView,
    hub: [u8; 16],
    session_id: u64,
    error: ErrorView,
    rest: Seq<(Seq<char>, Option<Seq<char>>)>,
    envelope: EnvelopeView,
)
    requires
        has_session(actor, hub, session_id),
    ensures
        ({
            let attempt = JoinAttemptView::Failed(error);
            let after = after_rejoin(actor, hub, session_id, attempt);
            &&& only_session_changed(actor, after, hub)
            &&& only_hub_changed(actor.sessions[hub@], after.sessions[hub@])
            &&& after.sessions[hub@].hub == (HubView {
                detail: after.sessions[hub@].hub.detail,
                ..actor.sessions[hub@].hub
            })
            &&& "Room restore failed: "@.is_prefix_of(after.sessions[hub@].hub.detail)
            &&& rejoin_effects(actor, hub, session_id, attempt, rest, envelope) == seq![
                EffectView::Emit(EventView::HubChanged(after.sessions[hub@].hub)),
                EffectView::Emit(EventView::Envelope { hub, envelope }),
            ]
        }),
{
}

} // verus!
