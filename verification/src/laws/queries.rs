//! What can be relied on when the client asks a hub something.
use crate::actor::{after_command, ActorView};
use crate::effect::{EffectView, NoticeReadingView};
use crate::inbound::{after_envelope, envelope_effects, room_state_effects, with_room_state};
use crate::notice::{after_notice, answers_query, notice_effects, told_users};
use crate::queue::{without, without_absent, without_keeps_others};
use crate::report::{asked, QuestionView};
use crate::request::CommandView;
use crate::session::{queues_in_use, waiting, waiting_for_users, without_query, SessionView};
use crate::types::{EnvelopeView, MessageType, RoomInfoView, UserInfoView};
use vstd::prelude::*;

verus! {

/// The list of rooms that comes after a query answers the query that has waited longest, and
/// the others go on waiting in their order.
pub proof fn oldest_room_query_is_answered(
    session: SessionView,
    hub: [u8; 16],
    reading: NoticeReadingView,
    rooms: Seq<RoomInfoView>,
    structured: Option<Seq<UserInfoView>>,
    id: u64,
)
    requires
        reading.rooms == Some(rooms),
    ensures
        ({
            let waits = asked(session, QuestionView::Rooms, id);
            let oldest = if session.pending_room_queries.len() > 0 {
                session.pending_room_queries[0]
            } else {
                id
            };
            let after = after_notice(waits, reading, structured);
            &&& answers_query(waits, reading)
            &&& notice_effects(waits, hub, reading, structured).last() == EffectView::AnswerRooms {
                query_id: oldest,
                rooms,
            }
            &&& seq![oldest] + after.pending_room_queries == session.pending_room_queries.push(id)
        }),
{
    let waits = asked(session, QuestionView::Rooms, id);
    let after = after_notice(waits, reading, structured);
    assert(seq![waits.pending_room_queries[0]] + after.pending_room_queries
        =~= waits.pending_room_queries);
}

/// The members that come after a query answer the query that has waited longest for them, and
/// the others go on waiting in their order; queries for other rooms are not touched.
pub proof fn oldest_user_query_is_answered(
    session: SessionView,
    hub: [u8; 16],
    reading: NoticeReadingView,
    room: Seq<char>,
    parsed: Seq<UserInfoView>,
    structured: Option<Seq<UserInfoView>>,
    id: u64,
)
    requires
        queues_in_use(session),
        reading.rooms is None,
        reading.who == Some((room, parsed)),
    ensures
        ({
            let waits = asked(session, QuestionView::Users(room), id);
            let queue = if session.pending_user_queries.contains_key(room) {
                session.pending_user_queries[room].push(id)
            } else {
                seq![id]
            };
            let after = after_notice(waits, reading, structured).pending_user_queries;
            let rest = if after.contains_key(room) {
                after[room]
            } else {
                Seq::empty()
            };
            &&& answers_query(waits, reading)
            &&& notice_effects(waits, hub, reading, structured).last() == EffectView::AnswerUsers {
                query_id: queue[0],
                users: told_users(parsed, structured),
            }
            &&& seq![queue[0]] + rest == queue
            &&& after.remove(room) == session.pending_user_queries.remove(room)
        }),
{
    let waits = asked(session, QuestionView::Users(room), id);
    let queue = waits.pending_user_queries[room];
    let after = after_notice(waits, reading, structured).pending_user_queries;
    let rest = if after.contains_key(room) {
        after[room]
    } else {
        Seq::empty()
    };
    assert(seq![queue[0]] + queue.drop_first() =~= queue);
    assert(queue.drop_first().len() == 0 ==> queue.drop_first() =~= Seq::empty());
    assert(rest =~= queue.drop_first());
    assert(after.remove(room) =~= session.pending_user_queries.remove(room));
}

/// A pong that repeats the number of a ping answers that ping, and then it waits no more; no
/// other ping is touched.
pub proof fn pong_answers_its_ping(
    source: [u8; 16],
    session: SessionView,
    hub: [u8; 16],
    envelope: EnvelopeView,
    reading: NoticeReadingView,
    id: u64,
)
    requires
        envelope.message_type == Some(MessageType::Pong),
        envelope.body_integer == Some(id),
    ensures
        ({
            let waits = asked(session, QuestionView::Ping, id);
            let after = after_envelope(waits, envelope, reading);
            &&& envelope_effects(source, waits, hub, envelope, reading).contains(
                EffectView::AnswerPing { query_id: id },
            )
            &&& after.pending_pings == session.pending_pings.remove(id)
        }),
{
    let waits = asked(session, QuestionView::Ping, id);
    let after = after_envelope(waits, envelope, reading);
    let effects = envelope_effects(source, waits, hub, envelope, reading);
    let n = room_state_effects(waits, envelope).len();
    assert(with_room_state(waits, envelope).pending_pings == waits.pending_pings);
    assert(effects[n as int] == EffectView::AnswerPing { query_id: id });
    assert(after.pending_pings =~= session.pending_pings.remove(id));
}

/// A pong that no ping waits for answers nothing.
pub proof fn stray_pong_answers_nothing(
    source: [u8; 16],
    session: SessionView,
    hub: [u8; 16],
    envelope: EnvelopeView,
    reading: NoticeReadingView,
    query_id: u64,
)
    requires
        envelope.message_type == Some(MessageType::Pong),
        envelope.body_integer matches Some(id) ==> !session.pending_pings.contains(id),
    ensures
        !envelope_effects(source, session, hub, envelope, reading).contains(
            EffectView::AnswerPing { query_id },
        ),
{
}

proof fn waiting_without(session: SessionView, id: u64, q: u64)
    ensures
        waiting(without_query(session, id)).contains(q) <==> (waiting(session).contains(q) && q
            != id),
{
    let after = without_query(session, id);
    without_keeps_others(session.pending_room_queries, id, q);
    let queues = session.pending_user_queries;
    let kept = after.pending_user_queries;
    assert(waiting_for_users(kept).contains(q) <==> (waiting_for_users(queues).contains(q) && q
        != id)) by {
        if waiting_for_users(kept).contains(q) {
            let room = choose|room: Seq<char>| #[trigger]
                kept.contains_key(room) && kept[room].contains(q);
            without_keeps_others(queues[room], id, q);
            assert(queues.contains_key(room));
        }
        if waiting_for_users(queues).contains(q) && q != id {
            let room = choose|room: Seq<char>| #[trigger]
                queues.contains_key(room) && queues[room].contains(q);
            without_keeps_others(queues[room], id, q);
            assert(without(queues[room], id).len() > 0);
            assert(kept.contains_key(room));
        }
    }
}

/// After a query was forgotten, no session waits for it, and every other query waits on.
pub proof fn cancel_forgets_one_query(actor: ActorView, query_id: u64, key: Seq<u8>, q: u64)
    requires
        actor.sessions.contains_key(key),
    ensures
        ({
            let after = after_command(actor, CommandView::CancelQuery { query_id });
            &&& after.sessions.contains_key(key)
            &&& waiting(after.sessions[key]).contains(q) <==> (waiting(
                actor.sessions[key],
            ).contains(q) && q != query_id)
            &&& after.sessions[key].hub == actor.sessions[key].hub
        }),
{
    waiting_without(actor.sessions[key], query_id, q);
}

proof fn without_twice(queue: Seq<u64>, id: u64)
    ensures
        without(without(queue, id), id) == without(queue, id),
{
    without_keeps_others(queue, id, id);
    without_absent(without(queue, id), id);
}

/// To forget a query twice is to forget it once.
pub proof fn cancel_is_idempotent(actor: ActorView, query_id: u64)
    ensures
        ({
            let once = after_command(actor, CommandView::CancelQuery { query_id });
            after_command(once, CommandView::CancelQuery { query_id }) == once
        }),
{
    let once = after_command(actor, CommandView::CancelQuery { query_id });
    let twice = after_command(once, CommandView::CancelQuery { query_id });
    assert forall|key: Seq<u8>| once.sessions.contains_key(key) implies #[trigger]
        twice.sessions[key] == once.sessions[key] by {
        let session = actor.sessions[key];
        let s = once.sessions[key];
        let t = twice.sessions[key];
        assert(s == without_query(session, query_id));
        assert(t == without_query(s, query_id));
        without_twice(session.pending_room_queries, query_id);
        assert forall|room: Seq<char>| s.pending_user_queries.contains_key(room) implies without(
            #[trigger] s.pending_user_queries[room],
            query_id,
        ) == s.pending_user_queries[room] by {
            without_twice(session.pending_user_queries[room], query_id);
        }
        assert(t.pending_user_queries =~= s.pending_user_queries);
        assert(t.pending_pings =~= s.pending_pings);
        assert(t =~= s);
    }
    assert(twice.sessions =~= once.sessions);
}

proof fn without_pushed(queue: Seq<u64>, id: u64)
    requires
        !queue.contains(id),
    ensures
        without(queue.push(id), id) == queue,
{
    reveal(Seq::filter);
    without_absent(queue, id);
    assert(queue.push(id).drop_last() =~= queue);
}

/// A query that is asked and then forgotten leaves the session as it was, where its number was
/// not in use.
pub proof fn cancel_undoes_asking(session: SessionView, question: QuestionView, id: u64)
    requires
        queues_in_use(session),
        !waiting(session).contains(id),
    ensures
        without_query(asked(session, question, id), id) == session,
{
    let waits = asked(session, question, id);
    let after = without_query(waits, id);
    assert(!session.pending_room_queries.contains(id));
    without_absent(session.pending_room_queries, id);
    assert(!waiting_for_users(session.pending_user_queries).contains(id));
    assert forall|room: Seq<char>|
        session.pending_user_queries.contains_key(room) implies !#[trigger]
    session.pending_user_queries[room].contains(id) by {}
    without_pushed(session.pending_room_queries, id);
    assert forall|room: Seq<char>| #[trigger]
        after.pending_user_queries.contains_key(room)
            == session.pending_user_queries.contains_key(room) && (
        session.pending_user_queries.contains_key(room) ==> after.pending_user_queries[room]
            == session.pending_user_queries[room]) by {
        if session.pending_user_queries.contains_key(room) {
            let queue = session.pending_user_queries[room];
            assert(queue.len() > 0);
            assert(!queue.contains(id));
            without_absent(queue, id);
            without_pushed(queue, id);
        } else {
            without_pushed(Seq::empty(), id);
            assert(seq![id] =~= Seq::<u64>::empty().push(id));
        }
    }
    assert(after.pending_user_queries =~= session.pending_user_queries);
    assert(after.pending_pings =~= session.pending_pings);
    assert(after =~= session);
}

} // verus!
