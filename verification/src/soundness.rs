//! What holds of a client at all times.
use crate::actor::{after_command, idle, session_of, with_session, ActorView};
use crate::delivery::after_delivery;
use crate::effect::{DeliveryView, JoinAttemptView, NoticeReadingView, ReceivedView};
use crate::inbound::{
    after_envelope, after_join, after_received, with_room_state, without_stale_users,
};
use crate::notice::after_notice;
use crate::report::{
    after_connect, after_inbound, after_question, after_reconnect, after_rejoin, after_resource,
    after_send, asked, live_session, restored_session, rooms_after_send, still_lost, QuestionView,
};
use crate::request::CommandView;
use crate::sequence::{filter_keeps_distinct, other_than, pushing_keeps_distinct};
use crate::session::{fresh_session, queues_in_use, without_query, SessionView};
use crate::types::{EnvelopeView, ErrorView, MessageType, UserInfoView};
use vstd::prelude::*;

verus! {

/// Whether a session with the hub `key` is as it should be: it stands for that hub, it has a
/// number, the hub is known under the nickname of the session, no room is held twice, no
/// queue for members is empty, and there are only so many desired rooms.
pub open spec fn sound_session(key: Seq<u8>, session: SessionView) -> bool {
    &&& session.hub.destination_hash@ == key
    &&& session.id >= 1
    &&& session.hub.nick == session.nick
    &&& session.hub.rooms.no_duplicates()
    &&& queues_in_use(session)
    &&& session.desired_rooms.dom().finite()
}

/// Whether an actor is as it should be: all its sessions are, there are only so many of
/// them, and there is a number for the next.
pub open spec fn sound(actor: ActorView) -> bool {
    &&& actor.next_session_id >= 1
    &&& actor.sessions.dom().finite()
    &&& forall|key: Seq<u8>| #[trigger]
        actor.sessions.contains_key(key) ==> sound_session(key, actor.sessions[key])
}

/// A client starts sound.
pub proof fn idle_is_sound(source: [u8; 16])
    ensures
        sound(idle(source)),
{
}

proof fn notice_keeps_sound(
    key: Seq<u8>,
    session: SessionView,
    reading: NoticeReadingView,
    structured: Option<Seq<UserInfoView>>,
)
    requires
        sound_session(key, session),
    ensures
        sound_session(key, after_notice(session, reading, structured)),
{
    let after = after_notice(session, reading, structured);
    assert forall|room: Seq<char>| #[trigger]
        after.pending_user_queries.contains_key(room) implies after.pending_user_queries[room].len()
        > 0 by {
        if session.pending_user_queries.contains_key(room) {
            assert(session.pending_user_queries[room].len() > 0);
        }
    }
}

/// Whatever comes over the link of a session, the session stays sound.
pub proof fn received_keeps_sound(key: Seq<u8>, session: SessionView, received: ReceivedView)
    requires
        sound_session(key, session),
    ensures
        sound_session(key, after_received(session, received)),
{
    if let ReceivedView::Envelope { envelope, reading } = received {
        let s = with_room_state(session, envelope);
        assert(sound_session(key, s)) by {
            assert(s.pending_user_queries == session.pending_user_queries);
            assert forall|room: Seq<char>| #[trigger]
                s.pending_user_queries.contains_key(room) implies s.pending_user_queries[room].len()
                > 0 by {
                assert(session.pending_user_queries.contains_key(room));
            }
        }
        let after = after_envelope(session, envelope, reading);
        match envelope.message_type {
            Some(MessageType::Notice) => {
                let t = without_stale_users(s, envelope);
                assert(sound_session(key, t)) by {
                    assert(t.pending_user_queries == s.pending_user_queries);
                    assert forall|room: Seq<char>| #[trigger]
                        t.pending_user_queries.contains_key(
                            room,
                        ) implies t.pending_user_queries[room].len() > 0 by {
                        assert(s.pending_user_queries.contains_key(room));
                    }
                }
                notice_keeps_sound(key, t, reading, envelope.user_list);
            },
            Some(MessageType::Joined) => {
                if let Some(room) = envelope.room {
                    if !s.hub.rooms.contains(room) {
                        pushing_keeps_distinct(s.hub.rooms, room);
                    }
                }
                same_queues_in_use(s, after);
            },
            Some(MessageType::Parted) => {
                if let Some(room) = envelope.room {
                    filter_keeps_distinct(s.hub.rooms, other_than(room));
                }
                same_queues_in_use(s, after);
            },
            _ => {
                same_queues_in_use(s, after);
            },
        }
    } else {
        same_queues_in_use(session, after_received(session, received));
    }
}

proof fn same_queues_in_use(before: SessionView, after: SessionView)
    requires
        queues_in_use(before),
        after.pending_user_queries == before.pending_user_queries,
    ensures
        queues_in_use(after),
{
    assert forall|room: Seq<char>| #[trigger]
        after.pending_user_queries.contains_key(room) implies after.pending_user_queries[room].len()
        > 0 by {
        assert(before.pending_user_queries.contains_key(room));
    }
}

proof fn putting_keeps_sound(actor: ActorView, destination: [u8; 16], session: SessionView)
    requires
        sound(actor),
        sound_session(destination@, session),
    ensures
        sound(with_session(actor, destination, session)),
{
    let after = with_session(actor, destination, session);
    assert forall|key: Seq<u8>| #[trigger] after.sessions.contains_key(key) implies sound_session(
        key,
        after.sessions[key],
    ) by {
        if key != destination@ {
            assert(actor.sessions.contains_key(key));
        }
    }
}

/// Every request keeps the client sound.
pub proof fn command_keeps_sound(actor: ActorView, command: CommandView)
    requires
        sound(actor),
    ensures
        sound(after_command(actor, command)),
{
    let after = after_command(actor, command);
    match command {
        CommandView::SetNick { destination, nick } => {
            if let Some(session) = session_of(actor, destination) {
                let renamed = after.sessions[destination@];
                same_queues_in_use(session, renamed);
                putting_keeps_sound(actor, destination, renamed);
            }
        },
        CommandView::CancelQuery { query_id } => {
            assert(after.sessions.dom() =~= actor.sessions.dom());
            assert forall|key: Seq<u8>| #[trigger]
                after.sessions.contains_key(key) implies sound_session(
                key,
                after.sessions[key],
            ) by {
                assert(actor.sessions.contains_key(key));
                assert(after.sessions[key] == without_query(actor.sessions[key], query_id));
            }
        },
        CommandView::Disconnect { destination } => {
            assert forall|key: Seq<u8>| #[trigger]
                after.sessions.contains_key(key) implies sound_session(
                key,
                after.sessions[key],
            ) by {
                assert(actor.sessions.contains_key(key));
            }
        },
        _ => {},
    }
}

/// Whatever comes over a link, the client stays sound.
pub proof fn inbound_keeps_sound(
    actor: ActorView,
    hub: [u8; 16],
    session_id: u64,
    received: ReceivedView,
)
    requires
        sound(actor),
    ensures
        sound(after_inbound(actor, hub, session_id, received)),
{
    if let Some(session) = live_session(actor, hub, session_id) {
        received_keeps_sound(hub@, session, received);
        putting_keeps_sound(actor, hub, after_received(session, received));
    }
}

/// However an attempt to open a link ends, the client stays sound.
pub proof fn connect_keeps_sound(
    actor: ActorView,
    destination: [u8; 16],
    session_id: u64,
    nick: Option<Seq<char>>,
    result: Result<(), ErrorView>,
)
    requires
        sound(actor),
        session_id >= 1,
    ensures
        sound(after_connect(actor, destination, session_id, nick, result)),
{
    if result is Ok {
        putting_keeps_sound(
            actor,
            destination,
            fresh_session(session_id, destination, nick),
        );
    }
}

/// However an attempt to replace a lost link ends, the client stays sound.
pub proof fn reconnect_keeps_sound(
    actor: ActorView,
    destination: [u8; 16],
    lost: u64,
    session_id: u64,
    nick: Option<Seq<char>>,
    desired_rooms: Map<Seq<char>, Option<Seq<char>>>,
    result: Result<(), ErrorView>,
)
    requires
        sound(actor),
        session_id >= 1,
        desired_rooms.dom().finite(),
    ensures
        sound(
            after_reconnect(
                actor,
                destination,
                lost,
                session_id,
                nick,
                desired_rooms,
                result,
            ),
        ),
{
    match result {
        Ok(_) => putting_keeps_sound(
            actor,
            destination,
            restored_session(session_id, destination, nick, desired_rooms),
        ),
        Err(error) => {
            if let Some(session) = live_session(actor, destination, lost) {
                same_queues_in_use(session, still_lost(session, error));
                putting_keeps_sound(actor, destination, still_lost(session, error));
            }
        },
    }
}

/// However an attempt to send an envelope ends, the client stays sound.
pub proof fn send_keeps_sound(
    actor: ActorView,
    destination: [u8; 16],
    session_id: u64,
    envelope: EnvelopeView,
    result: Result<(), ErrorView>,
)
    requires
        sound(actor),
    ensures
        sound(after_send(actor, destination, session_id, envelope, result)),
{
    if let Some(session) = live_session(actor, destination, session_id) {
        let after = SessionView {
            desired_rooms: rooms_after_send(session.desired_rooms, envelope),
            ..session
        };
        same_queues_in_use(session, after);
        putting_keeps_sound(actor, destination, after);
    }
}

/// However an attempt to put a question ends, the client stays sound.
pub proof fn question_keeps_sound(
    actor: ActorView,
    destination: [u8; 16],
    session_id: u64,
    question: QuestionView,
    query_id: u64,
    result: Result<(), ErrorView>,
)
    requires
        sound(actor),
    ensures
        sound(after_question(actor, destination, session_id, question, query_id, result)),
{
    if let Some(session) = live_session(actor, destination, session_id) {
        let after = asked(session, question, query_id);
        assert forall|room: Seq<char>| #[trigger]
            after.pending_user_queries.contains_key(
                room,
            ) implies after.pending_user_queries[room].len() > 0 by {
            if session.pending_user_queries.contains_key(room) {
                assert(session.pending_user_queries[room].len() > 0);
            }
        }
        putting_keeps_sound(actor, destination, after);
    }
}

/// However a request to enter a room again goes, the client stays sound.
pub proof fn rejoin_keeps_sound(
    actor: ActorView,
    destination: [u8; 16],
    session_id: u64,
    attempt: JoinAttemptView,
)
    requires
        sound(actor),
    ensures
        sound(after_rejoin(actor, destination, session_id, attempt)),
{
    if let Some(session) = live_session(actor, destination, session_id) {
        same_queues_in_use(session, after_join(session, attempt));
        putting_keeps_sound(actor, destination, after_join(session, attempt));
    }
}

/// Whatever resource comes, the client stays sound.
pub proof fn resource_keeps_sound(
    actor: ActorView,
    destination: [u8; 16],
    session_id: u64,
    delivery: Result<DeliveryView, Seq<char>>,
    reading: NoticeReadingView,
)
    requires
        sound(actor),
    ensures
        sound(after_resource(actor, destination, session_id, delivery, reading)),
{
    if let Some(session) = live_session(actor, destination, session_id) {
        notice_keeps_sound(destination@, session, reading, None);
        putting_keeps_sound(
            actor,
            destination,
            after_delivery(session, delivery, reading),
        );
    }
}

} // verus!
