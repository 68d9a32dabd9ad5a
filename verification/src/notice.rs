//! Notices that answer queries.
use crate::effect::{Effect, EffectView, NoticeReading, NoticeReadingView};
use crate::queue::dequeue;
use crate::replica::{push_onto, Replica};
use crate::session::{Session, SessionView};
use crate::types::{Event, EventView, HubView, RoomInfoView, UserInfo, UserInfoView};
use vstd::prelude::*;

verus! {

/// A session whose hub sent its rooms.
pub open spec fn with_rooms(session: SessionView, rooms: Seq<RoomInfoView>) -> SessionView {
    SessionView {
        hub: HubView { public_rooms: rooms, ..session.hub },
        pending_room_queries: if session.pending_room_queries.len() > 0 {
            session.pending_room_queries.drop_first()
        } else {
            session.pending_room_queries
        },
        ..session
    }
}

/// Whether a query for the members of `room` waits.
pub open spec fn awaits_users(session: SessionView, room: Seq<char>) -> bool {
    session.pending_user_queries.contains_key(room) && session.pending_user_queries[room].len() > 0
}

/// Queues in which the first query for the members of `room` was answered.
pub open spec fn queues_served(
    queues: Map<Seq<char>, Seq<u64>>,
    room: Seq<char>,
) -> Map<Seq<char>, Seq<u64>> {
    let rest = queues[room].drop_first();
    if rest.len() == 0 {
        queues.remove(room)
    } else {
        queues.insert(room, rest)
    }
}

/// A session whose hub sent the members of `room`.
pub open spec fn with_users(
    session: SessionView,
    room: Seq<char>,
    users: Seq<UserInfoView>,
) -> SessionView {
    SessionView {
        hub: HubView { room_users: session.hub.room_users.insert(room, users), ..session.hub },
        pending_user_queries: if awaits_users(session, room) {
            queues_served(session.pending_user_queries, room)
        } else {
            session.pending_user_queries
        },
        ..session
    }
}

/// The members that a WHO reply tells of: the structured list, where there is one.
pub open spec fn told_users(
    parsed: Seq<UserInfoView>,
    structured: Option<Seq<UserInfoView>>,
) -> Seq<UserInfoView> {
    match structured {
        Some(users) => users,
        None => parsed,
    }
}

/// A session after a notice was read.
pub open spec fn after_notice(
    session: SessionView,
    reading: NoticeReadingView,
    structured: Option<Seq<UserInfoView>>,
) -> SessionView {
    match reading.rooms {
        Some(rooms) => with_rooms(session, rooms),
        None => match reading.who {
            Some((room, parsed)) => with_users(session, room, told_users(parsed, structured)),
            None => session,
        },
    }
}

/// What is to be done when a notice was read: the subscribers are told of the list,
/// and the query that waited longest for it is answered.
pub open spec fn notice_effects(
    session: SessionView,
    hub: [u8; 16],
    reading: NoticeReadingView,
    structured: Option<Seq<UserInfoView>>,
) -> Seq<EffectView> {
    let changed = EffectView::Emit(
        EventView::HubChanged(after_notice(session, reading, structured).hub),
    );
    match reading.rooms {
        Some(rooms) => {
            let told = seq![EffectView::Emit(EventView::RoomList { hub, rooms }), changed];
            if session.pending_room_queries.len() > 0 {
                told.push(
                    EffectView::AnswerRooms { query_id: session.pending_room_queries[0], rooms },
                )
            } else {
                told
            }
        },
        None => match reading.who {
            Some((room, parsed)) => {
                let users = told_users(parsed, structured);
                let told = seq![
                    EffectView::Emit(EventView::UserList { hub, room, users }),
                    changed,
                ];
                if awaits_users(session, room) {
                    told.push(
                        EffectView::AnswerUsers {
                            query_id: session.pending_user_queries[room][0],
                            users,
                        },
                    )
                } else {
                    told
                }
            },
            None => Seq::empty(),
        },
    }
}

/// Whether a notice answers a query.
pub open spec fn answers_query(session: SessionView, reading: NoticeReadingView) -> bool {
    match reading.rooms {
        Some(_) => session.pending_room_queries.len() > 0,
        None => match reading.who {
            Some((room, _)) => awaits_users(session, room),
            None => false,
        },
    }
}

/// Takes in what a notice says, and says whether it answered a query.
pub fn resolve_query_notice(
    session: &mut Session,
    effects: &mut Vec<Effect>,
    hub: [u8; 16],
    reading: NoticeReading,
    structured_users: Option<Vec<UserInfo>>,
) -> (consumed: bool)
    ensures
        final(session)@ == after_notice(old(session)@, reading@, structured_users.deep_view()),
        final(effects).deep_view() == old(effects).deep_view() + notice_effects(
            old(session)@,
            hub,
            reading@,
            structured_users.deep_view(),
        ),
        consumed == answers_query(old(session)@, reading@),
{
    let ghost before = effects.deep_view();
    let ghost started = session@;
    let ghost wanted = notice_effects(session@, hub, reading@, structured_users.deep_view());
    if let Some(rooms) = reading.rooms {
        session.hub.public_rooms = rooms.replica();
        push_onto(effects, Effect::Emit(Event::RoomList { hub, rooms: rooms.replica() }));
        push_onto(effects, Effect::Emit(Event::HubChanged(session.hub.clone())));
        let consumed = if let Some(query_id) = dequeue(&mut session.pending_room_queries) {
            push_onto(effects, Effect::AnswerRooms { query_id, rooms });
            true
        } else {
            false
        };
        assert(effects.deep_view() =~= before + wanted);
        return consumed;
    }
    if let Some((room, parsed_users)) = reading.who {
        let users = match structured_users {
            Some(users) => users,
            None => parsed_users,
        };
        session.hub.room_users.insert(room.clone(), users.replica());
        push_onto(
            effects,
            Effect::Emit(Event::UserList { hub, room: room.clone(), users: users.replica() }),
        );
        push_onto(effects, Effect::Emit(Event::HubChanged(session.hub.clone())));
        let ghost queues = session.pending_user_queries@;
        let consumed = match session.pending_user_queries.remove(&room) {
            Some(mut queue) => {
                let ghost waiting = queue.deep_view();
                match dequeue(&mut queue) {
                    Some(query_id) => {
                        if queue.len() > 0 {
                            session.pending_user_queries.insert(room, queue);
                            assert(session.pending_user_queries@ =~= queues.insert(
                                room@,
                                waiting.drop_first(),
                            ));
                        }
                        push_onto(effects, Effect::AnswerUsers { query_id, users });
                        true
                    },
                    None => {
                        session.pending_user_queries.insert(room, queue);
                        assert(session.pending_user_queries@ =~= queues);
                        false
                    },
                }
            },
            None => {
                assert(session.pending_user_queries@ =~= queues);
                false
            },
        };
        assert(effects.deep_view() =~= before + wanted);
        assert(session@ =~= after_notice(started, reading@, structured_users.deep_view()));
        return consumed;
    }
    assert(effects.deep_view() =~= before + wanted);
    false
}

} // verus!
