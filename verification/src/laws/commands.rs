//! What a request comes to, one by one.
use crate::actor::{
    after_command, asks_to_stop, command_effects, idle, known_hubs, open_sessions, ActorView,
};
use crate::effect::{EffectView, ReplyView, WorkView};
use crate::laws::links::waits_in;
use crate::order::{lex_less, Ranked};
use crate::ordered_map::{ascending, listing_exists};
use crate::request::{CommandView, ContentView, DraftView};
use crate::sequence::other_than;
use crate::session::SessionView;
use crate::types::{EnvelopeView, ErrorView, EventView, HubView, MessageType};
use vstd::prelude::*;

verus! {

/// A client starts without sessions, and its first session has the number one.
pub proof fn client_starts_empty(source: [u8; 16])
    ensures
        idle(source).source == source,
        idle(source).next_session_id == 1,
        forall|key: Seq<u8>| !(#[trigger] idle(source).sessions.contains_key(key)),
{
}

/// A connection is opened to the hub that is asked for, under the nickname that is given and with
/// the next session number, whether or not there is a session with the hub; the number is used
/// up, and nothing else changes.
pub proof fn connect_takes_a_number(
    actor: ActorView,
    destination: [u8; 16],
    nick: Option<Seq<char>>,
)
    ensures
        ({
            let command = CommandView::Connect { destination, nick };
            let after = after_command(actor, command);
            let session_id = actor.next_session_id;
            &&& command_effects(actor, command) == seq![
                EffectView::Perform(WorkView::Open { destination, session_id, nick }),
            ]
            &&& after.sessions == actor.sessions
            &&& after.source == actor.source
            &&& session_id < u64::MAX ==> after.next_session_id == session_id + 1
            &&& session_id == u64::MAX ==> after.next_session_id == 1
        }),
{
}

/// Requests that only have something sent or asked change nothing.
pub proof fn sending_changes_nothing(
    actor: ActorView,
    destination: [u8; 16],
    envelope: EnvelopeView,
    data: Seq<u8>,
    room: Seq<char>,
    query_id: u64,
)
    ensures
        after_command(actor, CommandView::Send { destination, envelope }) == actor,
        after_command(actor, CommandView::SendResource { destination, envelope, data }) == actor,
        after_command(actor, CommandView::ListRooms { destination, query_id }) == actor,
        after_command(actor, CommandView::ListUsers { destination, room, query_id }) == actor,
        after_command(actor, CommandView::Ping { destination, query_id }) == actor,
        after_command(actor, CommandView::Hubs) == actor,
        after_command(actor, CommandView::Shutdown) == actor,
{
}

/// Without a session with the hub, every request that needs one fails as not connected and
/// changes nothing: a caller is answered so, and a query is refused so.
pub proof fn no_session_is_not_connected(
    actor: ActorView,
    destination: [u8; 16],
    envelope: EnvelopeView,
    data: Seq<u8>,
    nick: Seq<char>,
    room: Seq<char>,
    query_id: u64,
)
    requires
        !actor.sessions.contains_key(destination@),
    ensures
        ({
            let answered = seq![EffectView::Reply(ReplyView::Failed(ErrorView::NotConnected))];
            let refused = seq![EffectView::Refuse { query_id, error: ErrorView::NotConnected }];
            &&& command_effects(actor, CommandView::Send { destination, envelope }) == answered
            &&& command_effects(actor, CommandView::SendResource { destination, envelope, data })
                == answered
            &&& command_effects(actor, CommandView::Disconnect { destination }) == answered
            &&& command_effects(actor, CommandView::SetNick { destination, nick }) == answered
            &&& command_effects(actor, CommandView::ListRooms { destination, query_id }) == refused
            &&& command_effects(actor, CommandView::ListUsers { destination, room, query_id })
                == refused
            &&& command_effects(actor, CommandView::Ping { destination, query_id }) == refused
            &&& after_command(actor, CommandView::Disconnect { destination }) == actor
            &&& after_command(actor, CommandView::SetNick { destination, nick }) == actor
        }),
{
    assert(actor.sessions.remove(destination@) =~= actor.sessions);
}

/// An envelope is sent over the session with the hub as it was given, under the identity of the
/// client; the nickname of the session goes with joins, messages, notices and actions, and with
/// nothing else.
pub proof fn envelope_is_sent_as_given(
    actor: ActorView,
    destination: [u8; 16],
    envelope: EnvelopeView,
) -> (nick: Option<Seq<char>>)
    requires
        actor.sessions.contains_key(destination@),
    ensures
        ({
            let session = actor.sessions[destination@];
            let kind = envelope.message_type;
            let named = kind == Some(MessageType::Join) || kind == Some(MessageType::Message)
                || kind == Some(MessageType::Notice) || kind == Some(MessageType::Action);
            &&& named ==> nick == session.nick
            &&& !named ==> nick is None
            &&& command_effects(actor, CommandView::Send { destination, envelope }) == seq![
                EffectView::Perform(
                    WorkView::Send {
                        destination,
                        session_id: session.id,
                        source: actor.source,
                        nick,
                        envelope,
                    },
                ),
            ]
        }),
{
    let session = actor.sessions[destination@];
    let kind = envelope.message_type;
    if kind == Some(MessageType::Join) || kind == Some(MessageType::Message) || kind == Some(
        MessageType::Notice,
    ) || kind == Some(MessageType::Action) {
        session.nick
    } else {
        None
    }
}

/// A resource is sent over the session with the hub, with the announcement and the bytes that
/// were given.
pub proof fn resource_is_sent_as_given(
    actor: ActorView,
    destination: [u8; 16],
    envelope: EnvelopeView,
    data: Seq<u8>,
)
    requires
        actor.sessions.contains_key(destination@),
    ensures
        command_effects(actor, CommandView::SendResource { destination, envelope, data }) == seq![
            EffectView::Perform(
                WorkView::SendResource {
                    session_id: actor.sessions[destination@].id,
                    source: actor.source,
                    envelope,
                    data,
                },
            ),
        ],
{
}

/// To end a session takes it out and leaves every other; the subscribers are told of the hub as
/// down, its link is closed, and exactly the queries that waited in it are given up.
pub proof fn disconnect_takes_out_one_session(actor: ActorView, destination: [u8; 16]) -> (
    released: Set<u64>)
    requires
        actor.sessions.contains_key(destination@),
    ensures
        ({
            let command = CommandView::Disconnect { destination };
            let after = after_command(actor, command);
            let session = actor.sessions[destination@];
            &&& forall|q: u64| #[trigger] released.contains(q) <==> waits_in(session, q)
            &&& command_effects(actor, command) == seq![
                EffectView::Emit(
                    EventView::HubChanged(
                        HubView { connected: false, detail: "Disconnected"@, ..session.hub },
                    ),
                ),
                EffectView::Perform(WorkView::Disconnect { session_id: session.id, released }),
            ]
            &&& after.source == actor.source
            &&& after.next_session_id == actor.next_session_id
            &&& forall|key: Seq<u8>| #[trigger]
                after.sessions.contains_key(key) <==> actor.sessions.contains_key(key) && key
                    != destination@
            &&& forall|key: Seq<u8>| #[trigger]
                after.sessions.contains_key(key) ==> after.sessions[key] == actor.sessions[key]
        }),
{
    crate::session::waiting(actor.sessions[destination@])
}

/// A new nickname is put on the session and on what is known of its hub, and nothing else
/// changes; the subscribers are told of the hub under it, and so is the caller.
pub proof fn nick_changes_nothing_else(
    actor: ActorView,
    destination: [u8; 16],
    nick: Seq<char>,
)
    requires
        actor.sessions.contains_key(destination@),
    ensures
        ({
            let command = CommandView::SetNick { destination, nick };
            let after = after_command(actor, command);
            let session = actor.sessions[destination@];
            let hub = HubView { nick: Some(nick), ..session.hub };
            &&& command_effects(actor, command) == seq![
                EffectView::Emit(EventView::HubChanged(hub)),
                EffectView::Reply(ReplyView::Hub(hub)),
            ]
            &&& after.source == actor.source
            &&& after.next_session_id == actor.next_session_id
            &&& after.sessions.contains_key(destination@)
            &&& after.sessions[destination@] == (SessionView { hub, nick: Some(nick), ..session })
            &&& after.sessions.remove(destination@) == actor.sessions.remove(destination@)
        }),
{
    let after = after_command(actor, CommandView::SetNick { destination, nick });
    assert(after.sessions.remove(destination@) =~= actor.sessions.remove(destination@));
}

/// Questions for rooms, for members and for an answer are put over the session with the hub,
/// under the identity of the client and with the number of their query: `/list` to no room,
/// `/who` with the room to that room, and a ping with the number.
pub proof fn questions_are_put_as_commands(
    actor: ActorView,
    destination: [u8; 16],
    room: Seq<char>,
    query_id: u64,
)
    requires
        actor.sessions.contains_key(destination@),
    ensures
        ({
            let session = actor.sessions[destination@];
            let session_id = session.id;
            let source = actor.source;
            let nick = session.nick;
            &&& command_effects(actor, CommandView::ListRooms { destination, query_id }) == seq![
                EffectView::Perform(
                    WorkView::ListRooms {
                        destination,
                        session_id,
                        query_id,
                        draft: (DraftView {
                            source,
                            content: ContentView::Command {
                                room: None,
                                line: seq!['/', 'l', 'i', 's', 't'],
                            },
                        }),
                        nick,
                    },
                ),
            ]
            &&& command_effects(actor, CommandView::ListUsers { destination, room, query_id })
                == seq![
                EffectView::Perform(
                    WorkView::ListUsers {
                        destination,
                        session_id,
                        room,
                        query_id,
                        draft: (DraftView {
                            source,
                            content: ContentView::Command {
                                room: Some(room),
                                line: seq!['/', 'w', 'h', 'o', ' '] + room,
                            },
                        }),
                        nick,
                    },
                ),
            ]
            &&& command_effects(actor, CommandView::Ping { destination, query_id }) == seq![
                EffectView::Perform(
                    WorkView::Ping {
                        destination,
                        session_id,
                        query_id,
                        draft: (DraftView { source, content: ContentView::Ping { query_id } }),
                    },
                ),
            ]
        }),
{
    reveal_strlit("/list");
    reveal_strlit("/who ");
    assert("/list"@ =~= seq!['/', 'l', 'i', 's', 't']);
    assert("/who "@ =~= seq!['/', 'w', 'h', 'o', ' ']);
}

/// To forget a query gives it up in every session, whatever it waits for, and leaves all else:
/// the queries that stay keep their order, a queue is dropped exactly where nobody is left in
/// it, and the query is released.
pub proof fn cancel_takes_out_one_query(actor: ActorView, query_id: u64, key: Seq<u8>)
    requires
        actor.sessions.contains_key(key),
    ensures
        ({
            let command = CommandView::CancelQuery { query_id };
            let after = after_command(actor, command);
            let old_session = actor.sessions[key];
            let new_session = after.sessions[key];
            let stays = |q: u64| q != query_id;
            &&& command_effects(actor, command) == seq![EffectView::Release(set![query_id])]
            &&& after.source == actor.source
            &&& after.next_session_id == actor.next_session_id
            &&& after.sessions.dom() == actor.sessions.dom()
            &&& new_session == (SessionView {
                pending_room_queries: new_session.pending_room_queries,
                pending_user_queries: new_session.pending_user_queries,
                pending_pings: new_session.pending_pings,
                ..old_session
            })
            &&& new_session.pending_room_queries == old_session.pending_room_queries.filter(stays)
            &&& new_session.pending_pings == old_session.pending_pings.remove(query_id)
            &&& forall|room: Seq<char>| #[trigger]
                new_session.pending_user_queries.contains_key(room) <==> (
                old_session.pending_user_queries.contains_key(room)
                    && old_session.pending_user_queries[room].filter(stays).len() > 0)
            &&& forall|room: Seq<char>| #[trigger]
                new_session.pending_user_queries.contains_key(room)
                    ==> new_session.pending_user_queries[room]
                    == old_session.pending_user_queries[room].filter(stays)
        }),
{
    let after = after_command(actor, CommandView::CancelQuery { query_id });
    assert(after.sessions.dom() =~= actor.sessions.dom());
    assert(other_than(query_id) =~= (|q: u64| q != query_id));
}

/// A lost session is opened anew exactly where it is still there, under its number, and its link
/// is down: with the next session number, its nickname and its rooms. The number is used up
/// then, and nothing else ever changes.
pub proof fn reconnect_asks_once(actor: ActorView, destination: [u8; 16], session_id: u64)
    ensures
        ({
            let command = CommandView::Reconnect { destination, session_id };
            let after = after_command(actor, command);
            let session = actor.sessions[destination@];
            let due = actor.sessions.contains_key(destination@) && session.id == session_id
                && !session.hub.connected;
            &&& after.sessions == actor.sessions
            &&& after.source == actor.source
            &&& due ==> command_effects(actor, command) == seq![
                EffectView::Perform(
                    WorkView::Reopen {
                        destination,
                        lost: session_id,
                        session_id: actor.next_session_id,
                        nick: session.nick,
                        desired_rooms: session.desired_rooms,
                    },
                ),
            ]
            &&& due && actor.next_session_id < u64::MAX ==> after.next_session_id
                == actor.next_session_id + 1
            &&& due && actor.next_session_id == u64::MAX ==> after.next_session_id == 1
            &&& !due ==> command_effects(actor, command) == Seq::<EffectView>::empty()
            &&& !due ==> after.next_session_id == actor.next_session_id
        }),
{
}

/// A request to stop is answered by stopping; effects ask to stop exactly where one of them
/// does.
pub proof fn shutdown_stops(actor: ActorView, effects: Seq<EffectView>)
    ensures
        command_effects(actor, CommandView::Shutdown) == seq![EffectView::Stop],
        asks_to_stop(effects) <==> exists|i: int|
            0 <= i < effects.len() && #[trigger] effects[i] is Stop,
{
    if asks_to_stop(effects) {
        let i = choose|i: int| 0 <= i < effects.len() && effects[i] == EffectView::Stop;
        assert(effects[i] is Stop);
    }
    if exists|i: int| 0 <= i < effects.len() && #[trigger] effects[i] is Stop {
        let i = choose|i: int| 0 <= i < effects.len() && #[trigger] effects[i] is Stop;
        assert(effects[i] == EffectView::Stop);
    }
}

/// Whether one identity comes before another: its byte is smaller at the first place where they
/// differ.
pub open spec fn comes_before(a: Seq<u8>, b: Seq<u8>) -> bool {
    exists|k: int|
        0 <= k < a.len() && k < b.len() && #[trigger] a[k] < b[k] && forall|j: int|
            0 <= j < k ==> #[trigger] a[j] == b[j]
}

proof fn smaller_rank_comes_before(a: Seq<u8>, b: Seq<u8>, n: int)
    requires
        a.len() == b.len(),
        0 <= n <= a.len(),
        forall|j: int| 0 <= j < n ==> #[trigger] a[j] == b[j],
        lex_less(
            <[u8; 16] as Ranked>::rank(a).skip(n),
            <[u8; 16] as Ranked>::rank(b).skip(n),
        ),
    ensures
        comes_before(a, b),
    decreases a.len() - n,
{
    let x = <[u8; 16] as Ranked>::rank(a);
    let y = <[u8; 16] as Ranked>::rank(b);
    if n < a.len() {
        assert(x.skip(n)[0] == x[n] && y.skip(n)[0] == y[n]);
        if a[n] < b[n] {
        } else {
            assert(x.skip(n).drop_first() =~= x.skip(n + 1));
            assert(y.skip(n).drop_first() =~= y.skip(n + 1));
            assert(a[n] == b[n]);
            smaller_rank_comes_before(a, b, n + 1);
        }
    }
}

/// All hubs are listed, each once, in the order of their identities, and so are the numbers of
/// the sessions: the lists name the sessions in one and the same order.
pub proof fn hubs_are_listed_in_order(actor: ActorView) -> (keys: Seq<Seq<u8>>)
    requires
        actor.sessions.dom().finite(),
        forall|key: Seq<u8>| #[trigger] actor.sessions.contains_key(key) ==> key.len() == 16,
    ensures
        command_effects(actor, CommandView::Hubs) == seq![
            EffectView::Reply(ReplyView::Hubs(known_hubs(actor))),
        ],
        known_hubs(actor).len() == keys.len(),
        open_sessions(actor).len() == keys.len(),
        forall|i: int|
            0 <= i < keys.len() ==> actor.sessions.contains_key(#[trigger] keys[i]) && known_hubs(
                actor,
            )[i] == actor.sessions[keys[i]].hub && open_sessions(actor)[i]
                == actor.sessions[keys[i]].id,
        forall|key: Seq<u8>| #[trigger]
            actor.sessions.contains_key(key) ==> exists|i: int|
                0 <= i < keys.len() && #[trigger] keys[i] == key,
        forall|i: int, j: int|
            0 <= i < j < keys.len() ==> comes_before(#[trigger] keys[i], #[trigger] keys[j]),
{
    let keys = ascending::<[u8; 16], SessionView>(actor.sessions);
    listing_exists::<[u8; 16], SessionView>(actor.sessions);
    assert forall|i: int| 0 <= i < keys.len() implies actor.sessions.contains_key(
        #[trigger] keys[i],
    ) && known_hubs(actor)[i] == actor.sessions[keys[i]].hub && open_sessions(actor)[i]
        == actor.sessions[keys[i]].id by {
        assert(keys.contains(keys[i]));
    }
    assert forall|key: Seq<u8>| #[trigger]
        actor.sessions.contains_key(key) implies exists|i: int|
        0 <= i < keys.len() && #[trigger] keys[i] == key by {
        assert(keys.contains(key));
    }
    assert forall|i: int, j: int| 0 <= i < j < keys.len() implies comes_before(
        #[trigger] keys[i],
        #[trigger] keys[j],
    ) by {
        let a = keys[i];
        let b = keys[j];
        assert(keys.contains(a) && keys.contains(b));
        assert(<[u8; 16] as Ranked>::rank(a).skip(0) =~= <[u8; 16] as Ranked>::rank(a));
        assert(<[u8; 16] as Ranked>::rank(b).skip(0) =~= <[u8; 16] as Ranked>::rank(b));
        smaller_rank_comes_before(a, b, 0);
    }
    keys
}

} // verus!
