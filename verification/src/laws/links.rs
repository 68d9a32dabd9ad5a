//! What can be relied on while a link is opened, lost and opened again.
use crate::actor::{known_hubs, session_of, ActorView};
use crate::effect::{EffectView, ReceivedView, ReplyView};
use crate::laws::sessions::hub_is_found;
use crate::link::{backoff, link_failure, session_id_after, step_after, LinkReply, LinkStep};
use crate::report::{
    after_connect, after_inbound, after_reconnect, connect_effects, inbound_effects,
    reconnect_effects,
};
use crate::session::SessionView;
use crate::soundness::{connect_keeps_sound, reconnect_keeps_sound, sound};
use crate::types::{ErrorView, EventView, HubView};
use crate::wait::{hub_begin, hub_step, ArrivalView};
use vstd::prelude::*;

verus! {

/// A reconnection that failed.
pub struct FailureView {
    /// The number that the new session would have had.
    pub session_id: u64,
    /// The nickname that it would have had.
    pub nick: Option<Seq<char>>,
    /// The rooms that it would have been in.
    pub desired_rooms: Map<Seq<char>, Option<Seq<char>>>,
    /// Why there is none.
    pub error: ErrorView,
}

/// The actor when a link was lost and then these reconnections failed, one after the other.
pub open spec fn after_failures(
    actor: ActorView,
    hub: [u8; 16],
    session_id: u64,
    words: Seq<char>,
    failures: Seq<FailureView>,
) -> ActorView
    decreases failures.len(),
{
    if failures.len() == 0 {
        after_inbound(actor, hub, session_id, ReceivedView::LinkLost(words))
    } else {
        let failure = failures.last();
        after_reconnect(
            after_failures(actor, hub, session_id, words, failures.drop_last()),
            hub,
            session_id,
            failure.session_id,
            failure.nick,
            failure.desired_rooms,
            Err(failure.error),
        )
    }
}

/// What the last of these failures calls for.
pub open spec fn last_failure_effects(
    actor: ActorView,
    hub: [u8; 16],
    session_id: u64,
    words: Seq<char>,
    failures: Seq<FailureView>,
) -> Seq<EffectView> {
    if failures.len() == 0 {
        inbound_effects(actor, hub, session_id, ReceivedView::LinkLost(words))
    } else {
        let failure = failures.last();
        reconnect_effects(
            after_failures(actor, hub, session_id, words, failures.drop_last()),
            hub,
            session_id,
            failure.session_id,
            failure.nick,
            failure.desired_rooms,
            Err(failure.error),
        )
    }
}

/// The pause after the `n`-th failure in a row: it doubles from one second on up to the
/// seventh, and stays there.
pub open spec fn is_pause_after(n: int, seconds: int) -> bool {
    if n >= 7 {
        seconds == 64
    } else {
        seconds == seq![1int, 2, 4, 8, 16, 32][n - 1]
    }
}

proof fn pause_in_numbers(n: nat)
    requires
        n >= 1,
    ensures
        is_pause_after(n as int, backoff(n) as int),
        backoff(n) <= 64,
{
    reveal_with_fuel(backoff, 8);
    if n < 7 {
        assert(n == 1 || n == 2 || n == 3 || n == 4 || n == 5 || n == 6);
    }
}

/// A lost link and a failed reconnection each raise the count of failures by exactly one, until
/// there is no larger number.
pub proof fn failures_count_by_one(
    actor: ActorView,
    hub: [u8; 16],
    session_id: u64,
    words: Seq<char>,
    failure: FailureView,
)
    requires
        actor.sessions.contains_key(hub@),
        actor.sessions[hub@].id == session_id,
    ensures
        ({
            let count = actor.sessions[hub@].reconnect_attempt;
            let lost = after_inbound(actor, hub, session_id, ReceivedView::LinkLost(words));
            let failed = after_reconnect(
                actor,
                hub,
                session_id,
                failure.session_id,
                failure.nick,
                failure.desired_rooms,
                Err(failure.error),
            );
            &&& count < u32::MAX ==> lost.sessions[hub@].reconnect_attempt == count + 1
            &&& count < u32::MAX ==> failed.sessions[hub@].reconnect_attempt == count + 1
            &&& count == u32::MAX ==> lost.sessions[hub@].reconnect_attempt == u32::MAX
            &&& count == u32::MAX ==> failed.sessions[hub@].reconnect_attempt == u32::MAX
        }),
{
}

/// When a link was lost and reconnections failed, the count is how many failures there were since
/// it stood at zero, and the next attempt is asked for after a pause that goes by that number:
/// 1, 2, 4, 8, 16, 32 and 64 seconds, and 64 seconds ever after.
pub proof fn pauses_follow_the_failures(
    actor: ActorView,
    hub: [u8; 16],
    session_id: u64,
    words: Seq<char>,
    failures: Seq<FailureView>,
) -> (seconds: u64)
    requires
        actor.sessions.contains_key(hub@),
        actor.sessions[hub@].id == session_id,
        actor.sessions[hub@].reconnect_attempt == 0,
        failures.len() < u32::MAX,
    ensures
        ({
            let n = failures.len() + 1;
            let after = after_failures(actor, hub, session_id, words, failures);
            &&& after.sessions.contains_key(hub@)
            &&& after.sessions[hub@].id == session_id
            &&& after.sessions[hub@].reconnect_attempt == n
            &&& last_failure_effects(actor, hub, session_id, words, failures) == seq![
                EffectView::Emit(EventView::HubChanged(after.sessions[hub@].hub)),
                EffectView::Schedule { destination: hub, session_id, seconds },
            ]
            &&& is_pause_after(n as int, seconds as int)
        }),
    decreases failures.len(),
{
    let n = failures.len() + 1;
    if failures.len() > 0 {
        pauses_follow_the_failures(actor, hub, session_id, words, failures.drop_last());
    }
    pause_in_numbers(n);
    backoff(n) as u64
}

/// A lost link is told of with the words of the transport, and a failed reconnection with its
/// error; neither touches anything else that the session holds.
pub proof fn failures_keep_the_session(
    actor: ActorView,
    hub: [u8; 16],
    session_id: u64,
    words: Seq<char>,
    failure: FailureView,
)
    requires
        actor.sessions.contains_key(hub@),
        actor.sessions[hub@].id == session_id,
    ensures
        ({
            let session = actor.sessions[hub@];
            let lost = after_inbound(actor, hub, session_id, ReceivedView::LinkLost(words));
            let failed = after_reconnect(
                actor,
                hub,
                session_id,
                failure.session_id,
                failure.nick,
                failure.desired_rooms,
                Err(failure.error),
            );
            &&& lost.sessions[hub@] == (SessionView {
                hub: HubView { connected: false, detail: words, ..session.hub },
                reconnect_attempt: lost.sessions[hub@].reconnect_attempt,
                ..session
            })
            &&& failed.sessions[hub@] == (SessionView {
                hub: HubView { detail: failed.sessions[hub@].hub.detail, ..session.hub },
                reconnect_attempt: failed.sessions[hub@].reconnect_attempt,
                ..session
            })
            &&& failure.error matches ErrorView::Transport(said)
                ==> failed.sessions[hub@].hub.detail == "Reconnect failed: "@ + said
            &&& "Reconnect failed: "@.is_prefix_of(failed.sessions[hub@].hub.detail)
            &&& lost.source == actor.source && failed.source == actor.source
            &&& lost.next_session_id == actor.next_session_id
            &&& failed.next_session_id == actor.next_session_id
            &&& lost.sessions.dom() == actor.sessions.dom()
            &&& failed.sessions.dom() == actor.sessions.dom()
        }),
{
    let session = actor.sessions[hub@];
    let lost = after_inbound(actor, hub, session_id, ReceivedView::LinkLost(words));
    let failed = after_reconnect(
        actor,
        hub,
        session_id,
        failure.session_id,
        failure.nick,
        failure.desired_rooms,
        Err(failure.error),
    );
    assert(lost.sessions.dom() =~= actor.sessions.dom());
    assert(failed.sessions.dom() =~= actor.sessions.dom());
}

/// Where the session that was lost is not there any more, a failed reconnection changes nothing
/// and calls for nothing.
pub proof fn late_failure_is_ignored(
    actor: ActorView,
    hub: [u8; 16],
    lost: u64,
    failure: FailureView,
)
    requires
        !actor.sessions.contains_key(hub@) || actor.sessions[hub@].id != lost,
    ensures
        after_reconnect(
            actor,
            hub,
            lost,
            failure.session_id,
            failure.nick,
            failure.desired_rooms,
            Err(failure.error),
        ) == actor,
        reconnect_effects(
            actor,
            hub,
            lost,
            failure.session_id,
            failure.nick,
            failure.desired_rooms,
            Err(failure.error),
        ) == Seq::<EffectView>::empty(),
{
}

/// Whether nothing is known of a hub but that its link is up and under which nickname.
pub open spec fn is_unheard_of(hub: HubView, destination: [u8; 16], nick: Option<Seq<char>>)
    -> bool {
    &&& hub.destination_hash == destination
    &&& hub.nick == nick
    &&& hub.connected
    &&& hub.name is None
    &&& hub.welcome is None
    &&& hub.rooms.len() == 0
    &&& hub.public_rooms.len() == 0
    &&& forall|room: Seq<char>| !(#[trigger] hub.room_states.contains_key(room))
    &&& forall|room: Seq<char>| !(#[trigger] hub.room_users.contains_key(room))
}

/// Whether nothing waits in a session and no link of it was lost.
pub open spec fn is_at_rest(session: SessionView) -> bool {
    &&& session.reconnect_attempt == 0
    &&& session.pending_room_queries.len() == 0
    &&& forall|room: Seq<char>| !(#[trigger] session.pending_user_queries.contains_key(room))
    &&& forall|id: u64| !(#[trigger] session.pending_pings.contains(id))
}

/// Right after a link was opened, nothing is known of its hub, neither a name nor a greeting, so
/// no wait for the greeting ends with it: not where it begins, and not with an event of the
/// connection. The session has the number, the hub and the nickname that were asked for, wants
/// to be in no room and waits for nothing.
pub proof fn opened_hub_is_unheard_of(
    actor: ActorView,
    destination: [u8; 16],
    session_id: u64,
    nick: Option<Seq<char>>,
)
    requires
        sound(actor),
        session_id >= 1,
    ensures
        ({
            let after = after_connect(actor, destination, session_id, nick, Ok(()));
            let effects = connect_effects(actor, destination, session_id, nick, Ok(()));
            let session = after.sessions[destination@];
            &&& after.sessions.contains_key(destination@)
            &&& session.id == session_id
            &&& session.nick == nick
            &&& is_unheard_of(session.hub, destination, nick)
            &&& session.hub.detail == "Waiting for WELCOME"@
            &&& is_at_rest(session)
            &&& forall|room: Seq<char>| !(#[trigger] session.desired_rooms.contains_key(room))
            &&& !session.restore_rooms_on_welcome
            &&& hub_begin(known_hubs(after), destination, None) is None
            &&& forall|i: int|
                0 <= i < effects.len() ==> (#[trigger] effects[i] matches EffectView::Emit(
                    EventView::HubChanged(hub),
                ) ==> hub == session.hub && hub_step(
                    ArrivalView::Event(EventView::HubChanged(hub)),
                    destination,
                    None,
                ) is None)
            &&& effects.len() >= 2
            &&& effects[effects.len() - 2] == EffectView::Emit(EventView::HubChanged(session.hub))
            &&& effects.last() == EffectView::Reply(ReplyView::Hub(session.hub))
        }),
{
    let after = after_connect(actor, destination, session_id, nick, Ok(()));
    connect_keeps_sound(actor, destination, session_id, nick, Ok(()));
    hub_is_found(after, destination);
    assert(session_of(after, destination) == Some(after.sessions[destination@]));
}

/// Right after a lost link was opened again, nothing is known of its hub either, and no wait for
/// the greeting ends with it. The session keeps the rooms to be in, and they are entered again at
/// the next greeting.
pub proof fn reopened_hub_is_unheard_of(
    actor: ActorView,
    destination: [u8; 16],
    lost: u64,
    session_id: u64,
    nick: Option<Seq<char>>,
    desired_rooms: Map<Seq<char>, Option<Seq<char>>>,
)
    requires
        sound(actor),
        session_id >= 1,
        desired_rooms.dom().finite(),
    ensures
        ({
            let after = after_reconnect(
                actor,
                destination,
                lost,
                session_id,
                nick,
                desired_rooms,
                Ok(()),
            );
            let effects = reconnect_effects(
                actor,
                destination,
                lost,
                session_id,
                nick,
                desired_rooms,
                Ok(()),
            );
            let session = after.sessions[destination@];
            &&& after.sessions.contains_key(destination@)
            &&& session.id == session_id
            &&& session.nick == nick
            &&& is_unheard_of(session.hub, destination, nick)
            &&& session.hub.detail == "Reconnected; waiting for WELCOME"@
            &&& is_at_rest(session)
            &&& session.desired_rooms == desired_rooms
            &&& session.restore_rooms_on_welcome
            &&& hub_begin(known_hubs(after), destination, None) is None
            &&& forall|i: int|
                0 <= i < effects.len() ==> (#[trigger] effects[i] matches EffectView::Emit(
                    EventView::HubChanged(hub),
                ) ==> hub == session.hub && hub_step(
                    ArrivalView::Event(EventView::HubChanged(hub)),
                    destination,
                    None,
                ) is None)
            &&& effects.len() >= 1
            &&& effects.last() == EffectView::Emit(EventView::HubChanged(session.hub))
        }),
{
    let after = after_reconnect(
        actor,
        destination,
        lost,
        session_id,
        nick,
        desired_rooms,
        Ok(()),
    );
    reconnect_keeps_sound(
        actor,
        destination,
        lost,
        session_id,
        nick,
        desired_rooms,
        Ok(()),
    );
    hub_is_found(after, destination);
    assert(session_of(after, destination) == Some(after.sessions[destination@]));
}

/// Whether the query `q` waits for its answer in a session.
pub open spec fn waits_in(session: SessionView, q: u64) -> bool {
    ||| session.pending_room_queries.contains(q)
    ||| exists|room: Seq<char>| #[trigger]
        session.pending_user_queries.contains_key(room)
            && session.pending_user_queries[room].contains(q)
    ||| session.pending_pings.contains(q)
}

/// When a link is opened or opened again, the session that was there is closed and exactly the
/// queries that waited in it are given up; where there was none, nothing is closed.
pub proof fn replaced_session_gives_up_its_queries(
    actor: ActorView,
    destination: [u8; 16],
    lost: u64,
    session_id: u64,
    nick: Option<Seq<char>>,
    desired_rooms: Map<Seq<char>, Option<Seq<char>>>,
) -> (released: Set<u64>)
    ensures
        ({
            let opened = connect_effects(actor, destination, session_id, nick, Ok(()));
            let reopened = reconnect_effects(
                actor,
                destination,
                lost,
                session_id,
                nick,
                desired_rooms,
                Ok(()),
            );
            if actor.sessions.contains_key(destination@) {
                let previous = actor.sessions[destination@];
                &&& forall|q: u64| #[trigger] released.contains(q) <==> waits_in(previous, q)
                &&& opened.len() == 4 && reopened.len() == 3
                &&& opened[0] == EffectView::Close { session_id: previous.id }
                &&& opened[1] == EffectView::Release(released)
                &&& reopened[0] == EffectView::Close { session_id: previous.id }
                &&& reopened[1] == EffectView::Release(released)
            } else {
                opened.len() == 2 && reopened.len() == 1
            }
        }),
{
    let previous = actor.sessions[destination@];
    let released = crate::session::waiting(previous);
    released
}

/// A link that could not be opened changes nothing, and the caller gets the error.
pub proof fn failed_connection_changes_nothing(
    actor: ActorView,
    destination: [u8; 16],
    session_id: u64,
    nick: Option<Seq<char>>,
    error: ErrorView,
)
    ensures
        after_connect(actor, destination, session_id, nick, Err(error)) == actor,
        connect_effects(actor, destination, session_id, nick, Err(error)) == seq![
            EffectView::Reply(ReplyView::Failed(error)),
        ],
{
}

/// A new session changes nothing but the place of its hub.
pub proof fn opening_touches_one_place(
    actor: ActorView,
    destination: [u8; 16],
    lost: u64,
    session_id: u64,
    nick: Option<Seq<char>>,
    desired_rooms: Map<Seq<char>, Option<Seq<char>>>,
    key: Seq<u8>,
)
    requires
        key != destination@,
    ensures
        ({
            let opened = after_connect(actor, destination, session_id, nick, Ok(()));
            let reopened = after_reconnect(
                actor,
                destination,
                lost,
                session_id,
                nick,
                desired_rooms,
                Ok(()),
            );
            &&& opened.source == actor.source && reopened.source == actor.source
            &&& opened.next_session_id == actor.next_session_id
            &&& reopened.next_session_id == actor.next_session_id
            &&& opened.sessions.contains_key(key) == actor.sessions.contains_key(key)
            &&& reopened.sessions.contains_key(key) == actor.sessions.contains_key(key)
            &&& opened.sessions.contains_key(key) ==> opened.sessions[key] == actor.sessions[key]
            &&& reopened.sessions.contains_key(key) ==> reopened.sessions[key]
                == actor.sessions[key]
        }),
{
}

/// Sessions are numbered one after the other; behind the largest number comes one.
pub proof fn sessions_are_numbered_in_order(id: u64)
    ensures
        id < u64::MAX ==> session_id_after(id) == id + 1,
        id == u64::MAX ==> session_id_after(id) == 1,
{
}

/// A step on the way to a session fails with what the transport said of it, and the look for the
/// identity fails wherever the identity is not known; nothing else ends the way.
pub proof fn steps_fail_as_told(step: LinkStep, reply: LinkReply)
    ensures
        reply matches LinkReply::Failed(words) ==> step != LinkStep::Recall ==> link_failure(
            step,
            reply,
        ) == Some(ErrorView::Transport(words@)),
        step != LinkStep::Recall ==> !(reply is Failed) ==> link_failure(step, reply) is None,
        step == LinkStep::Recall ==> (link_failure(step, reply) is None <==> reply == (
        LinkReply::Recalled { known: true })),
        step == LinkStep::Recall ==> link_failure(step, reply) is Some ==> link_failure(step, reply)
            == Some(ErrorView::UnknownIdentity),
{
}

/// The way to a session asks for a path, waits for it, looks for the identity, identifies and
/// greets, in this order.
pub proof fn steps_come_in_order()
    ensures
        step_after(LinkStep::RequestPath) == Some(LinkStep::AwaitPath),
        step_after(LinkStep::AwaitPath) == Some(LinkStep::Recall),
        step_after(LinkStep::Recall) == Some(LinkStep::Identify),
        step_after(LinkStep::Identify) == Some(LinkStep::Hello),
        step_after(LinkStep::Hello) is None,
{
}

} // verus!
