//! What can be relied on over the whole run of a client, up to its end.
use crate::actor::{after_command, asks_to_stop, command_effects, open_sessions, ActorView};
use crate::delivery::delivery_effects;
use crate::effect::{DeliveryView, EffectView, JoinAttemptView, NoticeReadingView, ReceivedView};
use crate::inbound::{
    envelope_effects, room_state_effects, stale_users_effects, type_effects, with_room_state,
    without_stale_users,
};
use crate::notice::notice_effects;
use crate::order::{lex_irreflexive, Ranked};
use crate::ordered_map::{ascending, listing_exists};
use crate::report::{
    after_connect, after_inbound, after_question, after_reconnect, after_rejoin, after_resource,
    after_send, connect_effects, inbound_effects, live_session, question_effects, reconnect_effects,
    rejoin_effects, reply_to, resource_effects, QuestionView,
};
use crate::request::CommandView;
use crate::session::SessionView;
use crate::soundness::sound;
use crate::types::{EnvelopeView, ErrorView, MessageType, UserInfoView};
use vstd::prelude::*;

verus! {

/// Something that the actor takes in.
#[allow(inconsistent_fields)]
pub enum CallView {
    /// A request.
    Command(CommandView),
    /// What came over a link.
    Inbound { hub: [u8; 16], session_id: u64, received: ReceivedView },
    /// How an attempt to open a link ended.
    Connect {
        destination: [u8; 16],
        session_id: u64,
        nick: Option<Seq<char>>,
        result: Result<(), ErrorView>,
    },
    /// How an attempt to replace a lost link ended.
    Reconnect {
        destination: [u8; 16],
        lost: u64,
        session_id: u64,
        nick: Option<Seq<char>>,
        desired_rooms: Map<Seq<char>, Option<Seq<char>>>,
        result: Result<(), ErrorView>,
    },
    /// How an attempt to send an envelope ended.
    Send {
        destination: [u8; 16],
        session_id: u64,
        envelope: EnvelopeView,
        result: Result<(), ErrorView>,
    },
    /// How an attempt to send a resource ended.
    SendResource { result: Result<(), ErrorView> },
    /// How an attempt to close a link ended.
    Disconnect { released: Set<u64>, result: Result<(), ErrorView> },
    /// How an attempt to put a question ended.
    Question {
        destination: [u8; 16],
        session_id: u64,
        question: QuestionView,
        query_id: u64,
        result: Result<(), ErrorView>,
    },
    /// How a request to enter a room again went.
    Rejoin {
        destination: [u8; 16],
        session_id: u64,
        attempt: JoinAttemptView,
        rest: Seq<(Seq<char>, Option<Seq<char>>)>,
        envelope: EnvelopeView,
    },
    /// What a resource came to.
    Resource {
        destination: [u8; 16],
        session_id: u64,
        envelope: EnvelopeView,
        delivery: Result<DeliveryView, Seq<char>>,
        reading: NoticeReadingView,
    },
}

/// The actor after it took something in.
pub open spec fn after_call(actor: ActorView, call: CallView) -> ActorView {
    match call {
        CallView::Command(command) => after_command(actor, command),
        CallView::Inbound { hub, session_id, received } => after_inbound(
            actor,
            hub,
            session_id,
            received,
        ),
        CallView::Connect { destination, session_id, nick, result } => after_connect(
            actor,
            destination,
            session_id,
            nick,
            result,
        ),
        CallView::Reconnect { destination, lost, session_id, nick, desired_rooms, result } => {
            after_reconnect(actor, destination, lost, session_id, nick, desired_rooms, result)
        },
        CallView::Send { destination, session_id, envelope, result } => after_send(
            actor,
            destination,
            session_id,
            envelope,
            result,
        ),
        CallView::SendResource { .. } => actor,
        CallView::Disconnect { .. } => actor,
        CallView::Question { destination, session_id, question, query_id, result } => {
            after_question(actor, destination, session_id, question, query_id, result)
        },
        CallView::Rejoin { destination, session_id, attempt, .. } => after_rejoin(
            actor,
            destination,
            session_id,
            attempt,
        ),
        CallView::Resource { destination, session_id, delivery, reading, .. } => after_resource(
            actor,
            destination,
            session_id,
            delivery,
            reading,
        ),
    }
}

/// What is to be done when the actor took something in.
pub open spec fn call_effects(actor: ActorView, call: CallView) -> Seq<EffectView> {
    match call {
        CallView::Command(command) => command_effects(actor, command),
        CallView::Inbound { hub, session_id, received } => inbound_effects(
            actor,
            hub,
            session_id,
            received,
        ),
        CallView::Connect { destination, session_id, nick, result } => connect_effects(
            actor,
            destination,
            session_id,
            nick,
            result,
        ),
        CallView::Reconnect { destination, lost, session_id, nick, desired_rooms, result } => {
            reconnect_effects(actor, destination, lost, session_id, nick, desired_rooms, result)
        },
        CallView::Send { result, .. } => seq![reply_to(result)],
        CallView::SendResource { result } => seq![reply_to(result)],
        CallView::Disconnect { released, result } => seq![
            EffectView::Release(released),
            reply_to(result),
        ],
        CallView::Question { destination, session_id, query_id, result, .. } => question_effects(
            actor,
            destination,
            session_id,
            query_id,
            result,
        ),
        CallView::Rejoin { destination, session_id, attempt, rest, envelope } => rejoin_effects(
            actor,
            destination,
            session_id,
            attempt,
            rest,
            envelope,
        ),
        CallView::Resource { destination, session_id, envelope, delivery, reading } => {
            resource_effects(actor, destination, session_id, envelope, delivery, reading)
        },
    }
}

/// The actor at the end of a run, and all that was to be done in it: what comes is taken in one
/// after another, until effects ask to stop.
pub open spec fn run(actor: ActorView, calls: Seq<CallView>) -> (ActorView, Seq<EffectView>)
    decreases calls.len(),
{
    if calls.len() == 0 {
        (actor, Seq::empty())
    } else {
        let effects = call_effects(actor, calls[0]);
        let next = after_call(actor, calls[0]);
        if asks_to_stop(effects) {
            (next, effects)
        } else {
            let (last, more) = run(next, calls.drop_first());
            (last, effects + more)
        }
    }
}

spec fn goes_on(effects: Seq<EffectView>) -> bool {
    forall|i: int| 0 <= i < effects.len() ==> #[trigger] effects[i] != EffectView::Stop
}

proof fn both_go_on(a: Seq<EffectView>, b: Seq<EffectView>)
    requires
        goes_on(a),
        goes_on(b),
    ensures
        goes_on(a + b),
{
}

proof fn notices_go_on(
    session: SessionView,
    hub: [u8; 16],
    reading: NoticeReadingView,
    structured: Option<Seq<UserInfoView>>,
)
    ensures
        goes_on(notice_effects(session, hub, reading, structured)),
{
}

proof fn envelopes_go_on(
    source: [u8; 16],
    session: SessionView,
    hub: [u8; 16],
    envelope: EnvelopeView,
    reading: NoticeReadingView,
)
    ensures
        goes_on(envelope_effects(source, session, hub, envelope, reading)),
{
    let s = with_room_state(session, envelope);
    let first = room_state_effects(session, envelope);
    let effects = type_effects(source, s, hub, envelope, reading);
    if envelope.message_type == Some(MessageType::Notice) {
        let t = without_stale_users(s, envelope);
        let stale = stale_users_effects(s, envelope);
        let told = notice_effects(t, hub, reading, envelope.user_list);
        notices_go_on(t, hub, reading, envelope.user_list);
        both_go_on(stale, told);
        let rest = effects.skip((stale + told).len() as int);
        assert(effects =~= stale + told + rest);
        assert(goes_on(rest));
        both_go_on(stale + told, rest);
    } else {
        assert(goes_on(effects));
    }
    both_go_on(first, effects);
}

proof fn resources_go_on(
    session: SessionView,
    hub: [u8; 16],
    envelope: EnvelopeView,
    delivery: Result<DeliveryView, Seq<char>>,
    reading: NoticeReadingView,
)
    ensures
        goes_on(delivery_effects(session, hub, envelope, delivery, reading)),
{
    notices_go_on(session, hub, reading, None);
}

proof fn reports_go_on(actor: ActorView, call: CallView)
    requires
        !(call is Command),
    ensures
        goes_on(call_effects(actor, call)),
{
    match call {
        CallView::Inbound { hub, session_id, received } => {
            if let Some(session) = live_session(actor, hub, session_id) {
                if let ReceivedView::Envelope { envelope, reading } = received {
                    envelopes_go_on(actor.source, session, hub, envelope, reading);
                }
            }
        },
        CallView::Resource { destination, session_id, envelope, delivery, reading } => {
            if let Some(session) = live_session(actor, destination, session_id) {
                resources_go_on(session, destination, envelope, delivery, reading);
            }
        },
        _ => {},
    }
}

/// A request to stop is all that ends a run, and it changes nothing.
pub proof fn only_shutdown_stops(actor: ActorView, call: CallView)
    ensures
        asks_to_stop(call_effects(actor, call)) <==> call == CallView::Command(
            CommandView::Shutdown,
        ),
        call_effects(actor, CallView::Command(CommandView::Shutdown)) == seq![EffectView::Stop],
        after_call(actor, CallView::Command(CommandView::Shutdown)) == actor,
{
    assert(seq![EffectView::Stop][0] == EffectView::Stop);
    if let CallView::Command(command) = call {
        assert(command != CommandView::Shutdown ==> goes_on(command_effects(actor, command)));
    } else {
        reports_go_on(actor, call);
    }
}

/// While nobody asks to stop, everything that comes is taken in, in its order.
pub proof fn calls_are_handled_in_order(actor: ActorView, calls: Seq<CallView>, call: CallView)
    requires
        forall|i: int|
            0 <= i < calls.len() ==> #[trigger] calls[i] != CallView::Command(
                CommandView::Shutdown,
            ),
    ensures
        run(actor, calls.push(call)) == (
            after_call(run(actor, calls).0, call),
            run(actor, calls).1 + call_effects(run(actor, calls).0, call),
        ),
    decreases calls.len(),
{
    let all = calls.push(call);
    if calls.len() == 0 {
        let effects = call_effects(actor, call);
        assert(all.drop_first() =~= Seq::<CallView>::empty());
        assert(run(after_call(actor, call), all.drop_first()).1 =~= Seq::<EffectView>::empty());
        assert(effects + Seq::<EffectView>::empty() =~= effects);
        assert(Seq::<EffectView>::empty() + effects =~= effects);
    } else {
        let rest = calls.drop_first();
        let next = after_call(actor, calls[0]);
        only_shutdown_stops(actor, calls[0]);
        assert(all[0] == calls[0]);
        assert(all.drop_first() =~= rest.push(call));
        calls_are_handled_in_order(next, rest, call);
        assert(run(actor, all).1 =~= run(actor, calls).1 + call_effects(
            run(actor, calls).0,
            call,
        ));
    }
}

/// A request to stop ends a run: what came before it was taken in, in its order, and nothing
/// that comes after it changes anything or has any effect.
pub proof fn shutdown_ends_the_run(
    actor: ActorView,
    before: Seq<CallView>,
    after: Seq<CallView>,
)
    requires
        forall|i: int|
            0 <= i < before.len() ==> #[trigger] before[i] != CallView::Command(
                CommandView::Shutdown,
            ),
    ensures
        run(actor, before.push(CallView::Command(CommandView::Shutdown)) + after) == (
            run(actor, before).0,
            run(actor, before).1.push(EffectView::Stop),
        ),
    decreases before.len(),
{
    let shutdown = CallView::Command(CommandView::Shutdown);
    let all = before.push(shutdown) + after;
    if before.len() == 0 {
        assert(all[0] == shutdown);
        only_shutdown_stops(actor, shutdown);
        assert(seq![EffectView::Stop] =~= Seq::<EffectView>::empty().push(EffectView::Stop));
    } else {
        let rest = before.drop_first();
        only_shutdown_stops(actor, before[0]);
        assert(all[0] == before[0]);
        assert(all.drop_first() =~= rest.push(shutdown) + after);
        shutdown_ends_the_run(after_call(actor, before[0]), rest, after);
        assert(run(actor, all).1 =~= run(actor, before).1.push(EffectView::Stop));
    }
}

/// When a client stops, every session that it still has is closed, and each once: the hubs in
/// ascending order name every session once, and the numbers to close are theirs, one for one.
pub proof fn open_sessions_are_listed_once(actor: ActorView)
    requires
        sound(actor),
    ensures
        ({
            let hubs = ascending::<[u8; 16], SessionView>(actor.sessions);
            let ids = open_sessions(actor);
            &&& ids.len() == hubs.len() == actor.sessions.dom().len()
            &&& hubs.no_duplicates()
            &&& forall|key: Seq<u8>| #[trigger]
                actor.sessions.contains_key(key) <==> hubs.contains(key)
            &&& forall|i: int|
                0 <= i < ids.len() ==> #[trigger] ids[i] == actor.sessions[hubs[i]].id
        }),
{
    let hubs = ascending::<[u8; 16], SessionView>(actor.sessions);
    listing_exists::<[u8; 16], SessionView>(actor.sessions);
    assert(hubs.no_duplicates()) by {
        assert forall|i: int, j: int|
            0 <= i < hubs.len() && 0 <= j < hubs.len() && i != j implies hubs[i] != hubs[j] by {
            lex_irreflexive(<[u8; 16] as Ranked>::rank(hubs[i]));
        }
    }
    assert forall|key: Seq<u8>| #[trigger]
        hubs.to_set().contains(key) <==> actor.sessions.dom().contains(key) by {
        assert(actor.sessions.contains_key(key) <==> hubs.contains(key));
    }
    assert(hubs.to_set() =~= actor.sessions.dom());
    hubs.unique_seq_to_set();
}

} // verus!
