//! What a whole wait comes to.
use crate::types::{ErrorView, EventView, HubView, MessageView};
use crate::wait::{hub_begin, hub_step, hub_suffices, message_passes, message_step, ArrivalView};
use vstd::prelude::*;

verus! {

/// What a wait for a hub comes to over all that arrives; nothing where it goes on.
pub open spec fn hub_wait(
    arrivals: Seq<ArrivalView>,
    destination: [u8; 16],
    room: Option<Seq<char>>,
) -> Option<Result<HubView, ErrorView>>
    decreases arrivals.len(),
{
    if arrivals.len() == 0 {
        None
    } else {
        match hub_step(arrivals[0], destination, room) {
            Some(end) => Some(end),
            None => hub_wait(arrivals.drop_first(), destination, room),
        }
    }
}

/// What a wait for a hub comes to over what is known when it begins and all that arrives;
/// nothing where it goes on.
pub open spec fn whole_hub_wait(
    hubs: Seq<HubView>,
    arrivals: Seq<ArrivalView>,
    destination: [u8; 16],
    room: Option<Seq<char>>,
) -> Option<Result<HubView, ErrorView>> {
    match hub_begin(hubs, destination, room) {
        Some(hub) => Some(Ok(hub)),
        None => hub_wait(arrivals, destination, room),
    }
}

/// What a wait for a message comes to over all that arrives; nothing where it goes on.
pub open spec fn message_wait(
    arrivals: Seq<ArrivalView>,
    destination: Option<[u8; 16]>,
    room: Option<Seq<char>>,
) -> Option<Result<MessageView, ErrorView>>
    decreases arrivals.len(),
{
    if arrivals.len() == 0 {
        None
    } else {
        match message_step(arrivals[0], destination, room) {
            Some(end) => Some(end),
            None => message_wait(arrivals.drop_first(), destination, room),
        }
    }
}

/// A wait for a hub ends with the first arrival that ends it, and comes to what that arrival
/// comes to.
pub proof fn hub_wait_ends_at_first(
    arrivals: Seq<ArrivalView>,
    destination: [u8; 16],
    room: Option<Seq<char>>,
    at: int,
)
    requires
        0 <= at < arrivals.len(),
        hub_step(arrivals[at], destination, room) is Some,
        forall|j: int|
            0 <= j < at ==> hub_step(#[trigger] arrivals[j], destination, room) is None,
    ensures
        hub_wait(arrivals, destination, room) == hub_step(arrivals[at], destination, room),
    decreases at,
{
    if at > 0 {
        let rest = arrivals.drop_first();
        assert(hub_step(arrivals[0], destination, room) is None);
        assert forall|j: int| 0 <= j < at - 1 implies hub_step(
            #[trigger] rest[j],
            destination,
            room,
        ) is None by {
            assert(rest[j] == arrivals[j + 1]);
        }
        hub_wait_ends_at_first(rest, destination, room, at - 1);
    }
}

/// A wait for a hub goes on exactly where nothing that arrived ends it.
pub proof fn hub_wait_goes_on(
    arrivals: Seq<ArrivalView>,
    destination: [u8; 16],
    room: Option<Seq<char>>,
)
    ensures
        hub_wait(arrivals, destination, room) is None <==> forall|j: int|
            0 <= j < arrivals.len() ==> hub_step(#[trigger] arrivals[j], destination, room) is None,
    decreases arrivals.len(),
{
    if arrivals.len() > 0 {
        let rest = arrivals.drop_first();
        hub_wait_goes_on(rest, destination, room);
        if hub_wait(arrivals, destination, room) is None {
            assert forall|j: int| 0 <= j < arrivals.len() implies hub_step(
                #[trigger] arrivals[j],
                destination,
                room,
            ) is None by {
                if j > 0 {
                    assert(arrivals[j] == rest[j - 1]);
                    assert(hub_step(rest[j - 1], destination, room) is None);
                }
            }
        }
        if forall|j: int|
            0 <= j < arrivals.len() ==> hub_step(
                #[trigger] arrivals[j],
                destination,
                room,
            ) is None {
            assert forall|j: int| 0 <= j < rest.len() implies hub_step(
                #[trigger] rest[j],
                destination,
                room,
            ) is None by {
                assert(rest[j] == arrivals[j + 1]);
            }
            assert(hub_step(arrivals[0], destination, room) is None);
        }
    }
}

/// A wait for a hub succeeds only with a hub that is what was waited for, as it was known at the
/// start or as an event told of it.
pub proof fn hub_wait_gives_what_suffices(
    hubs: Seq<HubView>,
    arrivals: Seq<ArrivalView>,
    destination: [u8; 16],
    room: Option<Seq<char>>,
)
    ensures
        whole_hub_wait(hubs, arrivals, destination, room) matches Some(Ok(hub)) ==> hub_suffices(
            hub,
            destination,
            room,
        ) && (hub_begin(hubs, destination, room) == Some(hub) || arrivals.contains(
            ArrivalView::Event(EventView::HubChanged(hub)),
        )),
    decreases arrivals.len(),
{
    if hub_begin(hubs, destination, room) is None && arrivals.len() > 0 {
        let rest = arrivals.drop_first();
        hub_wait_gives_what_suffices(hubs, rest, destination, room);
        if let Some(Ok(hub)) = hub_wait(arrivals, destination, room) {
            let told = ArrivalView::Event(EventView::HubChanged(hub));
            if hub_step(arrivals[0], destination, room) is Some {
                assert(arrivals[0] == told);
            } else {
                let k = choose|k: int| 0 <= k < rest.len() && rest[k] == told;
                assert(arrivals[k + 1] == told);
            }
        }
    }
}

/// A wait for a message ends with the first arrival that ends it, and comes to what that arrival
/// comes to.
pub proof fn message_wait_ends_at_first(
    arrivals: Seq<ArrivalView>,
    destination: Option<[u8; 16]>,
    room: Option<Seq<char>>,
    at: int,
)
    requires
        0 <= at < arrivals.len(),
        message_step(arrivals[at], destination, room) is Some,
        forall|j: int|
            0 <= j < at ==> message_step(#[trigger] arrivals[j], destination, room) is None,
    ensures
        message_wait(arrivals, destination, room) == message_step(
            arrivals[at],
            destination,
            room,
        ),
    decreases at,
{
    if at > 0 {
        let rest = arrivals.drop_first();
        assert(message_step(arrivals[0], destination, room) is None);
        assert forall|j: int| 0 <= j < at - 1 implies message_step(
            #[trigger] rest[j],
            destination,
            room,
        ) is None by {
            assert(rest[j] == arrivals[j + 1]);
        }
        message_wait_ends_at_first(rest, destination, room, at - 1);
    }
}

/// A wait for a message goes on exactly where nothing that arrived ends it.
pub proof fn message_wait_goes_on(
    arrivals: Seq<ArrivalView>,
    destination: Option<[u8; 16]>,
    room: Option<Seq<char>>,
)
    ensures
        message_wait(arrivals, destination, room) is None <==> forall|j: int|
            0 <= j < arrivals.len() ==> message_step(
                #[trigger] arrivals[j],
                destination,
                room,
            ) is None,
    decreases arrivals.len(),
{
    if arrivals.len() > 0 {
        let rest = arrivals.drop_first();
        message_wait_goes_on(rest, destination, room);
        if message_wait(arrivals, destination, room) is None {
            assert forall|j: int| 0 <= j < arrivals.len() implies message_step(
                #[trigger] arrivals[j],
                destination,
                room,
            ) is None by {
                if j > 0 {
                    assert(arrivals[j] == rest[j - 1]);
                    assert(message_step(rest[j - 1], destination, room) is None);
                }
            }
        }
        if forall|j: int|
            0 <= j < arrivals.len() ==> message_step(
                #[trigger] arrivals[j],
                destination,
                room,
            ) is None {
            assert forall|j: int| 0 <= j < rest.len() implies message_step(
                #[trigger] rest[j],
                destination,
                room,
            ) is None by {
                assert(rest[j] == arrivals[j + 1]);
            }
            assert(message_step(arrivals[0], destination, room) is None);
        }
    }
}

/// A wait for a message succeeds only with a message that passes its filters and that came in an
/// event.
pub proof fn message_wait_gives_what_passes(
    arrivals: Seq<ArrivalView>,
    destination: Option<[u8; 16]>,
    room: Option<Seq<char>>,
)
    ensures
        message_wait(arrivals, destination, room) matches Some(Ok(message)) ==> message_passes(
            message,
            destination,
            room,
        ) && arrivals.contains(ArrivalView::Event(EventView::Message(message))),
    decreases arrivals.len(),
{
    if arrivals.len() > 0 {
        let rest = arrivals.drop_first();
        message_wait_gives_what_passes(rest, destination, room);
        if let Some(Ok(message)) = message_wait(arrivals, destination, room) {
            let told = ArrivalView::Event(EventView::Message(message));
            if message_step(arrivals[0], destination, room) is Some {
                assert(arrivals[0] == told);
            } else {
                let k = choose|k: int| 0 <= k < rest.len() && rest[k] == told;
                assert(arrivals[k + 1] == told);
            }
        }
    }
}

/// A wait for a message that names a hub succeeds only with a message of that hub, and one that
/// names a room only with a message to that room, whether or not the other is named.
pub proof fn message_wait_keeps_to_hub_and_room(
    arrivals: Seq<ArrivalView>,
    destination: Option<[u8; 16]>,
    room: Option<Seq<char>>,
)
    ensures
        message_wait(arrivals, destination, room) matches Some(Ok(message)) ==> (destination is None
            || destination == Some(message.hub)) && (room is None || message.room == room),
    decreases arrivals.len(),
{
    if arrivals.len() > 0 {
        message_wait_keeps_to_hub_and_room(arrivals.drop_first(), destination, room);
    }
}

/// A message that comes first ends every wait for messages that names its hub or none, and its
/// room or none.
pub proof fn fitting_message_ends_wait(
    arrivals: Seq<ArrivalView>,
    destination: Option<[u8; 16]>,
    room: Option<Seq<char>>,
    message: MessageView,
)
    requires
        arrivals.len() > 0,
        arrivals[0] == ArrivalView::Event(EventView::Message(message)),
        destination is None || destination == Some(message.hub),
        room is None || message.room == room,
    ensures
        message_wait(arrivals, destination, room) == Some(Ok::<MessageView, ErrorView>(message)),
{
}

/// A wait for a message fails only with what its receiver said, and events other than messages
/// do not end it.
pub proof fn message_wait_fails_as_told(
    arrival: ArrivalView,
    destination: Option<[u8; 16]>,
    room: Option<Seq<char>>,
)
    ensures
        arrival matches ArrivalView::Lagged(missed) ==> message_step(arrival, destination, room)
            == Some(Err::<MessageView, ErrorView>(ErrorView::EventLagged(missed))),
        arrival is Closed ==> message_step(arrival, destination, room) == Some(
            Err::<MessageView, ErrorView>(ErrorView::Stopped),
        ),
        arrival is TimedOut ==> message_step(arrival, destination, room) == Some(
            Err::<MessageView, ErrorView>(ErrorView::Timeout),
        ),
        arrival matches ArrivalView::Event(event) ==> !(event is Message) ==> message_step(
            arrival,
            destination,
            room,
        ) is None,
{
}

/// A wait for the greeting of a hub succeeds only with that hub, connected and under a name; a
/// wait for a room only with that hub, and with the room among its rooms.
pub proof fn hub_wait_keeps_to_hub_and_room(
    hubs: Seq<HubView>,
    arrivals: Seq<ArrivalView>,
    destination: [u8; 16],
    room: Option<Seq<char>>,
)
    ensures
        whole_hub_wait(hubs, arrivals, destination, room) matches Some(Ok(hub)) ==> {
            &&& hub.destination_hash == destination
            &&& room is None ==> hub.connected && hub.name is Some
            &&& room matches Some(name) ==> exists|i: int|
                0 <= i < hub.rooms.len() && #[trigger] hub.rooms[i] == name
        },
    decreases arrivals.len(),
{
    if hub_begin(hubs, destination, room) is None && arrivals.len() > 0 {
        hub_wait_keeps_to_hub_and_room(hubs, arrivals.drop_first(), destination, room);
    }
}

/// A change of a hub that comes first ends the wait for its greeting where it is connected and
/// has a name, and the wait for each of its rooms; it ends no wait for another hub.
pub proof fn fitting_hub_ends_wait(
    arrivals: Seq<ArrivalView>,
    destination: [u8; 16],
    room: Seq<char>,
    hub: HubView,
)
    requires
        arrivals.len() > 0,
        arrivals[0] == ArrivalView::Event(EventView::HubChanged(hub)),
    ensures
        hub.destination_hash == destination && hub.connected && hub.name is Some ==> hub_wait(
            arrivals,
            destination,
            None,
        ) == Some(Ok::<HubView, ErrorView>(hub)),
        hub.destination_hash == destination && hub.rooms.contains(room) ==> hub_wait(
            arrivals,
            destination,
            Some(room),
        ) == Some(Ok::<HubView, ErrorView>(hub)),
        hub.destination_hash != destination ==> hub_wait(arrivals, destination, None) == hub_wait(
            arrivals.drop_first(),
            destination,
            None,
        ) && hub_wait(arrivals, destination, Some(room)) == hub_wait(
            arrivals.drop_first(),
            destination,
            Some(room),
        ),
{
}

/// A wait for a hub fails only with what its receiver said, and events other than changes of a
/// hub do not end it.
pub proof fn hub_wait_fails_as_told(
    arrival: ArrivalView,
    destination: [u8; 16],
    room: Option<Seq<char>>,
)
    ensures
        arrival matches ArrivalView::Lagged(missed) ==> hub_step(arrival, destination, room)
            == Some(Err::<HubView, ErrorView>(ErrorView::EventLagged(missed))),
        arrival is Closed ==> hub_step(arrival, destination, room) == Some(
            Err::<HubView, ErrorView>(ErrorView::Stopped),
        ),
        arrival is TimedOut ==> hub_step(arrival, destination, room) == Some(
            Err::<HubView, ErrorView>(ErrorView::Timeout),
        ),
        arrival matches ArrivalView::Event(event) ==> !(event is HubChanged) ==> hub_step(
            arrival,
            destination,
            room,
        ) is None,
{
}

/// A wait for a hub ends where it begins exactly where the first hub with the identity is already
/// what it waits for, and then with that hub.
pub proof fn hub_wait_begins_with_what_is_known(
    hubs: Seq<HubView>,
    destination: [u8; 16],
    room: Option<Seq<char>>,
    at: int,
)
    requires
        0 <= at < hubs.len(),
        hubs[at].destination_hash == destination,
        forall|j: int| 0 <= j < at ==> (#[trigger] hubs[j]).destination_hash != destination,
    ensures
        hub_begin(hubs, destination, room) == if match room {
            None => hubs[at].connected && hubs[at].name is Some,
            Some(name) => hubs[at].rooms.contains(name),
        } {
            Some(hubs[at])
        } else {
            None
        },
    decreases at,
{
    if at > 0 {
        let rest = hubs.drop_first();
        assert(hubs[0].destination_hash != destination);
        assert forall|j: int| 0 <= j < at - 1 implies (#[trigger] rest[j]).destination_hash
            != destination by {
            assert(rest[j] == hubs[j + 1]);
        }
        hub_wait_begins_with_what_is_known(rest, destination, room, at - 1);
    }
}

} // verus!
