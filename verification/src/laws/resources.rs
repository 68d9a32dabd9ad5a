//! What a resource comes to.
use crate::actor::ActorView;
use crate::delivery::{inspected, judged, worded};
use crate::effect::{Delivery, DeliveryView, EffectView, FetchedView, NoticeReadingView};
use crate::laws::envelopes::{has_session, only_session_changed};
use crate::report::{after_resource, resource_effects};
use crate::resource::{kind_of_resource, sha256_digest, text_in_resource};
use crate::session::SessionView;
use crate::text::lower;
use crate::types::{
    EnvelopeView, EventView, HubView, MessageKind, MessageView, ResourceDescriptorView,
    ResourceView, RoomInfoView, UserInfoView,
};
use vstd::prelude::*;
use vstd::utf8::{decode_utf8, valid_utf8};

verus! {

/// The kinds of resources that are messages go by these names, in capitals or not, and by no
/// others.
pub proof fn message_kinds_have_names(kind: Seq<char>)
    ensures
        ({
            let name = lower(kind);
            &&& kind_of_resource(kind) == Some(MessageKind::Message) <==> (name == seq![
                'm',
                'e',
                's',
                's',
                'a',
                'g',
                'e',
            ] || name == seq!['m', 's', 'g'])
            &&& kind_of_resource(kind) == Some(MessageKind::Notice) <==> name == seq![
                'n',
                'o',
                't',
                'i',
                'c',
                'e',
            ]
            &&& kind_of_resource(kind) == Some(MessageKind::Action) <==> name == seq![
                'a',
                'c',
                't',
                'i',
                'o',
                'n',
            ]
            &&& kind_of_resource(kind) == Some(MessageKind::Error) <==> name == seq![
                'e',
                'r',
                'r',
                'o',
                'r',
            ]
        }),
{
    reveal_strlit("message");
    reveal_strlit("msg");
    reveal_strlit("notice");
    reveal_strlit("action");
    reveal_strlit("error");
    assert("message"@ =~= seq!['m', 'e', 's', 's', 'a', 'g', 'e']);
    assert("msg"@ =~= seq!['m', 's', 'g']);
    assert("notice"@ =~= seq!['n', 'o', 't', 'i', 'c', 'e']);
    assert("action"@ =~= seq!['a', 'c', 't', 'i', 'o', 'n']);
    assert("error"@ =~= seq!['e', 'r', 'r', 'o', 'r']);
    assert("message"@.len() == 7 && "msg"@.len() == 3 && "notice"@.len() == 6 && "action"@.len()
        == 6 && "error"@.len() == 5);
    assert("notice"@[0] != "action"@[0]);
}

/// A resource carries a message exactly where its kind is one of messages, its bytes are UTF-8
/// and it claims no other encoding; the text is what the bytes encode.
pub proof fn text_is_read_from_utf8(descriptor: ResourceDescriptorView, data: Seq<u8>)
    ensures
        ({
            let claimed = descriptor.encoding matches Some(name) ==> lower(name) == seq![
                'u',
                't',
                'f',
                '-',
                '8',
            ];
            let text = text_in_resource(descriptor, data);
            &&& text is Some <==> claimed && valid_utf8(data) && kind_of_resource(
                descriptor.kind,
            ) is Some
            &&& text matches Some((body, kind)) ==> body == decode_utf8(data) && Some(kind)
                == kind_of_resource(descriptor.kind)
        }),
{
    reveal_strlit("utf-8");
    assert("utf-8"@ =~= seq!['u', 't', 'f', '-', '8']);
}

/// A resource that came is accepted exactly where its size is the announced one and its digest is
/// the announced one, if one was announced. It is then handed over with its bytes, its hash and
/// its announcement; else it is refused in these words. One that did not come is refused in the
/// words of the transport.
pub proof fn resource_is_held_against_its_announcement(
    hub: [u8; 16],
    envelope: EnvelopeView,
    descriptor: ResourceDescriptorView,
    fetched: FetchedView,
    digest: Seq<u8>,
    words: Seq<char>,
)
    ensures
        ({
            let intact = fetched.data.len() == descriptor.size && (descriptor.sha256 matches Some(
                expected,
            ) ==> expected@ == digest);
            let result = judged(hub, envelope, descriptor, fetched, digest);
            &&& intact <==> result is Ok
            &&& result matches Ok(delivery) ==> {
                let resource = delivery.resource;
                &&& resource.hub == hub
                &&& resource.room == envelope.room
                &&& resource.source == envelope.source
                &&& resource.nick == envelope.nick
                &&& envelope.timestamp_ms matches Some(at) ==> resource.timestamp_ms == at
                &&& envelope.timestamp_ms is None ==> resource.timestamp_ms == 0
                &&& resource.descriptor == descriptor
                &&& resource.data == fetched.data
                &&& resource.resource_hash == fetched.resource_hash
                &&& delivery.text == text_in_resource(descriptor, fetched.data)
            }
            &&& result matches Err(said) ==> said == "RRC resource size or SHA-256 mismatch"@
            &&& inspected(hub, envelope, descriptor, Ok(fetched)) == judged(
                hub,
                envelope,
                descriptor,
                fetched,
                sha256_digest(fetched.data),
            )
            &&& inspected(hub, envelope, descriptor, Err(words)) == Err::<
                DeliveryView,
                Seq<char>,
            >(words)
        }),
{
}

/// What a result with words for an error comes to is what it holds, and its words are its own.
pub proof fn words_are_passed_on(result: Result<Delivery, String>)
    ensures
        result matches Ok(delivery) ==> worded(result) == Ok::<DeliveryView, Seq<char>>(delivery@),
        result matches Err(words) ==> worded(result) == Err::<DeliveryView, Seq<char>>(words@),
{
}

/// Whether `message` is what a resource with this text says, as a message of this kind; it is to
/// no one identity.
pub open spec fn reads(
    message: MessageView,
    resource: ResourceView,
    body: Seq<char>,
    kind: MessageKind,
) -> bool {
    &&& message.hub == resource.hub
    &&& message.room == resource.room
    &&& message.source == resource.source
    &&& message.destination is None
    &&& message.nick == resource.nick
    &&& message.body == body
    &&& message.timestamp_ms == resource.timestamp_ms
    &&& message.kind == kind
}

/// A resource that was refused is told of as invalid, its announcement is handed on, and nothing
/// changes.
pub proof fn refused_resource(
    actor: ActorView,
    hub: [u8; 16],
    session_id: u64,
    envelope: EnvelopeView,
    words: Seq<char>,
    reading: NoticeReadingView,
)
    requires
        has_session(actor, hub, session_id),
    ensures
        ({
            let after = after_resource(actor, hub, session_id, Err(words), reading);
            &&& only_session_changed(actor, after, hub)
            &&& after.sessions[hub@] == actor.sessions[hub@]
            &&& resource_effects(actor, hub, session_id, envelope, Err(words), reading) == seq![
                EffectView::Emit(EventView::InvalidEnvelope { hub, error: words }),
                EffectView::Emit(EventView::Envelope { hub, envelope }),
            ]
        }),
{
}

/// A resource that is no message is told of as a resource, its announcement is handed on, and
/// nothing changes.
pub proof fn silent_resource(
    actor: ActorView,
    hub: [u8; 16],
    session_id: u64,
    envelope: EnvelopeView,
    delivery: DeliveryView,
    reading: NoticeReadingView,
)
    requires
        has_session(actor, hub, session_id),
        delivery.text is None,
    ensures
        ({
            let after = after_resource(actor, hub, session_id, Ok(delivery), reading);
            &&& only_session_changed(actor, after, hub)
            &&& after.sessions[hub@] == actor.sessions[hub@]
            &&& resource_effects(actor, hub, session_id, envelope, Ok(delivery), reading) == seq![
                EffectView::Emit(EventView::Resource(delivery.resource)),
                EffectView::Emit(EventView::Envelope { hub, envelope }),
            ]
        }),
{
    let effects = resource_effects(actor, hub, session_id, envelope, Ok(delivery), reading);
    assert(effects =~= seq![
        EffectView::Emit(EventView::Resource(delivery.resource)),
        EffectView::Emit(EventView::Envelope { hub, envelope }),
    ]);
}

/// A resource that is a message, an action or an error is told of as a message of that kind and
/// then as a resource, its announcement is handed on, and nothing changes. So is a notice that
/// brings no list.
pub proof fn spoken_resource(
    actor: ActorView,
    hub: [u8; 16],
    session_id: u64,
    envelope: EnvelopeView,
    delivery: DeliveryView,
    reading: NoticeReadingView,
    body: Seq<char>,
    kind: MessageKind,
) -> (message: MessageView)
    requires
        has_session(actor, hub, session_id),
        delivery.text == Some((body, kind)),
        kind == MessageKind::Notice ==> reading.rooms is None && reading.who is None,
    ensures
        ({
            let after = after_resource(actor, hub, session_id, Ok(delivery), reading);
            &&& reads(message, delivery.resource, body, kind)
            &&& only_session_changed(actor, after, hub)
            &&& after.sessions[hub@] == actor.sessions[hub@]
            &&& resource_effects(actor, hub, session_id, envelope, Ok(delivery), reading) == seq![
                EffectView::Emit(EventView::Message(message)),
                EffectView::Emit(EventView::Resource(delivery.resource)),
                EffectView::Emit(EventView::Envelope { hub, envelope }),
            ]
        }),
{
    let message = crate::delivery::message_of(delivery.resource, body, kind);
    let effects = resource_effects(actor, hub, session_id, envelope, Ok(delivery), reading);
    assert(effects =~= seq![
        EffectView::Emit(EventView::Message(message)),
        EffectView::Emit(EventView::Resource(delivery.resource)),
        EffectView::Emit(EventView::Envelope { hub, envelope }),
    ]);
    message
}

/// A notice that came as a resource and brings a list of rooms does with it what a notice in an
/// envelope does, and it is told of as a message too, whether or not it answers a query.
pub proof fn rooms_in_resource(
    actor: ActorView,
    hub: [u8; 16],
    session_id: u64,
    envelope: EnvelopeView,
    delivery: DeliveryView,
    reading: NoticeReadingView,
    body: Seq<char>,
    rooms: Seq<RoomInfoView>,
) -> (message: MessageView)
    requires
        has_session(actor, hub, session_id),
        delivery.text == Some((body, MessageKind::Notice)),
        reading.rooms == Some(rooms),
    ensures
        ({
            let after = after_resource(actor, hub, session_id, Ok(delivery), reading);
            let before = actor.sessions[hub@];
            let known = HubView { public_rooms: rooms, ..before.hub };
            let queue = before.pending_room_queries;
            let rest = after.sessions[hub@].pending_room_queries;
            &&& reads(message, delivery.resource, body, MessageKind::Notice)
            &&& only_session_changed(actor, after, hub)
            &&& after.sessions[hub@] == (SessionView {
                hub: known,
                pending_room_queries: rest,
                ..before
            })
            &&& queue.len() > 0 ==> queue == seq![queue[0]] + rest
            &&& queue.len() == 0 ==> rest.len() == 0
            &&& resource_effects(actor, hub, session_id, envelope, Ok(delivery), reading) == seq![
                EffectView::Emit(EventView::RoomList { hub, rooms }),
                EffectView::Emit(EventView::HubChanged(known)),
            ] + (if queue.len() > 0 {
                seq![EffectView::AnswerRooms { query_id: queue[0], rooms }]
            } else {
                Seq::empty()
            }) + seq![
                EffectView::Emit(EventView::Message(message)),
                EffectView::Emit(EventView::Resource(delivery.resource)),
                EffectView::Emit(EventView::Envelope { hub, envelope }),
            ]
        }),
{
    let before = actor.sessions[hub@];
    let known = HubView { public_rooms: rooms, ..before.hub };
    let queue = before.pending_room_queries;
    let message = crate::delivery::message_of(delivery.resource, body, MessageKind::Notice);
    let effects = resource_effects(actor, hub, session_id, envelope, Ok(delivery), reading);
    assert(effects =~= seq![
        EffectView::Emit(EventView::RoomList { hub, rooms }),
        EffectView::Emit(EventView::HubChanged(known)),
    ] + (if queue.len() > 0 {
        seq![EffectView::AnswerRooms { query_id: queue[0], rooms }]
    } else {
        Seq::empty()
    }) + seq![
        EffectView::Emit(EventView::Message(message)),
        EffectView::Emit(EventView::Resource(delivery.resource)),
        EffectView::Emit(EventView::Envelope { hub, envelope }),
    ]);
    if queue.len() > 0 {
        assert(queue =~= seq![queue[0]] + queue.drop_first());
    }
    message
}

/// A notice that came as a resource and brings the members of a room does with them what a notice
/// in an envelope does, and it is told of as a message too, whether or not it answers a query.
pub proof fn members_in_resource(
    actor: ActorView,
    hub: [u8; 16],
    session_id: u64,
    envelope: EnvelopeView,
    delivery: DeliveryView,
    reading: NoticeReadingView,
    body: Seq<char>,
    room: Seq<char>,
    users: Seq<UserInfoView>,
) -> (message: MessageView)
    requires
        has_session(actor, hub, session_id),
        delivery.text == Some((body, MessageKind::Notice)),
        reading.rooms is None,
        reading.who == Some((room, users)),
    ensures
        ({
            let after = after_resource(actor, hub, session_id, Ok(delivery), reading);
            let before = actor.sessions[hub@];
            let known = HubView {
                room_users: before.hub.room_users.insert(room, users),
                ..before.hub
            };
            let queues = before.pending_user_queries;
            let waits = queues.contains_key(room) && queues[room].len() > 0;
            let rest = after.sessions[hub@].pending_user_queries;
            &&& reads(message, delivery.resource, body, MessageKind::Notice)
            &&& only_session_changed(actor, after, hub)
            &&& after.sessions[hub@] == (SessionView {
                hub: known,
                pending_user_queries: rest,
                ..before
            })
            &&& !waits ==> rest == queues
            &&& waits && queues[room].len() == 1 ==> rest == queues.remove(room)
            &&& waits && queues[room].len() > 1 ==> rest.contains_key(room) && queues[room] == seq![
                queues[room][0],
            ] + rest[room] && rest.remove(room) == queues.remove(room)
            &&& resource_effects(actor, hub, session_id, envelope, Ok(delivery), reading) == seq![
                EffectView::Emit(EventView::UserList { hub, room, users }),
                EffectView::Emit(EventView::HubChanged(known)),
            ] + (if waits {
                seq![EffectView::AnswerUsers { query_id: queues[room][0], users }]
            } else {
                Seq::empty()
            }) + seq![
                EffectView::Emit(EventView::Message(message)),
                EffectView::Emit(EventView::Resource(delivery.resource)),
                EffectView::Emit(EventView::Envelope { hub, envelope }),
            ]
        }),
{
    let before = actor.sessions[hub@];
    let known = HubView { room_users: before.hub.room_users.insert(room, users), ..before.hub };
    let queues = before.pending_user_queries;
    let waits = queues.contains_key(room) && queues[room].len() > 0;
    let message = crate::delivery::message_of(delivery.resource, body, MessageKind::Notice);
    let effects = resource_effects(actor, hub, session_id, envelope, Ok(delivery), reading);
    assert(effects =~= seq![
        EffectView::Emit(EventView::UserList { hub, room, users }),
        EffectView::Emit(EventView::HubChanged(known)),
    ] + (if waits {
        seq![EffectView::AnswerUsers { query_id: queues[room][0], users }]
    } else {
        Seq::empty()
    }) + seq![
        EffectView::Emit(EventView::Message(message)),
        EffectView::Emit(EventView::Resource(delivery.resource)),
        EffectView::Emit(EventView::Envelope { hub, envelope }),
    ]);
    if waits {
        let rest = queues[room].drop_first();
        assert(queues[room] =~= seq![queues[room][0]] + rest);
        assert(queues.insert(room, rest).remove(room) =~= queues.remove(room));
    }
    message
}

} // verus!
