//! Resources that a session takes in.
use crate::effect::{
    Delivery, DeliveryView, Effect, EffectView, Fetched, FetchedView, NoticeReading,
    NoticeReadingView,
};
use crate::inbound::emit_invalid;
use crate::notice::{after_notice, notice_effects, resolve_query_notice};
use crate::replica::{push_onto, Replica};
use crate::resource::{
    as_announced, matches_announcement, received_resource, resource_from, resource_text, sha256,
    sha256_digest, text_in_resource,
};
use crate::session::{Session, SessionView};
use crate::types::{
    Envelope, EnvelopeView, Event, EventView, Message, MessageKind, MessageView, ResourceDescriptor,
    ResourceDescriptorView, ResourceView,
};
use vstd::prelude::*;

verus! {

/// What bytes with that digest came to: the words of the refusal, or the resource and its
/// message.
pub open spec fn judged(
    hub: [u8; 16],
    envelope: EnvelopeView,
    descriptor: ResourceDescriptorView,
    fetched: FetchedView,
    digest: Seq<u8>,
) -> Result<DeliveryView, Seq<char>> {
    if as_announced(descriptor, fetched.data.len(), digest) {
        Ok(
            DeliveryView {
                resource: resource_from(
                    hub,
                    envelope,
                    descriptor,
                    fetched.data,
                    fetched.resource_hash,
                ),
                text: text_in_resource(descriptor, fetched.data),
            },
        )
    } else {
        Err("RRC resource size or SHA-256 mismatch"@)
    }
}

/// What a resource came to, where it came.
pub open spec fn inspected(
    hub: [u8; 16],
    envelope: EnvelopeView,
    descriptor: ResourceDescriptorView,
    fetched: Result<FetchedView, Seq<char>>,
) -> Result<DeliveryView, Seq<char>> {
    match fetched {
        Err(words) => Err(words),
        Ok(f) => judged(hub, envelope, descriptor, f, sha256_digest(f.data)),
    }
}

/// What a result holds whose error is words.
pub open spec fn worded<T: DeepView>(result: Result<T, String>) -> Result<T::V, Seq<char>> {
    match result {
        Ok(value) => Ok(value.deep_view()),
        Err(words) => Err(words@),
    }
}

/// Holds bytes with that digest against their announcement.
pub fn judge_resource(
    hub: [u8; 16],
    envelope: &Envelope,
    descriptor: ResourceDescriptor,
    fetched: Fetched,
    digest: &[u8; 32],
) -> (delivery: Result<Delivery, String>)
    ensures
        worded(delivery) == judged(hub, envelope@, descriptor@, fetched@, digest@),
{
    if !matches_announcement(&descriptor, fetched.data.len(), digest) {
        return Err("RRC resource size or SHA-256 mismatch".to_owned());
    }
    let text = resource_text(&descriptor, &fetched.data);
    let resource = received_resource(
        hub,
        envelope,
        descriptor,
        fetched.data,
        fetched.resource_hash,
    );
    Ok(Delivery { resource, text })
}

/// Holds a resource against its announcement.
pub fn inspect_resource(
    hub: [u8; 16],
    envelope: &Envelope,
    descriptor: ResourceDescriptor,
    fetched: Result<Fetched, String>,
) -> (delivery: Result<Delivery, String>)
    ensures
        worded(delivery) == inspected(hub, envelope@, descriptor@, worded(fetched)),
{
    match fetched {
        Err(words) => Err(words),
        Ok(fetched) => {
            let digest = sha256(&fetched.data);
            judge_resource(hub, envelope, descriptor, fetched, &digest)
        },
    }
}

/// Whether a resource is read as a notice.
pub open spec fn is_notice(delivery: DeliveryView) -> bool {
    delivery.text matches Some((_, kind)) && kind == MessageKind::Notice
}

/// The message that a resource carries.
pub open spec fn message_of(
    resource: ResourceView,
    body: Seq<char>,
    kind: MessageKind,
) -> MessageView {
    MessageView {
        hub: resource.hub,
        room: resource.room,
        source: resource.source,
        destination: None,
        nick: resource.nick,
        body,
        timestamp_ms: resource.timestamp_ms,
        kind,
    }
}

/// A session after a resource came in it.
pub open spec fn after_delivery(
    session: SessionView,
    delivery: Result<DeliveryView, Seq<char>>,
    reading: NoticeReadingView,
) -> SessionView {
    match delivery {
        Ok(d) if is_notice(d) => after_notice(session, reading, None),
        _ => session,
    }
}

/// What is to be done when a resource came in a session. Its text is told as a message also
/// where it answers a query, and its announcement is handed on also where it is refused.
pub open spec fn delivery_effects(
    session: SessionView,
    hub: [u8; 16],
    envelope: EnvelopeView,
    delivery: Result<DeliveryView, Seq<char>>,
    reading: NoticeReadingView,
) -> Seq<EffectView> {
    match delivery {
        Err(words) => seq![
            EffectView::Emit(EventView::InvalidEnvelope { hub, error: words }),
            EffectView::Emit(EventView::Envelope { hub, envelope }),
        ],
        Ok(d) => {
            let first = if is_notice(d) {
                notice_effects(session, hub, reading, None)
            } else {
                Seq::empty()
            };
            let told = match d.text {
                Some((body, kind)) => seq![
                    EffectView::Emit(EventView::Message(message_of(d.resource, body, kind))),
                ],
                None => Seq::empty(),
            };
            first + told + seq![
                EffectView::Emit(EventView::Resource(d.resource)),
                EffectView::Emit(EventView::Envelope { hub, envelope }),
            ]
        },
    }
}

/// Takes in a resource, and says what is to be done.
pub fn take_delivery(
    session: &mut Session,
    hub: [u8; 16],
    envelope: Envelope,
    delivery: Result<Delivery, String>,
    reading: NoticeReading,
) -> (effects: Vec<Effect>)
    ensures
        final(session)@ == after_delivery(old(session)@, worded(delivery), reading@),
        effects.deep_view() == delivery_effects(
            old(session)@,
            hub,
            envelope@,
            worded(delivery),
            reading@,
        ),
{
    let ghost wanted = delivery_effects(
        session@,
        hub,
        envelope@,
        worded(delivery),
        reading@,
    );
    let delivery = match delivery {
        Ok(delivery) => delivery,
        Err(words) => {
            let mut effects = emit_invalid(hub, words);
            push_onto(&mut effects, Effect::Emit(Event::Envelope { hub, envelope }));
            assert(effects.deep_view() =~= wanted);
            return effects;
        },
    };
    let mut effects: Vec<Effect> = Vec::new();
    assert(effects.deep_view() =~= Seq::<EffectView>::empty());
    let resource = delivery.resource;
    if let Some((body, kind)) = delivery.text {
        if kind == MessageKind::Notice {
            resolve_query_notice(session, &mut effects, hub, reading, None);
        }
        push_onto(
            &mut effects,
            Effect::Emit(
                Event::Message(
                    Message {
                        hub: resource.hub,
                        room: resource.room.replica(),
                        source: resource.source,
                        destination: None,
                        nick: resource.nick.replica(),
                        body,
                        timestamp_ms: resource.timestamp_ms,
                        kind,
                    },
                ),
            ),
        );
    }
    push_onto(&mut effects, Effect::Emit(Event::Resource(resource)));
    push_onto(&mut effects, Effect::Emit(Event::Envelope { hub, envelope }));
    assert(effects.deep_view() =~= wanted);
    effects
}

} // verus!
