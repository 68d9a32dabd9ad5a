//! Resources that arrive: whether they are what was announced, and what text they carry.
use crate::text::{lower, lowered, same};
use crate::types::{
    Envelope, EnvelopeView, MessageKind, Resource, ResourceDescriptor, ResourceDescriptorView,
    ResourceView,
};
use crate::replica::{copy_bytes, Replica};
use vstd::prelude::*;
use vstd::utf8::{decode_utf8, valid_utf8};

verus! {

/// The SHA-256 digest of `data`, as `sha2::Sha256` computes it.
pub uninterp spec fn sha256_digest(data: Seq<u8>) -> Seq<u8>;

/// Calls `sha2::Sha256::digest`, whose result depends on the bytes alone and is named
/// [`sha256_digest`]. What the digest of given bytes is, is not stated.
#[verifier::external_body]
pub(crate) fn sha256(data: &Vec<u8>) -> (digest: [u8; 32])
    ensures
        digest@ == sha256_digest(data@),
{
    <sha2::Sha256 as sha2::Digest>::digest(data.as_slice()).into()
}

/// Calls `String::from_utf8`, which takes the bytes where they are valid UTF-8 and refuses
/// them where they are not; the string holds the characters that the bytes encode.
#[verifier::external_body]
fn text_from_utf8(data: Vec<u8>) -> (text: Option<String>)
    ensures
        text is Some <==> valid_utf8(data@),
        text matches Some(s) ==> s@ == decode_utf8(data@),
{
    String::from_utf8(data).ok()
}

/// The kind of message that a resource of this kind is, where it is one.
pub open spec fn kind_of_resource(kind: Seq<char>) -> Option<MessageKind> {
    let name = lower(kind);
    if name == "message"@ || name == "msg"@ {
        Some(MessageKind::Message)
    } else if name == "notice"@ {
        Some(MessageKind::Notice)
    } else if name == "action"@ {
        Some(MessageKind::Action)
    } else if name == "error"@ {
        Some(MessageKind::Error)
    } else {
        None
    }
}

/// The kind of message that a resource of this kind is, where it is one.
pub fn resource_message_kind(kind: &str) -> (message_kind: Option<MessageKind>)
    ensures
        message_kind == kind_of_resource(kind@),
{
    let name = lowered(kind);
    if same(name.as_str(), "message") || same(name.as_str(), "msg") {
        Some(MessageKind::Message)
    } else if same(name.as_str(), "notice") {
        Some(MessageKind::Notice)
    } else if same(name.as_str(), "action") {
        Some(MessageKind::Action)
    } else if same(name.as_str(), "error") {
        Some(MessageKind::Error)
    } else {
        None
    }
}

/// Whether data of that size and digest is what was announced.
pub open spec fn as_announced(
    descriptor: ResourceDescriptorView,
    size: nat,
    digest: Seq<u8>,
) -> bool {
    &&& size == descriptor.size
    &&& descriptor.sha256 matches Some(expected) ==> expected@ == digest
}

/// Whether two digests are the same.
pub fn same_digest(a: &[u8; 32], b: &[u8; 32]) -> (yes: bool)
    ensures
        yes == (a@ == b@),
{
    let mut i: usize = 0;
    while i < 32
        invariant
            i <= 32,
            forall|j: int| 0 <= j < i ==> a@[j] == b@[j],
        decreases 32 - i,
    {
        if a[i] != b[i] {
            assert(a@[i as int] != b@[i as int]);
            return false;
        }
        i += 1;
    }
    assert(a@ =~= b@);
    true
}

/// Whether data of that size and digest is what was announced.
pub fn matches_announcement(
    descriptor: &ResourceDescriptor,
    size: usize,
    digest: &[u8; 32],
) -> (yes: bool)
    ensures
        yes == as_announced(descriptor@, size as nat, digest@),
{
    if size != descriptor.size {
        return false;
    }
    match &descriptor.sha256 {
        None => true,
        Some(expected) => same_digest(expected, digest),
    }
}

/// The message that a resource carries, where it carries one: UTF-8 text of a kind
/// that messages have.
pub open spec fn text_in_resource(
    descriptor: ResourceDescriptorView,
    data: Seq<u8>,
) -> Option<(Seq<char>, MessageKind)> {
    if (descriptor.encoding matches Some(encoding) ==> lower(encoding) == "utf-8"@) && valid_utf8(
        data,
    ) {
        match kind_of_resource(descriptor.kind) {
            Some(kind) => Some((decode_utf8(data), kind)),
            None => None,
        }
    } else {
        None
    }
}

/// The message that a resource carries, where it carries one.
pub fn resource_text(descriptor: &ResourceDescriptor, data: &Vec<u8>) -> (text: Option<
    (String, MessageKind),
>)
    ensures
        match text {
            Some((body, kind)) => Some((body@, kind)),
            None => None,
        } == text_in_resource(descriptor@, data@),
{
    let readable = match &descriptor.encoding {
        Some(encoding) => same(lowered(encoding.as_str()).as_str(), "utf-8"),
        None => true,
    };
    if !readable {
        return None;
    }
    match text_from_utf8(copy_bytes(data)) {
        Some(body) => match resource_message_kind(descriptor.kind.as_str()) {
            Some(kind) => Some((body, kind)),
            None => None,
        },
        None => None,
    }
}

/// The resource that `envelope` announced, with the bytes that came.
pub open spec fn resource_from(
    hub: [u8; 16],
    envelope: EnvelopeView,
    descriptor: ResourceDescriptorView,
    data: Seq<u8>,
    resource_hash: [u8; 32],
) -> ResourceView {
    ResourceView {
        hub,
        room: envelope.room,
        source: envelope.source,
        nick: envelope.nick,
        timestamp_ms: stamp(envelope),
        descriptor,
        data,
        resource_hash,
    }
}

/// When an envelope was sent; zero where it does not say.
pub open spec fn stamp(envelope: EnvelopeView) -> u64 {
    match envelope.timestamp_ms {
        Some(at) => at,
        None => 0,
    }
}

/// When an envelope was sent; zero where it does not say.
pub fn stamp_of(envelope: &Envelope) -> (at: u64)
    ensures
        at == stamp(envelope@),
{
    match envelope.timestamp_ms {
        Some(at) => at,
        None => 0,
    }
}

/// The resource that `envelope` announced, with the bytes that came.
pub fn received_resource(
    hub: [u8; 16],
    envelope: &Envelope,
    descriptor: ResourceDescriptor,
    data: Vec<u8>,
    resource_hash: [u8; 32],
) -> (resource: Resource)
    ensures
        resource@ == resource_from(hub, envelope@, descriptor@, data@, resource_hash),
{
    Resource {
        hub,
        room: envelope.room.replica(),
        source: envelope.source,
        nick: envelope.nick.replica(),
        timestamp_ms: stamp_of(envelope),
        descriptor,
        data,
        resource_hash,
    }
}

} // verus!
