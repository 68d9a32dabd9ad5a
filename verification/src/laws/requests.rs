//! What can be relied on when the client asks for something.
use crate::client::{
    connected_hub, direct_notice_draft, following, message_limit, query_number, resource_draft,
    takes_actions, takes_direct_notices, takes_resources, text_draft,
};
use crate::command::{
    access_line, is_line_text, is_target, key_line, member_line, mode_line, register_line,
    text_route, topic_line, RESOURCE_TEXT_THRESHOLD,
};
use crate::request::{ContentView, DraftView};
use crate::resource::{kind_of_resource, text_in_resource};
use crate::text::{byte_len, is_white_space, lower};
use crate::types::{mode_flag, ErrorView, HubView, MessageKind, ResourceDescriptorView, RoomMode};
use vstd::prelude::*;
use vstd::utf8::{encode_utf8_decode_utf8, encode_utf8_valid_utf8};

verus! {

/// No query has the number zero, and none has the number of the one before it, except when the
/// counter has just started over.
pub proof fn query_numbers_differ(counter: u64)
    ensures
        query_number(counter) >= 1,
        counter != 0 ==> query_number(following(counter)) != query_number(counter),
{
}

/// Whether `s` stays within one line.
pub open spec fn is_single_line(s: Seq<char>) -> bool {
    !s.contains('\0') && !s.contains('\r') && !s.contains('\n')
}

proof fn joined_lines(a: Seq<char>, b: Seq<char>)
    requires
        is_single_line(a),
        is_single_line(b),
    ensures
        is_single_line(a + b),
{
    assert forall|c: char| (a + b).contains(c) implies a.contains(c) || b.contains(c) by {
        let k = choose|k: int| 0 <= k < (a + b).len() && (a + b)[k] == c;
        if k < a.len() {
            assert(a[k] == c);
        } else {
            assert(b[k - a.len()] == c);
        }
    }
}

proof fn fixed_parts_are_single()
    ensures
        is_single_line("/"@),
        is_single_line(" "@),
        is_single_line("/register "@),
        is_single_line("/unregister "@),
        is_single_line("/topic "@),
        is_single_line("/mode "@),
        is_single_line(" +"@),
        is_single_line(" -"@),
        is_single_line(" +k "@),
        is_single_line(" -k"@),
{
    reveal_strlit("/");
    reveal_strlit(" ");
    reveal_strlit("/register ");
    reveal_strlit("/unregister ");
    reveal_strlit("/topic ");
    reveal_strlit("/mode ");
    reveal_strlit(" +");
    reveal_strlit(" -");
    reveal_strlit(" +k ");
    reveal_strlit(" -k");
}

proof fn target_is_single(target: Seq<char>)
    requires
        is_target(target),
    ensures
        is_single_line(target),
{
    if target.contains('\r') {
        let k = choose|k: int| 0 <= k < target.len() && target[k] == '\r';
        assert(!is_white_space(target[k]));
    }
    if target.contains('\n') {
        let k = choose|k: int| 0 <= k < target.len() && target[k] == '\n';
        assert(!is_white_space(target[k]));
    }
}

/// The lines that set the state of a room stay within one line, whatever accepted text they
/// are made of.
pub proof fn room_lines_are_single(
    room: Seq<char>,
    registered: bool,
    text: Seq<char>,
    mode: RoomMode,
    enabled: bool,
)
    requires
        is_single_line(room),
        is_line_text(text),
    ensures
        is_single_line(register_line(room, registered)),
        is_single_line(topic_line(room, text)),
        is_single_line(mode_line(room, mode_flag(mode), enabled)),
        is_single_line(key_line(room, Some(text))),
        is_single_line(key_line(room, None)),
{
    fixed_parts_are_single();
    joined_lines("/register "@, room);
    joined_lines("/unregister "@, room);
    joined_lines("/topic "@, room);
    joined_lines("/topic "@ + room, " "@);
    joined_lines("/topic "@ + room + " "@, text);
    joined_lines("/mode "@, room);
    joined_lines("/mode "@ + room, " +"@);
    joined_lines("/mode "@ + room, " -"@);
    joined_lines("/mode "@ + room, " +k "@);
    joined_lines("/mode "@ + room, " -k"@);
    joined_lines("/mode "@ + room + " +k "@, text);
    let flag = seq![mode_flag(mode)];
    assert(is_single_line(flag));
    joined_lines("/mode "@ + room + " +"@, flag);
    joined_lines("/mode "@ + room + " -"@, flag);
    assert(mode_line(room, mode_flag(mode), true) =~= "/mode "@ + room + " +"@ + flag);
    assert(mode_line(room, mode_flag(mode), false) =~= "/mode "@ + room + " -"@ + flag);
}

/// The lines that concern one identity stay within one line, whatever accepted target they
/// are made of.
pub proof fn target_lines_are_single(
    command: Seq<char>,
    room: Seq<char>,
    operation: Seq<char>,
    target: Seq<char>,
)
    requires
        is_single_line(command),
        is_single_line(room),
        is_single_line(operation),
        is_target(target),
    ensures
        is_single_line(member_line(command, room, target)),
        is_single_line(access_line(command, room, operation, Some(target))),
        is_single_line(access_line(command, room, operation, None)),
{
    fixed_parts_are_single();
    target_is_single(target);
    let start = "/"@ + command;
    joined_lines("/"@, command);
    joined_lines(start, " "@);
    joined_lines(start + " "@, room);
    joined_lines(start + " "@ + room, " "@);
    joined_lines(start + " "@ + room + " "@, target);
    joined_lines(start + " "@ + room + " "@, operation);
    joined_lines(start + " "@ + room + " "@ + operation, " "@);
    joined_lines(start + " "@ + room + " "@ + operation + " "@, target);
}

/// Text travels as a resource only to a hub that takes resources; a hub that takes none gets a
/// packet within its limit or nothing; short text within the limit is always a packet.
pub proof fn text_route_respects_hub(
    body_bytes: nat,
    supports_resources: bool,
    packet_limit: nat,
)
    ensures
        text_route(body_bytes, supports_resources, packet_limit) == Ok::<bool, ErrorView>(true)
            ==> supports_resources,
        text_route(body_bytes, supports_resources, packet_limit) == Ok::<bool, ErrorView>(false)
            ==> body_bytes <= packet_limit,
        text_route(body_bytes, supports_resources, packet_limit) is Err <==> !supports_resources
            && body_bytes > packet_limit,
        text_route(body_bytes, supports_resources, packet_limit) matches Err(error) ==> error
            == ErrorView::ResourcesUnsupported,
        body_bytes <= packet_limit && body_bytes <= RESOURCE_TEXT_THRESHOLD ==> text_route(
            body_bytes,
            supports_resources,
            packet_limit,
        ) == Ok::<bool, ErrorView>(false),
{
}

/// What a hub did not say that it takes is refused before anything is sent to it.
pub proof fn capabilities_are_respected(
    source: [u8; 16],
    hubs: Seq<HubView>,
    destination: [u8; 16],
    room: Seq<char>,
    target: [u8; 16],
    body: Seq<char>,
    action: bool,
    kind: Seq<char>,
    data: Seq<u8>,
    encoding: Option<Seq<char>>,
)
    requires
        connected_hub(hubs, destination) is Ok,
    ensures
        ({
            let welcome = connected_hub(hubs, destination)->Ok_0.welcome;
            &&& action && !takes_actions(welcome) ==> text_draft(
                source,
                hubs,
                destination,
                room,
                body,
                action,
            ) == Err::<DraftView, ErrorView>(ErrorView::ActionsUnsupported)
            &&& !takes_direct_notices(welcome) ==> direct_notice_draft(
                source,
                hubs,
                destination,
                target,
                body,
            ) == Err::<DraftView, ErrorView>(ErrorView::DirectNoticesUnsupported)
            &&& !takes_resources(welcome) ==> resource_draft(
                source,
                hubs,
                destination,
                Some(room),
                kind,
                data,
                encoding,
            ) == Err::<DraftView, ErrorView>(ErrorView::ResourcesUnsupported)
            &&& text_draft(source, hubs, destination, room, body, action) matches Ok(draft)
                ==> (draft.content is Resource ==> takes_resources(welcome)) && (
            draft.content is Message ==> byte_len(body) <= message_limit(welcome))
        }),
{
}

proof fn sent_kinds_are_read_back()
    ensures
        lower("utf-8"@) == "utf-8"@,
        kind_of_resource("message"@) == Some(MessageKind::Message),
        kind_of_resource("action"@) == Some(MessageKind::Action),
{
    reveal_strlit("utf-8");
    reveal_strlit("message");
    reveal_strlit("msg");
    reveal_strlit("notice");
    reveal_strlit("action");
    assert(lower("utf-8"@) =~= "utf-8"@);
    assert(lower("message"@) =~= "message"@);
    assert(lower("action"@) =~= "action"@);
    assert("action"@[0] != "notice"@[0]);
}

/// Text that travels as a resource is read back from it as the text that was sent, and as a
/// message or an action as it was sent.
pub proof fn long_text_is_read_back(
    source: [u8; 16],
    hubs: Seq<HubView>,
    destination: [u8; 16],
    room: Seq<char>,
    body: Seq<char>,
    action: bool,
    descriptor: ResourceDescriptorView,
)
    requires
        text_draft(source, hubs, destination, room, body, action) matches Ok(draft)
            && draft.content matches ContentView::Resource { kind, encoding, .. }
            && descriptor.kind == kind && descriptor.encoding == encoding,
    ensures
        text_draft(source, hubs, destination, room, body, action)->Ok_0.content matches
            ContentView::Resource { data, .. } && text_in_resource(descriptor, data) == Some(
            (
                body,
                if action {
                    MessageKind::Action
                } else {
                    MessageKind::Message
                },
            ),
        ),
{
    sent_kinds_are_read_back();
    encode_utf8_valid_utf8(body);
    encode_utf8_decode_utf8(body);
}

/// Nothing is drafted for a hub that there is no session with, or whose link is down.
pub proof fn drafts_need_a_session(
    source: [u8; 16],
    hubs: Seq<HubView>,
    destination: [u8; 16],
    room: Seq<char>,
    target: [u8; 16],
    body: Seq<char>,
    action: bool,
    kind: Seq<char>,
    data: Seq<u8>,
    encoding: Option<Seq<char>>,
)
    requires
        connected_hub(hubs, destination) is Err,
    ensures
        text_draft(source, hubs, destination, room, body, action) == Err::<DraftView, ErrorView>(
            ErrorView::NotConnected,
        ),
        direct_notice_draft(source, hubs, destination, target, body) == Err::<DraftView, ErrorView>(
            ErrorView::NotConnected,
        ),
        resource_draft(source, hubs, destination, Some(room), kind, data, encoding) == Err::<
            DraftView,
            ErrorView,
        >(ErrorView::NotConnected),
{
}

} // verus!
