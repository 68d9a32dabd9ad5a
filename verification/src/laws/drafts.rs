//! What can be relied on when the client drafts what it sends, in numbers and fields.
use crate::actor::hello_draft;
use crate::client::{
    access_draft, command_draft, connected_hub, direct_notice_draft, following, hub_of,
    member_draft, query_number, refusal, resource_draft, room_draft, submission, text_draft,
};
use crate::command::{
    key_line, mode_line, register_line, room_argument, slashed, target_argument, text_argument,
    text_route, topic_line,
};
use crate::request::{shown, CommandView, ContentView, DraftView};
use crate::text::{is_white_space, trim};
use crate::types::{EnvelopeView, Error, ErrorView, HubView, WelcomeView};
use vstd::prelude::*;
use vstd::utf8::encode_utf8;

verus! {

/// What a request comes to is what its result holds, and its error is the error that it gives.
pub proof fn results_are_shown_as_they_are<T: DeepView>(result: Result<T, Error>)
    ensures
        result matches Ok(value) ==> shown(result) == Ok::<T::V, ErrorView>(value.deep_view()),
        result matches Err(error) ==> shown(result) == Err::<T::V, ErrorView>(error@),
{
}

/// Queries are numbered one after the other from the number that the counter stands at; the
/// counter starts over behind the largest number, and zero is no number.
pub proof fn queries_are_numbered_in_order(counter: u64)
    ensures
        counter >= 1 ==> query_number(counter) == counter,
        counter == 0 ==> query_number(counter) == 1,
        counter < u64::MAX ==> following(counter) == counter + 1,
        counter == u64::MAX ==> following(counter) == 0,
{
}

/// A lookup finds the first hub with the identity, and nothing exactly where no hub has it.
pub proof fn lookup_finds_the_first(hubs: Seq<HubView>, destination: [u8; 16])
    ensures
        match hub_of(hubs, destination) {
            Some(hub) => hub.destination_hash == destination && exists|i: int|
                0 <= i < hubs.len() && #[trigger] hubs[i] == hub && forall|j: int|
                    0 <= j < i ==> (#[trigger] hubs[j]).destination_hash != destination,
            None => forall|j: int|
                0 <= j < hubs.len() ==> (#[trigger] hubs[j]).destination_hash != destination,
        },
    decreases hubs.len(),
{
    if hubs.len() > 0 {
        if hubs[0].destination_hash != destination {
            let rest = hubs.drop_first();
            lookup_finds_the_first(rest, destination);
            match hub_of(hubs, destination) {
                Some(hub) => {
                    let i = choose|i: int|
                        0 <= i < rest.len() && #[trigger] rest[i] == hub && forall|j: int|
                            0 <= j < i ==> (#[trigger] rest[j]).destination_hash != destination;
                    assert(hubs[i + 1] == hub);
                    assert forall|j: int| 0 <= j < i + 1 implies (
                    #[trigger] hubs[j]).destination_hash != destination by {
                        if j > 0 {
                            assert(rest[j - 1] == hubs[j]);
                        }
                    }
                },
                None => {
                    assert forall|j: int| 0 <= j < hubs.len() implies (
                    #[trigger] hubs[j]).destination_hash != destination by {
                        if j > 0 {
                            assert(rest[j - 1] == hubs[j]);
                        }
                    }
                },
            }
        } else {
            assert(hubs[0] == hub_of(hubs, destination)->0);
        }
    }
}

/// Whether `hub` is the first of `hubs` with this identity.
pub open spec fn is_first_with(hubs: Seq<HubView>, destination: [u8; 16], hub: HubView) -> bool {
    exists|i: int|
        0 <= i < hubs.len() && #[trigger] hubs[i] == hub && hub.destination_hash == destination
            && forall|j: int|
            0 <= j < i ==> (#[trigger] hubs[j]).destination_hash != destination
}

proof fn first_is_found(hubs: Seq<HubView>, destination: [u8; 16], hub: HubView)
    requires
        is_first_with(hubs, destination, hub),
    ensures
        hub_of(hubs, destination) == Some(hub),
{
    lookup_finds_the_first(hubs, destination);
    let i = choose|i: int|
        0 <= i < hubs.len() && #[trigger] hubs[i] == hub && hub.destination_hash == destination
            && forall|j: int|
            0 <= j < i ==> (#[trigger] hubs[j]).destination_hash != destination;
    assert(hubs[i].destination_hash == destination);
    let found = hub_of(hubs, destination)->0;
    let k = choose|k: int|
        0 <= k < hubs.len() && #[trigger] hubs[k] == found && forall|j: int|
            0 <= j < k ==> (#[trigger] hubs[j]).destination_hash != destination;
    assert(hubs[k].destination_hash == destination);
    assert(!(i < k) && !(k < i));
}

/// There is a hub to send to exactly where the first hub with the identity has its link up.
pub proof fn sending_needs_the_link(hubs: Seq<HubView>, destination: [u8; 16], hub: HubView)
    ensures
        connected_hub(hubs, destination) == Ok::<HubView, ErrorView>(hub) <==> (hub_of(
            hubs,
            destination,
        ) == Some(hub) && hub.connected),
        connected_hub(hubs, destination) matches Err(error) ==> error == ErrorView::NotConnected,
{
}

/// A target is accepted exactly where, without white space at its ends, it is one word of one to
/// 128 bytes in UTF-8 without a NUL; it is taken without that white space.
pub proof fn accepted_targets(given: Seq<char>)
    ensures
        ({
            let word = trim(given);
            let good = word.len() > 0 && encode_utf8(word).len() <= 128 && forall|i: int|
                0 <= i < word.len() ==> !is_white_space(#[trigger] word[i]) && word[i] != '\0';
            &&& good ==> target_argument(given) == Ok::<Seq<char>, ErrorView>(word)
            &&& !good ==> target_argument(given) == Err::<Seq<char>, ErrorView>(
                ErrorView::InvalidTarget,
            )
        }),
{
    let word = trim(given);
    if forall|i: int|
        0 <= i < word.len() ==> !is_white_space(#[trigger] word[i]) && word[i] != '\0' {
        assert(!word.contains('\0'));
    } else {
        let i = choose|i: int|
            0 <= i < word.len() && !(!is_white_space(#[trigger] word[i]) && word[i] != '\0');
        assert(is_white_space(word[i]) || word.contains('\0'));
    }
}

/// A text is accepted exactly where, without white space at its ends, it has one to 16384 bytes in
/// UTF-8 and no NUL and no line break; it is taken without that white space.
pub proof fn accepted_texts(given: Seq<char>)
    ensures
        ({
            let text = trim(given);
            let good = text.len() > 0 && encode_utf8(text).len() <= 16384 && forall|i: int|
                0 <= i < text.len() ==> #[trigger] text[i] != '\0' && text[i] != '\r' && text[i]
                    != '\n';
            &&& good ==> text_argument(given) == Ok::<Seq<char>, ErrorView>(text)
            &&& !good ==> text_argument(given) == Err::<Seq<char>, ErrorView>(
                ErrorView::InvalidMessage,
            )
        }),
{
    let text = trim(given);
    if forall|i: int|
        0 <= i < text.len() ==> #[trigger] text[i] != '\0' && text[i] != '\r' && text[i] != '\n' {
        assert(!text.contains('\0') && !text.contains('\r') && !text.contains('\n'));
    } else {
        let i = choose|i: int|
            0 <= i < text.len() && !(#[trigger] text[i] != '\0' && text[i] != '\r' && text[i]
                != '\n');
        assert(text.contains(text[i]));
    }
}

/// A room is accepted exactly where its name could be normalized, and under that name.
pub proof fn accepted_rooms(normalized: Option<Seq<char>>)
    ensures
        normalized matches Some(room) ==> room_argument(normalized) == Ok::<Seq<char>, ErrorView>(
            room,
        ),
        normalized is None ==> room_argument(normalized) == Err::<Seq<char>, ErrorView>(
            ErrorView::InvalidRoom,
        ),
{
}

/// A command line starts with a slash; one is put in front exactly where there is none.
pub proof fn commands_start_with_a_slash(line: Seq<char>)
    ensures
        slashed(line).len() > 0,
        slashed(line)[0] == '/',
        line.len() > 0 && line[0] == '/' ==> slashed(line) == line,
        line.len() == 0 || line[0] != '/' ==> slashed(line).drop_first() == line,
{
    reveal_strlit("/");
    if line.len() == 0 || line[0] != '/' {
        assert(slashed(line).drop_first() =~= line);
    }
}

/// Whether `line` is made of these parts, with one space between them.
pub open spec fn is_made_of(line: Seq<char>, parts: Seq<Seq<char>>) -> bool
    decreases parts.len(),
{
    if parts.len() == 0 {
        line.len() == 0
    } else if parts.len() == 1 {
        line == parts[0]
    } else {
        let rest = parts.drop_first();
        let n = parts[0].len();
        &&& line.len() > n
        &&& line.take(n as int) == parts[0]
        &&& line[n as int] == ' '
        &&& is_made_of(line.skip(n as int + 1), rest)
    }
}

proof fn made_of_first(line: Seq<char>, first: Seq<char>, rest: Seq<Seq<char>>, tail: Seq<char>)
    requires
        rest.len() > 0,
        is_made_of(tail, rest),
        line == first + seq![' '] + tail,
    ensures
        is_made_of(line, seq![first] + rest),
{
    let parts = seq![first] + rest;
    assert(parts.drop_first() =~= rest);
    assert(line.take(first.len() as int) =~= first);
    assert(line.skip(first.len() as int + 1) =~= tail);
}

/// The command to register a room names the room, and so does the one to end that.
pub proof fn register_lines(room: Seq<char>)
    ensures
        is_made_of(register_line(room, true), seq!["/register"@, room]),
        is_made_of(register_line(room, false), seq!["/unregister"@, room]),
{
    reveal_strlit("/register");
    reveal_strlit("/register ");
    reveal_strlit("/unregister");
    reveal_strlit("/unregister ");
    reveal_with_fuel(is_made_of, 2);
    assert(register_line(room, true) =~= "/register"@ + seq![' '] + room);
    assert(register_line(room, false) =~= "/unregister"@ + seq![' '] + room);
    made_of_first(register_line(room, true), "/register"@, seq![room], room);
    made_of_first(register_line(room, false), "/unregister"@, seq![room], room);
    assert(seq!["/register"@] + seq![room] =~= seq!["/register"@, room]);
    assert(seq!["/unregister"@] + seq![room] =~= seq!["/unregister"@, room]);
}

/// The command to set a topic names the room and then the topic.
pub proof fn topic_lines(room: Seq<char>, topic: Seq<char>)
    ensures
        is_made_of(topic_line(room, topic), seq!["/topic"@, room, topic]),
{
    reveal_strlit("/topic");
    reveal_strlit("/topic ");
    reveal_strlit(" ");
    reveal_with_fuel(is_made_of, 2);
    let tail = room + seq![' '] + topic;
    made_of_first(tail, room, seq![topic], topic);
    assert(topic_line(room, topic) =~= "/topic"@ + seq![' '] + tail);
    made_of_first(topic_line(room, topic), "/topic"@, seq![room] + seq![topic], tail);
    assert(seq!["/topic"@] + (seq![room] + seq![topic]) =~= seq!["/topic"@, room, topic]);
}

/// The command to change a mode names the room and then the letter, with a plus to switch it on
/// and a minus to switch it off.
pub proof fn mode_lines(room: Seq<char>, flag: char)
    ensures
        is_made_of(mode_line(room, flag, true), seq!["/mode"@, room, seq!['+', flag]]),
        is_made_of(mode_line(room, flag, false), seq!["/mode"@, room, seq!['-', flag]]),
{
    reveal_strlit("/mode");
    reveal_strlit("/mode ");
    reveal_strlit(" +");
    reveal_strlit(" -");
    reveal_with_fuel(is_made_of, 2);
    let on = seq!['+', flag];
    let off = seq!['-', flag];
    made_of_first(room + seq![' '] + on, room, seq![on], on);
    made_of_first(room + seq![' '] + off, room, seq![off], off);
    assert(mode_line(room, flag, true) =~= "/mode"@ + seq![' '] + (room + seq![' '] + on));
    assert(mode_line(room, flag, false) =~= "/mode"@ + seq![' '] + (room + seq![' '] + off));
    made_of_first(
        mode_line(room, flag, true),
        "/mode"@,
        seq![room] + seq![on],
        room + seq![' '] + on,
    );
    made_of_first(
        mode_line(room, flag, false),
        "/mode"@,
        seq![room] + seq![off],
        room + seq![' '] + off,
    );
    assert(seq!["/mode"@] + (seq![room] + seq![on]) =~= seq!["/mode"@, room, on]);
    assert(seq!["/mode"@] + (seq![room] + seq![off]) =~= seq!["/mode"@, room, off]);
}

/// The command to change the key of a room names the room; a key that is set comes last.
pub proof fn key_lines(room: Seq<char>, key: Seq<char>)
    ensures
        is_made_of(key_line(room, Some(key)), seq!["/mode"@, room, "+k"@, key]),
        is_made_of(key_line(room, None), seq!["/mode"@, room, "-k"@]),
{
    reveal_strlit("/mode");
    reveal_strlit("/mode ");
    reveal_strlit("+k");
    reveal_strlit("-k");
    reveal_strlit(" +k ");
    reveal_strlit(" -k");
    reveal_with_fuel(is_made_of, 2);
    let set = "+k"@ + seq![' '] + key;
    made_of_first(set, "+k"@, seq![key], key);
    made_of_first(room + seq![' '] + set, room, seq!["+k"@] + seq![key], set);
    assert(key_line(room, Some(key)) =~= "/mode"@ + seq![' '] + (room + seq![' '] + set));
    made_of_first(
        key_line(room, Some(key)),
        "/mode"@,
        seq![room] + (seq!["+k"@] + seq![key]),
        room + seq![' '] + set,
    );
    assert(seq!["/mode"@] + (seq![room] + (seq!["+k"@] + seq![key])) =~= seq![
        "/mode"@,
        room,
        "+k"@,
        key,
    ]);
    made_of_first(room + seq![' '] + "-k"@, room, seq!["-k"@], "-k"@);
    assert(key_line(room, None) =~= "/mode"@ + seq![' '] + (room + seq![' '] + "-k"@));
    made_of_first(
        key_line(room, None),
        "/mode"@,
        seq![room] + seq!["-k"@],
        room + seq![' '] + "-k"@,
    );
    assert(seq!["/mode"@] + (seq![room] + seq!["-k"@]) =~= seq!["/mode"@, room, "-k"@]);
}

/// A command on a member is drafted exactly where the room and the target are accepted; it goes
/// to the room, and its line names the command, the room and the target.
pub proof fn member_commands(
    source: [u8; 16],
    normalized: Option<Seq<char>>,
    target: Seq<char>,
    command: Seq<char>,
)
    ensures
        normalized is None ==> member_draft(source, normalized, target, command) == Err::<
            DraftView,
            ErrorView,
        >(ErrorView::InvalidRoom),
        normalized is Some && target_argument(target) is Err ==> member_draft(
            source,
            normalized,
            target,
            command,
        ) == Err::<DraftView, ErrorView>(ErrorView::InvalidTarget),
        normalized matches Some(room) ==> target_argument(target) matches Ok(word) ==> (
        member_draft(source, normalized, target, command) matches Ok(draft) && draft.source
            == source && (draft.content matches ContentView::Command { room: to, line } && to
            == Some(room) && is_made_of(line, seq!["/"@ + command, room, word]))),
{
    accepted_targets(target);
    if let Some(room) = normalized {
        if let Ok(word) = target_argument(target) {
            reveal_strlit(" ");
            reveal_with_fuel(is_made_of, 2);
            let tail = room + seq![' '] + word;
            made_of_first(tail, room, seq![word], word);
            let line = "/"@ + command + " "@ + room + " "@ + word;
            assert(line =~= ("/"@ + command) + seq![' '] + tail);
            made_of_first(line, "/"@ + command, seq![room] + seq![word], tail);
            assert(seq!["/"@ + command] + (seq![room] + seq![word]) =~= seq![
                "/"@ + command,
                room,
                word,
            ]);
        }
    }
}

/// A command on an access list is drafted exactly where the room and the target, if one is
/// given, are accepted; it goes to the room, and its line names the command, the room, the
/// operation and the target.
pub proof fn access_commands(
    source: [u8; 16],
    normalized: Option<Seq<char>>,
    command: Seq<char>,
    operation: Seq<char>,
    target: Option<Seq<char>>,
)
    ensures
        normalized is None ==> access_draft(source, normalized, command, operation, target)
            == Err::<DraftView, ErrorView>(ErrorView::InvalidRoom),
        normalized is Some && (target matches Some(t) && target_argument(t) is Err)
            ==> access_draft(source, normalized, command, operation, target) == Err::<
            DraftView,
            ErrorView,
        >(ErrorView::InvalidTarget),
        normalized matches Some(room) ==> target is None ==> (access_draft(
            source,
            normalized,
            command,
            operation,
            target,
        ) matches Ok(draft) && draft.source == source && (draft.content matches
            ContentView::Command { room: to, line } && to == Some(room) && is_made_of(
            line,
            seq!["/"@ + command, room, operation],
        ))),
        normalized matches Some(room) ==> target matches Some(t) ==> target_argument(t) matches Ok(
            word,
        ) ==> (access_draft(source, normalized, command, operation, target) matches Ok(draft)
            && draft.source == source && (draft.content matches
            ContentView::Command { room: to, line } && to == Some(room) && is_made_of(
            line,
            seq!["/"@ + command, room, operation, word],
        ))),
{
    if let Some(t) = target {
        accepted_targets(t);
    }
    if let Some(room) = normalized {
        reveal_strlit(" ");
        reveal_with_fuel(is_made_of, 2);
        match target {
            None => {
                let tail = room + seq![' '] + operation;
                made_of_first(tail, room, seq![operation], operation);
                let line = "/"@ + command + " "@ + room + " "@ + operation;
                assert(line =~= ("/"@ + command) + seq![' '] + tail);
                made_of_first(line, "/"@ + command, seq![room] + seq![operation], tail);
                assert(seq!["/"@ + command] + (seq![room] + seq![operation]) =~= seq![
                    "/"@ + command,
                    room,
                    operation,
                ]);
            },
            Some(t) => {
                if let Ok(word) = target_argument(t) {
                    let end = operation + seq![' '] + word;
                    made_of_first(end, operation, seq![word], word);
                    let tail = room + seq![' '] + end;
                    made_of_first(tail, room, seq![operation] + seq![word], end);
                    let line = "/"@ + command + " "@ + room + " "@ + operation + " "@ + word;
                    assert(line =~= ("/"@ + command) + seq![' '] + tail);
                    made_of_first(
                        line,
                        "/"@ + command,
                        seq![room] + (seq![operation] + seq![word]),
                        tail,
                    );
                    assert(seq!["/"@ + command] + (seq![room] + (seq![operation] + seq![word]))
                        =~= seq!["/"@ + command, room, operation, word]);
                }
            },
        }
    }
}

/// The largest packet that a hub takes: what its greeting says, and 16384 bytes where the
/// greeting says nothing or did not come.
pub open spec fn is_limit_of(welcome: Option<WelcomeView>, limit: int) -> bool {
    match welcome {
        Some(w) => match w.limits.max_message_bytes {
            Some(announced) => limit == announced,
            None => limit == 16384,
        },
        None => limit == 16384,
    }
}

/// A text for a room is drafted exactly where the hub is up, takes actions if it is one, and takes
/// its bytes as a packet or as a resource: as a resource where the hub takes resources and the
/// text has more than 300 bytes or more than the limit, and else as a packet within the limit.
pub proof fn text_is_drafted_within_limits(
    source: [u8; 16],
    hubs: Seq<HubView>,
    destination: [u8; 16],
    room: Seq<char>,
    body: Seq<char>,
    action: bool,
    hub: HubView,
    limit: int,
)
    requires
        is_first_with(hubs, destination, hub),
        hub.connected,
        is_limit_of(hub.welcome, limit),
    ensures
        ({
            let size = encode_utf8(body).len();
            let refused_action = action && !(hub.welcome matches Some(w) && w.capabilities.action);
            let resources = hub.welcome matches Some(w) && w.capabilities.resource_envelope;
            let draft = text_draft(source, hubs, destination, room, body, action);
            if refused_action {
                draft == Err::<DraftView, ErrorView>(ErrorView::ActionsUnsupported)
            } else if resources && (size > 300 || size > limit) {
                draft == Ok::<DraftView, ErrorView>(
                    DraftView {
                        source,
                        content: ContentView::Resource {
                            room: Some(room),
                            kind: if action {
                                "action"@
                            } else {
                                "message"@
                            },
                            data: encode_utf8(body),
                            encoding: Some("utf-8"@),
                        },
                    },
                )
            } else if size > limit {
                draft == Err::<DraftView, ErrorView>(ErrorView::ResourcesUnsupported)
            } else {
                draft == Ok::<DraftView, ErrorView>(
                    DraftView { source, content: ContentView::Message { room, body, action } },
                )
            }
        }),
{
    first_is_found(hubs, destination, hub);
}

/// Where a hub announces no limit, every message of at most 300 bytes is a packet, and where it
/// takes no resources every message of at most 16384 bytes is.
pub proof fn short_messages_are_packets(
    source: [u8; 16],
    hubs: Seq<HubView>,
    destination: [u8; 16],
    room: Seq<char>,
    body: Seq<char>,
    hub: HubView,
)
    requires
        is_first_with(hubs, destination, hub),
        hub.connected,
        hub.welcome matches Some(w) ==> w.limits.max_message_bytes is None,
        encode_utf8(body).len() <= 300 || (encode_utf8(body).len() <= 16384 && !(hub.welcome
            matches Some(w) && w.capabilities.resource_envelope)),
    ensures
        text_draft(source, hubs, destination, room, body, false) == Ok::<DraftView, ErrorView>(
            DraftView { source, content: ContentView::Message { room, body, action: false } },
        ),
{
    first_is_found(hubs, destination, hub);
}

/// A shorter text is never refused where a longer one is taken.
pub proof fn shorter_text_is_taken(
    source: [u8; 16],
    hubs: Seq<HubView>,
    destination: [u8; 16],
    room: Seq<char>,
    short: Seq<char>,
    long: Seq<char>,
    action: bool,
)
    requires
        encode_utf8(short).len() <= encode_utf8(long).len(),
        text_draft(source, hubs, destination, room, long, action) is Ok,
    ensures
        text_draft(source, hubs, destination, room, short, action) is Ok,
{
}

/// A notice to one identity is drafted exactly where the hub is up, takes such notices and takes
/// a packet of this size; it carries the target and the text as they are given.
pub proof fn direct_notice_is_drafted_within_limits(
    source: [u8; 16],
    hubs: Seq<HubView>,
    destination: [u8; 16],
    target: [u8; 16],
    body: Seq<char>,
    hub: HubView,
    limit: int,
)
    requires
        is_first_with(hubs, destination, hub),
        hub.connected,
        is_limit_of(hub.welcome, limit),
    ensures
        ({
            let able = hub.welcome matches Some(w) && w.capabilities.direct_notice;
            let draft = direct_notice_draft(source, hubs, destination, target, body);
            if !able {
                draft == Err::<DraftView, ErrorView>(ErrorView::DirectNoticesUnsupported)
            } else if encode_utf8(body).len() > limit {
                draft == Err::<DraftView, ErrorView>(ErrorView::InvalidMessage)
            } else {
                draft == Ok::<DraftView, ErrorView>(
                    DraftView { source, content: ContentView::DirectNotice { target, body } },
                )
            }
        }),
{
    first_is_found(hubs, destination, hub);
}

/// A resource is drafted exactly where the hub is up and takes resources; it carries what is
/// given as it is given.
pub proof fn resource_is_drafted_as_given(
    source: [u8; 16],
    hubs: Seq<HubView>,
    destination: [u8; 16],
    room: Option<Seq<char>>,
    kind: Seq<char>,
    data: Seq<u8>,
    encoding: Option<Seq<char>>,
    hub: HubView,
)
    requires
        is_first_with(hubs, destination, hub),
        hub.connected,
    ensures
        ({
            let able = hub.welcome matches Some(w) && w.capabilities.resource_envelope;
            let draft = resource_draft(source, hubs, destination, room, kind, data, encoding);
            if able {
                draft == Ok::<DraftView, ErrorView>(
                    DraftView {
                        source,
                        content: ContentView::Resource { room, kind, data, encoding },
                    },
                )
            } else {
                draft == Err::<DraftView, ErrorView>(ErrorView::ResourcesUnsupported)
            }
        }),
{
    first_is_found(hubs, destination, hub);
}

/// The routes of text, in numbers.
pub proof fn text_routes(body_bytes: nat, supports_resources: bool, packet_limit: nat)
    ensures
        text_route(body_bytes, supports_resources, packet_limit) == Ok::<bool, ErrorView>(true)
            <==> supports_resources && (body_bytes > 300 || body_bytes > packet_limit),
        text_route(body_bytes, supports_resources, packet_limit) == Ok::<bool, ErrorView>(false)
            <==> body_bytes <= packet_limit && (body_bytes <= 300 || !supports_resources),
{
}

/// Commands and greetings are drafted under the identity of the client, to the room and with the
/// words that are given.
pub proof fn drafts_carry_what_is_given(
    source: [u8; 16],
    room: Option<Seq<char>>,
    name: Seq<char>,
    line: Seq<char>,
    nick: Option<Seq<char>>,
)
    ensures
        command_draft(source, room, line).source == source,
        command_draft(source, room, line).content == (ContentView::Command { room, line }),
        room_draft(source, name, line).source == source,
        room_draft(source, name, line).content == (ContentView::Command {
            room: Some(name),
            line,
        }),
        hello_draft(source, nick).source == source,
        hello_draft(source, nick).content == (ContentView::Hello { nick }),
{
}

/// What was built from a draft is sent to the hub as it was built, the bytes of a resource with
/// it; where nothing could be built, the error tells what the draft was: a request for a room,
/// a resource or anything else.
pub proof fn built_drafts_are_sent(
    destination: [u8; 16],
    content: ContentView,
    envelope: EnvelopeView,
)
    ensures
        submission(destination, content, Some(envelope)) == Ok::<CommandView, ErrorView>(
            if content is Resource {
                CommandView::SendResource {
                    destination,
                    envelope,
                    data: content->Resource_data,
                }
            } else {
                CommandView::Send { destination, envelope }
            },
        ),
        submission(destination, content, None) == Err::<CommandView, ErrorView>(
            if content is Join || content is Part {
                ErrorView::InvalidRoom
            } else if content is Resource {
                ErrorView::InvalidResource
            } else {
                ErrorView::InvalidMessage
            },
        ),
        refusal(content) == submission(destination, content, None)->Err_0,
{
}

} // verus!
