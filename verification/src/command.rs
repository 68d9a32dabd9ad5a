//! Arguments of slash commands, the lines that are made of them, and how text travels.
use crate::request::shown;
use crate::text::{
    byte_len, has_char, has_white_space, is_white_space, size_of_text, starts_with, trim, trimmed,
};
use crate::types::{Error, ErrorView};
use vstd::prelude::*;
use vstd::string::*;

verus! {

/// The most bytes that the name of a room may take.
pub const ROOM_BYTES: usize = 64;

/// The most bytes that a nickname may take.
pub const NICK_BYTES: usize = 32;

/// The most bytes that the target of a command may take.
pub const TARGET_BYTES: usize = 128;

/// The most bytes that a text may take where a hub announces no limit.
pub const TEXT_BYTES: usize = 16_384;

/// Text of more bytes than this travels as a resource where the hub takes resources.
pub const RESOURCE_TEXT_THRESHOLD: usize = 300;

/// A room for a command: the normalized name, where the name can be normalized.
pub open spec fn room_argument(normalized: Option<Seq<char>>) -> Result<Seq<char>, ErrorView> {
    match normalized {
        Some(room) => Ok(room),
        None => Err(ErrorView::InvalidRoom),
    }
}

/// Whether `target` can stand as one word in a command line.
pub open spec fn is_target(target: Seq<char>) -> bool {
    &&& target.len() > 0
    &&& byte_len(target) <= TARGET_BYTES
    &&& forall|i: int| 0 <= i < target.len() ==> !is_white_space(#[trigger] target[i])
    &&& !target.contains('\0')
}

/// The target of a command: what was given, trimmed, where it is one word.
pub open spec fn target_argument(target: Seq<char>) -> Result<Seq<char>, ErrorView> {
    if is_target(trim(target)) {
        Ok(trim(target))
    } else {
        Err(ErrorView::InvalidTarget)
    }
}

/// Whether `text` can stand at the end of a command line.
pub open spec fn is_line_text(text: Seq<char>) -> bool {
    &&& text.len() > 0
    &&& byte_len(text) <= TEXT_BYTES
    &&& !text.contains('\0')
    &&& !text.contains('\r')
    &&& !text.contains('\n')
}

/// The text of a command: what was given, trimmed, where it stays within one line.
pub open spec fn text_argument(text: Seq<char>) -> Result<Seq<char>, ErrorView> {
    if is_line_text(trim(text)) {
        Ok(trim(text))
    } else {
        Err(ErrorView::InvalidMessage)
    }
}

/// Takes the name of a room as normalized for at most [`ROOM_BYTES`] bytes.
pub fn command_room(normalized: Option<String>) -> (room: Result<String, Error>)
    ensures
        shown(room) == room_argument(normalized.deep_view()),
{
    match normalized {
        Some(room) => Ok(room),
        None => Err(Error::InvalidRoom),
    }
}

/// Takes the target of a command.
pub fn command_target(target: &str) -> (word: Result<String, Error>)
    ensures
        shown(word) == target_argument(target@),
{
    let word = trimmed(target);
    if word.as_str().is_empty() || size_of_text(word.as_str()) > TARGET_BYTES || has_white_space(
        word.as_str(),
    ) || has_char(word.as_str(), '\0') {
        Err(Error::InvalidTarget)
    } else {
        Ok(word)
    }
}

/// Takes the text of a command.
pub fn command_text(text: &str) -> (line: Result<String, Error>)
    ensures
        shown(line) == text_argument(text@),
{
    let line = trimmed(text);
    if line.as_str().is_empty() || size_of_text(line.as_str()) > TEXT_BYTES || has_char(
        line.as_str(),
        '\0',
    ) || has_char(line.as_str(), '\r') || has_char(line.as_str(), '\n') {
        Err(Error::InvalidMessage)
    } else {
        Ok(line)
    }
}

/// How text of `body_bytes` bytes travels: as a resource, as a packet, or not at all.
pub open spec fn text_route(
    body_bytes: nat,
    supports_resources: bool,
    packet_limit: nat,
) -> Result<bool, ErrorView> {
    if supports_resources && (body_bytes > RESOURCE_TEXT_THRESHOLD || body_bytes > packet_limit) {
        Ok(true)
    } else if body_bytes > packet_limit {
        Err(ErrorView::ResourcesUnsupported)
    } else {
        Ok(false)
    }
}

/// Whether text travels as a resource.
pub fn use_resource_for_text(
    body_bytes: usize,
    supports_resources: bool,
    packet_limit: usize,
) -> (route: Result<bool, Error>)
    ensures
        shown(route) == text_route(body_bytes as nat, supports_resources, packet_limit as nat),
{
    if supports_resources && (body_bytes > RESOURCE_TEXT_THRESHOLD || body_bytes > packet_limit) {
        Ok(true)
    } else if body_bytes > packet_limit {
        Err(Error::ResourcesUnsupported)
    } else {
        Ok(false)
    }
}

/// `line` with a slash in front, unless it starts with one.
pub open spec fn slashed(line: Seq<char>) -> Seq<char> {
    if line.len() > 0 && line[0] == '/' {
        line
    } else {
        "/"@ + line
    }
}

/// Puts a slash in front of `line`, unless it starts with one.
pub fn with_slash(line: &str) -> (command: String)
    ensures
        command@ == slashed(line@),
{
    proof {
        reveal_strlit("/");
    }
    if starts_with(line, "/") {
        proof {
            assert("/"@.is_prefix_of(line@));
            assert("/"@[0] == line@[0]);
        }
        line.to_owned()
    } else {
        proof {
            if line@.len() > 0 && line@[0] == '/' {
                assert("/"@ =~= line@.subrange(0, 1));
            }
        }
        let mut command = String::from_str("/");
        command.append(line);
        command
    }
}

/// The line that registers a room or ends its registration.
pub open spec fn register_line(room: Seq<char>, registered: bool) -> Seq<char> {
    if registered {
        "/register "@ + room
    } else {
        "/unregister "@ + room
    }
}

/// The line that sets a topic.
pub open spec fn topic_line(room: Seq<char>, topic: Seq<char>) -> Seq<char> {
    "/topic "@ + room + " "@ + topic
}

/// The line that switches a mode on or off.
pub open spec fn mode_line(room: Seq<char>, flag: char, enabled: bool) -> Seq<char> {
    ("/mode "@ + room + if enabled {
        " +"@
    } else {
        " -"@
    }).push(flag)
}

/// The line that sets or clears the key of a room.
pub open spec fn key_line(room: Seq<char>, key: Option<Seq<char>>) -> Seq<char> {
    match key {
        Some(key) => "/mode "@ + room + " +k "@ + key,
        None => "/mode "@ + room + " -k"@,
    }
}

/// The line of a command on a member of a room.
pub open spec fn member_line(command: Seq<char>, room: Seq<char>, target: Seq<char>) -> Seq<char> {
    "/"@ + command + " "@ + room + " "@ + target
}

/// The line of a command on an access list of a room.
pub open spec fn access_line(
    command: Seq<char>,
    room: Seq<char>,
    operation: Seq<char>,
    target: Option<Seq<char>>,
) -> Seq<char> {
    match target {
        Some(target) => "/"@ + command + " "@ + room + " "@ + operation + " "@ + target,
        None => "/"@ + command + " "@ + room + " "@ + operation,
    }
}

} // verus!
