use rs_rrc_client::command::{
    command_room, command_target, command_text, use_resource_for_text, with_slash,
};
use rs_rrc_client::directory::apply_room_state_to_directory;
use rs_rrc_client::link::{reconnect_delay, take_session_id};
use rs_rrc_client::ordered_map::OrderedMap;
use rs_rrc_client::request::{Command, Content, Draft};
use rs_rrc_client::resource::resource_message_kind;
use rs_rrc_client::types::{Capabilities, Limits, RoomState, Welcome};
use rs_rrc_client::wait::{message_matches, served, settle, Answer, Arrival};
use rs_rrc_client::{
    Envelope, Error, Event, Hub, Message, MessageKind, RoomInfo, RoomMode, RrcClient,
};
use std::time::Duration;

const SOURCE: [u8; 16] = [3; 16];
const HUB: [u8; 16] = [7; 16];

fn message() -> Message {
    Message {
        hub: [7; 16],
        room: Some("bots".into()),
        source: Some([8; 16]),
        destination: None,
        nick: Some("helper".into()),
        body: "hello".into(),
        timestamp_ms: 1,
        kind: MessageKind::Message,
    }
}

fn envelope() -> Envelope {
    Envelope {
        message_type: None,
        room: None,
        source: None,
        destination: None,
        nick: None,
        timestamp_ms: None,
        body_text: None,
        body_integer: None,
        room_state: None,
        user_list: None,
        welcome: None,
        resource_descriptor: None,
    }
}

fn welcome(action: bool, direct_notice: bool, resources: bool, limit: Option<usize>) -> Welcome {
    Welcome {
        hub_name: Some("relay".into()),
        capabilities: Capabilities {
            action,
            direct_notice,
            resource_envelope: resources,
        },
        limits: Limits {
            max_message_bytes: limit,
        },
        record: String::new(),
    }
}

fn hub(welcome: Option<Welcome>) -> Hub {
    Hub {
        destination_hash: HUB,
        name: None,
        nick: None,
        welcome,
        connected: true,
        rooms: Vec::new(),
        public_rooms: Vec::new(),
        room_states: OrderedMap::new(),
        room_users: OrderedMap::new(),
        detail: String::new(),
    }
}

fn line(draft: Result<Draft, Error>) -> (Option<String>, String) {
    match draft {
        Ok(Draft {
            source,
            content: Content::Command { room, line },
        }) => {
            assert_eq!(source, SOURCE);
            (room, line)
        }
        other => panic!("no command: {:?}", other),
    }
}

fn rust() -> Option<String> {
    Some("rust".to_string())
}

#[test]
fn message_filters_are_optional_and_exact() {
    let message = message();
    assert!(message_matches(&message, None, None));
    assert!(message_matches(&message, Some([7; 16]), Some("bots")));
    assert!(!message_matches(&message, Some([9; 16]), Some("bots")));
    assert!(!message_matches(&message, Some([7; 16]), Some("other")));
}

#[test]
fn recognizes_text_resource_kinds() {
    assert_eq!(resource_message_kind("NOTICE"), Some(MessageKind::Notice));
    assert_eq!(resource_message_kind("binary"), None);
}

#[test]
fn session_ids_never_wrap_to_zero() {
    let mut next = u64::MAX;
    assert_eq!(take_session_id(&mut next), u64::MAX);
    assert_eq!(next, 1);
    assert_eq!(take_session_id(&mut next), 1);
}

#[test]
fn reconnect_backoff_is_bounded() {
    assert_eq!(Duration::from_secs(reconnect_delay(1)), Duration::from_secs(1));
    assert_eq!(Duration::from_secs(reconnect_delay(4)), Duration::from_secs(8));
    assert_eq!(Duration::from_secs(reconnect_delay(100)), Duration::from_secs(64));
}

#[test]
fn command_arguments_reject_injection_and_normalize_rooms() {
    // " #Rust " normalizes to "rust", and "bad room" does not normalize.
    assert_eq!(command_room(Some("rust".to_string())).unwrap(), "rust");
    assert!(matches!(command_room(None), Err(Error::InvalidRoom)));
    assert_eq!(command_target("alice").unwrap(), "alice");
    assert!(matches!(
        command_target("alice /kick rust bob"),
        Err(Error::InvalidTarget)
    ));
    assert_eq!(command_text(" Room topic ").unwrap(), "Room topic");
    assert!(matches!(
        command_text("topic\n/kick rust bob"),
        Err(Error::InvalidMessage)
    ));
}

#[test]
fn text_transport_respects_welcome_capabilities_and_limits() {
    assert!(!use_resource_for_text(300, true, 350).unwrap());
    assert!(use_resource_for_text(301, true, 350).unwrap());
    assert!(use_resource_for_text(201, true, 200).unwrap());
    assert!(!use_resource_for_text(300, false, 350).unwrap());
    assert!(matches!(
        use_resource_for_text(351, false, 350),
        Err(Error::ResourcesUnsupported)
    ));
}

#[test]
fn structured_room_state_keeps_public_directory_current() {
    let mut rooms = vec![RoomInfo {
        name: "zeta".into(),
        topic: None,
    }];
    let registered = RoomState {
        registered: true,
        modes: "+r".into(),
        topic: Some("Rust".into()),
    };
    assert!(apply_room_state_to_directory(
        &mut rooms,
        "alpha",
        &registered
    ));
    assert_eq!(
        rooms,
        vec![
            RoomInfo {
                name: "alpha".into(),
                topic: Some("Rust".into()),
            },
            RoomInfo {
                name: "zeta".into(),
                topic: None,
            },
        ]
    );
    assert!(!apply_room_state_to_directory(
        &mut rooms,
        "alpha",
        &registered
    ));

    let unregistered = RoomState {
        registered: false,
        modes: "(none)".into(),
        topic: None,
    };
    assert!(apply_room_state_to_directory(
        &mut rooms,
        "alpha",
        &unregistered
    ));
    assert_eq!(rooms.len(), 1);
}

#[test]
fn a_changed_topic_is_taken_over() {
    let mut rooms = vec![
        RoomInfo {
            name: "zeta".into(),
            topic: None,
        },
        RoomInfo {
            name: "alpha".into(),
            topic: Some("old".into()),
        },
    ];
    let state = RoomState {
        registered: true,
        modes: String::new(),
        topic: Some("new".into()),
    };
    assert!(apply_room_state_to_directory(&mut rooms, "alpha", &state));
    assert_eq!(rooms[1].topic.as_deref(), Some("new"));
    assert_eq!(rooms[0].name, "zeta");
    let gone = RoomState {
        registered: false,
        modes: String::new(),
        topic: None,
    };
    assert!(!apply_room_state_to_directory(&mut rooms, "omega", &gone));
    assert_eq!(rooms.len(), 2);
}

#[test]
fn the_directory_is_sorted_when_it_grows() {
    let mut rooms = Vec::new();
    let state = RoomState {
        registered: true,
        modes: String::new(),
        topic: None,
    };
    for name in ["b", "\u{e9}", "Z", "a", "ab", "\u{1f600}"] {
        assert!(apply_room_state_to_directory(&mut rooms, name, &state));
    }
    let mut expected = vec!["b", "\u{e9}", "Z", "a", "ab", "\u{1f600}"];
    expected.sort();
    let names: Vec<&str> = rooms.iter().map(|room| room.name.as_str()).collect();
    assert_eq!(names, expected);
}

#[test]
fn backoff_doubles_and_stops() {
    let pauses: Vec<u64> = (0..10).map(reconnect_delay).collect();
    assert_eq!(pauses, vec![1, 1, 2, 4, 8, 16, 32, 64, 64, 64]);
    assert_eq!(reconnect_delay(u32::MAX), 64);
}

#[test]
fn resource_kinds_are_read_without_case() {
    assert_eq!(resource_message_kind("Message"), Some(MessageKind::Message));
    assert_eq!(resource_message_kind("msg"), Some(MessageKind::Message));
    assert_eq!(resource_message_kind("ACTION"), Some(MessageKind::Action));
    assert_eq!(resource_message_kind("error"), Some(MessageKind::Error));
    assert_eq!(resource_message_kind(" error"), None);
    assert_eq!(resource_message_kind(""), None);
}

#[test]
fn targets_are_one_word_of_bounded_size() {
    assert_eq!(command_target("  bob\t").unwrap(), "bob");
    assert_eq!(command_target(""), Err(Error::InvalidTarget));
    assert_eq!(command_target(" \u{3000} "), Err(Error::InvalidTarget));
    assert_eq!(command_target("a\0b"), Err(Error::InvalidTarget));
    assert_eq!(command_target("a\u{a0}b"), Err(Error::InvalidTarget));
    assert!(command_target(&"x".repeat(128)).is_ok());
    assert!(command_target(&"x".repeat(129)).is_err());
    assert!(command_target(&"\u{e9}".repeat(64)).is_ok());
    assert!(command_target(&"\u{e9}".repeat(65)).is_err());
}

#[test]
fn texts_are_one_line_of_bounded_size() {
    assert_eq!(command_text("a b\tc").unwrap(), "a b\tc");
    assert_eq!(command_text("  "), Err(Error::InvalidMessage));
    assert_eq!(command_text("a\0b"), Err(Error::InvalidMessage));
    assert_eq!(command_text("a\rb"), Err(Error::InvalidMessage));
    assert_eq!(command_text("topic\n").unwrap(), "topic");
    assert!(command_text(&"x".repeat(16_384)).is_ok());
    assert!(command_text(&"x".repeat(16_385)).is_err());
}

#[test]
fn slashes_are_put_in_front_once() {
    assert_eq!(with_slash("list"), "/list");
    assert_eq!(with_slash("/list"), "/list");
    assert_eq!(with_slash("//list"), "//list");
    assert_eq!(with_slash(""), "/");
}

#[test]
fn query_numbers_start_at_one_and_skip_zero() {
    let mut client = RrcClient::new(SOURCE);
    assert_eq!(client.next_query_id(), 1);
    assert_eq!(client.next_query_id(), 2);
    client.query_ids = u64::MAX;
    assert_eq!(client.next_query_id(), u64::MAX);
    assert_eq!(client.query_ids, 0);
    assert_eq!(client.next_query_id(), 1);
    assert_eq!(client.next_query_id(), 1);
    assert_eq!(client.next_query_id(), 2);
}

#[test]
fn plain_requests_say_what_they_ask() {
    let mut client = RrcClient::new(SOURCE);
    assert_eq!(
        client.connect(HUB, Some("bob")),
        Command::Connect {
            destination: HUB,
            nick: Some("bob".into())
        }
    );
    assert_eq!(client.disconnect(HUB), Command::Disconnect { destination: HUB });
    assert_eq!(client.hubs(), Command::Hubs);
    assert_eq!(client.shutdown(), Command::Shutdown);
    assert_eq!(client.set_nick(HUB, None), Err(Error::InvalidMessage));
    assert_eq!(
        client.set_nick(HUB, Some("eve".into())),
        Ok(Command::SetNick {
            destination: HUB,
            nick: "eve".into()
        })
    );
    assert_eq!(
        client.list_rooms(HUB),
        Command::ListRooms {
            destination: HUB,
            query_id: 1
        }
    );
    assert_eq!(client.list_users(HUB, None), Err(Error::InvalidRoom));
    assert_eq!(
        client.list_users(HUB, rust()),
        Ok(Command::ListUsers {
            destination: HUB,
            room: "rust".into(),
            query_id: 2
        })
    );
    assert_eq!(
        client.ping(HUB),
        Command::Ping {
            destination: HUB,
            query_id: 3
        }
    );
    assert_eq!(
        client.send_envelope(HUB, envelope()),
        Command::Send {
            destination: HUB,
            envelope: envelope()
        }
    );
}

#[test]
fn administration_lines_are_exact() {
    let client = RrcClient::new(SOURCE);
    let cases = [
        (line(client.register_room(rust(), true)), "/register rust"),
        (line(client.register_room(rust(), false)), "/unregister rust"),
        (line(client.set_topic(rust(), " New topic ")), "/topic rust New topic"),
        (
            line(client.set_room_mode(rust(), RoomMode::Moderated, true)),
            "/mode rust +m",
        ),
        (
            line(client.set_room_mode(rust(), RoomMode::InviteOnly, false)),
            "/mode rust -i",
        ),
        (
            line(client.set_room_mode(rust(), RoomMode::TopicOperatorsOnly, true)),
            "/mode rust +t",
        ),
        (
            line(client.set_room_mode(rust(), RoomMode::NoOutsideMessages, true)),
            "/mode rust +n",
        ),
        (
            line(client.set_room_mode(rust(), RoomMode::Private, false)),
            "/mode rust -p",
        ),
        (line(client.set_room_key(rust(), Some(" secret "))), "/mode rust +k secret"),
        (line(client.set_room_key(rust(), None)), "/mode rust -k"),
        (line(client.set_operator(rust(), "bob", true)), "/op rust bob"),
        (line(client.set_operator(rust(), "bob", false)), "/deop rust bob"),
        (line(client.set_voice(rust(), "bob", true)), "/voice rust bob"),
        (line(client.set_voice(rust(), "bob", false)), "/devoice rust bob"),
        (line(client.kick(rust(), "bob")), "/kick rust bob"),
        (line(client.invite(rust(), "bob")), "/invite rust add bob"),
        (line(client.revoke_invite(rust(), "bob")), "/invite rust del bob"),
        (line(client.ban(rust(), "bob")), "/ban rust add bob"),
        (line(client.unban(rust(), "bob")), "/ban rust del bob"),
        (line(client.list_invites(rust())), "/invite rust list"),
        (line(client.list_bans(rust())), "/ban rust list"),
        (line(Ok(client.send_command(Some("rust"), "custom x"))), "/custom x"),
    ];
    for ((room, line), expected) in cases {
        assert_eq!(room.as_deref(), Some("rust"));
        assert_eq!(line, expected);
        assert!(!line.contains(['\0', '\r', '\n']));
    }
}

#[test]
fn administration_refuses_bad_arguments() {
    let client = RrcClient::new(SOURCE);
    assert_eq!(client.register_room(None, true), Err(Error::InvalidRoom));
    assert_eq!(client.set_topic(None, ""), Err(Error::InvalidRoom));
    assert_eq!(client.set_topic(rust(), ""), Err(Error::InvalidMessage));
    assert_eq!(client.set_room_key(rust(), Some("a\nb")), Err(Error::InvalidMessage));
    assert_eq!(client.kick(rust(), "a b"), Err(Error::InvalidTarget));
    assert_eq!(client.kick(None, "a b"), Err(Error::InvalidRoom));
    assert_eq!(client.ban(rust(), ""), Err(Error::InvalidTarget));
    assert_eq!(client.list_bans(None), Err(Error::InvalidRoom));
}

#[test]
fn text_goes_the_way_that_the_hub_takes() {
    let client = RrcClient::new(SOURCE);
    let hubs = vec![hub(Some(welcome(true, true, true, Some(350))))];
    assert_eq!(
        client.send_message(&hubs, HUB, "rust", "hi"),
        Ok(Draft {
            source: SOURCE,
            content: Content::Message {
                room: "rust".into(),
                body: "hi".into(),
                action: false
            }
        })
    );
    let long = "\u{e9}".repeat(151);
    assert_eq!(
        client.send_action(&hubs, HUB, "rust", &long),
        Ok(Draft {
            source: SOURCE,
            content: Content::Resource {
                room: Some("rust".into()),
                kind: "action".into(),
                data: long.as_bytes().to_vec(),
                encoding: Some("utf-8".into())
            }
        })
    );
    let plain = vec![hub(Some(welcome(false, false, false, Some(10))))];
    assert_eq!(
        client.send_message(&plain, HUB, "rust", "elevenchars"),
        Err(Error::ResourcesUnsupported)
    );
    assert!(client.send_message(&plain, HUB, "rust", "tencharact").is_ok());
    assert_eq!(
        client.send_action(&plain, HUB, "rust", "hi"),
        Err(Error::ActionsUnsupported)
    );
    let silent = vec![hub(None)];
    assert!(client.send_message(&silent, HUB, "rust", &"x".repeat(16_384)).is_ok());
    assert_eq!(
        client.send_message(&silent, HUB, "rust", &"x".repeat(16_385)),
        Err(Error::ResourcesUnsupported)
    );
}

#[test]
fn sending_needs_a_live_session() {
    let client = RrcClient::new(SOURCE);
    let mut down = hub(Some(welcome(true, true, true, None)));
    down.connected = false;
    let hubs = vec![down];
    assert_eq!(client.send_message(&hubs, HUB, "rust", "hi"), Err(Error::NotConnected));
    assert_eq!(
        client.send_direct_notice(&hubs, HUB, [1; 16], "hi"),
        Err(Error::NotConnected)
    );
    assert_eq!(
        client.send_resource(&Vec::new(), HUB, None, "blob", vec![1], None),
        Err(Error::NotConnected)
    );
}

#[test]
fn direct_notices_and_resources_respect_the_hub() {
    let client = RrcClient::new(SOURCE);
    let able = vec![hub(Some(welcome(false, true, true, Some(3))))];
    assert_eq!(
        client.send_direct_notice(&able, HUB, [1; 16], "abc"),
        Ok(Draft {
            source: SOURCE,
            content: Content::DirectNotice {
                target: [1; 16],
                body: "abc".into()
            }
        })
    );
    assert_eq!(
        client.send_direct_notice(&able, HUB, [1; 16], "abcd"),
        Err(Error::InvalidMessage)
    );
    assert_eq!(
        client.send_resource(&able, HUB, Some("bots"), "blob", vec![0x42; 4096], None),
        Ok(Draft {
            source: SOURCE,
            content: Content::Resource {
                room: Some("bots".into()),
                kind: "blob".into(),
                data: vec![0x42; 4096],
                encoding: None
            }
        })
    );
    let unable = vec![hub(Some(welcome(true, false, false, None)))];
    assert_eq!(
        client.send_direct_notice(&unable, HUB, [1; 16], "abc"),
        Err(Error::DirectNoticesUnsupported)
    );
    assert_eq!(
        client.send_resource(&unable, HUB, None, "blob", vec![1], None),
        Err(Error::ResourcesUnsupported)
    );
}

#[test]
fn drafts_that_cannot_be_built_are_refused_by_kind() {
    let client = RrcClient::new(SOURCE);
    assert_eq!(
        client.submit(HUB, client.join("bad room", None), None),
        Err(Error::InvalidRoom)
    );
    assert_eq!(client.submit(HUB, client.part(""), None), Err(Error::InvalidRoom));
    assert_eq!(
        client.submit(HUB, client.send_command(None, "x"), None),
        Err(Error::InvalidMessage)
    );
    let hubs = vec![hub(Some(welcome(true, true, true, None)))];
    let draft = client
        .send_resource(&hubs, HUB, None, "blob", vec![1, 2], None)
        .unwrap();
    assert_eq!(client.submit(HUB, draft, None), Err(Error::InvalidResource));
    let draft = client
        .send_resource(&hubs, HUB, None, "blob", vec![1, 2], None)
        .unwrap();
    assert_eq!(
        client.submit(HUB, draft, Some(envelope())),
        Ok(Command::SendResource {
            destination: HUB,
            envelope: envelope(),
            data: vec![1, 2]
        })
    );
    assert_eq!(
        client.submit(HUB, client.join("rust", Some("k")), Some(envelope())),
        Ok(Command::Send {
            destination: HUB,
            envelope: envelope()
        })
    );
}

#[test]
fn waits_for_a_hub_end_at_the_greeting() {
    let client = RrcClient::new(SOURCE);
    let wait = client.wait_until_connected(HUB);
    let mut known = hub(None);
    assert!(wait.begin(&client, &vec![known.clone()]).is_none());
    assert!(wait
        .step(Arrival::Event(Event::HubChanged(known.clone())))
        .is_none());
    known.name = Some("relay".into());
    assert_eq!(wait.begin(&client, &vec![known.clone()]), Some(known.clone()));
    assert_eq!(
        wait.step(Arrival::Event(Event::HubChanged(known.clone()))),
        Some(Ok(known.clone()))
    );
    known.connected = false;
    assert!(wait.step(Arrival::Event(Event::HubChanged(known))).is_none());
    assert_eq!(wait.step(Arrival::Lagged(4)), Some(Err(Error::EventLagged(4))));
    assert_eq!(wait.step(Arrival::Closed), Some(Err(Error::Stopped)));
    assert_eq!(wait.step(Arrival::TimedOut), Some(Err(Error::Timeout)));
}

#[test]
fn waits_for_a_room_use_its_plain_name() {
    let client = RrcClient::new(SOURCE);
    let wait = client.wait_until_joined(HUB, "  ##Rust ");
    assert_eq!(wait.room.as_deref(), Some("rust"));
    let mut known = hub(None);
    assert!(wait.begin(&client, &vec![known.clone()]).is_none());
    known.rooms = vec!["other".into(), "rust".into()];
    known.connected = false;
    assert_eq!(wait.begin(&client, &vec![known.clone()]), Some(known.clone()));
    assert_eq!(
        wait.step(Arrival::Event(Event::HubChanged(known.clone()))),
        Some(Ok(known.clone()))
    );
    known.destination_hash = [1; 16];
    assert!(wait.step(Arrival::Event(Event::HubChanged(known))).is_none());
    assert!(wait.step(Arrival::Event(Event::Message(message()))).is_none());
}

#[test]
fn waits_for_a_message_apply_their_filters() {
    let client = RrcClient::new(SOURCE);
    let wait = client.wait_for_message(Some(HUB), Some("#BOTS"));
    assert_eq!(
        wait.step(Arrival::Event(Event::Message(message()))),
        Some(Ok(message()))
    );
    let other = client.wait_for_message(None, Some("other"));
    assert!(other.step(Arrival::Event(Event::Message(message()))).is_none());
    let any = client.wait_for_message(None, None);
    let mut roomless = message();
    roomless.room = None;
    assert!(wait
        .step(Arrival::Event(Event::Message(roomless.clone())))
        .is_none());
    assert_eq!(
        any.step(Arrival::Event(Event::Message(roomless.clone()))),
        Some(Ok(roomless))
    );
    assert_eq!(any.step(Arrival::Closed), Some(Err(Error::Stopped)));
    assert_eq!(any.step(Arrival::TimedOut), Some(Err(Error::Timeout)));
    assert_eq!(any.step(Arrival::Lagged(1)), Some(Err(Error::EventLagged(1))));
}

#[test]
fn a_wait_ends_with_the_first_arrival_that_ends_it() {
    let client = RrcClient::new(SOURCE);
    let wait = client.wait_until_connected(HUB);
    let mut greeted = hub(None);
    greeted.name = Some("relay".into());
    let mut arrivals = vec![
        Arrival::Event(Event::Message(message())),
        Arrival::Event(Event::HubChanged(hub(None))),
        Arrival::Event(Event::HubChanged(greeted.clone())),
        Arrival::Closed,
    ]
    .into_iter();
    let end = loop {
        match arrivals.next() {
            Some(arrival) => {
                if let Some(end) = wait.step(arrival) {
                    break Some(end);
                }
            }
            None => break None,
        }
    };
    assert_eq!(end, Some(Ok(greeted)));
    assert_eq!(arrivals.next(), Some(Arrival::Closed));
}

#[test]
fn queries_that_time_out_are_cancelled() {
    assert_eq!(settle(4, Answer::Given(Ok(5u64))), (Ok(5), None));
    assert_eq!(
        settle::<u64>(4, Answer::Given(Err(Error::NotConnected))),
        (Err(Error::NotConnected), None)
    );
    assert_eq!(settle::<u64>(4, Answer::Dropped), (Err(Error::Stopped), None));
    assert_eq!(
        settle::<u64>(4, Answer::TimedOut),
        (Err(Error::Timeout), Some(Command::CancelQuery { query_id: 4 }))
    );
    assert_eq!(served(Some(Ok(1u64))), Ok(1));
    assert_eq!(served::<u64>(None), Err(Error::Stopped));
}

#[test]
fn errors_read_as_sentences() {
    let texts = [
        (Error::Stopped, "RRC client has stopped"),
        (Error::NotConnected, "hub is not connected"),
        (Error::UnknownIdentity, "hub identity is not known"),
        (Error::InvalidRoom, "invalid room name"),
        (Error::InvalidTarget, "invalid RRC command target"),
        (Error::InvalidMessage, "invalid RRC message"),
        (Error::InvalidResource, "invalid RRC resource"),
        (
            Error::ResourcesUnsupported,
            "RRC hub does not support resource envelopes",
        ),
        (Error::ActionsUnsupported, "RRC hub does not support actions"),
        (
            Error::DirectNoticesUnsupported,
            "RRC hub does not support direct notices",
        ),
        (Error::Timeout, "timed out waiting for an RRC event"),
        (
            Error::EventLagged(1204),
            "RRC event receiver lagged by 1204 events",
        ),
        (Error::EventLagged(0), "RRC event receiver lagged by 0 events"),
        (Error::Transport("no route".into()), "no route"),
    ];
    for (error, text) in texts {
        assert_eq!(error.text(), text);
    }
}

#[test]
fn the_directory_lists_no_room_twice() {
    let mut rooms = Vec::new();
    let state = RoomState {
        registered: true,
        modes: String::new(),
        topic: None,
    };
    for name in ["b", "a", "b", "a"] {
        apply_room_state_to_directory(&mut rooms, name, &state);
    }
    assert_eq!(rooms.len(), 2);
}
