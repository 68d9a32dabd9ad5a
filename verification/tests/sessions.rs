use rs_rrc_client::actor::{stops, Actor};
use rs_rrc_client::delivery::{inspect_resource, judge_resource};
use rs_rrc_client::effect::{
    Delivery, Effect, Fetched, JoinAttempt, NoticeReading, Received, Released, Reply, Work,
};
use rs_rrc_client::inbound::read_identity;
use rs_rrc_client::link::{
    advance_link, advance_resource, first_resource_step, first_step, LinkProgress, LinkReply,
    LinkStep, ResourceProgress, ResourceStep,
};
use rs_rrc_client::request::{Command, Content, Draft};
use rs_rrc_client::resource::resource_text;
use rs_rrc_client::types::{
    Capabilities, Limits, MessageType, ResourceDescriptor, RoomState, Welcome,
};
use rs_rrc_client::{
    Envelope, Error, Event, Hub, Message, MessageKind, Resource, RoomInfo, RrcClient, UserInfo,
};

const SOURCE: [u8; 16] = [3; 16];
const HUB: [u8; 16] = [7; 16];
const OTHER: [u8; 16] = [2; 16];

const ABC_SHA256: [u8; 32] = [
    0xba, 0x78, 0x16, 0xbf, 0x8f, 0x01, 0xcf, 0xea, 0x41, 0x41, 0x40, 0xde, 0x5d, 0xae, 0x22, 0x23,
    0xb0, 0x03, 0x61, 0xa3, 0x96, 0x17, 0x7a, 0x9c, 0xb4, 0x10, 0xff, 0x61, 0xf2, 0x00, 0x15, 0xad,
];

fn envelope(message_type: MessageType) -> Envelope {
    Envelope {
        message_type: Some(message_type),
        room: None,
        source: Some([9; 16]),
        destination: None,
        nick: Some("bob".into()),
        timestamp_ms: Some(12),
        body_text: None,
        body_integer: None,
        room_state: None,
        user_list: None,
        welcome: None,
        resource_descriptor: None,
    }
}

fn in_room(message_type: MessageType, room: &str) -> Envelope {
    let mut envelope = envelope(message_type);
    envelope.room = Some(room.into());
    envelope
}

fn no_reading() -> NoticeReading {
    NoticeReading {
        rooms: None,
        who: None,
    }
}

fn received(envelope: &Envelope) -> Received {
    Received::Envelope {
        envelope: envelope.clone(),
        reading: no_reading(),
    }
}

fn welcome() -> Welcome {
    Welcome {
        hub_name: Some("relay".into()),
        capabilities: Capabilities {
            action: true,
            direct_notice: false,
            resource_envelope: true,
        },
        limits: Limits {
            max_message_bytes: Some(350),
        },
        record: "1".into(),
    }
}

fn room(name: &str) -> RoomInfo {
    RoomInfo {
        name: name.into(),
        topic: None,
    }
}

fn user(nick: &str) -> UserInfo {
    UserInfo {
        nick: Some(nick.into()),
        record: String::new(),
    }
}

fn connected() -> Actor {
    let mut actor = Actor::new(SOURCE);
    actor.handle_command(Command::Connect {
        destination: HUB,
        nick: Some("me".into()),
    });
    actor.finish_connect(HUB, 1, Some("me".into()), Ok(()));
    actor
}

fn known(actor: &Actor, destination: [u8; 16]) -> Hub {
    actor
        .known_hubs()
        .into_iter()
        .find(|hub| hub.destination_hash == destination)
        .unwrap()
}

fn passed_on(envelope: &Envelope) -> Effect {
    Effect::Emit(Event::Envelope {
        hub: HUB,
        envelope: envelope.clone(),
    })
}

fn changed(actor: &Actor) -> Effect {
    Effect::Emit(Event::HubChanged(known(actor, HUB)))
}

fn message(envelope: &Envelope, kind: MessageKind) -> Message {
    Message {
        hub: HUB,
        room: envelope.room.clone(),
        source: envelope.source,
        destination: None,
        nick: envelope.nick.clone(),
        body: envelope.body_text.clone().unwrap_or_default(),
        timestamp_ms: 12,
        kind,
    }
}

fn sent(actor: &mut Actor, envelope: &Envelope) {
    actor.finish_send(HUB, 1, envelope, Ok(()));
}

#[test]
fn the_way_to_a_session_has_five_steps() {
    let mut step = first_step();
    let mut steps = vec![step];
    loop {
        let reply = if step == LinkStep::Recall {
            LinkReply::Recalled { known: true }
        } else {
            LinkReply::Done
        };
        match advance_link(step, reply) {
            LinkProgress::Next(next) => {
                steps.push(next);
                step = next;
            }
            progress => {
                assert_eq!(progress, LinkProgress::Open);
                break;
            }
        }
    }
    assert_eq!(
        steps,
        vec![
            LinkStep::RequestPath,
            LinkStep::AwaitPath,
            LinkStep::Recall,
            LinkStep::Identify,
            LinkStep::Hello
        ]
    );
    assert_eq!(
        advance_link(LinkStep::AwaitPath, LinkReply::Failed("no path".into())),
        LinkProgress::Failed(Error::Transport("no path".into()))
    );
    assert_eq!(
        advance_link(LinkStep::Recall, LinkReply::Recalled { known: false }),
        LinkProgress::Failed(Error::UnknownIdentity)
    );
    assert_eq!(
        advance_link(LinkStep::Recall, LinkReply::Failed("x".into())),
        LinkProgress::Failed(Error::UnknownIdentity)
    );
}

#[test]
fn the_first_failing_step_says_why_there_is_no_session() {
    let replies = vec![
        LinkReply::Done,
        LinkReply::Done,
        LinkReply::Recalled { known: true },
        LinkReply::Failed("refused".into()),
        LinkReply::Failed("late".into()),
    ];
    let mut step = first_step();
    let mut taken = 0;
    let mut error = None;
    for reply in replies {
        taken += 1;
        match advance_link(step, reply) {
            LinkProgress::Next(next) => step = next,
            LinkProgress::Open => break,
            LinkProgress::Failed(why) => {
                error = Some(why);
                break;
            }
        }
    }
    assert_eq!(taken, 4);
    assert_eq!(error, Some(Error::Transport("refused".into())));
}

#[test]
fn connecting_opens_a_fresh_session() {
    let mut actor = Actor::new(SOURCE);
    assert_eq!(
        actor.handle_command(Command::Connect {
            destination: HUB,
            nick: Some("me".into())
        }),
        vec![Effect::Perform(Work::Open {
            destination: HUB,
            session_id: 1,
            nick: Some("me".into())
        })]
    );
    assert_eq!(actor.next_session_id, 2);
    let effects = actor.finish_connect(HUB, 1, Some("me".into()), Ok(()));
    let hub = known(&actor, HUB);
    assert_eq!(
        effects,
        vec![
            Effect::Emit(Event::HubChanged(hub.clone())),
            Effect::Reply(Reply::Hub(hub.clone()))
        ]
    );
    assert!(hub.connected);
    assert_eq!(hub.detail, "Waiting for WELCOME");
    assert_eq!(hub.nick.as_deref(), Some("me"));
    assert!(hub.welcome.is_none());
}

#[test]
fn failing_to_connect_leaves_no_session() {
    let mut actor = Actor::new(SOURCE);
    assert_eq!(
        actor.finish_connect(HUB, 1, None, Err(Error::UnknownIdentity)),
        vec![Effect::Reply(Reply::Failed(Error::UnknownIdentity))]
    );
    assert!(actor.known_hubs().is_empty());
}

#[test]
fn a_new_session_replaces_the_one_before() {
    let mut actor = connected();
    actor.finish_list_rooms(HUB, 1, 11, Ok(()));
    actor.finish_list_users(HUB, 1, "rust".into(), 12, Ok(()));
    actor.finish_ping(HUB, 1, 13, Ok(()));
    let effects = actor.finish_connect(HUB, 2, None, Ok(()));
    assert_eq!(effects[0], Effect::Close { session_id: 1 });
    assert_eq!(
        effects[1],
        Effect::Release(Released {
            query_ids: vec![11, 12, 13]
        })
    );
    assert_eq!(effects.len(), 4);
    assert_eq!(actor.open_sessions(), vec![2]);
}

#[test]
fn hubs_are_listed_in_order_and_sessions_closed_in_order() {
    let mut actor = connected();
    actor.finish_connect(OTHER, 5, None, Ok(()));
    actor.finish_connect([8; 16], 4, None, Ok(()));
    let effects = actor.handle_command(Command::Hubs);
    let hubs: Vec<[u8; 16]> = match &effects[..] {
        [Effect::Reply(Reply::Hubs(hubs))] => hubs.iter().map(|h| h.destination_hash).collect(),
        other => panic!("{:?}", other),
    };
    assert_eq!(hubs, vec![OTHER, HUB, [8; 16]]);
    assert_eq!(actor.open_sessions(), vec![5, 1, 4]);
    let before = actor.known_hubs();
    let effects = actor.handle_command(Command::Shutdown);
    assert_eq!(effects, vec![Effect::Stop]);
    assert!(stops(&effects));
    assert_eq!(actor.known_hubs(), before);
    let effects = actor.handle_command(Command::Disconnect { destination: HUB });
    assert!(!stops(&effects));
    assert!(!stops(&Vec::new()));
}

#[test]
fn a_greeting_carries_the_identity_and_the_nickname() {
    let actor = Actor::new(SOURCE);
    for nick in [None, Some("me".to_string())] {
        assert_eq!(
            actor.hello(nick.clone()),
            Draft {
                source: SOURCE,
                content: Content::Hello { nick }
            }
        );
    }
}

#[test]
fn bytes_are_sent_only_where_they_were_announced() {
    let gone = || Error::Transport("gone".into());
    assert_eq!(first_resource_step(), ResourceStep::Announce);
    assert_eq!(
        advance_resource(ResourceStep::Announce, Err(gone())),
        ResourceProgress::Ended(Err(gone()))
    );
    assert_eq!(
        advance_resource(ResourceStep::Announce, Ok(())),
        ResourceProgress::Next(ResourceStep::Transfer)
    );
    assert_eq!(
        advance_resource(ResourceStep::Transfer, Err(gone())),
        ResourceProgress::Ended(Err(gone()))
    );
    assert_eq!(
        advance_resource(ResourceStep::Transfer, Ok(())),
        ResourceProgress::Ended(Ok(()))
    );
}

#[test]
fn requests_without_a_session_are_refused() {
    let mut actor = Actor::new(SOURCE);
    let failed = vec![Effect::Reply(Reply::Failed(Error::NotConnected))];
    let text = envelope(MessageType::Message);
    assert_eq!(
        actor.handle_command(Command::Send {
            destination: HUB,
            envelope: text.clone()
        }),
        failed
    );
    assert_eq!(
        actor.handle_command(Command::SendResource {
            destination: HUB,
            envelope: text,
            data: vec![1]
        }),
        failed
    );
    assert_eq!(
        actor.handle_command(Command::Disconnect { destination: HUB }),
        failed
    );
    assert_eq!(
        actor.handle_command(Command::SetNick {
            destination: HUB,
            nick: "x".into()
        }),
        failed
    );
    let refused = vec![Effect::Refuse {
        query_id: 6,
        error: Error::NotConnected,
    }];
    assert_eq!(
        actor.handle_command(Command::ListRooms {
            destination: HUB,
            query_id: 6
        }),
        refused
    );
    assert_eq!(
        actor.handle_command(Command::ListUsers {
            destination: HUB,
            room: "rust".into(),
            query_id: 6
        }),
        refused
    );
    assert_eq!(
        actor.handle_command(Command::Ping {
            destination: HUB,
            query_id: 6
        }),
        refused
    );
}

#[test]
fn envelopes_are_stamped_by_type() {
    let mut actor = connected();
    let cases = [
        (MessageType::Join, true),
        (MessageType::Message, true),
        (MessageType::Notice, true),
        (MessageType::Action, true),
        (MessageType::Part, false),
        (MessageType::Ping, false),
        (MessageType::Other, false),
    ];
    for (message_type, stamped) in cases {
        let text = in_room(message_type, "rust");
        assert_eq!(
            actor.handle_command(Command::Send {
                destination: HUB,
                envelope: text.clone()
            }),
            vec![Effect::Perform(Work::Send {
                destination: HUB,
                session_id: 1,
                source: SOURCE,
                nick: if stamped { Some("me".into()) } else { None },
                envelope: text
            })]
        );
    }
    let text = in_room(MessageType::ResourceEnvelope, "rust");
    assert_eq!(
        actor.handle_command(Command::SendResource {
            destination: HUB,
            envelope: text.clone(),
            data: vec![1, 2]
        }),
        vec![Effect::Perform(Work::SendResource {
            session_id: 1,
            source: SOURCE,
            envelope: text,
            data: vec![1, 2]
        })]
    );
    assert_eq!(
        actor.finish_send_resource(Err(Error::Transport("gone".into()))),
        vec![Effect::Reply(Reply::Failed(Error::Transport("gone".into())))]
    );
    assert_eq!(
        actor.finish_send_resource(Ok(())),
        vec![Effect::Reply(Reply::Done)]
    );
}

#[test]
fn a_new_nickname_is_used() {
    let mut actor = connected();
    let effects = actor.handle_command(Command::SetNick {
        destination: HUB,
        nick: "you".into(),
    });
    let hub = known(&actor, HUB);
    assert_eq!(hub.nick.as_deref(), Some("you"));
    assert_eq!(
        effects,
        vec![
            Effect::Emit(Event::HubChanged(hub.clone())),
            Effect::Reply(Reply::Hub(hub))
        ]
    );
    match &actor.handle_command(Command::Send {
        destination: HUB,
        envelope: envelope(MessageType::Message),
    })[..]
    {
        [Effect::Perform(Work::Send { nick, .. })] => assert_eq!(nick.as_deref(), Some("you")),
        other => panic!("{:?}", other),
    }
}

#[test]
fn joined_rooms_are_desired_until_left() {
    let mut actor = connected();
    let mut join = in_room(MessageType::Join, "rust");
    join.body_text = Some("key".into());
    assert_eq!(
        actor.finish_send(HUB, 1, &join, Err(Error::Transport("x".into()))),
        vec![Effect::Reply(Reply::Failed(Error::Transport("x".into())))]
    );
    let desired = |actor: &Actor| {
        actor
            .sessions
            .get(&HUB)
            .unwrap()
            .desired_rooms
            .get(&"rust".to_string())
            .cloned()
    };
    assert_eq!(desired(&actor), None);
    assert_eq!(
        actor.finish_send(HUB, 1, &join, Ok(())),
        vec![Effect::Reply(Reply::Done)]
    );
    assert_eq!(desired(&actor), Some(Some("key".to_string())));
    sent(&mut actor, &in_room(MessageType::Message, "rust"));
    assert_eq!(desired(&actor), Some(Some("key".to_string())));
    sent(&mut actor, &in_room(MessageType::Part, "rust"));
    assert_eq!(desired(&actor), None);
}

#[test]
fn disconnecting_ends_the_session() {
    let mut actor = connected();
    actor.finish_ping(HUB, 1, 4, Ok(()));
    let mut hub = known(&actor, HUB);
    hub.connected = false;
    hub.detail = "Disconnected".into();
    let released = Released { query_ids: vec![4] };
    assert_eq!(
        actor.handle_command(Command::Disconnect { destination: HUB }),
        vec![
            Effect::Emit(Event::HubChanged(hub)),
            Effect::Perform(Work::Disconnect {
                session_id: 1,
                released: Released { query_ids: vec![4] }
            })
        ]
    );
    assert_eq!(
        actor.finish_disconnect(released, Ok(())),
        vec![
            Effect::Release(Released { query_ids: vec![4] }),
            Effect::Reply(Reply::Done)
        ]
    );
    assert!(actor.known_hubs().is_empty());
    assert!(actor
        .handle_inbound(HUB, 1, received(&envelope(MessageType::Message)))
        .is_empty());
}

#[test]
fn stale_links_are_ignored() {
    let mut actor = connected();
    let before = known(&actor, HUB);
    assert!(actor
        .handle_inbound(HUB, 9, Received::LinkLost("gone".into()))
        .is_empty());
    assert!(actor
        .handle_inbound(OTHER, 1, Received::LinkLost("gone".into()))
        .is_empty());
    assert_eq!(known(&actor, HUB), before);
}

#[test]
fn a_lost_link_is_reopened_after_a_pause() {
    let mut actor = connected();
    sent(&mut actor, &in_room(MessageType::Join, "rust"));
    assert!(actor
        .handle_command(Command::Reconnect {
            destination: HUB,
            session_id: 1
        })
        .is_empty());
    let effects = actor.handle_inbound(HUB, 1, Received::LinkLost("gone".into()));
    let hub = known(&actor, HUB);
    assert!(!hub.connected);
    assert_eq!(hub.detail, "gone");
    assert_eq!(
        effects,
        vec![
            Effect::Emit(Event::HubChanged(hub)),
            Effect::Schedule {
                destination: HUB,
                session_id: 1,
                seconds: 1
            }
        ]
    );
    assert!(actor
        .handle_command(Command::Reconnect {
            destination: HUB,
            session_id: 8
        })
        .is_empty());
    let desired_rooms = actor.sessions.get(&HUB).unwrap().desired_rooms.clone();
    assert_eq!(
        actor.handle_command(Command::Reconnect {
            destination: HUB,
            session_id: 1
        }),
        vec![Effect::Perform(Work::Reopen {
            destination: HUB,
            lost: 1,
            session_id: 2,
            nick: Some("me".into()),
            desired_rooms: desired_rooms.clone()
        })]
    );
    let effects = actor.finish_reconnect(
        HUB,
        1,
        2,
        Some("me".into()),
        desired_rooms.clone(),
        Err(Error::UnknownIdentity),
    );
    assert_eq!(
        known(&actor, HUB).detail,
        "Reconnect failed: hub identity is not known"
    );
    assert_eq!(
        effects,
        vec![
            changed(&actor),
            Effect::Schedule {
                destination: HUB,
                session_id: 1,
                seconds: 2
            }
        ]
    );
    let effects =
        actor.finish_reconnect(HUB, 1, 3, Some("me".into()), desired_rooms.clone(), Ok(()));
    assert_eq!(
        effects,
        vec![
            Effect::Close { session_id: 1 },
            Effect::Release(Released {
                query_ids: Vec::new()
            }),
            changed(&actor)
        ]
    );
    let session = actor.sessions.get(&HUB).unwrap();
    assert_eq!(session.id, 3);
    assert_eq!(session.hub.detail, "Reconnected; waiting for WELCOME");
    assert_eq!(session.desired_rooms, desired_rooms);
    assert!(actor
        .finish_reconnect(HUB, 1, 4, None, desired_rooms, Err(Error::Timeout))
        .is_empty());
}

#[test]
fn a_greeting_after_a_reconnection_restores_the_rooms() {
    let mut actor = connected();
    let mut zeta = in_room(MessageType::Join, "zeta");
    zeta.body_text = Some("k".into());
    sent(&mut actor, &zeta);
    sent(&mut actor, &in_room(MessageType::Join, "alpha"));
    let desired = actor.sessions.get(&HUB).unwrap().desired_rooms.clone();
    actor.finish_reconnect(HUB, 1, 2, Some("me".into()), desired, Ok(()));
    let mut greeting = envelope(MessageType::Welcome);
    greeting.welcome = Some(welcome());
    let effects = actor.handle_inbound(HUB, 2, received(&greeting));
    assert_eq!(
        effects,
        vec![Effect::Perform(Work::Join {
            destination: HUB,
            session_id: 2,
            draft: Draft {
                source: SOURCE,
                content: Content::Join {
                    room: "alpha".into(),
                    key: None
                }
            },
            nick: Some("me".into()),
            rest: vec![("zeta".into(), Some("k".into()))],
            envelope: greeting.clone()
        })]
    );
    let rest = vec![("zeta".to_string(), Some("k".to_string()))];
    let effects = actor.finish_join(HUB, 2, JoinAttempt::Unbuildable, rest, greeting.clone());
    match &effects[..] {
        [Effect::Perform(Work::Join { draft, rest, .. })] => {
            assert_eq!(
                draft.content,
                Content::Join {
                    room: "zeta".into(),
                    key: Some("k".into())
                }
            );
            assert!(rest.is_empty());
        }
        other => panic!("{:?}", other),
    }
    let effects = actor.finish_join(HUB, 2, JoinAttempt::Sent, Vec::new(), greeting.clone());
    assert_eq!(effects, vec![changed(&actor), passed_on(&greeting)]);
    let hub = known(&actor, HUB);
    assert_eq!(hub.detail, "Connected");
    assert_eq!(hub.name.as_deref(), Some("relay"));
    assert_eq!(hub.welcome, Some(welcome()));
    let effects = actor.handle_inbound(HUB, 2, received(&greeting));
    assert_eq!(effects, vec![changed(&actor), passed_on(&greeting)]);
}

#[test]
fn a_failed_restore_ends_there() {
    let mut actor = connected();
    let greeting = envelope(MessageType::Welcome);
    let rest = vec![("zeta".to_string(), None)];
    let effects = actor.finish_join(
        HUB,
        1,
        JoinAttempt::Failed(Error::Transport("full".into())),
        rest,
        greeting.clone(),
    );
    assert_eq!(known(&actor, HUB).detail, "Room restore failed: full");
    assert_eq!(effects, vec![changed(&actor), passed_on(&greeting)]);
}

#[test]
fn membership_changes_rooms_and_drops_users() {
    let mut actor = connected();
    let who = Received::Envelope {
        envelope: envelope(MessageType::Notice),
        reading: NoticeReading {
            rooms: None,
            who: Some(("rust".into(), vec![user("bob")])),
        },
    };
    actor.handle_inbound(HUB, 1, who);
    assert!(known(&actor, HUB).room_users.has(&"rust".to_string()));
    let joined = in_room(MessageType::Joined, "rust");
    let effects = actor.handle_inbound(HUB, 1, received(&joined));
    let hub = known(&actor, HUB);
    assert_eq!(hub.rooms, vec!["rust".to_string()]);
    assert!(!hub.room_users.has(&"rust".to_string()));
    assert_eq!(effects, vec![changed(&actor), passed_on(&joined)]);
    actor.handle_inbound(HUB, 1, received(&joined));
    actor.handle_inbound(HUB, 1, received(&in_room(MessageType::Joined, "bots")));
    assert_eq!(known(&actor, HUB).rooms.len(), 2);
    let parted = in_room(MessageType::Parted, "rust");
    let effects = actor.handle_inbound(HUB, 1, received(&parted));
    assert_eq!(known(&actor, HUB).rooms, vec!["bots".to_string()]);
    assert_eq!(effects, vec![changed(&actor), passed_on(&parted)]);
}

#[test]
fn a_changed_nickname_drops_users() {
    let mut actor = connected();
    for name in ["rust", "bots"] {
        actor.handle_inbound(
            HUB,
            1,
            Received::Envelope {
                envelope: envelope(MessageType::Notice),
                reading: NoticeReading {
                    rooms: None,
                    who: Some((name.into(), vec![user("bob")])),
                },
            },
        );
    }
    let mut notice = in_room(MessageType::Notice, "rust");
    notice.body_text = Some("nick changed: bob is now eve".into());
    let effects = actor.handle_inbound(HUB, 1, received(&notice));
    let hub = known(&actor, HUB);
    assert!(!hub.room_users.has(&"rust".to_string()));
    assert!(hub.room_users.has(&"bots".to_string()));
    assert_eq!(
        effects,
        vec![
            changed(&actor),
            Effect::Emit(Event::Message(message(&notice, MessageKind::Notice))),
            passed_on(&notice)
        ]
    );
    assert_eq!(actor.handle_inbound(HUB, 1, received(&notice)).len(), 2);
}

#[test]
fn room_states_are_tracked_and_announced_once() {
    let mut actor = connected();
    let mut notice = in_room(MessageType::Notice, "rust");
    notice.room_state = Some(RoomState {
        registered: true,
        modes: "+r".into(),
        topic: Some("Rust".into()),
    });
    let effects = actor.handle_inbound(HUB, 1, received(&notice));
    let hub = known(&actor, HUB);
    assert_eq!(
        hub.public_rooms,
        vec![RoomInfo {
            name: "rust".into(),
            topic: Some("Rust".into())
        }]
    );
    assert_eq!(
        hub.room_states.get(&"rust".to_string()),
        notice.room_state.as_ref()
    );
    assert_eq!(effects.len(), 3);
    assert_eq!(effects[0], changed(&actor));
    assert_eq!(actor.handle_inbound(HUB, 1, received(&notice)).len(), 2);
    let mut joined = in_room(MessageType::Joined, "rust");
    joined.room_state = Some(RoomState {
        registered: false,
        modes: "(none)".into(),
        topic: None,
    });
    let effects = actor.handle_inbound(HUB, 1, received(&joined));
    assert_eq!(effects, vec![changed(&actor), passed_on(&joined)]);
    assert!(known(&actor, HUB).public_rooms.is_empty());
}

#[test]
fn pings_are_answered_and_pongs_answer() {
    let mut actor = connected();
    let ping = envelope(MessageType::Ping);
    assert_eq!(
        actor.handle_inbound(HUB, 1, received(&ping)),
        vec![
            Effect::Pong {
                session_id: 1,
                source: SOURCE,
                envelope: ping.clone()
            },
            passed_on(&ping)
        ]
    );
    assert_eq!(
        actor.handle_command(Command::Ping {
            destination: HUB,
            query_id: 5
        }),
        vec![Effect::Perform(Work::Ping {
            destination: HUB,
            session_id: 1,
            query_id: 5,
            draft: Draft {
                source: SOURCE,
                content: Content::Ping { query_id: 5 }
            }
        })]
    );
    assert!(actor.finish_ping(HUB, 1, 5, Ok(())).is_empty());
    let mut pong = envelope(MessageType::Pong);
    pong.body_integer = Some(6);
    assert_eq!(
        actor.handle_inbound(HUB, 1, received(&pong)),
        vec![passed_on(&pong)]
    );
    pong.body_integer = Some(5);
    assert_eq!(
        actor.handle_inbound(HUB, 1, received(&pong)),
        vec![Effect::AnswerPing { query_id: 5 }, passed_on(&pong)]
    );
    assert_eq!(
        actor.handle_inbound(HUB, 1, received(&pong)),
        vec![passed_on(&pong)]
    );
    assert_eq!(
        actor.finish_ping(HUB, 1, 7, Err(Error::Transport("x".into()))),
        vec![Effect::Refuse {
            query_id: 7,
            error: Error::Transport("x".into())
        }]
    );
}

#[test]
fn room_queries_are_answered_in_order() {
    let mut actor = connected();
    assert_eq!(
        actor.handle_command(Command::ListRooms {
            destination: HUB,
            query_id: 1
        }),
        vec![Effect::Perform(Work::ListRooms {
            destination: HUB,
            session_id: 1,
            query_id: 1,
            draft: Draft {
                source: SOURCE,
                content: Content::Command {
                    room: None,
                    line: "/list".into()
                }
            },
            nick: Some("me".into())
        })]
    );
    for query_id in [1, 2] {
        assert!(actor.finish_list_rooms(HUB, 1, query_id, Ok(())).is_empty());
    }
    let mut notice = envelope(MessageType::Notice);
    notice.body_text = Some("rooms: a".into());
    for query_id in [1, 2] {
        let effects = actor.handle_inbound(
            HUB,
            1,
            Received::Envelope {
                envelope: notice.clone(),
                reading: NoticeReading {
                    rooms: Some(vec![room("a")]),
                    who: None,
                },
            },
        );
        assert_eq!(
            effects,
            vec![
                Effect::Emit(Event::RoomList {
                    hub: HUB,
                    rooms: vec![room("a")]
                }),
                changed(&actor),
                Effect::AnswerRooms {
                    query_id,
                    rooms: vec![room("a")]
                },
                passed_on(&notice)
            ]
        );
    }
    assert_eq!(known(&actor, HUB).public_rooms, vec![room("a")]);
    let effects = actor.handle_inbound(
        HUB,
        1,
        Received::Envelope {
            envelope: notice.clone(),
            reading: NoticeReading {
                rooms: Some(Vec::new()),
                who: None,
            },
        },
    );
    assert_eq!(
        effects[2],
        Effect::Emit(Event::Message(message(&notice, MessageKind::Notice)))
    );
    assert_eq!(
        actor.finish_list_rooms(HUB, 1, 3, Err(Error::Transport("x".into()))),
        vec![Effect::Refuse {
            query_id: 3,
            error: Error::Transport("x".into())
        }]
    );
}

#[test]
fn user_queries_are_answered_per_room() {
    let mut actor = connected();
    assert_eq!(
        actor.handle_command(Command::ListUsers {
            destination: HUB,
            room: "rust".into(),
            query_id: 1
        }),
        vec![Effect::Perform(Work::ListUsers {
            destination: HUB,
            session_id: 1,
            room: "rust".into(),
            query_id: 1,
            draft: Draft {
                source: SOURCE,
                content: Content::Command {
                    room: Some("rust".into()),
                    line: "/who rust".into()
                }
            },
            nick: Some("me".into())
        })]
    );
    actor.finish_list_users(HUB, 1, "rust".into(), 1, Ok(()));
    actor.finish_list_users(HUB, 1, "bots".into(), 2, Ok(()));
    actor.finish_list_users(HUB, 1, "rust".into(), 3, Ok(()));
    let mut notice = envelope(MessageType::Notice);
    notice.user_list = Some(vec![user("structured")]);
    for query_id in [1, 3] {
        let effects = actor.handle_inbound(
            HUB,
            1,
            Received::Envelope {
                envelope: notice.clone(),
                reading: NoticeReading {
                    rooms: None,
                    who: Some(("rust".into(), vec![user("parsed")])),
                },
            },
        );
        assert_eq!(
            effects,
            vec![
                Effect::Emit(Event::UserList {
                    hub: HUB,
                    room: "rust".into(),
                    users: vec![user("structured")]
                }),
                changed(&actor),
                Effect::AnswerUsers {
                    query_id,
                    users: vec![user("structured")]
                },
                passed_on(&notice)
            ]
        );
    }
    let session = actor.sessions.get(&HUB).unwrap();
    assert!(!session.pending_user_queries.has(&"rust".to_string()));
    assert!(session.pending_user_queries.has(&"bots".to_string()));
}

#[test]
fn cancelled_queries_are_forgotten() {
    let mut actor = connected();
    actor.finish_connect(OTHER, 2, None, Ok(()));
    for query_id in [4, 5, 6] {
        actor.finish_list_rooms(HUB, 1, query_id, Ok(()));
    }
    actor.finish_list_users(HUB, 1, "rust".into(), 5, Ok(()));
    actor.finish_ping(OTHER, 2, 5, Ok(()));
    actor.finish_ping(OTHER, 2, 8, Ok(()));
    assert_eq!(
        actor.handle_command(Command::CancelQuery { query_id: 5 }),
        vec![Effect::Release(Released { query_ids: vec![5] })]
    );
    let session = actor.sessions.get(&HUB).unwrap();
    assert_eq!(session.waiting_queries().query_ids, vec![4, 6]);
    assert_eq!(session.pending_user_queries.len(), 0);
    let other = actor.sessions.get(&OTHER).unwrap();
    assert_eq!(other.waiting_queries().query_ids, vec![8]);
}

#[test]
fn questions_to_a_replaced_session_are_refused() {
    let mut actor = connected();
    let refused = vec![Effect::Refuse {
        query_id: 1,
        error: Error::NotConnected,
    }];
    assert_eq!(actor.finish_list_rooms(HUB, 4, 1, Ok(())), refused);
    assert_eq!(
        actor.finish_list_users(HUB, 4, "rust".into(), 1, Ok(())),
        refused
    );
    assert_eq!(actor.finish_ping(HUB, 4, 1, Ok(())), refused);
}

#[test]
fn texts_become_messages_of_their_kind() {
    let mut actor = connected();
    let kinds = [
        (MessageType::Message, MessageKind::Message),
        (MessageType::Action, MessageKind::Action),
        (MessageType::Error, MessageKind::Error),
        (MessageType::Notice, MessageKind::Notice),
    ];
    for (message_type, kind) in kinds {
        let mut text = in_room(message_type, "rust");
        text.body_text = Some("hello".into());
        assert_eq!(
            actor.handle_inbound(HUB, 1, received(&text)),
            vec![
                Effect::Emit(Event::Message(message(&text, kind))),
                passed_on(&text)
            ]
        );
    }
    let other = envelope(MessageType::Other);
    assert_eq!(
        actor.handle_inbound(HUB, 1, received(&other)),
        vec![passed_on(&other)]
    );
    assert_eq!(
        actor.handle_inbound(HUB, 1, Received::Undecodable("bad".into())),
        vec![Effect::Emit(Event::InvalidEnvelope {
            hub: HUB,
            error: "bad".into()
        })]
    );
}

#[test]
fn direct_notices_keep_their_target() {
    assert_eq!(read_identity(&Some(vec![4; 16])), Some([4; 16]));
    assert_eq!(read_identity(&Some(vec![4; 15])), None);
    assert_eq!(read_identity(&None), None);
    let mut actor = connected();
    let mut notice = envelope(MessageType::Notice);
    notice.destination = Some((0..16).collect());
    notice.timestamp_ms = None;
    match &actor.handle_inbound(HUB, 1, received(&notice))[0] {
        Effect::Emit(Event::Message(message)) => {
            assert_eq!(
                message.destination,
                Some([0, 1, 2, 3, 4, 5, 6, 7, 8, 9, 10, 11, 12, 13, 14, 15])
            );
            assert_eq!(message.timestamp_ms, 0);
            assert_eq!(message.body, "");
        }
        other => panic!("{:?}", other),
    }
}

fn descriptor(kind: &str, size: usize) -> ResourceDescriptor {
    ResourceDescriptor {
        kind: kind.into(),
        size,
        sha256: Some(ABC_SHA256),
        encoding: Some("UTF-8".into()),
    }
}

fn fetched() -> Fetched {
    Fetched {
        data: b"abc".to_vec(),
        resource_hash: [1; 32],
    }
}

fn announcement(descriptor: &ResourceDescriptor) -> Envelope {
    let mut envelope = in_room(MessageType::ResourceEnvelope, "rust");
    envelope.resource_descriptor = Some(descriptor.clone());
    envelope
}

#[test]
fn announced_resources_are_fetched() {
    let mut actor = connected();
    let descriptor = descriptor("notice", 3);
    let announced = announcement(&descriptor);
    assert_eq!(
        actor.handle_inbound(HUB, 1, received(&announced)),
        vec![Effect::Perform(Work::Fetch {
            destination: HUB,
            session_id: 1,
            descriptor,
            envelope: announced
        })]
    );
    let invalid = envelope(MessageType::ResourceEnvelope);
    assert_eq!(
        actor.handle_inbound(HUB, 1, received(&invalid)),
        vec![
            Effect::Emit(Event::InvalidEnvelope {
                hub: HUB,
                error: "invalid RRC resource descriptor".into()
            }),
            passed_on(&invalid)
        ]
    );
}

#[test]
fn resources_are_held_against_their_announcement() {
    let good = descriptor("message", 3);
    let announced = announcement(&good);
    let resource = Resource {
        hub: HUB,
        room: Some("rust".into()),
        source: Some([9; 16]),
        nick: Some("bob".into()),
        timestamp_ms: 12,
        descriptor: good.clone(),
        data: b"abc".to_vec(),
        resource_hash: [1; 32],
    };
    assert_eq!(
        inspect_resource(HUB, &announced, good.clone(), Ok(fetched())),
        Ok(Delivery {
            resource,
            text: Some(("abc".into(), MessageKind::Message))
        })
    );
    let mismatch = Err("RRC resource size or SHA-256 mismatch".to_string());
    assert_eq!(
        inspect_resource(HUB, &announced, descriptor("message", 4), Ok(fetched())),
        mismatch
    );
    let mut wrong = descriptor("message", 3);
    wrong.sha256 = Some([0; 32]);
    assert_eq!(
        inspect_resource(HUB, &announced, wrong, Ok(fetched())),
        mismatch
    );
    let mut open = descriptor("blob", 3);
    open.sha256 = None;
    let delivery = inspect_resource(HUB, &announced, open, Ok(fetched())).unwrap();
    assert_eq!(delivery.text, None);
    assert_eq!(
        inspect_resource(HUB, &announced, good.clone(), Err("timeout".into())),
        Err("timeout".to_string())
    );
    assert!(judge_resource(HUB, &announced, good.clone(), fetched(), &ABC_SHA256).is_ok());
    assert_eq!(
        judge_resource(HUB, &announced, good, fetched(), &[1; 32]),
        mismatch
    );
}

#[test]
fn only_utf8_resources_of_a_text_kind_are_messages() {
    let text = "h\u{e9}llo \u{1f600}";
    let mut d = descriptor("MSG", 3);
    assert_eq!(
        resource_text(&d, &text.as_bytes().to_vec()),
        Some((text.to_string(), MessageKind::Message))
    );
    assert_eq!(resource_text(&d, &vec![0xff, 0xfe]), None);
    assert_eq!(
        resource_text(&d, &Vec::new()),
        Some((String::new(), MessageKind::Message))
    );
    d.encoding = None;
    assert!(resource_text(&d, &b"x".to_vec()).is_some());
    d.encoding = Some("latin-1".into());
    assert_eq!(resource_text(&d, &b"x".to_vec()), None);
    d.encoding = Some("Utf-8".into());
    d.kind = "blob".into();
    assert_eq!(resource_text(&d, &b"x".to_vec()), None);
}

#[test]
fn long_text_is_read_back() {
    let client = RrcClient::new(SOURCE);
    let mut actor = connected();
    let mut greeting = envelope(MessageType::Welcome);
    greeting.welcome = Some(welcome());
    actor.handle_inbound(HUB, 1, received(&greeting));
    let body = "\u{1f600} long ".repeat(60);
    for action in [false, true] {
        let draft = if action {
            client.send_action(&actor.known_hubs(), HUB, "rust", &body)
        } else {
            client.send_message(&actor.known_hubs(), HUB, "rust", &body)
        };
        match draft.unwrap().content {
            Content::Resource {
                kind,
                data,
                encoding,
                ..
            } => {
                let d = ResourceDescriptor {
                    kind,
                    size: data.len(),
                    sha256: None,
                    encoding,
                };
                let expected = if action {
                    MessageKind::Action
                } else {
                    MessageKind::Message
                };
                assert_eq!(resource_text(&d, &data), Some((body.clone(), expected)));
            }
            other => panic!("{:?}", other),
        }
    }
}

#[test]
fn text_resources_are_told_twice() {
    let mut actor = connected();
    let d = descriptor("action", 3);
    let announced = announcement(&d);
    let delivery = inspect_resource(HUB, &announced, d.clone(), Ok(fetched()));
    let resource = delivery.as_ref().unwrap().resource.clone();
    let effects = actor.deliver(HUB, 1, announced.clone(), delivery, no_reading());
    let told = Message {
        hub: HUB,
        room: Some("rust".into()),
        source: Some([9; 16]),
        destination: None,
        nick: Some("bob".into()),
        body: "abc".into(),
        timestamp_ms: 12,
        kind: MessageKind::Action,
    };
    assert_eq!(
        effects,
        vec![
            Effect::Emit(Event::Message(told)),
            Effect::Emit(Event::Resource(resource)),
            passed_on(&announced)
        ]
    );
    let blob = inspect_resource(HUB, &announced, descriptor("blob", 3), Ok(fetched()));
    assert_eq!(
        actor
            .deliver(HUB, 1, announced.clone(), blob, no_reading())
            .len(),
        2
    );
    assert_eq!(
        actor.deliver(HUB, 1, announced.clone(), Err("late".into()), no_reading()),
        vec![
            Effect::Emit(Event::InvalidEnvelope {
                hub: HUB,
                error: "late".into()
            }),
            passed_on(&announced)
        ]
    );
    let mismatch = inspect_resource(HUB, &announced, descriptor("action", 4), Ok(fetched()));
    assert_eq!(
        actor.deliver(HUB, 1, announced.clone(), mismatch, no_reading()),
        vec![
            Effect::Emit(Event::InvalidEnvelope {
                hub: HUB,
                error: "RRC resource size or SHA-256 mismatch".into()
            }),
            passed_on(&announced)
        ]
    );
    assert!(actor
        .deliver(HUB, 6, announced, Err("late".into()), no_reading())
        .is_empty());
}

#[test]
fn lists_in_resources_answer_queries() {
    let mut actor = connected();
    actor.finish_list_rooms(HUB, 1, 4, Ok(()));
    let d = descriptor("notice", 3);
    let announced = announcement(&d);
    let delivery = inspect_resource(HUB, &announced, d.clone(), Ok(fetched()));
    let resource = delivery.as_ref().unwrap().resource.clone();
    let reading = NoticeReading {
        rooms: Some(vec![room("a")]),
        who: None,
    };
    let effects = actor.deliver(HUB, 1, announced.clone(), delivery, reading);
    assert_eq!(
        effects,
        vec![
            Effect::Emit(Event::RoomList {
                hub: HUB,
                rooms: vec![room("a")]
            }),
            changed(&actor),
            Effect::AnswerRooms {
                query_id: 4,
                rooms: vec![room("a")]
            },
            Effect::Emit(Event::Message(Message {
                hub: HUB,
                room: Some("rust".into()),
                source: Some([9; 16]),
                destination: None,
                nick: Some("bob".into()),
                body: "abc".into(),
                timestamp_ms: 12,
                kind: MessageKind::Notice
            })),
            Effect::Emit(Event::Resource(resource)),
            passed_on(&announced)
        ]
    );
}

#[test]
fn one_hub_does_not_touch_another() {
    let mut actor = connected();
    actor.finish_connect(OTHER, 2, None, Ok(()));
    let before = known(&actor, OTHER);
    actor.handle_inbound(HUB, 1, Received::LinkLost("gone".into()));
    actor.handle_command(Command::SetNick {
        destination: HUB,
        nick: "x".into(),
    });
    actor.handle_command(Command::Disconnect { destination: HUB });
    assert_eq!(known(&actor, OTHER), before);
}
