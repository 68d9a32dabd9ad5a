//! The requests of the client: what is checked before anything is sent, and what is sent.
use crate::command::{
    access_line, command_room, command_target, command_text, key_line, member_line, mode_line,
    register_line, room_argument, slashed, target_argument, text_argument, text_route, topic_line,
    use_resource_for_text, with_slash, TEXT_BYTES,
};
use crate::order::same_hash;
use crate::request::{shown, Command, CommandView, Content, ContentView, Draft, DraftView};
use crate::text::{byte_len, size_of_text};
use crate::types::{
    mode_flag, Envelope, EnvelopeView, Error, ErrorView, Hub, HubView, RoomMode, Welcome,
    WelcomeView,
};
use vstd::prelude::*;
use vstd::string::*;
use vstd::utf8::encode_utf8;

verus! {

/// The identity of a client and the numbers that it gives to its queries.
#[derive(Debug, PartialEq, Eq)]
pub struct RrcClient {
    /// The identity that the client sends as.
    pub source: [u8; 16],
    /// The number for the next query.
    pub query_ids: u64,
}

/// The number that a query gets when the counter stands at `counter`.
pub open spec fn query_number(counter: u64) -> u64 {
    if counter == 0 {
        1
    } else {
        counter
    }
}

/// Where a counter that stood at `counter` stands after one step.
pub open spec fn following(counter: u64) -> u64 {
    if counter == u64::MAX {
        0
    } else {
        (counter + 1) as u64
    }
}

/// The first of `hubs` that stands for `destination`.
pub open spec fn hub_of(hubs: Seq<HubView>, destination: [u8; 16]) -> Option<HubView>
    decreases hubs.len(),
{
    if hubs.len() == 0 {
        None
    } else if hubs[0].destination_hash == destination {
        Some(hubs[0])
    } else {
        hub_of(hubs.drop_first(), destination)
    }
}

/// The first of `hubs` that stands for `destination`, where its link is up.
pub open spec fn connected_hub(
    hubs: Seq<HubView>,
    destination: [u8; 16],
) -> Result<HubView, ErrorView> {
    match hub_of(hubs, destination) {
        Some(hub) => if hub.connected {
            Ok(hub)
        } else {
            Err(ErrorView::NotConnected)
        },
        None => Err(ErrorView::NotConnected),
    }
}

/// The most bytes that a message body may take.
pub open spec fn message_limit(welcome: Option<WelcomeView>) -> usize {
    match welcome {
        Some(w) => match w.limits.max_message_bytes {
            Some(limit) => limit,
            None => TEXT_BYTES,
        },
        None => TEXT_BYTES,
    }
}

/// Whether the hub said that it takes actions.
pub open spec fn takes_actions(welcome: Option<WelcomeView>) -> bool {
    welcome matches Some(w) && w.capabilities.action
}

/// Whether the hub said that it takes notices to one identity.
pub open spec fn takes_direct_notices(welcome: Option<WelcomeView>) -> bool {
    welcome matches Some(w) && w.capabilities.direct_notice
}

/// Whether the hub said that it takes resource envelopes.
pub open spec fn takes_resources(welcome: Option<WelcomeView>) -> bool {
    welcome matches Some(w) && w.capabilities.resource_envelope
}

/// The draft of a slash command.
pub open spec fn command_draft(
    source: [u8; 16],
    room: Option<Seq<char>>,
    line: Seq<char>,
) -> DraftView {
    DraftView { source, content: ContentView::Command { room, line } }
}

/// The draft of a slash command on a room.
pub open spec fn room_draft(source: [u8; 16], room: Seq<char>, line: Seq<char>) -> DraftView {
    command_draft(source, Some(room), line)
}

/// The draft that carries text to a room.
pub open spec fn text_draft(
    source: [u8; 16],
    hubs: Seq<HubView>,
    destination: [u8; 16],
    room: Seq<char>,
    body: Seq<char>,
    action: bool,
) -> Result<DraftView, ErrorView> {
    match connected_hub(hubs, destination) {
        Err(error) => Err(error),
        Ok(hub) => if action && !takes_actions(hub.welcome) {
            Err(ErrorView::ActionsUnsupported)
        } else {
            match text_route(
                byte_len(body),
                takes_resources(hub.welcome),
                message_limit(hub.welcome) as nat,
            ) {
                Err(error) => Err(error),
                Ok(true) => Ok(
                    DraftView {
                        source,
                        content: ContentView::Resource {
                            room: Some(room),
                            kind: if action {
                                "action"@
                            } else {
                                "message"@
                            },
                            data: encode_utf8(body),
                            encoding: Some("utf-8"@),
                        },
                    },
                ),
                Ok(false) => Ok(
                    DraftView { source, content: ContentView::Message { room, body, action } },
                ),
            }
        },
    }
}

/// The draft of a notice to one identity.
pub open spec fn direct_notice_draft(
    source: [u8; 16],
    hubs: Seq<HubView>,
    destination: [u8; 16],
    target: [u8; 16],
    body: Seq<char>,
) -> Result<DraftView, ErrorView> {
    match connected_hub(hubs, destination) {
        Err(error) => Err(error),
        Ok(hub) => if !takes_direct_notices(hub.welcome) {
            Err(ErrorView::DirectNoticesUnsupported)
        } else if byte_len(body) > message_limit(hub.welcome) {
            Err(ErrorView::InvalidMessage)
        } else {
            Ok(DraftView { source, content: ContentView::DirectNotice { target, body } })
        },
    }
}

/// The draft that announces a resource.
pub open spec fn resource_draft(
    source: [u8; 16],
    hubs: Seq<HubView>,
    destination: [u8; 16],
    room: Option<Seq<char>>,
    kind: Seq<char>,
    data: Seq<u8>,
    encoding: Option<Seq<char>>,
) -> Result<DraftView, ErrorView> {
    match connected_hub(hubs, destination) {
        Err(error) => Err(error),
        Ok(hub) => if takes_resources(hub.welcome) {
            Ok(DraftView { source, content: ContentView::Resource { room, kind, data, encoding } })
        } else {
            Err(ErrorView::ResourcesUnsupported)
        },
    }
}

/// What is answered where no envelope can be built from a draft.
pub open spec fn refusal(content: ContentView) -> ErrorView {
    match content {
        ContentView::Join { .. } | ContentView::Part { .. } => ErrorView::InvalidRoom,
        ContentView::Resource { .. } => ErrorView::InvalidResource,
        _ => ErrorView::InvalidMessage,
    }
}

/// The request that follows from what was built from a draft.
pub open spec fn submission(
    destination: [u8; 16],
    content: ContentView,
    built: Option<EnvelopeView>,
) -> Result<CommandView, ErrorView> {
    match built {
        None => Err(refusal(content)),
        Some(envelope) => Ok(
            match content {
                ContentView::Resource { data, .. } => CommandView::SendResource {
                    destination,
                    envelope,
                    data,
                },
                _ => CommandView::Send { destination, envelope },
            },
        ),
    }
}

/// An owned copy of an optional string.
pub fn owned(text: Option<&str>) -> (copy: Option<String>)
    ensures
        copy.deep_view() == text.deep_view(),
{
    match text {
        Some(text) => Some(text.to_owned()),
        None => None,
    }
}

fn limit_of(welcome: &Option<Welcome>) -> (limit: usize)
    ensures
        limit == message_limit(welcome.deep_view()),
{
    match welcome {
        Some(welcome) => match welcome.limits.max_message_bytes {
            Some(limit) => limit,
            None => TEXT_BYTES,
        },
        None => TEXT_BYTES,
    }
}

impl RrcClient {
    /// A client that sends as `source`.
    pub fn new(source: [u8; 16]) -> (client: RrcClient)
        ensures
            client.source == source,
            client.query_ids == 1,
    {
        RrcClient { source, query_ids: 1 }
    }

    /// The number for a query; it is never zero.
    pub fn next_query_id(&mut self) -> (id: u64)
        ensures
            id == query_number(old(self).query_ids),
            final(self).query_ids == following(old(self).query_ids),
            final(self).source == old(self).source,
    {
        let id = self.query_ids;
        self.query_ids = id.wrapping_add(1);
        if id == 0 {
            1
        } else {
            id
        }
    }

    /// Asks for a session with a hub.
    pub fn connect(&self, destination: [u8; 16], nick: Option<&str>) -> (command: Command)
        ensures
            command@ == (CommandView::Connect { destination, nick: nick.deep_view() }),
    {
        Command::Connect { destination, nick: owned(nick) }
    }

    /// Asks for the end of a session.
    pub fn disconnect(&self, destination: [u8; 16]) -> (command: Command)
        ensures
            command@ == (CommandView::Disconnect { destination }),
    {
        Command::Disconnect { destination }
    }

    /// Asks for another nickname, given as normalized for at most
    /// [`NICK_BYTES`](crate::command::NICK_BYTES) bytes.
    pub fn set_nick(&self, destination: [u8; 16], normalized: Option<String>) -> (command: Result<
        Command,
        Error,
    >)
        ensures
            shown(command) == match normalized.deep_view() {
                Some(nick) => Ok(CommandView::SetNick { destination, nick }),
                None => Err(ErrorView::InvalidMessage),
            },
    {
        match normalized {
            Some(nick) => Ok(Command::SetNick { destination, nick }),
            None => Err(Error::InvalidMessage),
        }
    }

    /// Asks what is known of every hub.
    pub fn hubs(&self) -> (command: Command)
        ensures
            command@ == CommandView::Hubs,
    {
        Command::Hubs
    }

    /// The hub that stands for `destination`.
    pub fn hub<'a>(&self, hubs: &'a Vec<Hub>, destination: [u8; 16]) -> (hub: Option<&'a Hub>)
        ensures
            hub.deep_view() == hub_of(hubs.deep_view(), destination),
    {
        let ghost all = hubs.deep_view();
        let mut i: usize = 0;
        assert(all.skip(0) =~= all);
        while i < hubs.len()
            invariant
                i <= hubs.len(),
                all == hubs.deep_view(),
                hub_of(all, destination) == hub_of(all.skip(i as int), destination),
            decreases hubs.len() - i,
        {
            if same_hash(&hubs[i].destination_hash, &destination) {
                return Some(&hubs[i]);
            }
            assert(all.skip(i as int).drop_first() =~= all.skip(i + 1));
            i += 1;
        }
        None
    }

    fn live_hub<'a>(
        &self,
        hubs: &'a Vec<Hub>,
        destination: [u8; 16],
    ) -> (hub: Result<&'a Hub, Error>)
        ensures
            shown(hub) == connected_hub(hubs.deep_view(), destination),
    {
        match self.hub(hubs, destination) {
            Some(hub) => if hub.connected {
                Ok(hub)
            } else {
                Err(Error::NotConnected)
            },
            None => Err(Error::NotConnected),
        }
    }

    /// Asks a hub for its rooms.
    pub fn list_rooms(&mut self, destination: [u8; 16]) -> (command: Command)
        ensures
            command@ == (CommandView::ListRooms {
                destination,
                query_id: query_number(old(self).query_ids),
            }),
            final(self).query_ids == following(old(self).query_ids),
            final(self).source == old(self).source,
    {
        let query_id = self.next_query_id();
        Command::ListRooms { destination, query_id }
    }

    /// Asks a hub for the members of a room, given as normalized for at most
    /// [`ROOM_BYTES`](crate::command::ROOM_BYTES) bytes.
    pub fn list_users(&mut self, destination: [u8; 16], normalized: Option<String>) -> (command:
        Result<Command, Error>)
        ensures
            match normalized {
                Some(name) => {
                    &&& shown(command) == Ok::<CommandView, ErrorView>(
                        CommandView::ListUsers {
                            destination,
                            room: name@,
                            query_id: query_number(old(self).query_ids),
                        },
                    )
                    &&& final(self).query_ids == following(old(self).query_ids)
                },
                None => {
                    &&& shown(command) == Err::<CommandView, ErrorView>(ErrorView::InvalidRoom)
                    &&& final(self).query_ids == old(self).query_ids
                },
            },
            final(self).source == old(self).source,
    {
        match command_room(normalized) {
            Ok(room) => {
                let query_id = self.next_query_id();
                Ok(Command::ListUsers { destination, room, query_id })
            },
            Err(error) => Err(error),
        }
    }

    /// Asks a hub for an answer.
    pub fn ping(&mut self, destination: [u8; 16]) -> (command: Command)
        ensures
            command@ == (CommandView::Ping {
                destination,
                query_id: query_number(old(self).query_ids),
            }),
            final(self).query_ids == following(old(self).query_ids),
            final(self).source == old(self).source,
    {
        let query_id = self.next_query_id();
        Command::Ping { destination, query_id }
    }

    /// Drafts a request to enter a room.
    pub fn join(&self, room: &str, key: Option<&str>) -> (draft: Draft)
        ensures
            draft@ == (DraftView {
                source: self.source,
                content: ContentView::Join { room: room@, key: key.deep_view() },
            }),
    {
        Draft {
            source: self.source,
            content: Content::Join { room: room.to_owned(), key: owned(key) },
        }
    }

    /// Drafts a request to leave a room.
    pub fn part(&self, room: &str) -> (draft: Draft)
        ensures
            draft@ == (DraftView {
                source: self.source,
                content: ContentView::Part { room: room@ },
            }),
    {
        Draft { source: self.source, content: Content::Part { room: room.to_owned() } }
    }

    /// Drafts a message to a room.
    pub fn send_message(
        &self,
        hubs: &Vec<Hub>,
        destination: [u8; 16],
        room: &str,
        body: &str,
    ) -> (draft: Result<Draft, Error>)
        ensures
            shown(draft) == text_draft(
                self.source,
                hubs.deep_view(),
                destination,
                room@,
                body@,
                false,
            ),
    {
        self.send_text(hubs, destination, room, body, false)
    }

    /// Drafts an action in a room.
    pub fn send_action(
        &self,
        hubs: &Vec<Hub>,
        destination: [u8; 16],
        room: &str,
        body: &str,
    ) -> (draft: Result<Draft, Error>)
        ensures
            shown(draft) == text_draft(
                self.source,
                hubs.deep_view(),
                destination,
                room@,
                body@,
                true,
            ),
    {
        self.send_text(hubs, destination, room, body, true)
    }

    /// Drafts what carries text to a room: a packet, or a resource where the text is long.
    pub fn send_text(
        &self,
        hubs: &Vec<Hub>,
        destination: [u8; 16],
        room: &str,
        body: &str,
        action: bool,
    ) -> (draft: Result<Draft, Error>)
        ensures
            shown(draft) == text_draft(
                self.source,
                hubs.deep_view(),
                destination,
                room@,
                body@,
                action,
            ),
    {
        let hub = match self.live_hub(hubs, destination) {
            Ok(hub) => hub,
            Err(error) => return Err(error),
        };
        let (takes_action, supports_resources) = match &hub.welcome {
            Some(welcome) => (welcome.capabilities.action, welcome.capabilities.resource_envelope),
            None => (false, false),
        };
        if action && !takes_action {
            return Err(Error::ActionsUnsupported);
        }
        let packet_limit = limit_of(&hub.welcome);
        match use_resource_for_text(size_of_text(body), supports_resources, packet_limit) {
            Err(error) => Err(error),
            Ok(true) => {
                let kind = if action {
                    "action"
                } else {
                    "message"
                };
                Ok(
                    Draft {
                        source: self.source,
                        content: Content::Resource {
                            room: Some(room.to_owned()),
                            kind: kind.to_owned(),
                            data: body.as_bytes_vec(),
                            encoding: Some("utf-8".to_owned()),
                        },
                    },
                )
            },
            Ok(false) => Ok(
                Draft {
                    source: self.source,
                    content: Content::Message {
                        room: room.to_owned(),
                        body: body.to_owned(),
                        action,
                    },
                },
            ),
        }
    }

    /// Drafts a notice to one identity.
    pub fn send_direct_notice(
        &self,
        hubs: &Vec<Hub>,
        destination: [u8; 16],
        target: [u8; 16],
        body: &str,
    ) -> (draft: Result<Draft, Error>)
        ensures
            shown(draft) == direct_notice_draft(
                self.source,
                hubs.deep_view(),
                destination,
                target,
                body@,
            ),
    {
        let hub = match self.live_hub(hubs, destination) {
            Ok(hub) => hub,
            Err(error) => return Err(error),
        };
        let takes_notices = match &hub.welcome {
            Some(welcome) => welcome.capabilities.direct_notice,
            None => false,
        };
        if !takes_notices {
            return Err(Error::DirectNoticesUnsupported);
        }
        if size_of_text(body) > limit_of(&hub.welcome) {
            return Err(Error::InvalidMessage);
        }
        Ok(
            Draft {
                source: self.source,
                content: Content::DirectNotice { target, body: body.to_owned() },
            },
        )
    }

    /// Drafts the announcement of a resource.
    pub fn send_resource(
        &self,
        hubs: &Vec<Hub>,
        destination: [u8; 16],
        room: Option<&str>,
        kind: &str,
        data: Vec<u8>,
        encoding: Option<&str>,
    ) -> (draft: Result<Draft, Error>)
        ensures
            shown(draft) == resource_draft(
                self.source,
                hubs.deep_view(),
                destination,
                room.deep_view(),
                kind@,
                data@,
                encoding.deep_view(),
            ),
    {
        let hub = match self.live_hub(hubs, destination) {
            Ok(hub) => hub,
            Err(error) => return Err(error),
        };
        let supported = match &hub.welcome {
            Some(welcome) => welcome.capabilities.resource_envelope,
            None => false,
        };
        if !supported {
            return Err(Error::ResourcesUnsupported);
        }
        Ok(
            Draft {
                source: self.source,
                content: Content::Resource {
                    room: owned(room),
                    kind: kind.to_owned(),
                    data,
                    encoding: owned(encoding),
                },
            },
        )
    }

    /// Drafts a slash command; a slash is put in front where there is none.
    pub fn send_command(&self, room: Option<&str>, command: &str) -> (draft: Draft)
        ensures
            draft@ == command_draft(self.source, room.deep_view(), slashed(command@)),
    {
        Draft {
            source: self.source,
            content: Content::Command { room: owned(room), line: with_slash(command) },
        }
    }

    fn room_command(&self, room: &String, line: &String) -> (draft: Draft)
        requires
            line@.len() > 0,
            line@[0] == '/',
        ensures
            draft@ == room_draft(self.source, room@, line@),
    {
        self.send_command(Some(room.as_str()), line.as_str())
    }

    /// Drafts the registration of a room, or its end.
    pub fn register_room(&self, normalized: Option<String>, registered: bool) -> (draft: Result<
        Draft,
        Error,
    >)
        ensures
            shown(draft) == match room_argument(normalized.deep_view()) {
                Err(error) => Err(error),
                Ok(room) => Ok(room_draft(self.source, room, register_line(room, registered))),
            },
    {
        proof {
            reveal_strlit("/register ");
            reveal_strlit("/unregister ");
        }
        let room = match command_room(normalized) {
            Ok(room) => room,
            Err(error) => return Err(error),
        };
        let mut line = String::from_str(
            if registered {
                "/register "
            } else {
                "/unregister "
            },
        );
        line.append(room.as_str());
        Ok(self.room_command(&room, &line))
    }

    /// Drafts a change of topic.
    pub fn set_topic(&self, normalized: Option<String>, topic: &str) -> (draft: Result<
        Draft,
        Error,
    >)
        ensures
            shown(draft) == match room_argument(normalized.deep_view()) {
                Err(error) => Err(error),
                Ok(room) => match text_argument(topic@) {
                    Err(error) => Err(error),
                    Ok(text) => Ok(room_draft(self.source, room, topic_line(room, text))),
                },
            },
    {
        proof {
            reveal_strlit("/topic ");
        }
        let room = match command_room(normalized) {
            Ok(room) => room,
            Err(error) => return Err(error),
        };
        let text = match command_text(topic) {
            Ok(text) => text,
            Err(error) => return Err(error),
        };
        let mut line = String::from_str("/topic ");
        line.append(room.as_str());
        line.append(" ");
        line.append(text.as_str());
        Ok(self.room_command(&room, &line))
    }

    /// Drafts a change of a room mode.
    pub fn set_room_mode(
        &self,
        normalized: Option<String>,
        mode: RoomMode,
        enabled: bool,
    ) -> (draft: Result<Draft, Error>)
        ensures
            shown(draft) == match room_argument(normalized.deep_view()) {
                Err(error) => Err(error),
                Ok(room) => Ok(
                    room_draft(self.source, room, mode_line(room, mode_flag(mode), enabled)),
                ),
            },
    {
        proof {
            reveal_strlit("/mode ");
        }
        let room = match command_room(normalized) {
            Ok(room) => room,
            Err(error) => return Err(error),
        };
        let mut line = String::from_str("/mode ");
        line.append(room.as_str());
        line.append(
            if enabled {
                " +"
            } else {
                " -"
            },
        );
        line.push(mode.flag());
        Ok(self.room_command(&room, &line))
    }

    /// Drafts a change of the key of a room.
    pub fn set_room_key(&self, normalized: Option<String>, key: Option<&str>) -> (draft: Result<
        Draft,
        Error,
    >)
        ensures
            shown(draft) == match room_argument(normalized.deep_view()) {
                Err(error) => Err(error),
                Ok(room) => match key {
                    None => Ok(room_draft(self.source, room, key_line(room, None))),
                    Some(key) => match text_argument(key@) {
                        Err(error) => Err(error),
                        Ok(text) => Ok(room_draft(self.source, room, key_line(room, Some(text)))),
                    },
                },
            },
    {
        proof {
            reveal_strlit("/mode ");
        }
        let room = match command_room(normalized) {
            Ok(room) => room,
            Err(error) => return Err(error),
        };
        let mut line = String::from_str("/mode ");
        line.append(room.as_str());
        match key {
            Some(key) => {
                let text = match command_text(key) {
                    Ok(text) => text,
                    Err(error) => return Err(error),
                };
                line.append(" +k ");
                line.append(text.as_str());
            },
            None => {
                line.append(" -k");
            },
        }
        Ok(self.room_command(&room, &line))
    }

    /// Drafts a command on a member of a room.
    pub fn member_command(&self, normalized: Option<String>, target: &str, command: &str) -> (draft:
        Result<Draft, Error>)
        ensures
            shown(draft) == member_draft(
                self.source,
                normalized.deep_view(),
                target@,
                command@,
            ),
    {
        proof {
            reveal_strlit("/");
        }
        let room = match command_room(normalized) {
            Ok(room) => room,
            Err(error) => return Err(error),
        };
        let word = match command_target(target) {
            Ok(word) => word,
            Err(error) => return Err(error),
        };
        let mut line = String::from_str("/");
        line.append(command);
        line.append(" ");
        line.append(room.as_str());
        line.append(" ");
        line.append(word.as_str());
        Ok(self.room_command(&room, &line))
    }

    /// Drafts a command on an access list of a room.
    pub fn access_command(
        &self,
        normalized: Option<String>,
        command: &str,
        operation: &str,
        target: Option<&str>,
    ) -> (draft: Result<Draft, Error>)
        ensures
            shown(draft) == access_draft(
                self.source,
                normalized.deep_view(),
                command@,
                operation@,
                target.deep_view(),
            ),
    {
        proof {
            reveal_strlit("/");
        }
        let room = match command_room(normalized) {
            Ok(room) => room,
            Err(error) => return Err(error),
        };
        let mut line = String::from_str("/");
        line.append(command);
        line.append(" ");
        line.append(room.as_str());
        line.append(" ");
        line.append(operation);
        if let Some(target) = target {
            let word = match command_target(target) {
                Ok(word) => word,
                Err(error) => return Err(error),
            };
            line.append(" ");
            line.append(word.as_str());
        }
        Ok(self.room_command(&room, &line))
    }

    /// Drafts the grant or the removal of operator rights.
    pub fn set_operator(&self, normalized: Option<String>, target: &str, enabled: bool) -> (draft:
        Result<Draft, Error>)
        ensures
            shown(draft) == member_draft(
                self.source,
                normalized.deep_view(),
                target@,
                if enabled {
                    "op"@
                } else {
                    "deop"@
                },
            ),
    {
        self.member_command(
            normalized,
            target,
            if enabled {
                "op"
            } else {
                "deop"
            },
        )
    }

    /// Drafts the grant or the removal of voice.
    pub fn set_voice(&self, normalized: Option<String>, target: &str, enabled: bool) -> (draft:
        Result<Draft, Error>)
        ensures
            shown(draft) == member_draft(
                self.source,
                normalized.deep_view(),
                target@,
                if enabled {
                    "voice"@
                } else {
                    "devoice"@
                },
            ),
    {
        self.member_command(
            normalized,
            target,
            if enabled {
                "voice"
            } else {
                "devoice"
            },
        )
    }

    /// Drafts the removal of a member from a room.
    pub fn kick(&self, normalized: Option<String>, target: &str) -> (draft: Result<Draft, Error>)
        ensures
            shown(draft) == member_draft(
                self.source,
                normalized.deep_view(),
                target@,
                "kick"@,
            ),
    {
        self.member_command(normalized, target, "kick")
    }

    /// Drafts an invitation.
    pub fn invite(&self, normalized: Option<String>, target: &str) -> (draft: Result<Draft, Error>)
        ensures
            shown(draft) == access_draft(
                self.source,
                normalized.deep_view(),
                "invite"@,
                "add"@,
                Some(target@),
            ),
    {
        self.access_command(normalized, "invite", "add", Some(target))
    }

    /// Drafts the end of an invitation.
    pub fn revoke_invite(&self, normalized: Option<String>, target: &str) -> (draft: Result<
        Draft,
        Error,
    >)
        ensures
            shown(draft) == access_draft(
                self.source,
                normalized.deep_view(),
                "invite"@,
                "del"@,
                Some(target@),
            ),
    {
        self.access_command(normalized, "invite", "del", Some(target))
    }

    /// Drafts a ban.
    pub fn ban(&self, normalized: Option<String>, target: &str) -> (draft: Result<Draft, Error>)
        ensures
            shown(draft) == access_draft(
                self.source,
                normalized.deep_view(),
                "ban"@,
                "add"@,
                Some(target@),
            ),
    {
        self.access_command(normalized, "ban", "add", Some(target))
    }

    /// Drafts the end of a ban.
    pub fn unban(&self, normalized: Option<String>, target: &str) -> (draft: Result<Draft, Error>)
        ensures
            shown(draft) == access_draft(
                self.source,
                normalized.deep_view(),
                "ban"@,
                "del"@,
                Some(target@),
            ),
    {
        self.access_command(normalized, "ban", "del", Some(target))
    }

    /// Drafts a question for the invitations of a room.
    pub fn list_invites(&self, normalized: Option<String>) -> (draft: Result<Draft, Error>)
        ensures
            shown(draft) == access_draft(
                self.source,
                normalized.deep_view(),
                "invite"@,
                "list"@,
                None,
            ),
    {
        self.access_command(normalized, "invite", "list", None)
    }

    /// Drafts a question for the bans of a room.
    pub fn list_bans(&self, normalized: Option<String>) -> (draft: Result<Draft, Error>)
        ensures
            shown(draft) == access_draft(
                self.source,
                normalized.deep_view(),
                "ban"@,
                "list"@,
                None,
            ),
    {
        self.access_command(normalized, "ban", "list", None)
    }

    /// Asks for an envelope to be sent.
    pub fn send_envelope(&self, destination: [u8; 16], envelope: Envelope) -> (command: Command)
        ensures
            command@ == (CommandView::Send { destination, envelope: envelope@ }),
    {
        Command::Send { destination, envelope }
    }

    /// Asks for what was built from a draft to be sent; `built` is the envelope, or nothing
    /// where none could be built.
    pub fn submit(&self, destination: [u8; 16], draft: Draft, built: Option<Envelope>) -> (command:
        Result<Command, Error>)
        ensures
            shown(command) == submission(destination, draft@.content, built.deep_view()),
    {
        match built {
            None => Err(
                match draft.content {
                    Content::Join { .. } | Content::Part { .. } => Error::InvalidRoom,
                    Content::Resource { .. } => Error::InvalidResource,
                    _ => Error::InvalidMessage,
                },
            ),
            Some(envelope) => match draft.content {
                Content::Resource { data, .. } => Ok(
                    Command::SendResource { destination, envelope, data },
                ),
                _ => Ok(self.send_envelope(destination, envelope)),
            },
        }
    }

    /// Asks for the end of all sessions.
    pub fn shutdown(&self) -> (command: Command)
        ensures
            command@ == CommandView::Shutdown,
    {
        Command::Shutdown
    }
}

/// The draft of a command on a member of a room.
pub open spec fn member_draft(
    source: [u8; 16],
    normalized: Option<Seq<char>>,
    target: Seq<char>,
    command: Seq<char>,
) -> Result<DraftView, ErrorView> {
    match room_argument(normalized) {
        Err(error) => Err(error),
        Ok(room) => match target_argument(target) {
            Err(error) => Err(error),
            Ok(word) => Ok(room_draft(source, room, member_line(command, room, word))),
        },
    }
}

/// The draft of a command on an access list of a room.
pub open spec fn access_draft(
    source: [u8; 16],
    normalized: Option<Seq<char>>,
    command: Seq<char>,
    operation: Seq<char>,
    target: Option<Seq<char>>,
) -> Result<DraftView, ErrorView> {
    match room_argument(normalized) {
        Err(error) => Err(error),
        Ok(room) => match target {
            None => Ok(room_draft(source, room, access_line(command, room, operation, None))),
            Some(target) => match target_argument(target) {
                Err(error) => Err(error),
                Ok(word) => Ok(
                    room_draft(source, room, access_line(command, room, operation, Some(word))),
                ),
            },
        },
    }
}

} // verus!
