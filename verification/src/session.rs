//! One session with a hub.
use crate::effect::Released;
use crate::ordered_map::{lists_keys, OrderedMap};
use crate::queue::{queue_without, without};
use crate::replica::Replica;
use crate::types::{Hub, HubView, RoomInfoView};
use std::collections::{BTreeSet, VecDeque};
use vstd::prelude::*;
use vstd::std_specs::iter::IteratorSpec;

verus! {

/// A session with a hub.
#[derive(Debug, PartialEq, Eq)]
pub struct Session {
    /// The number of the session.
    pub id: u64,
    /// What is known of the hub.
    pub hub: Hub,
    /// The nickname to put on envelopes.
    pub nick: Option<String>,
    /// The rooms to be in, with their keys.
    pub desired_rooms: OrderedMap<String, Option<String>>,
    /// How often the link was lost or could not be opened since the last greeting.
    pub reconnect_attempt: u32,
    /// The queries for rooms that wait.
    pub pending_room_queries: VecDeque<u64>,
    /// The queries for members that wait, by room.
    pub pending_user_queries: OrderedMap<String, VecDeque<u64>>,
    /// The pings that wait.
    pub pending_pings: BTreeSet<u64>,
    /// Whether the desired rooms are entered again at the next greeting.
    pub restore_rooms_on_welcome: bool,
}

/// What [`Session`] holds.
#[verifier::ext_equal]
pub struct SessionView {
    pub id: u64,
    pub hub: HubView,
    pub nick: Option<Seq<char>>,
    pub desired_rooms: Map<Seq<char>, Option<Seq<char>>>,
    pub reconnect_attempt: u32,
    pub pending_room_queries: Seq<u64>,
    pub pending_user_queries: Map<Seq<char>, Seq<u64>>,
    pub pending_pings: Set<u64>,
    pub restore_rooms_on_welcome: bool,
}

impl View for Session {
    type V = SessionView;

    open spec fn view(&self) -> SessionView {
        SessionView {
            id: self.id,
            hub: self.hub@,
            nick: self.nick.deep_view(),
            desired_rooms: self.desired_rooms@,
            reconnect_attempt: self.reconnect_attempt,
            pending_room_queries: self.pending_room_queries.deep_view(),
            pending_user_queries: self.pending_user_queries@,
            pending_pings: self.pending_pings@,
            restore_rooms_on_welcome: self.restore_rooms_on_welcome,
        }
    }
}

impl DeepView for Session {
    type V = SessionView;

    open spec fn deep_view(&self) -> SessionView {
        self@
    }
}

/// What is known of a hub right after the link to it was opened.
pub open spec fn fresh_hub(destination: [u8; 16], nick: Option<Seq<char>>) -> HubView {
    HubView {
        destination_hash: destination,
        name: None,
        nick,
        welcome: None,
        connected: true,
        rooms: Seq::empty(),
        public_rooms: Seq::empty(),
        room_states: Map::empty(),
        room_users: Map::empty(),
        detail: "Waiting for WELCOME"@,
    }
}

/// A session right after its link was opened.
pub open spec fn fresh_session(
    id: u64,
    destination: [u8; 16],
    nick: Option<Seq<char>>,
) -> SessionView {
    SessionView {
        id,
        hub: fresh_hub(destination, nick),
        nick,
        desired_rooms: Map::empty(),
        reconnect_attempt: 0,
        pending_room_queries: Seq::empty(),
        pending_user_queries: Map::empty(),
        pending_pings: Set::empty(),
        restore_rooms_on_welcome: false,
    }
}

/// The queries for members that wait.
pub open spec fn waiting_for_users(queues: Map<Seq<char>, Seq<u64>>) -> Set<u64> {
    Set::new(
        |q: u64|
            exists|room: Seq<char>| #[trigger]
                queues.contains_key(room) && queues[room].contains(q),
    )
}

/// The queries that wait for an answer from a session.
pub open spec fn waiting(session: SessionView) -> Set<u64> {
    session.pending_room_queries.to_set() + waiting_for_users(session.pending_user_queries)
        + session.pending_pings
}

/// Queues without the query `id`; a queue that becomes empty is dropped.
pub open spec fn queues_without(
    queues: Map<Seq<char>, Seq<u64>>,
    id: u64,
) -> Map<Seq<char>, Seq<u64>> {
    Map::new(
        |room: Seq<char>| queues.contains_key(room) && without(queues[room], id).len() > 0,
        |room: Seq<char>| without(queues[room], id),
    )
}

/// A session that does not wait for the query `id`.
pub open spec fn without_query(session: SessionView, id: u64) -> SessionView {
    SessionView {
        pending_room_queries: without(session.pending_room_queries, id),
        pending_user_queries: queues_without(session.pending_user_queries, id),
        pending_pings: session.pending_pings.remove(id),
        ..session
    }
}

/// Whether no queue for members is empty.
pub open spec fn queues_in_use(session: SessionView) -> bool {
    forall|room: Seq<char>| #[trigger]
        session.pending_user_queries.contains_key(room)
            ==> session.pending_user_queries[room].len() > 0
}

impl Session {
    /// A session right after its link was opened.
    pub fn fresh(id: u64, destination: [u8; 16], nick: Option<String>) -> (session: Session)
        ensures
            session@ == fresh_session(id, destination, nick.deep_view()),
    {
        let session = Session {
            id,
            hub: Hub {
                destination_hash: destination,
                name: None,
                nick: nick.replica(),
                welcome: None,
                connected: true,
                rooms: Vec::new(),
                public_rooms: Vec::new(),
                room_states: OrderedMap::new(),
                room_users: OrderedMap::new(),
                detail: "Waiting for WELCOME".to_owned(),
            },
            nick,
            desired_rooms: OrderedMap::new(),
            reconnect_attempt: 0,
            pending_room_queries: VecDeque::new(),
            pending_user_queries: OrderedMap::new(),
            pending_pings: BTreeSet::new(),
            restore_rooms_on_welcome: false,
        };
        assert(session.hub.rooms.deep_view() =~= Seq::<Seq<char>>::empty());
        assert(session.hub.public_rooms.deep_view() =~= Seq::<RoomInfoView>::empty());
        assert(session.pending_room_queries.deep_view() =~= Seq::<u64>::empty());
        session
    }

    /// The queries that wait for an answer.
    pub fn waiting_queries(&self) -> (released: Released)
        ensures
            released@ == waiting(self@),
    {
        let mut ids: Vec<u64> = Vec::new();
        let ghost rooms = self@.pending_room_queries;
        let ghost queues = self@.pending_user_queries;
        let ghost pings = self@.pending_pings;
        let mut i: usize = 0;
        while i < self.pending_room_queries.len()
            invariant
                i <= self.pending_room_queries.len(),
                rooms == self.pending_room_queries.deep_view(),
                ids@ =~= rooms.take(i as int),
            decreases self.pending_room_queries.len() - i,
        {
            ids.push(self.pending_room_queries[i]);
            i += 1;
        }
        assert(ids@ =~= rooms);
        let count = self.pending_user_queries.len();
        let ghost keys = self.pending_user_queries.keys();
        let mut k: usize = 0;
        while k < count
            invariant
                k <= count == keys.len(),
                keys == self.pending_user_queries.keys(),
                queues == self.pending_user_queries@,
                forall|q: u64| #[trigger]
                    ids@.contains(q) <==> (rooms.contains(q) || exists|m: int|
                        0 <= m < k && queues[#[trigger] keys[m]].contains(q)),
            decreases count - k,
        {
            let (room, queue) = self.pending_user_queries.entry(k);
            let ghost before = ids@;
            let ghost listed = queue.deep_view();
            let mut j: usize = 0;
            while j < queue.len()
                invariant
                    j <= queue.len(),
                    listed == queue.deep_view(),
                    ids@ =~= before + listed.take(j as int),
                decreases queue.len() - j,
            {
                ids.push(queue[j]);
                j += 1;
            }
            assert(ids@ =~= before + listed);
            proof {
                assert(queues[keys[k as int]] == listed);
                assert forall|q: u64| #[trigger]
                    ids@.contains(q) <==> (rooms.contains(q) || exists|m: int|
                        0 <= m < k + 1 && queues[#[trigger] keys[m]].contains(q)) by {
                    if ids@.contains(q) {
                        let n = choose|n: int| 0 <= n < ids@.len() && ids@[n] == q;
                        if n < before.len() {
                            assert(before[n] == q);
                            assert(before.contains(q));
                        } else {
                            assert(listed[n - before.len()] == q);
                            assert(queues[keys[k as int]].contains(q));
                        }
                    }
                    if before.contains(q) {
                        let n = choose|n: int| 0 <= n < before.len() && before[n] == q;
                        assert(ids@[n] == q);
                    }
                    if rooms.contains(q) {
                        assert(before.contains(q));
                    }
                    if exists|m: int| 0 <= m < k + 1 && queues[#[trigger] keys[m]].contains(q) {
                        let m = choose|m: int|
                            0 <= m < k + 1 && queues[#[trigger] keys[m]].contains(q);
                        if m < k {
                            assert(before.contains(q));
                        } else {
                            let n = choose|n: int| 0 <= n < listed.len() && listed[n] == q;
                            assert(ids@[before.len() + n] == q);
                        }
                    }
                }
            }
            k += 1;
        }
        let ghost middle = ids@;
        let ghost ping_keys = self.pending_pings.iter().remaining().unref();
        for id in it: self.pending_pings.iter()
            invariant
                ping_keys == it.seq().unref(),
                ids@ =~= middle + ping_keys.take(it.index()),
        {
            ids.push(*id);
        }
        assert(ids@ =~= middle + ping_keys);
        let released = Released { query_ids: ids };
        proof {
            assert forall|q: u64| released@.contains(q) <==> waiting(self@).contains(q) by {
                assert(released@.contains(q) <==> ids@.contains(q));
                if ids@.contains(q) {
                    let n = choose|n: int| 0 <= n < ids@.len() && ids@[n] == q;
                    if n < middle.len() {
                        assert(middle[n] == q);
                        assert(middle.contains(q));
                        if !rooms.contains(q) {
                            let m = choose|m: int|
                                0 <= m < keys.len() && queues[#[trigger] keys[m]].contains(q);
                            assert(keys.contains(keys[m]));
                            assert(queues.contains_key(keys[m]));
                        }
                    } else {
                        assert(ping_keys[n - middle.len()] == q);
                        assert(ping_keys.contains(q));
                        assert(ping_keys.to_set().contains(q));
                    }
                }
                if rooms.contains(q) {
                    assert(middle.contains(q));
                }
                if waiting_for_users(queues).contains(q) {
                    let room = choose|room: Seq<char>| #[trigger]
                        queues.contains_key(room) && queues[room].contains(q);
                    assert(keys.contains(room));
                    let m = choose|m: int| 0 <= m < keys.len() && keys[m] == room;
                    assert(queues[keys[m]].contains(q));
                    assert(middle.contains(q));
                }
                if middle.contains(q) {
                    let n = choose|n: int| 0 <= n < middle.len() && middle[n] == q;
                    assert(ids@[n] == q);
                }
                if pings.contains(q) {
                    assert(ping_keys.to_set().contains(q));
                    assert(ping_keys.contains(q));
                    let n = choose|n: int| 0 <= n < ping_keys.len() && ping_keys[n] == q;
                    assert(ids@[middle.len() + n] == q);
                }
            }
            assert(released@ =~= waiting(self@));
        }
        released
    }

    /// Stops waiting for the query `id`.
    pub fn cancel(&mut self, id: u64)
        ensures
            final(self)@ == without_query(old(self)@, id),
    {
        let ghost queues = self.pending_user_queries@;
        self.pending_room_queries = queue_without(&self.pending_room_queries, id);
        let mut kept: OrderedMap<String, VecDeque<u64>> = OrderedMap::new();
        let count = self.pending_user_queries.len();
        let ghost keys = self.pending_user_queries.keys();
        let mut k: usize = 0;
        while k < count
            invariant
                k <= count == keys.len(),
                keys == self.pending_user_queries.keys(),
                queues == self.pending_user_queries@,
                lists_keys::<String, Seq<u64>>(keys, queues),
                forall|room: Seq<char>| #[trigger]
                    kept@.contains_key(room) <==> (queues_without(queues, id).contains_key(room)
                        && exists|m: int| 0 <= m < k && #[trigger] keys[m] == room),
                forall|room: Seq<char>|
                    kept@.contains_key(room) ==> #[trigger] kept@[room] == without(
                        queues[room],
                        id,
                    ),
            decreases count - k,
        {
            let (room, queue) = self.pending_user_queries.entry(k);
            let rest = queue_without(queue, id);
            let ghost before = kept@;
            assert(queues.contains_key(keys[k as int]));
            if rest.len() > 0 {
                kept.insert(room.clone(), rest);
            }
            proof {
                assert forall|r: Seq<char>| #[trigger]
                    kept@.contains_key(r) <==> (queues_without(queues, id).contains_key(r)
                        && exists|m: int| 0 <= m < k + 1 && #[trigger] keys[m] == r) by {
                    if r == room@ {
                        assert(keys[k as int] == r);
                    } else {
                        assert(kept@.contains_key(r) == before.contains_key(r));
                        if exists|m: int| 0 <= m < k + 1 && #[trigger] keys[m] == r {
                            let m = choose|m: int| 0 <= m < k + 1 && #[trigger] keys[m] == r;
                            assert(m < k);
                        }
                    }
                }
            }
            k += 1;
        }
        proof {
            assert forall|r: Seq<char>| #[trigger]
                kept@.dom().contains(r) == queues_without(queues, id).dom().contains(r) by {
                assert(kept@.contains_key(r) == kept@.dom().contains(r));
                if queues_without(queues, id).contains_key(r) {
                    assert(queues.contains_key(r));
                    assert(keys.contains(r));
                    let m = choose|m: int| 0 <= m < keys.len() && keys[m] == r;
                    assert(keys[m] == r);
                }
            }
            assert(kept@ =~= queues_without(queues, id));
        }
        self.pending_user_queries = kept;
        self.pending_pings.remove(&id);
        assert(self@ =~= without_query(old(self)@, id));
    }
}

} // verus!
