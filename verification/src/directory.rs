//! The public room directory and how structured room states keep it current.
use crate::order::{
    lex_asymmetric, lex_irreflexive, lex_total, lex_transitive, text_less, text_precedes, text_rank,
};
use crate::replica::Replica;
use crate::sequence::filter_keeps;
use crate::text::same;
use crate::types::{RoomInfo, RoomInfoView, RoomState, RoomStateView};
use vstd::prelude::*;

verus! {

/// The names of `rooms`, in their order.
pub open spec fn names(rooms: Seq<RoomInfoView>) -> Seq<Seq<char>> {
    rooms.map_values(|r: RoomInfoView| r.name)
}

/// `rooms` with `entry` put behind the last room whose name is not greater.
pub open spec fn insert_by_name(rooms: Seq<RoomInfoView>, entry: RoomInfoView) -> Seq<RoomInfoView>
    decreases rooms.len(),
{
    if rooms.len() > 0 && text_less(entry.name, rooms.last().name) {
        insert_by_name(rooms.drop_last(), entry).push(rooms.last())
    } else {
        rooms.push(entry)
    }
}

/// `rooms` sorted by name, where rooms of the same name keep their order.
pub open spec fn sort_by_name(rooms: Seq<RoomInfoView>) -> Seq<RoomInfoView>
    decreases rooms.len(),
{
    if rooms.len() == 0 {
        rooms
    } else {
        insert_by_name(sort_by_name(rooms.drop_last()), rooms.last())
    }
}

/// The directory after a room was reported in `state`.
pub open spec fn directory_after(
    rooms: Seq<RoomInfoView>,
    room: Seq<char>,
    state: RoomStateView,
) -> Seq<RoomInfoView> {
    match names(rooms).index_of_first(room) {
        Some(i) => if state.registered {
            rooms.update(i, RoomInfoView { name: rooms[i].name, topic: state.topic })
        } else {
            rooms.remove(i)
        },
        None => if state.registered {
            sort_by_name(rooms.push(RoomInfoView { name: room, topic: state.topic }))
        } else {
            rooms
        },
    }
}

/// Whether no name of `rooms` comes before one that stands earlier.
pub open spec fn is_sorted(rooms: Seq<RoomInfoView>) -> bool {
    forall|i: int, j: int|
        #![trigger rooms[i], rooms[j]]
        0 <= i < j < rooms.len() ==> !text_less(rooms[j].name, rooms[i].name)
}

/// Whether a room has that name.
pub open spec fn has_name(name: Seq<char>) -> spec_fn(RoomInfoView) -> bool {
    |r: RoomInfoView| r.name == name
}

/// The rooms of that name, in their order.
pub open spec fn named(rooms: Seq<RoomInfoView>, name: Seq<char>) -> Seq<RoomInfoView> {
    rooms.filter(has_name(name))
}

proof fn insert_at(rooms: Seq<RoomInfoView>, entry: RoomInfoView, at: int)
    requires
        0 <= at <= rooms.len(),
        forall|k: int|
            at <= k < rooms.len() ==> text_less(entry.name, (#[trigger] rooms[k]).name),
        at > 0 ==> !text_less(entry.name, rooms[at - 1].name),
    ensures
        insert_by_name(rooms, entry) == rooms.insert(at, entry),
    decreases rooms.len(),
{
    if at == rooms.len() {
        assert(rooms.insert(at, entry) =~= rooms.push(entry));
    } else {
        assert(text_less(entry.name, rooms[rooms.len() - 1].name));
        insert_at(rooms.drop_last(), entry, at);
        assert(rooms.insert(at, entry) =~= rooms.drop_last().insert(at, entry).push(rooms.last()));
    }
}

/// Sorts `rooms` by name; rooms of the same name keep their order.
pub fn sort_rooms(rooms: &Vec<RoomInfo>) -> (sorted: Vec<RoomInfo>)
    ensures
        sorted.deep_view() == sort_by_name(rooms.deep_view()),
{
    let mut sorted: Vec<RoomInfo> = Vec::new();
    let ghost all = rooms.deep_view();
    let mut i: usize = 0;
    assert(sorted.deep_view() =~= all.take(0));
    while i < rooms.len()
        invariant
            i <= rooms.len(),
            all == rooms.deep_view(),
            sorted.deep_view() == sort_by_name(all.take(i as int)),
            sorted.len() == i,
        decreases rooms.len() - i,
    {
        let entry = rooms[i].clone();
        let ghost done = sorted.deep_view();
        let mut at: usize = sorted.len();
        while at > 0 && text_precedes(entry.name.as_str(), sorted[at - 1].name.as_str())
            invariant
                at <= sorted.len(),
                done == sorted.deep_view(),
                forall|k: int|
                    at <= k < done.len() ==> text_less(entry@.name, (#[trigger] done[k]).name),
            decreases at,
        {
            at -= 1;
        }
        proof {
            insert_at(done, entry@, at as int);
            assert(all.take(i + 1).drop_last() =~= all.take(i as int));
            assert(all.take(i + 1).last() == rooms@[i as int]@);
        }
        sorted.insert(at, entry);
        assert(sorted.deep_view() =~= done.insert(at as int, entry@));
        i += 1;
    }
    assert(all.take(all.len() as int) =~= all);
    sorted
}

/// The position of the first room of that name.
pub fn find_room(rooms: &Vec<RoomInfo>, room: &str) -> (at: Option<usize>)
    ensures
        match at {
            Some(i) => names(rooms.deep_view()).index_of_first(room@) == Some(i as int) && i
                < rooms.len(),
            None => names(rooms.deep_view()).index_of_first(room@) is None,
        },
{
    let ghost listed = names(rooms.deep_view());
    proof {
        listed.index_of_first_ensures(room@);
    }
    let mut i: usize = 0;
    while i < rooms.len()
        invariant
            i <= rooms.len(),
            listed == names(rooms.deep_view()),
            listed.len() == rooms.len(),
            forall|k: int| 0 <= k < i ==> listed[k] != room@,
        decreases rooms.len() - i,
    {
        if same(rooms[i].name.as_str(), room) {
            proof {
                assert(listed[i as int] == room@);
                listed.index_of_first_ensures(room@);
            }
            return Some(i);
        }
        assert(listed[i as int] != room@);
        i += 1;
    }
    assert(!listed.contains(room@));
    None
}

/// Whether two topics are the same.
pub fn same_topic(a: &Option<String>, b: &Option<String>) -> (yes: bool)
    ensures
        yes == (a.deep_view() == b.deep_view()),
{
    match (a, b) {
        (Some(x), Some(y)) => same(x.as_str(), y.as_str()),
        (None, None) => true,
        _ => false,
    }
}

/// Brings the directory up to date with the state that a room was reported in,
/// and says whether that changed it.
pub fn apply_room_state_to_directory(
    rooms: &mut Vec<RoomInfo>,
    room: &str,
    state: &RoomState,
) -> (changed: bool)
    ensures
        final(rooms).deep_view() == directory_after(old(rooms).deep_view(), room@, state@),
        changed == (final(rooms).deep_view() != old(rooms).deep_view()),
{
    let ghost before = rooms.deep_view();
    let existing = find_room(rooms, room);
    if !state.registered {
        if let Some(index) = existing {
            rooms.remove(index);
            assert(rooms.deep_view() =~= before.remove(index as int));
            return true;
        }
        return false;
    }
    if let Some(index) = existing {
        let ghost kept = before[index as int];
        if !same_topic(&rooms[index].topic, &state.topic) {
            let entry = RoomInfo { name: rooms[index].name.clone(), topic: state.topic.replica() };
            rooms.set(index, entry);
            assert(rooms.deep_view() =~= before.update(index as int, entry@));
            assert(rooms.deep_view()[index as int] != kept);
            return true;
        }
        assert(before =~= before.update(
            index as int,
            RoomInfoView { name: kept.name, topic: state@.topic },
        ));
        return false;
    }
    let entry = RoomInfo { name: room.to_owned(), topic: state.topic.replica() };
    rooms.push(entry);
    assert(rooms.deep_view() =~= before.push(entry@));
    let sorted = sort_rooms(rooms);
    proof {
        sorting_keeps_rooms(before.push(entry@));
        assert(sorted.deep_view().len() == before.len() + 1);
    }
    *rooms = sorted;
    true
}

proof fn inserting_keeps_rooms(rooms: Seq<RoomInfoView>, entry: RoomInfoView)
    ensures
        insert_by_name(rooms, entry).len() == rooms.len() + 1,
        insert_by_name(rooms, entry).to_multiset() == rooms.to_multiset().insert(entry),
    decreases rooms.len(),
{
    broadcast use vstd::seq_lib::group_to_multiset_ensures;

    if rooms.len() > 0 && text_less(entry.name, rooms.last().name) {
        inserting_keeps_rooms(rooms.drop_last(), entry);
        assert(rooms =~= rooms.drop_last().push(rooms.last()));
        assert(insert_by_name(rooms, entry).to_multiset() =~= rooms.to_multiset().insert(entry));
    }
}

/// Sorting a directory keeps its rooms.
pub proof fn sorting_keeps_rooms(rooms: Seq<RoomInfoView>)
    ensures
        sort_by_name(rooms).len() == rooms.len(),
        sort_by_name(rooms).to_multiset() == rooms.to_multiset(),
    decreases rooms.len(),
{
    broadcast use vstd::seq_lib::group_to_multiset_ensures;

    if rooms.len() > 0 {
        sorting_keeps_rooms(rooms.drop_last());
        inserting_keeps_rooms(sort_by_name(rooms.drop_last()), rooms.last());
        assert(rooms =~= rooms.drop_last().push(rooms.last()));
    }
}

proof fn not_less_transitive(a: Seq<char>, b: Seq<char>, c: Seq<char>)
    requires
        !text_less(b, a),
        !text_less(c, b),
    ensures
        !text_less(c, a),
{
    let (x, y, z) = (text_rank(a), text_rank(b), text_rank(c));
    if text_less(c, a) {
        lex_total(x, y);
        lex_total(y, z);
        if x == y || y == z {
        } else {
            lex_transitive(x, y, z);
            lex_asymmetric(x, z);
        }
    }
}

proof fn inserting_keeps_order(rooms: Seq<RoomInfoView>, entry: RoomInfoView)
    requires
        is_sorted(rooms),
    ensures
        is_sorted(insert_by_name(rooms, entry)),
        forall|k: int|
            0 <= k < insert_by_name(rooms, entry).len() ==> (#[trigger] insert_by_name(
                rooms,
                entry,
            )[k] == entry || rooms.contains(insert_by_name(rooms, entry)[k])),
    decreases rooms.len(),
{
    let after = insert_by_name(rooms, entry);
    inserting_keeps_rooms(rooms, entry);
    if rooms.len() > 0 && text_less(entry.name, rooms.last().name) {
        let short = rooms.drop_last();
        let head = insert_by_name(short, entry);
        inserting_keeps_order(short, entry);
        inserting_keeps_rooms(short, entry);
        assert forall|k: int| 0 <= k < after.len() implies (#[trigger] after[k] == entry
            || rooms.contains(after[k])) by {
            if k < head.len() {
                assert(after[k] == head[k]);
                if head[k] != entry {
                    let m = choose|m: int| 0 <= m < short.len() && short[m] == head[k];
                    assert(rooms[m] == head[k]);
                }
            } else {
                assert(after[k] == rooms[rooms.len() - 1]);
            }
        }
        assert forall|i: int, j: int|
            #![trigger after[i], after[j]]
            0 <= i < j < after.len() implies !text_less(after[j].name, after[i].name) by {
            if j < head.len() {
                assert(after[i] == head[i] && after[j] == head[j]);
            } else {
                assert(after[i] == head[i]);
                if head[i] == entry {
                    lex_asymmetric(text_rank(entry.name), text_rank(rooms.last().name));
                } else {
                    let m = choose|m: int| 0 <= m < short.len() && short[m] == head[i];
                    assert(rooms[m] == head[i]);
                    assert(!text_less(rooms[rooms.len() - 1].name, rooms[m].name));
                }
            }
        }
    } else {
        assert forall|k: int| 0 <= k < after.len() implies (#[trigger] after[k] == entry
            || rooms.contains(after[k])) by {
            if k < rooms.len() {
                assert(after[k] == rooms[k]);
            }
        }
        assert forall|i: int, j: int|
            #![trigger after[i], after[j]]
            0 <= i < j < after.len() implies !text_less(after[j].name, after[i].name) by {
            if j < rooms.len() {
                assert(after[i] == rooms[i] && after[j] == rooms[j]);
            } else {
                let last = rooms[rooms.len() - 1];
                assert(after[i] == rooms[i]);
                lex_irreflexive(text_rank(last.name));
                if i < rooms.len() - 1 {
                    assert(!text_less(last.name, rooms[i].name));
                    not_less_transitive(rooms[i].name, last.name, entry.name);
                }
            }
        }
    }
}

/// A sorted directory lists its rooms in ascending order of their names.
pub proof fn sorting_sorts(rooms: Seq<RoomInfoView>)
    ensures
        is_sorted(sort_by_name(rooms)),
    decreases rooms.len(),
{
    if rooms.len() > 0 {
        sorting_sorts(rooms.drop_last());
        inserting_keeps_order(sort_by_name(rooms.drop_last()), rooms.last());
    }
}

proof fn named_push(rooms: Seq<RoomInfoView>, entry: RoomInfoView, name: Seq<char>)
    ensures
        named(rooms.push(entry), name) == (if entry.name == name {
            named(rooms, name).push(entry)
        } else {
            named(rooms, name)
        }),
{
    reveal(Seq::filter);
    assert(rooms.push(entry).drop_last() =~= rooms);
}

proof fn inserting_is_stable(rooms: Seq<RoomInfoView>, entry: RoomInfoView, name: Seq<char>)
    ensures
        named(insert_by_name(rooms, entry), name) == named(rooms.push(entry), name),
    decreases rooms.len(),
{
    if rooms.len() > 0 && text_less(entry.name, rooms.last().name) {
        let short = rooms.drop_last();
        inserting_is_stable(short, entry, name);
        lex_irreflexive(text_rank(entry.name));
        assert(entry.name != rooms.last().name);
        named_push(insert_by_name(short, entry), rooms.last(), name);
        named_push(short, entry, name);
        named_push(rooms, entry, name);
        named_push(short, rooms.last(), name);
        assert(short.push(rooms.last()) =~= rooms);
    }
}

/// Rooms of the same name keep their order when a directory is sorted.
pub proof fn sorting_is_stable(rooms: Seq<RoomInfoView>, name: Seq<char>)
    ensures
        named(sort_by_name(rooms), name) == named(rooms, name),
    decreases rooms.len(),
{
    if rooms.len() > 0 {
        let short = rooms.drop_last();
        sorting_is_stable(short, name);
        inserting_is_stable(sort_by_name(short), rooms.last(), name);
        named_push(sort_by_name(short), rooms.last(), name);
        named_push(short, rooms.last(), name);
        assert(short.push(rooms.last()) =~= rooms);
    }
}

proof fn named_has(rooms: Seq<RoomInfoView>, i: int)
    requires
        0 <= i < rooms.len(),
    ensures
        named(rooms, rooms[i].name).contains(rooms[i]),
{
    filter_keeps(rooms, has_name(rooms[i].name), rooms[i]);
}

proof fn named_comes_from(rooms: Seq<RoomInfoView>, name: Seq<char>)
    ensures
        forall|m: int|
            0 <= m < named(rooms, name).len() ==> (#[trigger] named(rooms, name)[m]).name == name
                && rooms.contains(named(rooms, name)[m]),
{
    assert forall|m: int| 0 <= m < named(rooms, name).len() implies (#[trigger] named(
        rooms,
        name,
    )[m]).name == name && rooms.contains(named(rooms, name)[m]) by {
        let hit = named(rooms, name)[m];
        assert(named(rooms, name).contains(hit));
        filter_keeps(rooms, has_name(name), hit);
    }
}

proof fn nothing_named(rooms: Seq<RoomInfoView>, name: Seq<char>)
    requires
        !names(rooms).contains(name),
    ensures
        named(rooms, name).len() == 0,
{
    named_comes_from(rooms, name);
    if named(rooms, name).len() > 0 {
        let hit = named(rooms, name)[0];
        let k = choose|k: int| 0 <= k < rooms.len() && rooms[k] == hit;
        assert(names(rooms)[k] == name);
    }
}

/// After a room was reported as registered, the directory lists it with the reported topic.
pub proof fn registered_room_is_current(
    rooms: Seq<RoomInfoView>,
    room: Seq<char>,
    state: RoomStateView,
)
    requires
        state.registered,
    ensures
        ({
            let after = directory_after(rooms, room, state);
            &&& names(after).index_of_first(room) matches Some(i)
            &&& 0 <= i < after.len()
            &&& after[i] == RoomInfoView { name: room, topic: state.topic }
        }),
{
    let after = directory_after(rooms, room, state);
    let entry = RoomInfoView { name: room, topic: state.topic };
    names(rooms).index_of_first_ensures(room);
    names(after).index_of_first_ensures(room);
    match names(rooms).index_of_first(room) {
        Some(i) => {
            assert(names(rooms)[i] == rooms[i].name);
            assert(names(after)[i] == room);
            assert forall|j: int| 0 <= j < i implies names(after)[j] != room by {
                assert(names(after)[j] == names(rooms)[j]);
            }
        },
        None => {
            let wide = rooms.push(entry);
            sorting_is_stable(wide, room);
            named_push(rooms, entry, room);
            nothing_named(rooms, room);
            assert(named(after, room) =~= seq![entry]);
            named_comes_from(after, room);
            assert(named(after, room)[0] == entry);
            let k = choose|k: int| 0 <= k < after.len() && after[k] == entry;
            assert(names(after)[k] == room);
            let i = names(after).index_of_first(room).unwrap();
            assert(names(after)[i] == after[i].name);
            named_has(after, i);
        },
    }
}

/// After a room was reported as not registered, a directory that lists no room twice
/// does not list it.
pub proof fn unregistered_room_is_gone(
    rooms: Seq<RoomInfoView>,
    room: Seq<char>,
    state: RoomStateView,
)
    requires
        !state.registered,
        names(rooms).no_duplicates(),
    ensures
        !names(directory_after(rooms, room, state)).contains(room),
{
    let after = directory_after(rooms, room, state);
    names(rooms).index_of_first_ensures(room);
    if let Some(i) = names(rooms).index_of_first(room) {
        if names(after).contains(room) {
            let k = choose|k: int| 0 <= k < names(after).len() && names(after)[k] == room;
            let p = if k < i {
                k
            } else {
                k + 1
            };
            assert(after[k] == rooms[p]);
            assert(names(rooms)[p] == room);
        }
    }
}

proof fn named_update_other(
    rooms: Seq<RoomInfoView>,
    i: int,
    entry: RoomInfoView,
    name: Seq<char>,
)
    requires
        0 <= i < rooms.len(),
        rooms[i].name != name,
        entry.name != name,
    ensures
        named(rooms.update(i, entry), name) == named(rooms, name),
        named(rooms.remove(i), name) == named(rooms, name),
    decreases rooms.len(),
{
    let short = rooms.drop_last();
    named_push(short, rooms.last(), name);
    assert(short.push(rooms.last()) =~= rooms);
    if i == short.len() {
        named_push(short, entry, name);
        assert(rooms.update(i, entry) =~= short.push(entry));
        assert(rooms.remove(i) =~= short);
    } else {
        named_update_other(short, i, entry, name);
        named_push(short.update(i, entry), rooms.last(), name);
        named_push(short.remove(i), rooms.last(), name);
        assert(rooms.update(i, entry) =~= short.update(i, entry).push(rooms.last()));
        assert(rooms.remove(i) =~= short.remove(i).push(rooms.last()));
    }
}

/// A report on one room leaves the entries of every other room as they are.
pub proof fn other_rooms_are_kept(
    rooms: Seq<RoomInfoView>,
    room: Seq<char>,
    state: RoomStateView,
    other: Seq<char>,
)
    requires
        other != room,
    ensures
        named(directory_after(rooms, room, state), other) == named(rooms, other),
{
    let entry = RoomInfoView { name: room, topic: state.topic };
    names(rooms).index_of_first_ensures(room);
    match names(rooms).index_of_first(room) {
        Some(i) => {
            assert(names(rooms)[i] == rooms[i].name);
            named_update_other(rooms, i, entry, other);
        },
        None => {
            sorting_is_stable(rooms.push(entry), other);
            named_push(rooms, entry, other);
        },
    }
}

/// A report that was applied changes nothing when it is applied once more,
/// in a directory that lists no room twice or for a registered room.
pub proof fn report_is_idempotent(
    rooms: Seq<RoomInfoView>,
    room: Seq<char>,
    state: RoomStateView,
)
    requires
        state.registered || names(rooms).no_duplicates(),
    ensures
        directory_after(directory_after(rooms, room, state), room, state) == directory_after(
            rooms,
            room,
            state,
        ),
{
    let after = directory_after(rooms, room, state);
    names(after).index_of_first_ensures(room);
    if state.registered {
        registered_room_is_current(rooms, room, state);
        let i = names(after).index_of_first(room).unwrap();
        assert(after.update(i, after[i]) =~= after);
    } else {
        unregistered_room_is_gone(rooms, room, state);
    }
}

/// A sorted directory stays sorted under reports.
pub proof fn directory_stays_sorted(
    rooms: Seq<RoomInfoView>,
    room: Seq<char>,
    state: RoomStateView,
)
    requires
        is_sorted(rooms),
    ensures
        is_sorted(directory_after(rooms, room, state)),
{
    let after = directory_after(rooms, room, state);
    names(rooms).index_of_first_ensures(room);
    match names(rooms).index_of_first(room) {
        Some(at) => {
            assert forall|i: int, j: int|
                #![trigger after[i], after[j]]
                0 <= i < j < after.len() implies !text_less(after[j].name, after[i].name) by {
                if state.registered {
                    assert(after[i].name == rooms[i].name && after[j].name == rooms[j].name);
                } else {
                    let p = if i < at {
                        i
                    } else {
                        i + 1
                    };
                    let q = if j < at {
                        j
                    } else {
                        j + 1
                    };
                    assert(after[i] == rooms[p] && after[j] == rooms[q]);
                }
            }
        },
        None => {
            sorting_sorts(rooms.push(RoomInfoView { name: room, topic: state.topic }));
        },
    }
}

proof fn named_twice(rooms: Seq<RoomInfoView>, i: int, j: int)
    requires
        0 <= i < j < rooms.len(),
        rooms[i].name == rooms[j].name,
    ensures
        named(rooms, rooms[i].name).len() >= 2,
    decreases rooms.len(),
{
    let short = rooms.drop_last();
    named_push(short, rooms.last(), rooms[i].name);
    assert(short.push(rooms.last()) =~= rooms);
    if j < short.len() {
        named_twice(short, i, j);
    } else {
        named_has(short, i);
    }
}

proof fn named_once(rooms: Seq<RoomInfoView>, name: Seq<char>)
    requires
        names(rooms).no_duplicates(),
    ensures
        named(rooms, name).len() <= 1,
    decreases rooms.len(),
{
    if rooms.len() > 0 {
        let short = rooms.drop_last();
        named_push(short, rooms.last(), name);
        assert(short.push(rooms.last()) =~= rooms);
        assert(names(short) =~= names(rooms).drop_last());
        named_once(short, name);
        if rooms.last().name == name {
            assert(!names(short).contains(name)) by {
                if names(short).contains(name) {
                    let k = choose|k: int| 0 <= k < names(short).len() && names(short)[k] == name;
                    assert(names(rooms)[k] == name);
                    assert(names(rooms)[rooms.len() - 1] == name);
                }
            }
            nothing_named(short, name);
        }
    } else {
        reveal(Seq::filter);
    }
}

/// A directory that lists no room twice goes on listing none twice under reports.
pub proof fn directory_stays_distinct(
    rooms: Seq<RoomInfoView>,
    room: Seq<char>,
    state: RoomStateView,
)
    requires
        names(rooms).no_duplicates(),
    ensures
        names(directory_after(rooms, room, state)).no_duplicates(),
{
    let after = directory_after(rooms, room, state);
    names(rooms).index_of_first_ensures(room);
    match names(rooms).index_of_first(room) {
        Some(at) => {
            assert(names(rooms)[at] == rooms[at].name);
            if state.registered {
                assert(names(after) =~= names(rooms));
            } else {
                assert(names(after) =~= names(rooms).remove(at));
            }
        },
        None => {
            if state.registered {
                let entry = RoomInfoView { name: room, topic: state.topic };
                let wide = rooms.push(entry);
                assert(names(wide) =~= names(rooms).push(room));
                assert(names(wide).no_duplicates());
                assert forall|i: int, j: int| 0 <= i < j < after.len() implies names(after)[i]
                    != names(after)[j] by {
                    if after[i].name == after[j].name {
                        named_twice(after, i, j);
                        sorting_is_stable(wide, after[i].name);
                        named_once(wide, after[i].name);
                    }
                }
            }
        },
    }
}

/// A room that is listed keeps its place: reported as registered it has the reported topic there,
/// reported as not registered it is taken out, and no other entry moves past another.
pub proof fn listed_room_keeps_its_place(
    rooms: Seq<RoomInfoView>,
    room: Seq<char>,
    state: RoomStateView,
    at: int,
)
    requires
        0 <= at < rooms.len(),
        rooms[at].name == room,
        forall|j: int| 0 <= j < at ==> (#[trigger] rooms[j]).name != room,
    ensures
        ({
            let after = directory_after(rooms, room, state);
            &&& state.registered ==> after.len() == rooms.len() && after[at] == (RoomInfoView {
                name: room,
                topic: state.topic,
            }) && forall|j: int|
                0 <= j < rooms.len() && j != at ==> #[trigger] after[j] == rooms[j]
            &&& !state.registered ==> after == rooms.take(at) + rooms.skip(at + 1)
        }),
{
    names(rooms).index_of_first_ensures(room);
    assert(names(rooms)[at] == room);
    assert forall|j: int| 0 <= j < at implies names(rooms)[j] != room by {
        assert(names(rooms)[j] == rooms[j].name);
    }
    assert(names(rooms).index_of_first(room) == Some(at));
    assert(rooms.remove(at) =~= rooms.take(at) + rooms.skip(at + 1));
}

/// A room that is not listed comes to the directory where it is reported as registered, and the
/// directory is sorted then, with entries of the same name in their order; reported as not
/// registered it changes nothing.
pub proof fn unlisted_room_is_sorted_in(
    rooms: Seq<RoomInfoView>,
    room: Seq<char>,
    state: RoomStateView,
    name: Seq<char>,
)
    requires
        forall|j: int| 0 <= j < rooms.len() ==> (#[trigger] rooms[j]).name != room,
    ensures
        ({
            let after = directory_after(rooms, room, state);
            let entry = RoomInfoView { name: room, topic: state.topic };
            &&& !state.registered ==> after == rooms
            &&& state.registered ==> after.to_multiset() == rooms.push(entry).to_multiset()
            &&& state.registered ==> forall|i: int, j: int|
                0 <= i < j < after.len() ==> !text_less(
                    (#[trigger] after[j]).name,
                    (#[trigger] after[i]).name,
                )
            &&& state.registered ==> after.filter(|r: RoomInfoView| r.name == name) == rooms.push(
                entry,
            ).filter(|r: RoomInfoView| r.name == name)
        }),
{
    let after = directory_after(rooms, room, state);
    let entry = RoomInfoView { name: room, topic: state.topic };
    names(rooms).index_of_first_ensures(room);
    assert forall|j: int| 0 <= j < rooms.len() implies names(rooms)[j] != room by {
        assert(names(rooms)[j] == rooms[j].name);
    }
    sorting_keeps_rooms(rooms.push(entry));
    sorting_sorts(rooms.push(entry));
    sorting_is_stable(rooms.push(entry), name);
    assert(has_name(name) =~= (|r: RoomInfoView| r.name == name));
}

} // verus!
