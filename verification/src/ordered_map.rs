//! A map that keeps its keys in ascending order.
use crate::order::{lex_asymmetric, lex_irreflexive, lex_less, lex_total, lex_transitive, Ranked};
use crate::replica::Replica;
use vstd::prelude::*;

verus! {

/// A map whose entries are kept in ascending order of their keys.
#[derive(Debug, PartialEq, Eq)]
pub struct OrderedMap<K: Ranked, V: DeepView> {
    entries: Vec<(K, V)>,
}

/// Whether the keys of `entries` ascend, so that none occurs twice.
spec fn keys_ascend<K: Ranked, V: DeepView>(entries: Seq<(K, V)>) -> bool {
    forall|i: int, j: int|
        #![trigger entries[i], entries[j]]
        0 <= i < j < entries.len() ==> lex_less(K::rank(entries[i].0@), K::rank(entries[j].0@))
}

/// Whether `key` stands at `i`.
spec fn stands_at<K: Ranked, V: DeepView>(entries: Seq<(K, V)>, key: K::V, i: int) -> bool {
    0 <= i < entries.len() && entries[i].0@ == key
}

/// What `entries` map their keys to.
spec fn contents<K: Ranked, V: DeepView>(entries: Seq<(K, V)>) -> Map<K::V, V::V> {
    Map::new(
        |key: K::V| exists|i: int| stands_at(entries, key, i),
        |key: K::V| entries[choose|i: int| stands_at(entries, key, i)].1.deep_view(),
    )
}

/// Whether `keys` are the keys of `map`, each once, in ascending order.
pub open spec fn lists_keys<K: Ranked, W>(keys: Seq<K::V>, map: Map<K::V, W>) -> bool {
    &&& forall|i: int, j: int|
        #![trigger keys[i], keys[j]]
        0 <= i < j < keys.len() ==> lex_less(K::rank(keys[i]), K::rank(keys[j]))
    &&& forall|key: K::V| #[trigger] map.contains_key(key) <==> keys.contains(key)
}

/// The keys of `map`, each once, in ascending order.
pub open spec fn ascending<K: Ranked, W>(map: Map<K::V, W>) -> Seq<K::V> {
    choose|keys: Seq<K::V>| lists_keys::<K, W>(keys, map)
}

proof fn contents_at<K: Ranked, V: DeepView>(entries: Seq<(K, V)>, i: int)
    requires
        keys_ascend(entries),
        0 <= i < entries.len(),
    ensures
        contents(entries).contains_key(entries[i].0@),
        contents(entries)[entries[i].0@] == entries[i].1.deep_view(),
{
    let key = entries[i].0@;
    assert(stands_at(entries, key, i));
    let k = choose|k: int| stands_at(entries, key, k);
    lex_irreflexive(K::rank(key));
    assert(k == i) by {
        if k < i {
            assert(lex_less(K::rank(entries[k].0@), K::rank(entries[i].0@)));
        } else if i < k {
            assert(lex_less(K::rank(entries[i].0@), K::rank(entries[k].0@)));
        }
    }
}

impl<K: Ranked, V: DeepView> View for OrderedMap<K, V> {
    type V = Map<K::V, V::V>;

    closed spec fn view(&self) -> Map<K::V, V::V> {
        contents(self.entries@)
    }
}

impl<K: Ranked, V: DeepView> DeepView for OrderedMap<K, V> {
    type V = Map<K::V, V::V>;

    open spec fn deep_view(&self) -> Map<K::V, V::V> {
        self@
    }
}

impl<K: Ranked, V: DeepView> OrderedMap<K, V> {
    #[verifier::type_invariant]
    spec fn ascending(self) -> bool {
        keys_ascend(self.entries@)
    }

    /// The keys, in ascending order.
    pub closed spec fn keys(self) -> Seq<K::V> {
        Seq::new(self.entries@.len(), |i: int| self.entries@[i].0@)
    }

    /// A map without entries.
    pub fn new() -> (map: Self)
        ensures
            map@ == Map::<K::V, V::V>::empty(),
    {
        let map = OrderedMap { entries: Vec::new() };
        assert(map@ =~= Map::<K::V, V::V>::empty());
        map
    }

    /// The number of entries.
    pub fn len(&self) -> (n: usize)
        ensures
            n == self.keys().len(),
            lists_keys::<K, V::V>(self.keys(), self@),
            self.keys() == ascending::<K, V::V>(self@),
    {
        proof {
            use_type_invariant(self);
            self.keys_are_listed();
            listing_is_unique::<K, V::V>(self.keys(), ascending::<K, V::V>(self@), self@);
        }
        self.entries.len()
    }

    proof fn keys_are_listed(self)
        requires
            keys_ascend(self.entries@),
        ensures
            lists_keys::<K, V::V>(self.keys(), self@),
    {
        let keys = self.keys();
        assert forall|key: K::V| #[trigger] self@.contains_key(key) <==> keys.contains(key) by {
            if self@.contains_key(key) {
                let i = choose|i: int| stands_at(self.entries@, key, i);
                assert(keys[i] == key);
            }
            if keys.contains(key) {
                let i = choose|i: int| 0 <= i < keys.len() && keys[i] == key;
                assert(stands_at(self.entries@, key, i));
            }
        }
        assert forall|i: int, j: int|
            #![trigger keys[i], keys[j]]
            0 <= i < j < keys.len() implies lex_less(K::rank(keys[i]), K::rank(keys[j])) by {
            assert(lex_less(
                K::rank(self.entries@[i].0@),
                K::rank(self.entries@[j].0@),
            ));
        }
    }

    /// The entry at position `i` of the ascending order.
    pub fn entry(&self, i: usize) -> (pair: (&K, &V))
        requires
            i < self.keys().len(),
        ensures
            pair.0@ == self.keys()[i as int],
            self@.contains_key(pair.0@),
            self@[pair.0@] == pair.1.deep_view(),
    {
        proof {
            use_type_invariant(self);
            contents_at(self.entries@, i as int);
        }
        (&self.entries[i].0, &self.entries[i].1)
    }

    /// The first position whose key does not come before `key`.
    fn locate(&self, key: &K) -> (at: usize)
        ensures
            at <= self.entries@.len(),
            forall|j: int|
                0 <= j < at ==> lex_less(K::rank((#[trigger] self.entries@[j]).0@), K::rank(key@)),
            at < self.entries@.len() ==> !lex_less(
                K::rank(self.entries@[at as int].0@),
                K::rank(key@),
            ),
    {
        let mut at: usize = 0;
        while at < self.entries.len() && self.entries[at].0.precedes(key)
            invariant
                at <= self.entries@.len(),
                forall|j: int|
                    0 <= j < at ==> lex_less(
                        K::rank((#[trigger] self.entries@[j]).0@),
                        K::rank(key@),
                    ),
            decreases self.entries.len() - at,
        {
            at += 1;
        }
        at
    }

    /// The position of `key`, if the map has it.
    fn find(&self, key: &K) -> (place: Result<usize, usize>)
        ensures
            match place {
                Ok(at) => at < self.entries@.len() && self.entries@[at as int].0@ == key@,
                Err(at) => {
                    &&& at <= self.entries@.len()
                    &&& !self@.contains_key(key@)
                    &&& forall|j: int|
                        0 <= j < at ==> lex_less(
                            K::rank((#[trigger] self.entries@[j]).0@),
                            K::rank(key@),
                        )
                    &&& forall|j: int|
                        at <= j < self.entries@.len() ==> lex_less(
                            K::rank(key@),
                            K::rank((#[trigger] self.entries@[j]).0@),
                        )
                },
            },
    {
        proof {
            use_type_invariant(self);
        }
        let at = self.locate(key);
        let ghost sought = K::rank(key@);
        if at < self.entries.len() && !key.precedes(&self.entries[at].0) {
            proof {
                let found = self.entries@[at as int].0@;
                lex_total(K::rank(found), sought);
                K::rank_identifies(found, key@);
            }
            Ok(at)
        } else {
            proof {
                assert forall|j: int| at <= j < self.entries@.len() implies lex_less(
                    sought,
                    K::rank((#[trigger] self.entries@[j]).0@),
                ) by {
                    if at < j {
                        lex_transitive(
                            sought,
                            K::rank(self.entries@[at as int].0@),
                            K::rank(self.entries@[j].0@),
                        );
                    }
                }
                if self@.contains_key(key@) {
                    let i = choose|i: int| stands_at(self.entries@, key@, i);
                    lex_irreflexive(sought);
                    assert(self.entries@[i].0@ == key@);
                }
            }
            Err(at)
        }
    }

    /// What `key` is mapped to.
    pub fn get(&self, key: &K) -> (value: Option<&V>)
        ensures
            match value {
                Some(v) => self@.contains_key(key@) && self@[key@] == v.deep_view(),
                None => !self@.contains_key(key@),
            },
    {
        proof {
            use_type_invariant(self);
        }
        match self.find(key) {
            Ok(at) => {
                proof {
                    contents_at(self.entries@, at as int);
                }
                Some(&self.entries[at].1)
            },
            Err(_) => None,
        }
    }

    /// Whether `key` is mapped to something.
    pub fn has(&self, key: &K) -> (yes: bool)
        ensures
            yes == self@.contains_key(key@),
    {
        self.get(key).is_some()
    }

    /// Maps `key` to `value` and hands back what it was mapped to.
    pub fn insert(&mut self, key: K, value: V) -> (previous: Option<V>)
        ensures
            final(self)@ == old(self)@.insert(key@, value.deep_view()),
            match previous {
                Some(v) => old(self)@.contains_key(key@) && old(self)@[key@] == v.deep_view(),
                None => !old(self)@.contains_key(key@),
            },
    {
        proof {
            use_type_invariant(&*self);
        }
        let place = self.find(&key);
        let ghost before = self.entries@;
        let ghost map = self@;
        let ghost held = value.deep_view();
        let mut entries: Vec<(K, V)> = Vec::new();
        std::mem::swap(&mut entries, &mut self.entries);
        let previous = match place {
            Ok(at) => {
                proof {
                    contents_at(before, at as int);
                }
                let (_, v) = entries.remove(at);
                entries.insert(at, (key, value));
                assert(entries@ =~= before.update(at as int, (key, value)));
                Some(v)
            },
            Err(at) => {
                entries.insert(at, (key, value));
                None
            },
        };
        proof {
            let after = entries@;
            assert(keys_ascend(after)) by {
                assert forall|i: int, j: int|
                    #![trigger after[i], after[j]]
                    0 <= i < j < after.len() implies lex_less(
                    K::rank(after[i].0@),
                    K::rank(after[j].0@),
                ) by {
                    match place {
                        Ok(at) => {
                            assert(before[i].0@ == after[i].0@);
                            assert(before[j].0@ == after[j].0@);
                        },
                        Err(at) => {
                            let p = if i < at {
                                i
                            } else {
                                i - 1
                            };
                            let q = if j < at {
                                j
                            } else {
                                j - 1
                            };
                            if i != at {
                                assert(after[i] == before[p]);
                            }
                            if j != at {
                                assert(after[j] == before[q]);
                            }
                        },
                    }
                }
            }
            insert_changes_contents(before, after, place, key, value);
        }
        self.entries = entries;
        previous
    }

    /// Removes `key` and hands back what it was mapped to.
    pub fn remove(&mut self, key: &K) -> (previous: Option<V>)
        ensures
            final(self)@ == old(self)@.remove(key@),
            match previous {
                Some(v) => old(self)@.contains_key(key@) && old(self)@[key@] == v.deep_view(),
                None => !old(self)@.contains_key(key@),
            },
    {
        proof {
            use_type_invariant(&*self);
        }
        match self.find(key) {
            Ok(at) => {
                let ghost before = self.entries@;
                let mut entries: Vec<(K, V)> = Vec::new();
                std::mem::swap(&mut entries, &mut self.entries);
                let (_, v) = entries.remove(at);
                proof {
                    let after = entries@;
                    contents_at(before, at as int);
                    assert(keys_ascend(after)) by {
                        assert forall|i: int, j: int|
                            #![trigger after[i], after[j]]
                            0 <= i < j < after.len() implies lex_less(
                            K::rank(after[i].0@),
                            K::rank(after[j].0@),
                        ) by {
                            let p = if i < at {
                                i
                            } else {
                                i + 1
                            };
                            let q = if j < at {
                                j
                            } else {
                                j + 1
                            };
                            assert(after[i] == before[p] && after[j] == before[q]);
                        }
                    }
                    remove_changes_contents(before, at as int, key@);
                }
                self.entries = entries;
                Some(v)
            },
            Err(_) => {
                assert(self@.remove(key@) =~= self@);
                None
            },
        }
    }
}

proof fn insert_changes_contents<K: Ranked, V: DeepView>(
    before: Seq<(K, V)>,
    after: Seq<(K, V)>,
    place: Result<usize, usize>,
    key: K,
    value: V,
)
    requires
        keys_ascend(before),
        keys_ascend(after),
        match place {
            Ok(at) => at < before.len() && before[at as int].0@ == key@ && after == before.update(
                at as int,
                (key, value),
            ),
            Err(at) => at <= before.len() && after == before.insert(at as int, (key, value)),
        },
    ensures
        contents(after) == contents(before).insert(key@, value.deep_view()),
{
    let target = contents(before).insert(key@, value.deep_view());
    assert forall|k: K::V|
        #![trigger contents(after).dom().contains(k)]
        #![trigger contents(after)[k]]
        contents(after).dom().contains(k) == target.dom().contains(k) && (contents(
            after,
        ).dom().contains(k) ==> contents(after)[k] == target[k]) by {
        if contents(after).contains_key(k) {
            let i = choose|i: int| stands_at(after, k, i);
            contents_at(after, i);
            match place {
                Ok(at) => {
                    if i != at {
                        assert(before[i] == after[i]);
                        contents_at(before, i);
                        lex_irreflexive(K::rank(k));
                        assert(k != key@) by {
                            if i < at {
                                assert(lex_less(
                                    K::rank(before[i].0@),
                                    K::rank(before[at as int].0@),
                                ));
                            } else {
                                assert(lex_less(
                                    K::rank(before[at as int].0@),
                                    K::rank(before[i].0@),
                                ));
                            }
                        }
                    }
                },
                Err(at) => {
                    if i != at {
                        let p = if i < at {
                            i
                        } else {
                            i - 1
                        };
                        assert(after[i] == before[p]);
                        contents_at(before, p);
                        lex_irreflexive(K::rank(k));
                        assert(k != key@) by {
                            assert(after[at as int].0@ == key@);
                            if i < at {
                                assert(lex_less(
                                    K::rank(after[i].0@),
                                    K::rank(after[at as int].0@),
                                ));
                            } else {
                                assert(lex_less(
                                    K::rank(after[at as int].0@),
                                    K::rank(after[i].0@),
                                ));
                            }
                        }
                    }
                },
            }
        }
        if target.contains_key(k) {
            if k == key@ {
                let at = match place {
                    Ok(at) => at as int,
                    Err(at) => at as int,
                };
                assert(stands_at(after, k, at));
            } else {
                let i = choose|i: int| stands_at(before, k, i);
                match place {
                    Ok(at) => {
                        assert(stands_at(after, k, i));
                    },
                    Err(at) => {
                        let p = if i < at {
                            i
                        } else {
                            i + 1
                        };
                        assert(after[p] == before[i]);
                        assert(stands_at(after, k, p));
                    },
                }
            }
        }
    }
    assert(contents(after) =~= target);
}

proof fn remove_changes_contents<K: Ranked, V: DeepView>(
    before: Seq<(K, V)>,
    at: int,
    key: K::V,
)
    requires
        keys_ascend(before),
        keys_ascend(before.remove(at)),
        0 <= at < before.len(),
        before[at].0@ == key,
    ensures
        contents(before.remove(at)) == contents(before).remove(key),
{
    let after = before.remove(at);
    let target = contents(before).remove(key);
    assert forall|k: K::V|
        #![trigger contents(after).dom().contains(k)]
        #![trigger contents(after)[k]]
        contents(after).dom().contains(k) == target.dom().contains(k) && (contents(
            after,
        ).dom().contains(k) ==> contents(after)[k] == target[k]) by {
        if contents(after).contains_key(k) {
            let i = choose|i: int| stands_at(after, k, i);
            contents_at(after, i);
            let p = if i < at {
                i
            } else {
                i + 1
            };
            assert(after[i] == before[p]);
            contents_at(before, p);
            lex_irreflexive(K::rank(k));
            assert(k != key) by {
                if p < at {
                    assert(lex_less(K::rank(before[p].0@), K::rank(before[at].0@)));
                } else {
                    assert(lex_less(K::rank(before[at].0@), K::rank(before[p].0@)));
                }
            }
        }
        if target.contains_key(k) {
            let i = choose|i: int| stands_at(before, k, i);
            assert(i != at);
            let p = if i < at {
                i
            } else {
                i - 1
            };
            assert(after[p] == before[i]);
            assert(stands_at(after, k, p));
        }
    }
    assert(contents(after) =~= target);
}

/// Two ascending listings of the keys of one map are the same listing.
pub proof fn listing_is_unique<K: Ranked, W>(a: Seq<K::V>, b: Seq<K::V>, map: Map<K::V, W>)
    requires
        lists_keys::<K, W>(a, map),
        lists_keys::<K, W>(b, map),
    ensures
        a == b,
    decreases a.len(),
{
    if a.len() == 0 {
        if b.len() > 0 {
            assert(b.contains(b[0]));
            assert(map.contains_key(b[0]));
        }
        assert(a =~= b);
    } else if b.len() == 0 {
        assert(a.contains(a[0]));
        assert(map.contains_key(a[0]));
    } else {
        let x = a.last();
        let y = b.last();
        assert(a.contains(x) && b.contains(y));
        assert(map.contains_key(x) && map.contains_key(y));
        let i = choose|i: int| 0 <= i < b.len() && b[i] == x;
        let j = choose|j: int| 0 <= j < a.len() && a[j] == y;
        assert(x == y) by {
            if i < b.len() - 1 && j < a.len() - 1 {
                assert(lex_less(K::rank(b[i]), K::rank(b[b.len() - 1])));
                assert(lex_less(K::rank(a[j]), K::rank(a[a.len() - 1])));
                lex_asymmetric(K::rank(x), K::rank(y));
            }
        }
        let rest = map.remove(x);
        shorter_listing::<K, W>(a, map);
        shorter_listing::<K, W>(b, map);
        listing_is_unique::<K, W>(a.drop_last(), b.drop_last(), rest);
        assert(a =~= a.drop_last().push(x));
        assert(b =~= b.drop_last().push(x));
    }
}

proof fn shorter_listing<K: Ranked, W>(a: Seq<K::V>, map: Map<K::V, W>)
    requires
        a.len() > 0,
        lists_keys::<K, W>(a, map),
    ensures
        lists_keys::<K, W>(a.drop_last(), map.remove(a.last())),
{
    let short = a.drop_last();
    let rest = map.remove(a.last());
    assert forall|key: K::V| #[trigger] rest.contains_key(key) <==> short.contains(key) by {
        if rest.contains_key(key) {
            assert(map.contains_key(key));
            let i = choose|i: int| 0 <= i < a.len() && a[i] == key;
            assert(short[i] == key);
        }
        if short.contains(key) {
            let i = choose|i: int| 0 <= i < short.len() && short[i] == key;
            assert(a[i] == key);
            assert(a.contains(key));
            lex_irreflexive(K::rank(key));
            assert(lex_less(K::rank(a[i]), K::rank(a[a.len() - 1])));
            assert(map.contains_key(key));
        }
    }
    assert forall|i: int, j: int|
        #![trigger short[i], short[j]]
        0 <= i < j < short.len() implies lex_less(K::rank(short[i]), K::rank(short[j])) by {
        assert(lex_less(K::rank(a[i]), K::rank(a[j])));
    }
}

proof fn longer_listing<K: Ranked, W>(keys: Seq<K::V>, map: Map<K::V, W>, key: K::V)
    requires
        lists_keys::<K, W>(keys, map.remove(key)),
        map.contains_key(key),
    ensures
        exists|longer: Seq<K::V>| lists_keys::<K, W>(longer, map),
{
    let at = place_for::<K>(keys, key, keys.len());
    let longer = keys.insert(at as int, key);
    assert forall|k: K::V| #[trigger] map.contains_key(k) <==> longer.contains(k) by {
        assert(map.remove(key).contains_key(k) <==> keys.contains(k));
        if keys.contains(k) {
            let i = choose|i: int| 0 <= i < keys.len() && keys[i] == k;
            if i < at {
                assert(longer[i] == k);
            } else {
                assert(longer[i + 1] == k);
            }
        }
        assert(longer[at as int] == key);
        if longer.contains(k) && k != key {
            let i = choose|i: int| 0 <= i < longer.len() && longer[i] == k;
            if i < at {
                assert(keys[i] == k);
            } else {
                assert(keys[i - 1] == k);
            }
        }
    }
    assert forall|i: int, j: int|
        #![trigger longer[i], longer[j]]
        0 <= i < j < longer.len() implies lex_less(K::rank(longer[i]), K::rank(longer[j])) by {
        if j < at {
            assert(lex_less(K::rank(keys[i]), K::rank(keys[j])));
        } else if j == at {
            assert(lex_less(K::rank(keys[i]), K::rank(key)));
        } else {
            assert(longer[j] == keys[j - 1]);
            assert(keys.contains(keys[j - 1]));
            assert(map.remove(key).contains_key(keys[j - 1]));
            if i == at {
                lex_total(K::rank(key), K::rank(keys[j - 1]));
                if K::rank(key) == K::rank(keys[j - 1]) {
                    K::rank_identifies(key, keys[j - 1]);
                }
                assert(!lex_less(K::rank(keys[j - 1]), K::rank(key)));
            } else if i < at {
                assert(lex_less(K::rank(keys[i]), K::rank(keys[j - 1])));
            } else {
                assert(lex_less(K::rank(keys[i - 1]), K::rank(keys[j - 1])));
            }
        }
    }
    assert(lists_keys::<K, W>(longer, map));
}

proof fn place_for<K: Ranked>(keys: Seq<K::V>, key: K::V, n: nat) -> (at: nat)
    requires
        n <= keys.len(),
        forall|i: int, j: int|
            #![trigger keys[i], keys[j]]
            0 <= i < j < keys.len() ==> lex_less(K::rank(keys[i]), K::rank(keys[j])),
    ensures
        at <= n,
        forall|i: int| 0 <= i < at ==> lex_less(K::rank(#[trigger] keys[i]), K::rank(key)),
        forall|i: int| at <= i < n ==> !lex_less(K::rank(#[trigger] keys[i]), K::rank(key)),
    decreases n,
{
    if n == 0 {
        0
    } else if lex_less(K::rank(keys[n - 1]), K::rank(key)) {
        assert forall|i: int| 0 <= i < n implies lex_less(
            K::rank(#[trigger] keys[i]),
            K::rank(key),
        ) by {
            if i < n - 1 {
                lex_transitive(K::rank(keys[i]), K::rank(keys[n - 1]), K::rank(key));
            }
        }
        n
    } else {
        place_for::<K>(keys, key, (n - 1) as nat)
    }
}

/// The keys of every finite map can be listed in ascending order.
pub proof fn listing_exists<K: Ranked, W>(map: Map<K::V, W>)
    requires
        map.dom().finite(),
    ensures
        lists_keys::<K, W>(ascending::<K, W>(map), map),
    decreases map.dom().len(),
{
    if map.dom().len() == 0 {
        assert(map.dom() =~= Set::empty());
        assert forall|key: K::V| #[trigger]
            map.contains_key(key) <==> Seq::<K::V>::empty().contains(key) by {
            assert(map.dom().contains(key) == map.contains_key(key));
        }
        assert(lists_keys::<K, W>(Seq::empty(), map));
    } else {
        let key = map.dom().choose();
        assert(map.dom().contains(key));
        assert(map.remove(key).dom() =~= map.dom().remove(key));
        listing_exists::<K, W>(map.remove(key));
        longer_listing::<K, W>(ascending::<K, W>(map.remove(key)), map, key);
    }
}

impl<K: Ranked, V: Replica> Clone for OrderedMap<K, V> {
    fn clone(&self) -> (copy: Self)
        ensures
            copy@ == self@,
    {
        proof {
            use_type_invariant(self);
        }
        let mut entries: Vec<(K, V)> = Vec::new();
        let mut i: usize = 0;
        while i < self.entries.len()
            invariant
                i <= self.entries.len(),
                entries.len() == i,
                forall|j: int|
                    #![trigger entries@[j]]
                    0 <= j < i ==> entries@[j].0@ == self.entries@[j].0@
                        && entries@[j].1.deep_view() == self.entries@[j].1.deep_view(),
            decreases self.entries.len() - i,
        {
            let (key, value) = &self.entries[i];
            entries.push((key.same_key(), value.replica()));
            i += 1;
        }
        proof {
            let old_entries = self.entries@;
            let new_entries = entries@;
            assert forall|i: int, j: int|
                #![trigger new_entries[i], new_entries[j]]
                0 <= i < j < new_entries.len() implies lex_less(
                K::rank(new_entries[i].0@),
                K::rank(new_entries[j].0@),
            ) by {
                assert(lex_less(K::rank(old_entries[i].0@), K::rank(old_entries[j].0@)));
            }
            assert forall|k: K::V|
                #![trigger contents(new_entries).dom().contains(k)]
                #![trigger contents(new_entries)[k]]
                contents(new_entries).dom().contains(k) == contents(old_entries).dom().contains(k)
                    && (contents(new_entries).dom().contains(k) ==> contents(new_entries)[k]
                    == contents(old_entries)[k]) by {
                if contents(new_entries).dom().contains(k) {
                    let i = choose|i: int| stands_at(new_entries, k, i);
                    contents_at(new_entries, i);
                    contents_at(old_entries, i);
                }
                if contents(old_entries).dom().contains(k) {
                    let i = choose|i: int| stands_at(old_entries, k, i);
                    assert(new_entries[i].0@ == k);
                    assert(stands_at(new_entries, k, i));
                }
            }
            assert(contents(new_entries) =~= contents(old_entries));
        }
        OrderedMap { entries }
    }
}

impl<K: Ranked, V: Replica> Replica for OrderedMap<K, V> {
    fn replica(&self) -> (copy: Self) {
        self.clone()
    }
}

} // verus!
