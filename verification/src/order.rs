//! The order in which keys are kept: lexicographic, by code point or by byte.
use crate::text::chars_of;
use vstd::prelude::*;

verus! {

/// Whether `a` comes strictly before `b` in lexicographic order.
pub open spec fn lex_less(a: Seq<int>, b: Seq<int>) -> bool
    decreases a.len(),
{
    if b.len() == 0 {
        false
    } else if a.len() == 0 {
        true
    } else {
        a[0] < b[0] || (a[0] == b[0] && lex_less(a.drop_first(), b.drop_first()))
    }
}

/// Nothing comes before itself.
pub proof fn lex_irreflexive(a: Seq<int>)
    ensures
        !lex_less(a, a),
    decreases a.len(),
{
    if a.len() > 0 {
        lex_irreflexive(a.drop_first());
    }
}

/// What comes before something that comes before `c` comes before `c`.
pub proof fn lex_transitive(a: Seq<int>, b: Seq<int>, c: Seq<int>)
    requires
        lex_less(a, b),
        lex_less(b, c),
    ensures
        lex_less(a, c),
    decreases a.len(),
{
    if a.len() > 0 && a[0] == b[0] && b[0] == c[0] {
        lex_transitive(a.drop_first(), b.drop_first(), c.drop_first());
    }
}

/// Of two different sequences one comes before the other.
pub proof fn lex_total(a: Seq<int>, b: Seq<int>)
    ensures
        a == b || lex_less(a, b) || lex_less(b, a),
    decreases a.len(),
{
    if a.len() > 0 && b.len() > 0 {
        lex_total(a.drop_first(), b.drop_first());
        if a[0] == b[0] && a.drop_first() == b.drop_first() {
            assert(a =~= seq![a[0]] + a.drop_first());
            assert(b =~= seq![b[0]] + b.drop_first());
        }
    } else {
        assert(a.len() == 0 && b.len() == 0 ==> a =~= b);
    }
}

/// Two sequences do not each come before the other.
pub proof fn lex_asymmetric(a: Seq<int>, b: Seq<int>)
    requires
        lex_less(a, b),
    ensures
        !lex_less(b, a),
{
    if lex_less(b, a) {
        lex_transitive(a, b, a);
        lex_irreflexive(a);
    }
}

/// The place of a string in the order: its code points.
pub open spec fn text_rank(s: Seq<char>) -> Seq<int> {
    s.map_values(|c: char| c as int)
}

/// The place of a byte string in the order: its bytes.
pub open spec fn byte_rank(s: Seq<u8>) -> Seq<int> {
    s.map_values(|b: u8| b as int)
}

/// Whether the string `a` comes strictly before the string `b`.
pub open spec fn text_less(a: Seq<char>, b: Seq<char>) -> bool {
    lex_less(text_rank(a), text_rank(b))
}

/// Strings with the same place are the same string.
pub proof fn text_rank_identifies(a: Seq<char>, b: Seq<char>)
    requires
        text_rank(a) == text_rank(b),
    ensures
        a == b,
{
    assert(a.len() == text_rank(a).len() && b.len() == text_rank(b).len());
    assert forall|i: int| 0 <= i < a.len() implies a[i] == b[i] by {
        assert(text_rank(a)[i] == a[i] as int);
        assert(text_rank(b)[i] == b[i] as int);
    }
    assert(a =~= b);
}

/// A type whose values have a place in a total order.
pub trait Ranked: View + Sized {
    /// The place of a value in the order.
    spec fn rank(id: Self::V) -> Seq<int>;

    /// Values with the same place are the same value.
    proof fn rank_identifies(a: Self::V, b: Self::V)
        requires
            Self::rank(a) == Self::rank(b),
        ensures
            a == b,
    ;

    /// Whether `self` comes strictly before `other`.
    fn precedes(&self, other: &Self) -> (yes: bool)
        ensures
            yes == lex_less(Self::rank(self@), Self::rank(other@)),
    ;

    /// The same value once more.
    fn same_key(&self) -> (copy: Self)
        ensures
            copy@ == self@,
    ;
}

/// Whether the string `a` comes strictly before the string `b`.
pub fn text_precedes(a: &str, b: &str) -> (yes: bool)
    ensures
        yes == text_less(a@, b@),
{
    let left = chars_of(a);
    let right = chars_of(b);
    let ghost x = text_rank(a@);
    let ghost y = text_rank(b@);
    let mut i: usize = 0;
    assert(x.skip(0) =~= x && y.skip(0) =~= y);
    while i < left.len() && i < right.len() && left[i] == right[i]
        invariant
            i <= left.len(),
            i <= right.len(),
            left@ == a@,
            right@ == b@,
            x == text_rank(a@),
            y == text_rank(b@),
            lex_less(x, y) == lex_less(x.skip(i as int), y.skip(i as int)),
        decreases left.len() - i,
    {
        assert(x.skip(i as int).drop_first() =~= x.skip(i + 1));
        assert(y.skip(i as int).drop_first() =~= y.skip(i + 1));
        i += 1;
    }
    if i == right.len() {
        false
    } else if i == left.len() {
        true
    } else {
        assert(x.skip(i as int)[0] == left@[i as int] as int);
        assert(y.skip(i as int)[0] == right@[i as int] as int);
        left[i] < right[i]
    }
}

impl Ranked for String {
    open spec fn rank(id: Seq<char>) -> Seq<int> {
        text_rank(id)
    }

    proof fn rank_identifies(a: Seq<char>, b: Seq<char>) {
        text_rank_identifies(a, b);
    }

    fn precedes(&self, other: &Self) -> (yes: bool) {
        text_precedes(self.as_str(), other.as_str())
    }

    fn same_key(&self) -> (copy: Self) {
        self.clone()
    }
}

impl Ranked for [u8; 16] {
    open spec fn rank(id: Seq<u8>) -> Seq<int> {
        byte_rank(id)
    }

    proof fn rank_identifies(a: Seq<u8>, b: Seq<u8>) {
        assert(a.len() == byte_rank(a).len() && b.len() == byte_rank(b).len());
        assert forall|i: int| 0 <= i < a.len() implies a[i] == b[i] by {
            assert(byte_rank(a)[i] == a[i] as int);
            assert(byte_rank(b)[i] == b[i] as int);
        }
        assert(a =~= b);
    }

    fn precedes(&self, other: &Self) -> (yes: bool) {
        let ghost x = byte_rank(self@);
        let ghost y = byte_rank(other@);
        let mut i: usize = 0;
        assert(x.skip(0) =~= x && y.skip(0) =~= y);
        while i < 16 && self[i] == other[i]
            invariant
                i <= 16,
                self@.len() == 16,
                other@.len() == 16,
                x == byte_rank(self@),
                y == byte_rank(other@),
                lex_less(x, y) == lex_less(x.skip(i as int), y.skip(i as int)),
            decreases 16 - i,
        {
            assert(x.skip(i as int).drop_first() =~= x.skip(i + 1));
            assert(y.skip(i as int).drop_first() =~= y.skip(i + 1));
            i += 1;
        }
        if i == 16 {
            false
        } else {
            assert(x.skip(i as int)[0] == self@[i as int] as int);
            assert(y.skip(i as int)[0] == other@[i as int] as int);
            self[i] < other[i]
        }
    }

    fn same_key(&self) -> (copy: Self) {
        *self
    }
}

/// Whether two destination hashes are the same.
pub fn same_hash(a: &[u8; 16], b: &[u8; 16]) -> (yes: bool)
    ensures
        yes == (*a == *b),
{
    let mut i: usize = 0;
    while i < 16
        invariant
            i <= 16,
            forall|j: int| 0 <= j < i ==> a@[j] == b@[j],
        decreases 16 - i,
    {
        if a[i] != b[i] {
            assert(*a != *b);
            return false;
        }
        i += 1;
    }
    assert(*a =~= *b);
    true
}

} // verus!
