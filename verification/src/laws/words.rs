//! What can be relied on when text is read, reduced, ordered and written.
use crate::order::{lex_less, text_less, text_rank};
use crate::text::{decimal, digit, is_white_space, lower, strip_leading, trim, trim_end, trim_start};
use crate::types::{error_text, mode_flag, ErrorView, RoomMode};
use crate::wait::plain_room;
use vstd::prelude::*;

verus! {

proof fn start_is_cut(s: Seq<char>) -> (n: int)
    ensures
        0 <= n <= s.len(),
        trim_start(s) == s.skip(n),
        forall|i: int| 0 <= i < n ==> is_white_space(#[trigger] s[i]),
        n < s.len() ==> !is_white_space(s[n]),
    decreases s.len(),
{
    if s.len() > 0 && is_white_space(s[0]) {
        let rest = s.drop_first();
        let n = start_is_cut(rest);
        assert(rest.skip(n) =~= s.skip(n + 1));
        assert forall|i: int| 0 <= i < n + 1 implies is_white_space(#[trigger] s[i]) by {
            if i > 0 {
                assert(rest[i - 1] == s[i]);
            }
        }
        n + 1
    } else {
        assert(s.skip(0) =~= s);
        0
    }
}

proof fn end_is_cut(s: Seq<char>) -> (n: int)
    ensures
        0 <= n <= s.len(),
        trim_end(s) == s.take(n),
        forall|i: int| n <= i < s.len() ==> is_white_space(#[trigger] s[i]),
        n > 0 ==> !is_white_space(s[n - 1]),
    decreases s.len(),
{
    if s.len() > 0 && is_white_space(s.last()) {
        let rest = s.drop_last();
        let n = end_is_cut(rest);
        assert(rest.take(n) =~= s.take(n));
        assert forall|i: int| n <= i < s.len() implies is_white_space(#[trigger] s[i]) by {
            if i < s.len() - 1 {
                assert(rest[i] == s[i]);
            }
        }
        n
    } else {
        assert(s.take(s.len() as int) =~= s);
        s.len() as int
    }
}

/// Trimming takes away white space at the two ends and nothing else: what is left is one piece
/// of the text that neither starts nor ends with white space.
pub proof fn trim_takes_white_space(s: Seq<char>) -> (cut: (int, int))
    ensures
        0 <= cut.0 <= cut.1 <= s.len(),
        trim(s) == s.subrange(cut.0, cut.1),
        forall|i: int|
            0 <= i < cut.0 || cut.1 <= i < s.len() ==> is_white_space(#[trigger] s[i]),
        cut.0 < cut.1 ==> !is_white_space(s[cut.0]) && !is_white_space(s[cut.1 - 1]),
{
    let a = start_is_cut(s);
    let mid = s.skip(a);
    let n = end_is_cut(mid);
    assert(mid.take(n) =~= s.subrange(a, a + n));
    assert forall|i: int| 0 <= i < a || a + n <= i < s.len() implies is_white_space(
        #[trigger] s[i],
    ) by {
        if i >= a + n {
            assert(mid[i - a] == s[i]);
        }
    }
    if n > 0 {
        assert(mid[n - 1] == s[a + n - 1]);
    }
    (a, a + n)
}

/// Stripping takes away the marks at the start and nothing else.
pub proof fn strip_takes_marks(s: Seq<char>, mark: char) -> (n: int)
    ensures
        0 <= n <= s.len(),
        strip_leading(s, mark) == s.skip(n),
        forall|i: int| 0 <= i < n ==> #[trigger] s[i] == mark,
        n < s.len() ==> s[n] != mark,
    decreases s.len(),
{
    if s.len() > 0 && s[0] == mark {
        let rest = s.drop_first();
        let n = strip_takes_marks(rest, mark);
        assert(rest.skip(n) =~= s.skip(n + 1));
        assert forall|i: int| 0 <= i < n + 1 implies #[trigger] s[i] == mark by {
            if i > 0 {
                assert(rest[i - 1] == s[i]);
            }
        }
        n + 1
    } else {
        assert(s.skip(0) =~= s);
        0
    }
}

/// Lowering moves the capitals from A to Z to their small letters and leaves every other
/// character where and as it is.
pub proof fn lower_moves_capitals(s: Seq<char>)
    ensures
        lower(s).len() == s.len(),
        forall|i: int|
            0 <= i < s.len() ==> (#[trigger] lower(s)[i]) as int == if 65 <= s[i] as int <= 90 {
                s[i] as int + 32
            } else {
                s[i] as int
            },
{
}

/// A room is waited for under the name that is left when white space at the ends and then the
/// marks at the start are taken away and the capitals are lowered.
pub proof fn plain_room_is_reduced(room: Seq<char>) -> (cut: (int, int, int))
    ensures
        0 <= cut.0 <= cut.1 <= cut.2 <= room.len(),
        forall|i: int|
            0 <= i < cut.0 || cut.2 <= i < room.len() ==> is_white_space(#[trigger] room[i]),
        cut.0 < cut.2 ==> !is_white_space(room[cut.0]) && !is_white_space(room[cut.2 - 1]),
        forall|i: int| cut.0 <= i < cut.1 ==> #[trigger] room[i] == '#',
        cut.1 < cut.2 ==> room[cut.1] != '#',
        plain_room(room).len() == cut.2 - cut.1,
        forall|i: int|
            0 <= i < cut.2 - cut.1 ==> (#[trigger] plain_room(room)[i]) as int == if 65
                <= room[cut.1 + i] as int <= 90 {
                room[cut.1 + i] as int + 32
            } else {
                room[cut.1 + i] as int
            },
{
    let (a, c) = trim_takes_white_space(room);
    let mid = trim(room);
    let n = strip_takes_marks(mid, '#');
    let rest = strip_leading(mid, '#');
    lower_moves_capitals(rest);
    assert forall|i: int| a <= i < a + n implies #[trigger] room[i] == '#' by {
        assert(mid[i - a] == room[i]);
    }
    if n < mid.len() {
        assert(mid[n] == room[a + n]);
    }
    assert forall|i: int| 0 <= i < c - (a + n) implies (#[trigger] plain_room(room)[i]) as int
        == if 65 <= room[a + n + i] as int <= 90 {
        room[a + n + i] as int + 32
    } else {
        room[a + n + i] as int
    } by {
        assert(rest[i] == room[a + n + i]);
    }
    (a, a + n, c)
}

/// The number that decimal digits write.
pub open spec fn number_of(digits: Seq<char>) -> int
    decreases digits.len(),
{
    if digits.len() == 0 {
        0
    } else {
        10 * number_of(digits.drop_last()) + (digits.last() as int - 48)
    }
}

/// A number is written in decimal digits that read back as the number, without zeros in front.
pub proof fn decimal_reads_back(n: nat)
    ensures
        number_of(decimal(n)) == n,
        decimal(n).len() > 0,
        forall|i: int|
            0 <= i < decimal(n).len() ==> 48 <= (#[trigger] decimal(n)[i]) as int <= 57,
        n > 0 ==> decimal(n)[0] != '0',
    decreases n,
{
    let d = decimal(n);
    assert((digit(n % 10)) as int == n % 10 + 48);
    if n < 10 {
        assert(d == seq![digit(n)]);
        assert(n % 10 == n);
        assert(d.drop_last() =~= Seq::<char>::empty());
        reveal_with_fuel(number_of, 2);
    } else {
        decimal_reads_back(n / 10);
        assert(d.drop_last() =~= decimal(n / 10));
        assert(d.last() == digit(n % 10));
        assert(d[0] == decimal(n / 10)[0]);
        assert forall|i: int| 0 <= i < d.len() implies 48 <= (#[trigger] d[i]) as int <= 57 by {
            if i < d.len() - 1 {
                assert(d[i] == decimal(n / 10)[i]);
            }
        }
    }
}

proof fn decided_at(a: Seq<int>, b: Seq<int>, k: int)
    requires
        0 <= k <= a.len(),
        k < b.len(),
        forall|i: int| 0 <= i < k ==> #[trigger] a[i] == b[i],
        k == a.len() || a[k] < b[k],
    ensures
        lex_less(a, b),
    decreases k,
{
    if k > 0 {
        assert(a[0] == b[0]);
        let x = a.drop_first();
        let y = b.drop_first();
        assert forall|i: int| 0 <= i < k - 1 implies #[trigger] x[i] == y[i] by {
            assert(a[i + 1] == b[i + 1]);
        }
        decided_at(x, y, k - 1);
    }
}

/// Which of two names comes first is decided by the code points at the first place where they
/// differ; a name comes before every longer one that starts with it.
pub proof fn order_is_decided_at_first_difference(a: Seq<char>, b: Seq<char>, k: int)
    requires
        0 <= k <= a.len(),
        k < b.len(),
        forall|i: int| 0 <= i < k ==> #[trigger] a[i] == b[i],
        k == a.len() || (a[k] as int) < (b[k] as int),
    ensures
        text_less(a, b),
        !text_less(b, a),
{
    let x = text_rank(a);
    let y = text_rank(b);
    assert forall|i: int| 0 <= i < k implies #[trigger] x[i] == y[i] by {
        assert(a[i] == b[i]);
    }
    decided_at(x, y, k);
    crate::order::lex_asymmetric(x, y);
}

/// No two modes have the same letter, every letter is a small one, and each letter names the mode
/// that it is known for; none is that of the key.
pub proof fn modes_have_their_own_letters(a: RoomMode, b: RoomMode)
    ensures
        a != b ==> mode_flag(a) != mode_flag(b),
        97 <= mode_flag(a) as int <= 122,
        mode_flag(a) != 'k',
        mode_flag(a) == 'm' <==> a is Moderated,
        mode_flag(a) == 'i' <==> a is InviteOnly,
        mode_flag(a) == 't' <==> a is TopicOperatorsOnly,
        mode_flag(a) == 'n' <==> a is NoOutsideMessages,
        mode_flag(a) == 'p' <==> a is Private,
{
}

/// White space is the characters at these code points and no others.
pub proof fn white_space_by_code_point(c: char)
    ensures
        is_white_space(c) <==> {
            let at = c as int;
            ||| at == 9 || at == 10 || at == 11 || at == 12 || at == 13
            ||| at == 32 || at == 133 || at == 160 || at == 5760
            ||| 8192 <= at <= 8202
            ||| at == 8232 || at == 8233 || at == 8239 || at == 8287 || at == 12288
        },
{
}

/// What the transport said of an error is passed on word for word, and how many events were
/// missed can be read from the text.
pub proof fn error_texts_tell(words: Seq<char>, count: u64)
    ensures
        error_text(ErrorView::Transport(words)) == words,
        exists|before: Seq<char>, digits: Seq<char>, after: Seq<char>|
            error_text(ErrorView::EventLagged(count)) == #[trigger] (before + digits + after)
                && number_of(digits) == count && before == "RRC event receiver lagged by "@
                && after == " events"@,
{
    decimal_reads_back(count as nat);
    let text = "RRC event receiver lagged by "@ + decimal(count as nat) + " events"@;
    assert(error_text(ErrorView::EventLagged(count)) == text);
}

} // verus!
