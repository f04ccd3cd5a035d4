//! Text as sequences of characters: searching, cutting and comparing.

use vstd::prelude::*;
use vstd::string::StringSliceAdditionalSpecFns;

verus! {

/// The position of the first `sep` in `s`, or the length of `s` where `s`
/// holds none.
pub open spec fn first_index(s: Seq<char>, sep: char) -> int
    decreases s.len(),
{
    if s.len() == 0 || s[0] == sep {
        0
    } else {
        1 + first_index(s.drop_first(), sep)
    }
}

/// `s` cut in two at its first `sep`, which belongs to neither part.
pub open spec fn cut(s: Seq<char>, sep: char) -> Option<(Seq<char>, Seq<char>)> {
    let i = first_index(s, sep);
    if i < s.len() {
        Some((s.take(i), s.skip(i + 1)))
    } else {
        None
    }
}

/// `first_index` is in range, nothing before it is `sep`, and `sep` stands
/// at it unless it is the length.
pub proof fn lemma_first_index(s: Seq<char>, sep: char)
    ensures
        0 <= first_index(s, sep) <= s.len(),
        forall|j: int| 0 <= j < first_index(s, sep) ==> s[j] != sep,
        first_index(s, sep) < s.len() ==> s[first_index(s, sep)] == sep,
    decreases s.len(),
{
    if s.len() == 0 || s[0] == sep {
    } else {
        let t = s.drop_first();
        lemma_first_index(t, sep);
        assert forall|j: int| 0 <= j < first_index(s, sep) implies s[j] != sep by {
            if j > 0 {
                assert(s[j] == t[j - 1]);
            }
        }
    }
}

/// A position with no `sep` before it, which holds `sep` or is the length,
/// is `first_index`.
pub proof fn lemma_first_index_is(s: Seq<char>, sep: char, i: int)
    requires
        0 <= i <= s.len(),
        forall|j: int| 0 <= j < i ==> s[j] != sep,
        i < s.len() ==> s[i] == sep,
    ensures
        first_index(s, sep) == i,
{
    lemma_first_index(s, sep);
    let k = first_index(s, sep);
    if k < i {
        assert(s[k] == sep);
    } else if i < k {
        assert(s[i] == sep);
    }
}

/// What `cut` gives puts `s` together again, and its first part is free of
/// `sep`.
pub proof fn lemma_cut(s: Seq<char>, sep: char)
    ensures
        match cut(s, sep) {
            Some((head, tail)) => s == head + seq![sep] + tail && !head.contains(sep),
            None => !s.contains(sep),
        },
{
    lemma_first_index(s, sep);
    let i = first_index(s, sep);
    if i < s.len() {
        assert(s =~= s.take(i) + seq![sep] + s.skip(i + 1));
    }
}

/// `head + sep + tail` is cut into `head` and `tail` where `head` is free of
/// `sep`.
pub proof fn lemma_cut_joined(head: Seq<char>, sep: char, tail: Seq<char>)
    requires
        !head.contains(sep),
    ensures
        cut(head + seq![sep] + tail, sep) == Some((head, tail)),
{
    let s = head + seq![sep] + tail;
    assert forall|j: int| 0 <= j < head.len() implies s[j] != sep by {
        assert(s[j] == head[j]);
        assert(head.contains(head[j]));
    }
    lemma_first_index_is(s, sep, head.len() as int);
    assert(s.take(head.len() as int) =~= head);
    assert(s.skip(head.len() as int + 1) =~= tail);
}

/// The position of the last `sep` in `s`, or -1 where `s` holds none.
pub open spec fn last_index(s: Seq<char>, sep: char) -> int
    decreases s.len(),
{
    if s.len() == 0 {
        -1
    } else if s.last() == sep {
        s.len() - 1
    } else {
        last_index(s.drop_last(), sep)
    }
}

/// `s` cut in two at its last `sep`, which belongs to neither part.
pub open spec fn cut_last(s: Seq<char>, sep: char) -> Option<(Seq<char>, Seq<char>)> {
    let i = last_index(s, sep);
    if i >= 0 {
        Some((s.take(i), s.skip(i + 1)))
    } else {
        None
    }
}

/// `last_index` is in range, and `sep` stands at it unless it is -1.
pub proof fn lemma_last_index(s: Seq<char>, sep: char)
    ensures
        -1 <= last_index(s, sep) < s.len(),
        last_index(s, sep) >= 0 ==> s[last_index(s, sep)] == sep,
    decreases s.len(),
{
    if s.len() > 0 && s.last() != sep {
        lemma_last_index(s.drop_last(), sep);
    }
}

/// `head + sep + tail` is cut at its last `sep` into `head` and `tail`
/// where `tail` is free of `sep`.
pub proof fn lemma_cut_last_joined(head: Seq<char>, sep: char, tail: Seq<char>)
    requires
        !tail.contains(sep),
    ensures
        cut_last(head + seq![sep] + tail, sep) == Some((head, tail)),
    decreases tail.len(),
{
    let s = head + seq![sep] + tail;
    if tail.len() == 0 {
        assert(s.last() == sep);
        assert(last_index(s, sep) == head.len());
    } else {
        assert(s.last() == tail.last());
        assert(tail.contains(tail.last()));
        assert(s.drop_last() =~= head + seq![sep] + tail.drop_last());
        assert(!tail.drop_last().contains(sep)) by {
            if tail.drop_last().contains(sep) {
                let i = choose|i: int|
                    0 <= i < tail.drop_last().len() && tail.drop_last()[i] == sep;
                assert(tail[i] == sep);
            }
        }
        lemma_cut_last_joined(head, sep, tail.drop_last());
        let shorter = s.drop_last();
        let i = last_index(shorter, sep);
        lemma_last_index(shorter, sep);
        assert(shorter.take(i) == head);
        assert(shorter.take(i).len() == i);
        assert(s.last() != sep);
        assert(last_index(s, sep) == head.len());
    }
    assert(s.take(head.len() as int) =~= head);
    assert(s.skip(head.len() as int + 1) =~= tail);
}

/// The digit for `n` below sixteen: `0` to `9`, then `a` to `f`.
pub open spec fn digit(n: int) -> char {
    seq!['0', '1', '2', '3', '4', '5', '6', '7', '8', '9', 'a', 'b', 'c', 'd', 'e', 'f'][n]
}

/// `n` written in base ten, without leading zeros.
pub open spec fn decimal(n: nat) -> Seq<char>
    decreases n,
{
    if n < 10 {
        seq![digit(n as int)]
    } else {
        decimal(n / 10).push(digit((n % 10) as int))
    }
}

/// A number written in base ten is written in digits, at least one.
pub proof fn lemma_decimal_digits(n: nat)
    ensures
        decimal(n).len() >= 1,
        forall|i: int| 0 <= i < decimal(n).len() ==> '0' <= #[trigger] decimal(n)[i] <= '9',
    decreases n,
{
    if n >= 10 {
        lemma_decimal_digits(n / 10);
    }
}

/// A number written in base ten holds no character that is no digit.
pub proof fn lemma_decimal_lacks(n: nat, c: char)
    requires
        !('0' <= c <= '9'),
    ensures
        !decimal(n).contains(c),
{
    lemma_decimal_digits(n);
}

/// Two numbers that are written alike in base ten are the same.
pub proof fn lemma_decimal_injective(a: nat, b: nat)
    requires
        decimal(a) == decimal(b),
    ensures
        a == b,
    decreases a,
{
    lemma_decimal_digits(a / 10);
    lemma_decimal_digits(b / 10);
    if a < 10 && b < 10 {
        assert(decimal(a)[0] == digit(a as int));
        assert(decimal(b)[0] == digit(b as int));
        lemma_digit_injective(a as int, b as int);
    } else if a < 10 {
        assert(decimal(b).len() >= 2);
    } else if b < 10 {
        assert(decimal(a).len() >= 2);
    } else {
        let x = decimal(a / 10);
        let y = decimal(b / 10);
        assert(decimal(a).last() == digit((a % 10) as int));
        assert(decimal(b).last() == digit((b % 10) as int));
        lemma_digit_injective((a % 10) as int, (b % 10) as int);
        assert(x =~= decimal(a).drop_last());
        assert(y =~= decimal(b).drop_last());
        lemma_decimal_injective(a / 10, b / 10);
    }
}

/// A text that holds no `sep` is not cut.
pub proof fn lemma_cut_none(s: Seq<char>, sep: char)
    requires
        !s.contains(sep),
    ensures
        cut(s, sep) is None,
{
    lemma_first_index(s, sep);
    let i = first_index(s, sep);
    if i < s.len() {
        assert(s.contains(s[i]));
    }
}

/// A text with a tail that may be missing: the head alone, or the head, a
/// `sep` and the tail.
pub open spec fn with_tail(head: Seq<char>, sep: char, tail: Seq<char>) -> Seq<char> {
    if tail.len() > 0 {
        head + seq![sep] + tail
    } else {
        head
    }
}

/// Head and tail are told by the whole, where the head holds no `sep`.
pub proof fn lemma_with_tail_injective(
    h1: Seq<char>,
    t1: Seq<char>,
    h2: Seq<char>,
    t2: Seq<char>,
    sep: char,
)
    requires
        !h1.contains(sep),
        !h2.contains(sep),
        with_tail(h1, sep, t1) == with_tail(h2, sep, t2),
    ensures
        h1 == h2,
        t1 == t2,
{
    if t1.len() > 0 {
        lemma_cut_joined(h1, sep, t1);
    } else {
        lemma_cut_none(h1, sep);
    }
    if t2.len() > 0 {
        lemma_cut_joined(h2, sep, t2);
    } else {
        lemma_cut_none(h2, sep);
    }
    if t1.len() == 0 && t2.len() == 0 {
        assert(t1 =~= t2);
    }
}

/// `seg` below the directory `base`.
pub open spec fn join(base: Seq<char>, seg: Seq<char>) -> Seq<char> {
    base + seq!['/'] + seg
}

/// No digit stands for two values.
pub proof fn lemma_digit_injective(x: int, y: int)
    requires
        0 <= x < 16,
        0 <= y < 16,
        digit(x) == digit(y),
    ensures
        x == y,
{
}

/// Two texts that differ in one part only, between a common beginning and
/// a common end, differ.
pub proof fn lemma_concat_differs<A>(head: Seq<A>, a: Seq<A>, b: Seq<A>, tail: Seq<A>)
    requires
        a != b,
    ensures
        head + a + tail != head + b + tail,
{
    let x = head + a + tail;
    let y = head + b + tail;
    if x == y {
        assert(x.len() == head.len() + a.len() + tail.len());
        assert(y.len() == head.len() + b.len() + tail.len());
        assert forall|i: int| 0 <= i < a.len() implies a[i] == b[i] by {
            assert(x[head.len() + i] == a[i]);
            assert(y[head.len() + i] == b[i]);
        }
        assert(a =~= b);
    }
}

/// Finds the first `sep` in `s`.
pub fn find_char(s: &str, sep: char) -> (r: usize)
    ensures
        r == first_index(s@, sep),
        r <= s@.len(),
{
    let total = s.unicode_len();
    let mut at: usize = 0;
    let mut found = false;
    for c in it: s.chars()
        invariant
            it.seq() == s@,
            total == s@.len(),
            at <= it.index(),
            !found ==> at == it.index(),
            forall|j: int| 0 <= j < at ==> s@[j] != sep,
            found ==> at < s@.len() && s@[at as int] == sep,
    {
        if !found {
            if c == sep {
                found = true;
            } else {
                at = at + 1;
            }
        }
    }
    proof {
        lemma_first_index_is(s@, sep, at as int);
    }
    at
}

/// Cuts `s` in two at its first `sep`.
pub fn cut_str(s: &str, sep: char) -> (r: Option<(&str, &str)>)
    ensures
        match r {
            Some((head, tail)) => cut(s@, sep) == Some((head@, tail@)),
            None => cut(s@, sep) is None,
        },
{
    let total = s.unicode_len();
    let at = find_char(s, sep);
    if at < total {
        let head = s.substring_char(0, at);
        let tail = s.substring_char(at + 1, total);
        Some((head, tail))
    } else {
        None
    }
}

/// Cuts `s` in two at its last `sep`.
pub fn cut_last_str(s: &str, sep: char) -> (r: Option<(&str, &str)>)
    ensures
        match r {
            Some((head, tail)) => cut_last(s@, sep) == Some((head@, tail@)),
            None => cut_last(s@, sep) is None,
        },
{
    let total = s.unicode_len();
    let mut at: usize = 0;
    let mut last: Option<usize> = None;
    for c in it: s.chars()
        invariant
            it.seq() == s@,
            total == s@.len(),
            at == it.index(),
            match last {
                Some(i) => i == last_index(s@.take(at as int), sep),
                None => last_index(s@.take(at as int), sep) == -1,
            },
    {
        proof {
            let before = s@.take(at as int);
            let after = s@.take(at as int + 1);
            assert(after.drop_last() =~= before);
            assert(after.last() == c);
            lemma_last_index(before, sep);
        }
        if c == sep {
            last = Some(at);
        }
        at = at + 1;
    }
    proof {
        assert(s@.take(at as int) =~= s@);
        lemma_last_index(s@, sep);
    }
    match last {
        Some(i) => {
            let head = s.substring_char(0, i);
            let tail = s.substring_char(i + 1, total);
            Some((head, tail))
        },
        None => None,
    }
}

/// Whether `sep` occurs in `s`.
pub fn has_char(s: &str, sep: char) -> (r: bool)
    ensures
        r == s@.contains(sep),
{
    let total = s.unicode_len();
    let at = find_char(s, sep);
    proof {
        lemma_first_index(s@, sep);
    }
    at < total
}

/// Whether `a` and `b` are the same text.
pub fn same_text(a: &str, b: &str) -> (r: bool)
    ensures
        r == (a@ == b@),
{
    let x = a.as_bytes();
    let y = b.as_bytes();
    proof {
        vstd::utf8::encode_utf8_decode_utf8(a@);
        vstd::utf8::encode_utf8_decode_utf8(b@);
    }
    if x.len() != y.len() {
        return false;
    }
    let mut i: usize = 0;
    while i < x.len()
        invariant
            i <= x.len(),
            x.len() == y.len(),
            x@ == a.spec_bytes(),
            y@ == b.spec_bytes(),
            forall|j: int| 0 <= j < i ==> x@[j] == y@[j],
        decreases x.len() - i,
    {
        if x[i] != y[i] {
            return false;
        }
        i = i + 1;
    }
    assert(x@ =~= y@);
    true
}

/// The one-character text of the digit for `n`.
pub(crate) fn digit_text(n: u8) -> (r: &'static str)
    requires
        n < 16,
    ensures
        r@ == seq![digit(n as int)],
{
    proof {
        reveal_strlit("0");
        reveal_strlit("1");
        reveal_strlit("2");
        reveal_strlit("3");
        reveal_strlit("4");
        reveal_strlit("5");
        reveal_strlit("6");
        reveal_strlit("7");
        reveal_strlit("8");
        reveal_strlit("9");
        reveal_strlit("a");
        reveal_strlit("b");
        reveal_strlit("c");
        reveal_strlit("d");
        reveal_strlit("e");
        reveal_strlit("f");
    }
    let r = match n {
        0 => "0",
        1 => "1",
        2 => "2",
        3 => "3",
        4 => "4",
        5 => "5",
        6 => "6",
        7 => "7",
        8 => "8",
        9 => "9",
        10 => "a",
        11 => "b",
        12 => "c",
        13 => "d",
        14 => "e",
        _ => "f",
    };
    assert(r@ =~= seq![digit(n as int)]);
    r
}

/// Writes `n` in base ten.
pub fn decimal_string(n: u64) -> (r: String)
    ensures
        r@ == decimal(n as nat),
    decreases n,
{
    if n < 10 {
        digit_text(n as u8).to_owned()
    } else {
        let mut r = decimal_string(n / 10);
        r.append(digit_text((n % 10) as u8));
        r
    }
}

/// Names `seg` below the directory `base`.
pub fn join_path(base: &str, seg: &str) -> (r: String)
    ensures
        r@ == join(base@, seg@),
{
    let mut r = base.to_owned();
    r.append("/");
    r.append(seg);
    proof {
        reveal_strlit("/");
        assert(r@ =~= join(base@, seg@));
    }
    r
}

} // verus!
