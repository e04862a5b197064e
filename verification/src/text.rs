//! Byte-level text rules for e-mail addresses.
//!
//! Addresses are read as their UTF-8 bytes. Every byte these rules look for
//! is ASCII, and an ASCII byte never occurs inside a multi-byte character, so
//! a position found here is always a character boundary of the string.

use vstd::prelude::*;

verus! {

/// The byte `@`.
pub const AT_SIGN: u8 = 0x40;

/// ASCII whitespace: space, tab, line feed, form feed, carriage return.
pub open spec fn is_space(b: u8) -> bool {
    b == 0x20 || b == 0x09 || b == 0x0a || b == 0x0c || b == 0x0d
}

/// An ASCII capital letter becomes its small letter; other bytes stay.
pub open spec fn lower(b: u8) -> u8 {
    if 0x41 <= b && b <= 0x5a {
        (b + 0x20) as u8
    } else {
        b
    }
}

/// `s` with every ASCII capital letter made small.
pub open spec fn folded(s: Seq<u8>) -> Seq<u8> {
    Seq::new(s.len(), |i: int| lower(s[i]))
}

/// `(from, to)` bounds `s` without its leading and trailing whitespace.
/// For a text of whitespace only, the range is empty and sits at the end.
pub open spec fn is_trim_range(s: Seq<u8>, from: int, to: int) -> bool {
    &&& 0 <= from <= to <= s.len()
    &&& forall|i: int| 0 <= i < from ==> is_space(#[trigger] s[i])
    &&& forall|i: int| to <= i < s.len() ==> is_space(#[trigger] s[i])
    &&& from < to ==> !is_space(s[from]) && !is_space(s[to - 1])
    &&& from == to ==> from == s.len()
}

/// `at` is the position of the last `b` in `s`.
pub open spec fn is_last_index(s: Seq<u8>, b: u8, at: int) -> bool {
    &&& 0 <= at < s.len()
    &&& s[at] == b
    &&& forall|j: int| at < j < s.len() ==> #[trigger] s[j] != b
}

/// `s` ends with `tail`.
pub open spec fn ends_with(s: Seq<u8>, tail: Seq<u8>) -> bool {
    tail.len() <= s.len() && s.subrange(s.len() - tail.len(), s.len() as int) == tail
}

pub fn byte_is_space(b: u8) -> (r: bool)
    ensures
        r == is_space(b),
{
    b == 0x20 || b == 0x09 || b == 0x0a || b == 0x0c || b == 0x0d
}

pub fn lower_byte(b: u8) -> (r: u8)
    ensures
        r == lower(b),
{
    if 0x41 <= b && b <= 0x5a {
        b + 0x20
    } else {
        b
    }
}

/// The range of `s` that is left when ASCII whitespace is taken off both
/// ends.
pub fn trim_range(s: &[u8]) -> (r: (usize, usize))
    ensures
        is_trim_range(s@, r.0 as int, r.1 as int),
{
    let n: usize = s.len();
    let mut from: usize = 0;
    while from < n && byte_is_space(s[from])
        invariant
            from <= n,
            n == s@.len(),
            forall|i: int| 0 <= i < from ==> is_space(#[trigger] s@[i]),
        decreases n - from,
    {
        from = from + 1;
    }
    if from == n {
        return (n, n);
    }
    let mut to: usize = n;
    while to > from && byte_is_space(s[to - 1])
        invariant
            from < to <= n,
            n == s@.len(),
            !is_space(s@[from as int]),
            forall|i: int| to <= i < n ==> is_space(#[trigger] s@[i]),
        decreases to,
    {
        to = to - 1;
        assert(to > from) by {
            if to == from {
                assert(is_space(s@[to as int]));
            }
        }
    }
    (from, to)
}

/// The position of the last `b` in `s[from..to]`, if there is one.
pub fn last_index_in(s: &[u8], from: usize, to: usize, b: u8) -> (r: Option<usize>)
    requires
        from <= to <= s@.len(),
    ensures
        match r {
            Some(at) => from <= at < to && is_last_index(
                s@.subrange(from as int, to as int),
                b,
                at - from,
            ),
            None => !s@.subrange(from as int, to as int).contains(b),
        },
{
    let ghost part = s@.subrange(from as int, to as int);
    let mut at: usize = to;
    while at > from
        invariant
            from <= at <= to <= s@.len(),
            part == s@.subrange(from as int, to as int),
            forall|j: int| at - from <= j < part.len() ==> #[trigger] part[j] != b,
        decreases at,
    {
        at = at - 1;
        if s[at] == b {
            assert(part[at - from] == s@[at as int]);
            return Some(at);
        }
        assert(part[at - from] == s@[at as int]);
    }
    assert(!part.contains(b)) by {
        if part.contains(b) {
            let j = choose|j: int| 0 <= j < part.len() && part[j] == b;
            assert(part[j] != b);
        }
    }
    None
}

/// Whether `s[from..to]` and `pattern` are the same text when ASCII letter
/// case is ignored.
pub fn range_matches_folded(s: &[u8], from: usize, to: usize, pattern: &[u8]) -> (r: bool)
    requires
        from <= to <= s@.len(),
    ensures
        r == (folded(s@.subrange(from as int, to as int)) == folded(pattern@)),
{
    let ghost part = s@.subrange(from as int, to as int);
    if to - from != pattern.len() {
        assert(folded(part).len() != folded(pattern@).len());
        return false;
    }
    let n: usize = pattern.len();
    let mut i: usize = 0;
    while i < n
        invariant
            i <= n,
            n == pattern@.len(),
            n == to - from,
            from <= to <= s@.len(),
            part == s@.subrange(from as int, to as int),
            forall|j: int| 0 <= j < i ==> lower(#[trigger] part[j]) == lower(pattern@[j]),
        decreases n - i,
    {
        assert(part[i as int] == s@[from + i]);
        if lower_byte(s[from + i]) != lower_byte(pattern[i]) {
            assert(folded(part)[i as int] != folded(pattern@)[i as int]);
            return false;
        }
        i = i + 1;
    }
    assert(folded(part) =~= folded(pattern@));
    true
}

/// Whether `s[from..to]` and `pattern` are the same bytes.
pub fn range_equals(s: &[u8], from: usize, to: usize, pattern: &[u8]) -> (r: bool)
    requires
        from <= to <= s@.len(),
    ensures
        r == (s@.subrange(from as int, to as int) == pattern@),
{
    let ghost part = s@.subrange(from as int, to as int);
    if to - from != pattern.len() {
        assert(part.len() != pattern@.len());
        return false;
    }
    let n: usize = pattern.len();
    let mut i: usize = 0;
    while i < n
        invariant
            i <= n,
            n == pattern@.len(),
            n == to - from,
            from <= to <= s@.len(),
            part == s@.subrange(from as int, to as int),
            forall|j: int| 0 <= j < i ==> #[trigger] part[j] == pattern@[j],
        decreases n - i,
    {
        assert(part[i as int] == s@[from + i]);
        if s[from + i] != pattern[i] {
            return false;
        }
        i = i + 1;
    }
    assert(part =~= pattern@);
    true
}

/// The UTF-8 bytes of a text.
pub open spec fn utf8(text: Seq<char>) -> Seq<u8> {
    vstd::utf8::encode_utf8(text)
}

/// `s` without the ASCII whitespace at its start.
pub open spec fn without_leading_space(s: Seq<u8>) -> Seq<u8>
    decreases s.len(),
{
    if s.len() > 0 && is_space(s[0]) {
        without_leading_space(s.drop_first())
    } else {
        s
    }
}

/// `s` without the ASCII whitespace at its end.
pub open spec fn without_trailing_space(s: Seq<u8>) -> Seq<u8>
    decreases s.len(),
{
    if s.len() > 0 && is_space(s.last()) {
        without_trailing_space(s.drop_last())
    } else {
        s
    }
}

/// `s` without the ASCII whitespace at its two ends.
pub open spec fn trimmed(s: Seq<u8>) -> Seq<u8> {
    without_trailing_space(without_leading_space(s))
}

/// What stands behind the last `b` of `s`, if `s` holds a `b`.
pub open spec fn after_last(s: Seq<u8>, b: u8) -> Option<Seq<u8>>
    decreases s.len(),
{
    if s.len() == 0 {
        None
    } else if s.last() == b {
        Some(Seq::empty())
    } else {
        match after_last(s.drop_last(), b) {
            Some(tail) => Some(tail.push(s.last())),
            None => None,
        }
    }
}

/// Whitespace is taken off the start up to the first byte that is none.
pub proof fn leading_space_ends_at(s: Seq<u8>, from: int)
    requires
        0 <= from <= s.len(),
        forall|i: int| 0 <= i < from ==> is_space(#[trigger] s[i]),
        from < s.len() ==> !is_space(s[from]),
    ensures
        without_leading_space(s) == s.subrange(from, s.len() as int),
    decreases from,
{
    if from == 0 {
        assert(s.subrange(0, s.len() as int) =~= s);
    } else {
        assert(is_space(s[0]));
        let rest = s.drop_first();
        assert forall|i: int| 0 <= i < from - 1 implies is_space(#[trigger] rest[i]) by {
            assert(rest[i] == s[i + 1]);
        }
        leading_space_ends_at(rest, from - 1);
        assert(rest.subrange(from - 1, rest.len() as int) =~= s.subrange(from, s.len() as int));
    }
}

/// Whitespace is taken off the end down to the last byte that is none.
pub proof fn trailing_space_starts_at(s: Seq<u8>, to: int)
    requires
        0 <= to <= s.len(),
        forall|i: int| to <= i < s.len() ==> is_space(#[trigger] s[i]),
        0 < to ==> !is_space(s[to - 1]),
    ensures
        without_trailing_space(s) == s.subrange(0, to),
    decreases s.len() - to,
{
    if to == s.len() {
        assert(s.subrange(0, to) =~= s);
    } else {
        assert(is_space(s[s.len() - 1]));
        let rest = s.drop_last();
        assert forall|i: int| to <= i < rest.len() implies is_space(#[trigger] rest[i]) by {
            assert(rest[i] == s[i]);
        }
        trailing_space_starts_at(rest, to);
        assert(rest.subrange(0, to) =~= s.subrange(0, to));
    }
}

/// The trimmed text is the content of the trim range.
pub proof fn trimmed_at(s: Seq<u8>, from: int, to: int)
    requires
        is_trim_range(s, from, to),
    ensures
        trimmed(s) == s.subrange(from, to),
{
    leading_space_ends_at(s, from);
    let rest = s.subrange(from, s.len() as int);
    assert forall|i: int| to - from <= i < rest.len() implies is_space(#[trigger] rest[i]) by {
        assert(rest[i] == s[i + from]);
    }
    if from < to {
        assert(rest[to - from - 1] == s[to - 1]);
    }
    trailing_space_starts_at(rest, to - from);
    assert(rest.subrange(0, to - from) =~= s.subrange(from, to));
}

/// What stands behind the last `b` is what follows its position, and a
/// text without a `b` has no such part.
pub proof fn after_last_at(s: Seq<u8>, b: u8, at: int)
    requires
        is_last_index(s, b, at),
    ensures
        after_last(s, b) == Some(s.subrange(at + 1, s.len() as int)),
    decreases s.len(),
{
    if s.last() == b {
        assert(at == s.len() - 1);
        assert(s.subrange(at + 1, s.len() as int) =~= Seq::<u8>::empty());
    } else {
        let front = s.drop_last();
        assert(front[at] == s[at]);
        assert forall|j: int| at < j < front.len() implies #[trigger] front[j] != b by {
            assert(front[j] == s[j]);
        }
        after_last_at(front, b, at);
        assert(front.subrange(at + 1, front.len() as int).push(s.last()) =~= s.subrange(
            at + 1,
            s.len() as int,
        ));
    }
}

/// A text without a `b` has nothing behind its last `b`.
pub proof fn after_last_of_none(s: Seq<u8>, b: u8)
    requires
        !s.contains(b),
    ensures
        after_last(s, b).is_none(),
    decreases s.len(),
{
    if s.len() > 0 {
        assert(s[s.len() - 1] != b) by {
            if s[s.len() - 1] == b {
                assert(s.contains(b));
            }
        }
        let front = s.drop_last();
        assert(!front.contains(b)) by {
            if front.contains(b) {
                let k = choose|k: int| 0 <= k < front.len() && front[k] == b;
                assert(s[k] == b);
            }
        }
        after_last_of_none(front, b);
    }
}

/// The bytes `s[from..to]`, copied.
pub fn copy_range(s: &[u8], from: usize, to: usize) -> (r: Vec<u8>)
    requires
        from <= to <= s@.len(),
    ensures
        r@ == s@.subrange(from as int, to as int),
{
    let mut out: Vec<u8> = Vec::new();
    let mut i: usize = from;
    while i < to
        invariant
            from <= i <= to <= s@.len(),
            out@ == s@.subrange(from as int, i as int),
        decreases to - i,
    {
        out.push(s[i]);
        assert(out@ =~= s@.subrange(from as int, i + 1));
        i = i + 1;
    }
    assert(out@ =~= s@.subrange(from as int, to as int));
    out
}

/// The bytes of `text` without the ASCII whitespace at its two ends.
pub fn trimmed_bytes(text: &str) -> (r: Vec<u8>)
    ensures
        r@ == trimmed(utf8(text@)),
{
    let bytes = text.as_bytes();
    let (from, to) = trim_range(bytes);
    proof {
        trimmed_at(bytes@, from as int, to as int);
    }
    copy_range(bytes, from, to)
}

} // verus!
