//! Scanning text by its characters: finding, trimming, matching and reading
//! numbers in a stretch of a text.
//!
//! A stretch is given by the place of its first character and the place
//! behind its last.

use vstd::prelude::*;
use vstd::string::*;

verus! {

/// White space, as Unicode has it.
pub open spec fn is_space(c: char) -> bool {
    let n = c as u32;
    (0x09 <= n <= 0x0d) || n == 0x20 || n == 0x85 || n == 0xa0 || n == 0x1680 || (0x2000 <= n
        <= 0x200a) || n == 0x2028 || n == 0x2029 || n == 0x202f || n == 0x205f || n == 0x3000
}

/// A digit from `0` to `9`.
pub open spec fn is_digit(c: char) -> bool {
    0x30 <= c as u32 <= 0x39
}

/// The first place from `from` on and before `to` that holds `c`; `to` where
/// none does.
pub open spec fn find_char(s: Seq<char>, from: int, to: int, c: char) -> int
    decreases to - from,
{
    if from >= to {
        to
    } else if s[from] == c {
        from
    } else {
        find_char(s, from + 1, to, c)
    }
}

/// The first place from `from` on and before `to` that holds no white space;
/// `to` where none does.
pub open spec fn skip_spaces(s: Seq<char>, from: int, to: int) -> int
    decreases to - from,
{
    if from >= to {
        to
    } else if !is_space(s[from]) {
        from
    } else {
        skip_spaces(s, from + 1, to)
    }
}

/// The place behind the last character before `to` and from `from` on that
/// is no white space; `from` where there is none.
pub open spec fn drop_spaces(s: Seq<char>, from: int, to: int) -> int
    decreases to - from,
{
    if from >= to {
        from
    } else if !is_space(s[to - 1]) {
        to
    } else {
        drop_spaces(s, from, to - 1)
    }
}

/// The first place from `from` on and before `to` that does not hold `c`.
pub open spec fn skip_char(s: Seq<char>, from: int, to: int, c: char) -> int
    decreases to - from,
{
    if from >= to {
        to
    } else if s[from] != c {
        from
    } else {
        skip_char(s, from + 1, to, c)
    }
}

/// The place behind the last character before `to` and from `from` on that
/// is not `c`.
pub open spec fn drop_char(s: Seq<char>, from: int, to: int, c: char) -> int
    decreases to - from,
{
    if from >= to {
        from
    } else if s[to - 1] != c {
        to
    } else {
        drop_char(s, from, to - 1, c)
    }
}

/// The stretch without the white space at its ends.
pub open spec fn trimmed(s: Seq<char>, from: int, to: int) -> (int, int) {
    let a = skip_spaces(s, from, to);
    (a, drop_spaces(s, a, to))
}

/// The stretch without the white space at its ends and then without every
/// `c` at its ends.
pub open spec fn stripped(s: Seq<char>, from: int, to: int, c: char) -> (int, int) {
    let (a, b) = trimmed(s, from, to);
    let a2 = skip_char(s, a, b, c);
    (a2, drop_char(s, a2, b, c))
}

/// Whether `pat` stands at `at` and ends before `to`.
pub open spec fn stands_at(s: Seq<char>, at: int, to: int, pat: Seq<char>) -> bool {
    at + pat.len() <= to && s.subrange(at, at + pat.len()) == pat
}

/// Whether `pat` stands somewhere in the stretch.
pub open spec fn holds(s: Seq<char>, from: int, to: int, pat: Seq<char>) -> bool {
    exists|at: int| from <= at && #[trigger] stands_at(s, at, to, pat)
}

/// The number that the digits of the stretch write.
pub open spec fn number(s: Seq<char>, from: int, to: int) -> nat
    decreases to - from,
{
    if from >= to {
        0
    } else {
        number(s, from, to - 1) * 10 + (s[to - 1] as u32 - 0x30) as nat
    }
}

/// Whether the stretch holds digits only.
pub open spec fn all_digits(s: Seq<char>, from: int, to: int) -> bool {
    forall|i: int| from <= i < to ==> is_digit(#[trigger] s[i])
}

/// The number that the stretch writes: digits, at least one, with or without
/// a `+` before them, and no more than 32 bits hold.
pub open spec fn parsed(s: Seq<char>, from: int, to: int) -> Option<u32> {
    let start = if from < to && s[from] == '+' {
        from + 1
    } else {
        from
    };
    if start < to && all_digits(s, start, to) && number(s, start, to) <= u32::MAX {
        Some(number(s, start, to) as u32)
    } else {
        None
    }
}

/// The lower-case form of a text.
pub uninterp spec fn lowercase(s: Seq<char>) -> Seq<char>;

/// `str::to_lowercase` of the standard library: the text with every
/// character in its lower-case form by the rules of Unicode. The result
/// depends on the text alone; nothing else is claimed of it.
#[verifier::external_body]
pub(crate) fn to_lowercase(s: &str) -> (r: String)
    ensures
        r@ == lowercase(s@),
{
    s.to_lowercase()
}

/// The characters of a string.
pub fn to_chars(s: &str) -> (r: Vec<char>)
    ensures
        r@ == s@,
{
    broadcast use vstd::string::group_string_axioms;

    let mut v: Vec<char> = Vec::new();
    for c in it: s.chars()
        invariant
            it.seq() == s@,
            v@ == it.seq().take(it.index() as int),
    {
        v.push(c);
        assert(it.seq().take(it.index() + 1) =~= it.seq().take(it.index() as int).push(c));
    }
    assert(v@ =~= s@);
    v
}

/// Whether a character is white space.
pub fn is_whitespace(c: char) -> (r: bool)
    ensures
        r == is_space(c),
{
    let n = c as u32;
    (0x09 <= n && n <= 0x0d) || n == 0x20 || n == 0x85 || n == 0xa0 || n == 0x1680 || (0x2000 <= n
        && n <= 0x200a) || n == 0x2028 || n == 0x2029 || n == 0x202f || n == 0x205f || n == 0x3000
}

/// What is found lies in the stretch, or is its end.
pub proof fn lemma_find_char(s: Seq<char>, from: int, to: int, c: char)
    requires
        from <= to,
    ensures
        from <= find_char(s, from, to, c) <= to,
    decreases to - from,
{
    if from < to && s[from] != c {
        lemma_find_char(s, from + 1, to, c);
    }
}

/// The trimmed stretch lies in the stretch.
pub proof fn lemma_trimmed(s: Seq<char>, from: int, to: int)
    requires
        from <= to,
    ensures
        from <= trimmed(s, from, to).0 <= trimmed(s, from, to).1 <= to,
{
    lemma_skip_spaces(s, from, to);
    lemma_drop_spaces(s, skip_spaces(s, from, to), to);
}

proof fn lemma_skip_spaces(s: Seq<char>, from: int, to: int)
    requires
        from <= to,
    ensures
        from <= skip_spaces(s, from, to) <= to,
    decreases to - from,
{
    if from < to && is_space(s[from]) {
        lemma_skip_spaces(s, from + 1, to);
    }
}

proof fn lemma_drop_spaces(s: Seq<char>, from: int, to: int)
    requires
        from <= to,
    ensures
        from <= drop_spaces(s, from, to) <= to,
    decreases to - from,
{
    if from < to && is_space(s[to - 1]) {
        lemma_drop_spaces(s, from, to - 1);
    }
}

/// More digits write no smaller number.
pub proof fn lemma_number_grows(s: Seq<char>, from: int, mid: int, to: int)
    requires
        from <= mid <= to,
        all_digits(s, from, to),
    ensures
        number(s, from, mid) <= number(s, from, to),
    decreases to - mid,
{
    if mid < to {
        lemma_number_grows(s, from, mid, to - 1);
        assert(is_digit(s[to - 1]));
    }
}

/// Finds the first `c` in a stretch.
pub fn find(chars: &Vec<char>, from: usize, to: usize, c: char) -> (r: usize)
    requires
        from <= to <= chars@.len(),
    ensures
        r == find_char(chars@, from as int, to as int, c),
        from <= r <= to,
{
    let mut i = from;
    while i < to && chars[i] != c
        invariant
            from <= i <= to <= chars@.len(),
            find_char(chars@, from as int, to as int, c) == find_char(chars@, i as int, to as int, c),
        decreases to - i,
    {
        i += 1;
    }
    i
}

/// Trims the white space off the ends of a stretch.
pub fn trim(chars: &Vec<char>, from: usize, to: usize) -> (r: (usize, usize))
    requires
        from <= to <= chars@.len(),
    ensures
        (r.0 as int, r.1 as int) == trimmed(chars@, from as int, to as int),
        from <= r.0 <= r.1 <= to,
{
    let mut a = from;
    while a < to && is_whitespace(chars[a])
        invariant
            from <= a <= to <= chars@.len(),
            skip_spaces(chars@, from as int, to as int) == skip_spaces(chars@, a as int, to as int),
        decreases to - a,
    {
        a += 1;
    }
    let mut b = to;
    while a < b && is_whitespace(chars[b - 1])
        invariant
            a <= b <= to <= chars@.len(),
            drop_spaces(chars@, a as int, to as int) == drop_spaces(chars@, a as int, b as int),
        decreases b - a,
    {
        b -= 1;
    }
    (a, b)
}

/// Trims the white space off the ends of a stretch, and then every `c`.
pub fn strip(chars: &Vec<char>, from: usize, to: usize, c: char) -> (r: (usize, usize))
    requires
        from <= to <= chars@.len(),
    ensures
        (r.0 as int, r.1 as int) == stripped(chars@, from as int, to as int, c),
        from <= r.0 <= r.1 <= to,
{
    let (a0, b0) = trim(chars, from, to);
    let mut a = a0;
    while a < b0 && chars[a] == c
        invariant
            a0 <= a <= b0 <= chars@.len(),
            skip_char(chars@, a0 as int, b0 as int, c) == skip_char(chars@, a as int, b0 as int, c),
        decreases b0 - a,
    {
        a += 1;
    }
    let mut b = b0;
    while a < b && chars[b - 1] == c
        invariant
            a <= b <= b0 <= chars@.len(),
            drop_char(chars@, a as int, b0 as int, c) == drop_char(chars@, a as int, b as int, c),
        decreases b - a,
    {
        b -= 1;
    }
    (a, b)
}

/// Whether `pat` stands at `at` and ends before `to`.
pub fn starts_at(chars: &Vec<char>, at: usize, to: usize, pat: &Vec<char>) -> (r: bool)
    requires
        at <= to <= chars@.len(),
    ensures
        r == stands_at(chars@, at as int, to as int, pat@),
{
    if pat.len() > to - at {
        return false;
    }
    let mut j: usize = 0;
    while j < pat.len()
        invariant
            j <= pat@.len(),
            at + pat@.len() <= to <= chars@.len(),
            chars@.subrange(at as int, at + j) == pat@.subrange(0, j as int),
        decreases pat@.len() - j,
    {
        if chars[at + j] != pat[j] {
            assert(chars@.subrange(at as int, at + pat@.len())[j as int] != pat@[j as int]);
            return false;
        }
        assert(chars@.subrange(at as int, at + j + 1) =~= chars@.subrange(at as int, at + j).push(
            chars@[at + j],
        ));
        assert(pat@.subrange(0, j + 1) =~= pat@.subrange(0, j as int).push(pat@[j as int]));
        j += 1;
    }
    assert(pat@.subrange(0, pat@.len() as int) =~= pat@);
    true
}

/// Whether `pat` stands somewhere in a stretch.
pub fn contains(chars: &Vec<char>, from: usize, to: usize, pat: &Vec<char>) -> (r: bool)
    requires
        from <= to <= chars@.len(),
    ensures
        r == holds(chars@, from as int, to as int, pat@),
{
    let mut i = from;
    while i < to
        invariant
            from <= i <= to <= chars@.len(),
            forall|at: int| from <= at < i ==> !#[trigger] stands_at(chars@, at, to as int, pat@),
        decreases to - i,
    {
        if starts_at(chars, i, to, pat) {
            return true;
        }
        i += 1;
    }
    if starts_at(chars, to, to, pat) {
        return true;
    }
    assert forall|at: int| from <= at implies !#[trigger] stands_at(chars@, at, to as int, pat@) by {
        if at > to {
            assert(at + pat@.len() > to);
        }
    }
    false
}

/// Reads a number off a stretch.
pub fn parse_u32(chars: &Vec<char>, from: usize, to: usize) -> (r: Option<u32>)
    requires
        from <= to <= chars@.len(),
    ensures
        r == parsed(chars@, from as int, to as int),
{
    let start = if from < to && chars[from] == '+' {
        from + 1
    } else {
        from
    };
    if start >= to {
        return None;
    }
    let mut acc: u64 = 0;
    let mut i = start;
    while i < to
        invariant
            start <= i <= to <= chars@.len(),
            start < to,
            start == if from < to && chars@[from as int] == '+' {
                from + 1
            } else {
                from as int
            },
            all_digits(chars@, start as int, i as int),
            acc == number(chars@, start as int, i as int),
            acc <= u32::MAX,
        decreases to - i,
    {
        let c = chars[i];
        let n = c as u32;
        if n < 0x30 || n > 0x39 {
            assert(!is_digit(chars@[i as int]));
            assert(!all_digits(chars@, start as int, to as int));
            return None;
        }
        let next = acc * 10 + (n - 0x30) as u64;
        assert(all_digits(chars@, start as int, i + 1));
        assert(next == number(chars@, start as int, i + 1));
        if next > 0xffff_ffff {
            proof {
                if all_digits(chars@, start as int, to as int) {
                    lemma_number_grows(chars@, start as int, i + 1, to as int);
                    assert(number(chars@, start as int, to as int) > u32::MAX);
                }
            }
            return None;
        }
        acc = next;
        i += 1;
    }
    Some(acc as u32)
}

} // verus!
