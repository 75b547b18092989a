//! The text of a decimal floating-point number, as `f32::from_str` accepts
//! it. Only the syntax is decided here; the value is read elsewhere.
use vstd::prelude::*;
use crate::text::{chars_of, is_digit};

verus! {

/// `c` is the ASCII letter `lower` in either case.
pub open spec fn letter_is(c: char, lower: char) -> bool {
    c == lower || (c as u32) + 32 == lower as u32
}

/// `s` spells the lowercase word `w`, ignoring ASCII case.
pub open spec fn spells(s: Seq<char>, w: Seq<char>) -> bool {
    s.len() == w.len() && forall|i: int| 0 <= i < s.len() ==> letter_is(#[trigger] s[i], w[i])
}

/// Every character of `s` is an ASCII digit.
pub open spec fn all_digits(s: Seq<char>) -> bool {
    forall|i: int| 0 <= i < s.len() ==> is_digit(#[trigger] s[i])
}

/// A decimal point (`dot`) or an exponent mark `e`/`E` (otherwise).
pub open spec fn is_mark(c: char, dot: bool) -> bool {
    if dot {
        c == '.'
    } else {
        letter_is(c, 'e')
    }
}

/// The position of the first mark in `s`.
pub open spec fn first_mark(s: Seq<char>, dot: bool) -> Option<int>
    decreases s.len(),
{
    if s.len() == 0 {
        None
    } else if is_mark(s[0], dot) {
        Some(0)
    } else {
        match first_mark(s.skip(1), dot) {
            Some(i) => Some(i + 1),
            None => None,
        }
    }
}

pub proof fn lemma_first_mark(s: Seq<char>, dot: bool)
    ensures
        first_mark(s, dot) matches Some(i) ==> 0 <= i < s.len() && is_mark(s[i], dot) && forall|j: int|
            0 <= j < i ==> !is_mark(#[trigger] s[j], dot),
        first_mark(s, dot) is None ==> forall|j: int| 0 <= j < s.len() ==> !is_mark(#[trigger] s[j], dot),
    decreases s.len(),
{
    if s.len() > 0 {
        lemma_first_mark(s.skip(1), dot);
        if !is_mark(s[0], dot) {
            assert forall|j: int| 1 <= j < s.len() implies s[j] == s.skip(1)[j - 1] by {}
        }
    }
}

/// Digits with at most one decimal point and at least one digit.
pub open spec fn mantissa(m: Seq<char>) -> bool {
    match first_mark(m, true) {
        None => m.len() > 0 && all_digits(m),
        Some(k) => m.len() >= 2 && all_digits(m.take(k)) && all_digits(m.skip(k + 1)),
    }
}

/// The part after `e`: an optional sign, then one or more digits.
pub open spec fn exponent(t: Seq<char>) -> bool {
    let d = if t.len() > 0 && (t[0] == '+' || t[0] == '-') {
        t.skip(1)
    } else {
        t
    };
    d.len() > 0 && all_digits(d)
}

/// A mantissa, optionally followed by `e` and an exponent.
pub open spec fn number(s: Seq<char>) -> bool {
    match first_mark(s, false) {
        None => mantissa(s),
        Some(k) => mantissa(s.take(k)) && exponent(s.skip(k + 1)),
    }
}

/// An unsigned float: `inf`, `infinity`, `nan` (in any case) or a number.
pub open spec fn unsigned_float(s: Seq<char>) -> bool {
    spells(s, "inf"@) || spells(s, "infinity"@) || spells(s, "nan"@) || number(s)
}

/// The texts that `f32::from_str` accepts: an optional sign, then `inf`,
/// `infinity`, `nan` or digits with at most one decimal point (and at least
/// one digit), optionally followed by `e`, an optional sign and digits;
/// letters in any case, no whitespace.
pub open spec fn float_syntax(s: Seq<char>) -> bool {
    if s.len() > 0 && (s[0] == '+' || s[0] == '-') {
        unsigned_float(s.skip(1))
    } else {
        unsigned_float(s)
    }
}

fn letter_matches(c: char, lower: char) -> (r: bool)
    ensures
        r == letter_is(c, lower),
{
    c == lower || (c as u32) + 32 == lower as u32
}

fn digits_in(v: &Vec<char>, lo: usize, hi: usize) -> (r: bool)
    requires
        lo <= hi <= v@.len(),
    ensures
        r == all_digits(v@.subrange(lo as int, hi as int)),
{
    let ghost m = v@.subrange(lo as int, hi as int);
    let mut i = lo;
    while i < hi
        invariant
            lo <= i <= hi <= v@.len(),
            m == v@.subrange(lo as int, hi as int),
            forall|j: int| 0 <= j < i - lo ==> is_digit(#[trigger] m[j]),
        decreases hi - i,
    {
        if !('0' <= v[i] && v[i] <= '9') {
            assert(!is_digit(m[i - lo]));
            return false;
        }
        i = i + 1;
    }
    true
}

fn first_mark_in(v: &Vec<char>, lo: usize, hi: usize, dot: bool) -> (r: Option<usize>)
    requires
        lo <= hi <= v@.len(),
    ensures
        match r {
            Some(i) => lo <= i < hi && first_mark(v@.subrange(lo as int, hi as int), dot) == Some(
                i - lo,
            ),
            None => first_mark(v@.subrange(lo as int, hi as int), dot) is None,
        },
{
    let ghost m = v@.subrange(lo as int, hi as int);
    proof {
        lemma_first_mark(m, dot);
    }
    let mut i = lo;
    while i < hi
        invariant
            lo <= i <= hi <= v@.len(),
            m == v@.subrange(lo as int, hi as int),
            forall|j: int| 0 <= j < i - lo ==> !is_mark(#[trigger] m[j], dot),
            first_mark(m, dot) matches Some(k) ==> 0 <= k < m.len() && is_mark(m[k], dot) && forall|
                j: int,
            | 0 <= j < k ==> !is_mark(#[trigger] m[j], dot),
            first_mark(m, dot) is None ==> forall|j: int| 0 <= j < m.len() ==> !is_mark(#[trigger] m[j], dot),
        decreases hi - i,
    {
        let c = v[i];
        assert(m[i - lo] == c);
        let hit = if dot {
            c == '.'
        } else {
            letter_matches(c, 'e')
        };
        if hit {
            return Some(i);
        }
        i = i + 1;
    }
    None
}

fn spells_in(v: &Vec<char>, lo: usize, hi: usize, word: &str) -> (r: bool)
    requires
        lo <= hi <= v@.len(),
    ensures
        r == spells(v@.subrange(lo as int, hi as int), word@),
{
    let w = chars_of(word);
    let ghost m = v@.subrange(lo as int, hi as int);
    if hi - lo != w.len() {
        return false;
    }
    let mut i: usize = 0;
    while i < w.len()
        invariant
            lo <= hi <= v@.len(),
            m == v@.subrange(lo as int, hi as int),
            w@ == word@,
            m.len() == w@.len(),
            i <= w@.len(),
            forall|j: int| 0 <= j < i ==> letter_is(#[trigger] m[j], w@[j]),
        decreases w@.len() - i,
    {
        assert(m[i as int] == v@[lo + i]);
        if !letter_matches(v[lo + i], w[i]) {
            return false;
        }
        i = i + 1;
    }
    true
}

fn mantissa_in(v: &Vec<char>, lo: usize, hi: usize) -> (r: bool)
    requires
        lo <= hi <= v@.len(),
    ensures
        r == mantissa(v@.subrange(lo as int, hi as int)),
{
    let ghost m = v@.subrange(lo as int, hi as int);
    match first_mark_in(v, lo, hi, true) {
        None => hi > lo && digits_in(v, lo, hi),
        Some(k) => {
            assert(m.take(k - lo) =~= v@.subrange(lo as int, k as int));
            assert(m.skip(k - lo + 1) =~= v@.subrange(k + 1, hi as int));
            hi - lo >= 2 && digits_in(v, lo, k) && digits_in(v, k + 1, hi)
        },
    }
}

fn exponent_in(v: &Vec<char>, lo: usize, hi: usize) -> (r: bool)
    requires
        lo <= hi <= v@.len(),
    ensures
        r == exponent(v@.subrange(lo as int, hi as int)),
{
    let ghost t = v@.subrange(lo as int, hi as int);
    let start = if lo < hi && (v[lo] == '+' || v[lo] == '-') {
        lo + 1
    } else {
        lo
    };
    assert(start > lo ==> t.skip(1) =~= v@.subrange(start as int, hi as int));
    assert(start == lo ==> t =~= v@.subrange(start as int, hi as int));
    hi > start && digits_in(v, start, hi)
}

fn number_in(v: &Vec<char>, lo: usize, hi: usize) -> (r: bool)
    requires
        lo <= hi <= v@.len(),
    ensures
        r == number(v@.subrange(lo as int, hi as int)),
{
    let ghost s = v@.subrange(lo as int, hi as int);
    match first_mark_in(v, lo, hi, false) {
        None => mantissa_in(v, lo, hi),
        Some(k) => {
            assert(s.take(k - lo) =~= v@.subrange(lo as int, k as int));
            assert(s.skip(k - lo + 1) =~= v@.subrange(k + 1, hi as int));
            mantissa_in(v, lo, k) && exponent_in(v, k + 1, hi)
        },
    }
}

/// Whether `f32::from_str` accepts `s`.
pub fn is_float_text(s: &str) -> (r: bool)
    ensures
        r == float_syntax(s@),
{
    let v = chars_of(s);
    let n = v.len();
    let lo: usize = if n > 0 && (v[0] == '+' || v[0] == '-') {
        1
    } else {
        0
    };
    assert(lo == 1 ==> s@.skip(1) =~= v@.subrange(1, n as int));
    assert(lo == 0 ==> s@ =~= v@.subrange(0, n as int));
    spells_in(&v, lo, n, "inf") || spells_in(&v, lo, n, "infinity") || spells_in(&v, lo, n, "nan")
        || number_in(&v, lo, n)
}

} // verus!
