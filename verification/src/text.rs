//! Character-level reading of tokens: decimal numbers, label names and
//! searches for a delimiter.
//!
//! Executable readers work on a token that has been spread into a vector
//! of characters, and on a half-open range `[from, to)` of it. Their
//! contracts speak of the corresponding subrange of the vector's view.

use vstd::prelude::*;
use vstd::string::*;

verus! {

/// Whether `c` is one of the ten decimal digits.
pub open spec fn is_digit(c: char) -> bool {
    '0' <= c && c <= '9'
}

/// The number that the decimal digit `c` stands for.
pub open spec fn digit_value(c: char) -> nat
    recommends
        is_digit(c),
{
    (c as u32 - '0' as u32) as nat
}

/// Whether every character of `s` is a decimal digit.
pub open spec fn all_digits(s: Seq<char>) -> bool {
    forall|i: int| 0 <= i < s.len() ==> is_digit(#[trigger] s[i])
}

/// The number written by the digits of `s`, most significant digit first.
pub open spec fn decimal_value(s: Seq<char>) -> nat
    decreases s.len(),
{
    if s.len() == 0 {
        0
    } else {
        decimal_value(s.drop_last()) * 10 + digit_value(s.last())
    }
}

/// The unsigned 64-bit number that `s` writes in decimal, if `s` is a
/// non-empty run of digits whose value fits. Leading zeros are accepted.
pub open spec fn parse_decimal(s: Seq<char>) -> Option<u64> {
    if s.len() > 0 && all_digits(s) && decimal_value(s) <= u64::MAX {
        Some(decimal_value(s) as u64)
    } else {
        None
    }
}

/// Whether `c` may occur in the name of a label: an ASCII letter, a
/// decimal digit, an underscore or a dot.
pub open spec fn is_name_char(c: char) -> bool {
    ('a' <= c && c <= 'z') || ('A' <= c && c <= 'Z') || is_digit(c) || c == '_' || c == '.'
}

/// Whether `s` is a well-formed label name.
pub open spec fn is_name(s: Seq<char>) -> bool {
    s.len() > 0 && forall|i: int| 0 <= i < s.len() ==> is_name_char(#[trigger] s[i])
}

/// The index of the first occurrence of `c` in `s`.
pub open spec fn position_of(s: Seq<char>, c: char) -> Option<int>
    decreases s.len(),
{
    if s.len() == 0 {
        None
    } else if s[0] == c {
        Some(0)
    } else {
        match position_of(s.skip(1), c) {
            Some(p) => Some(p + 1),
            None => None,
        }
    }
}

/// `position_of` finds an occurrence with none before it, and finds none
/// only where there is none.
pub proof fn lemma_position_of(s: Seq<char>, c: char)
    ensures
        match position_of(s, c) {
            Some(p) => 0 <= p < s.len() && s[p] == c && forall|j: int|
                0 <= j < p ==> #[trigger] s[j] != c,
            None => forall|j: int| 0 <= j < s.len() ==> #[trigger] s[j] != c,
        },
    decreases s.len(),
{
    if s.len() > 0 && s[0] != c {
        let rest = s.skip(1);
        lemma_position_of(rest, c);
        match position_of(rest, c) {
            Some(p) => {
                assert forall|j: int| 0 <= j < p + 1 implies #[trigger] s[j] != c by {
                    if j > 0 {
                        assert(rest[j - 1] == s[j]);
                    }
                }
            },
            None => {
                assert forall|j: int| 0 <= j < s.len() implies #[trigger] s[j] != c by {
                    if j > 0 {
                        assert(rest[j - 1] == s[j]);
                    }
                }
            },
        }
    }
}

/// An index that holds `c` and has no `c` before it is the one that
/// `position_of` finds.
pub proof fn lemma_position_of_first(s: Seq<char>, c: char, p: int)
    requires
        0 <= p < s.len(),
        s[p] == c,
        forall|j: int| 0 <= j < p ==> #[trigger] s[j] != c,
    ensures
        position_of(s, c) == Some(p),
{
    lemma_position_of(s, c);
}

/// A run of digits is worth at least as much as any of its prefixes.
pub proof fn lemma_decimal_prefix(s: Seq<char>, n: int)
    requires
        0 <= n <= s.len(),
    ensures
        decimal_value(s.take(n)) <= decimal_value(s),
    decreases s.len(),
{
    if n == s.len() {
        assert(s.take(n) =~= s);
    } else {
        lemma_decimal_prefix(s.drop_last(), n);
        assert(s.drop_last().take(n) =~= s.take(n));
    }
}

/// Spreads a string into its characters.
pub fn chars_of(s: &str) -> (out: Vec<char>)
    ensures
        out@ == s@,
{
    let mut out: Vec<char> = Vec::new();
    let n: usize = s.unicode_len();
    let mut i: usize = 0;
    while i < n
        invariant
            n == s@.len(),
            i <= n,
            out@ == s@.take(i as int),
        decreases n - i,
    {
        out.push(s.get_char(i));
        i += 1;
    }
    out
}

/// Reads the decimal number written in `chars[from..to]`.
pub fn read_decimal(chars: &Vec<char>, from: usize, to: usize) -> (value: Option<u64>)
    requires
        from <= to <= chars@.len(),
    ensures
        value == parse_decimal(chars@.subrange(from as int, to as int)),
{
    let ghost s = chars@.subrange(from as int, to as int);
    if from == to {
        return None;
    }
    let mut acc: u64 = 0;
    let mut i: usize = from;
    while i < to
        invariant
            from <= i <= to <= chars@.len(),
            s == chars@.subrange(from as int, to as int),
            all_digits(s.take(i - from)),
            acc == decimal_value(s.take(i - from)),
        decreases to - i,
    {
        let c: char = chars[i];
        let ghost before = s.take(i - from);
        let ghost after = s.take(i - from + 1);
        proof {
            assert(after.drop_last() =~= before);
            assert(after.last() == c);
            lemma_decimal_prefix(s, i - from + 1);
        }
        if !(c >= '0' && c <= '9') {
            assert(!is_digit(s[i - from]));
            return None;
        }
        let d: u64 = (c as u32 - '0' as u32) as u64;
        if acc > (u64::MAX - d) / 10 {
            assert(decimal_value(after) > u64::MAX);
            return None;
        }
        acc = acc * 10 + d;
        assert(all_digits(after)) by {
            assert forall|j: int| 0 <= j < after.len() implies is_digit(#[trigger] after[j]) by {
                if j < before.len() {
                    assert(before[j] == after[j]);
                }
            }
        }
        i += 1;
    }
    assert(s.take(to - from) =~= s);
    Some(acc)
}

/// Finds the first occurrence of `c` in `chars[from..to]`, as an index
/// into `chars`.
pub fn find_char(chars: &Vec<char>, from: usize, to: usize, c: char) -> (found: Option<usize>)
    requires
        from <= to <= chars@.len(),
    ensures
        match position_of(chars@.subrange(from as int, to as int), c) {
            Some(p) => found == Some((from + p) as usize),
            None => found is None,
        },
{
    let ghost s = chars@.subrange(from as int, to as int);
    let mut i: usize = from;
    while i < to
        invariant
            from <= i <= to <= chars@.len(),
            s == chars@.subrange(from as int, to as int),
            forall|j: int| 0 <= j < i - from ==> #[trigger] s[j] != c,
        decreases to - i,
    {
        if chars[i] == c {
            proof {
                lemma_position_of_first(s, c, i - from);
            }
            return Some(i);
        }
        i += 1;
    }
    proof {
        lemma_position_of(s, c);
    }
    None
}

/// Whether `chars[from..to]` is a well-formed label name.
pub fn holds_name(chars: &Vec<char>, from: usize, to: usize) -> (ok: bool)
    requires
        from <= to <= chars@.len(),
    ensures
        ok == is_name(chars@.subrange(from as int, to as int)),
{
    let ghost s = chars@.subrange(from as int, to as int);
    if from == to {
        return false;
    }
    let mut i: usize = from;
    while i < to
        invariant
            from <= i <= to <= chars@.len(),
            s == chars@.subrange(from as int, to as int),
            forall|j: int| 0 <= j < i - from ==> is_name_char(#[trigger] s[j]),
        decreases to - i,
    {
        let c: char = chars[i];
        let ok = (c >= 'a' && c <= 'z') || (c >= 'A' && c <= 'Z') || (c >= '0' && c <= '9') || c
            == '_' || c == '.';
        if !ok {
            assert(!is_name_char(s[i - from]));
            return false;
        }
        i += 1;
    }
    true
}

/// Whether `chars` begins with the characters of `prefix`.
pub fn has_prefix(chars: &Vec<char>, prefix: &str) -> (ok: bool)
    ensures
        ok == prefix@.is_prefix_of(chars@),
{
    let head = chars_of(prefix);
    if head.len() > chars.len() {
        return false;
    }
    let mut i: usize = 0;
    while i < head.len()
        invariant
            head@ == prefix@,
            head@.len() <= chars@.len(),
            i <= head@.len(),
            forall|j: int| 0 <= j < i ==> head@[j] == chars@[j],
        decreases head@.len() - i,
    {
        if head[i] != chars[i] {
            return false;
        }
        i += 1;
    }
    assert(head@ =~= chars@.subrange(0, head@.len() as int));
    true
}

} // verus!
