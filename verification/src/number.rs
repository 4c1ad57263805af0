//! Base-10 integer literals: what a field must hold to be read as an integer,
//! which value it then has, and how reading fails.

use vstd::prelude::*;
use crate::text::to_chars;

verus! {

/// Why a field could not be read as an integer.
#[derive(Debug, Clone, Copy, PartialEq, Eq, Structural)]
pub enum IntErrorKind {
    /// The field holds no character at all.
    Empty,
    /// A character that is not a decimal digit stands where a digit is needed.
    InvalidDigit,
    /// The digits spell a number above the largest value of the type.
    PosOverflow,
    /// The digits spell a number below the smallest value of the type.
    NegOverflow,
}

pub open spec fn is_digit(c: char) -> bool {
    '0' <= c && c <= '9'
}

/// The value of a decimal digit; 0 for any other character.
pub open spec fn digit_value(c: char) -> nat {
    if is_digit(c) {
        (c as int - '0' as int) as nat
    } else {
        0
    }
}

pub open spec fn all_digits(s: Seq<char>) -> bool {
    forall|i: int| 0 <= i < s.len() ==> is_digit(#[trigger] s[i])
}

/// The number that the digits of `s` spell, most significant digit first.
pub open spec fn decimal_value(s: Seq<char>) -> nat
    decreases s.len(),
{
    if s.len() == 0 {
        0
    } else {
        decimal_value(s.drop_last()) * 10 + digit_value(s.last())
    }
}

/// How many digits `s` begins with.
pub open spec fn digit_prefix_len(s: Seq<char>) -> nat
    decreases s.len(),
{
    if s.len() > 0 && is_digit(s[0]) {
        1 + digit_prefix_len(s.drop_first())
    } else {
        0
    }
}

/// Reading `d` as an unsigned magnitude of at most `limit`, digit by digit
/// from the left: the first thing to go wrong decides the error. A character
/// that is no digit gives `InvalidDigit`, unless the digits before it already
/// exceed `limit`, which gives `overflow`.
pub open spec fn read_digits(d: Seq<char>, limit: nat, overflow: IntErrorKind) -> Result<
    nat,
    IntErrorKind,
> {
    let k = digit_prefix_len(d) as int;
    if decimal_value(d.take(k)) > limit {
        Err(overflow)
    } else if k < d.len() {
        Err(IntErrorKind::InvalidDigit)
    } else {
        Ok(decimal_value(d))
    }
}

/// A lone sign, which is no number.
pub open spec fn is_lone_sign(s: Seq<char>) -> bool {
    s.len() == 1 && (s[0] == '+' || s[0] == '-')
}

/// What a field holds when read as a mandatory unsigned 32-bit integer: an
/// optional `+`, then digits only.
#[verifier::opaque]
pub open spec fn parse_u32_spec(s: Seq<char>) -> Result<u32, IntErrorKind> {
    if s.len() == 0 {
        Err(IntErrorKind::Empty)
    } else if is_lone_sign(s) {
        Err(IntErrorKind::InvalidDigit)
    } else {
        let d = if s[0] == '+' {
            s.drop_first()
        } else {
            s
        };
        match read_digits(d, 0xffff_ffff, IntErrorKind::PosOverflow) {
            Ok(v) => Ok(v as u32),
            Err(e) => Err(e),
        }
    }
}

/// What a field holds when read as a mandatory signed 32-bit integer: an
/// optional `+` or `-`, then digits only.
#[verifier::opaque]
pub open spec fn parse_i32_spec(s: Seq<char>) -> Result<i32, IntErrorKind> {
    if s.len() == 0 {
        Err(IntErrorKind::Empty)
    } else if is_lone_sign(s) {
        Err(IntErrorKind::InvalidDigit)
    } else if s[0] == '-' {
        match read_digits(s.drop_first(), 0x8000_0000, IntErrorKind::NegOverflow) {
            Ok(v) => Ok((-(v as int)) as i32),
            Err(e) => Err(e),
        }
    } else {
        let d = if s[0] == '+' {
            s.drop_first()
        } else {
            s
        };
        match read_digits(d, 0x7fff_ffff, IntErrorKind::PosOverflow) {
            Ok(v) => Ok(v as i32),
            Err(e) => Err(e),
        }
    }
}

/// A run of `m` leading digits is part of the digit prefix.
pub proof fn lemma_digit_prefix_at_least(s: Seq<char>, m: int)
    requires
        0 <= m <= s.len(),
        forall|i: int| 0 <= i < m ==> is_digit(#[trigger] s[i]),
    ensures
        digit_prefix_len(s) >= m,
    decreases m,
{
    if m > 0 {
        let t = s.drop_first();
        assert forall|i: int| 0 <= i < m - 1 implies is_digit(#[trigger] t[i]) by {
            assert(t[i] == s[i + 1]);
        }
        lemma_digit_prefix_at_least(t, m - 1);
    }
}

/// The digit prefix ends at the first character that is no digit.
pub proof fn lemma_digit_prefix_ends(s: Seq<char>, k: int)
    requires
        0 <= k <= s.len(),
        forall|i: int| 0 <= i < k ==> is_digit(#[trigger] s[i]),
        k < s.len() ==> !is_digit(s[k]),
    ensures
        digit_prefix_len(s) == k,
    decreases k,
{
    if k > 0 {
        let t = s.drop_first();
        assert forall|i: int| 0 <= i < k - 1 implies is_digit(#[trigger] t[i]) by {
            assert(t[i] == s[i + 1]);
        }
        if k < s.len() {
            assert(t[k - 1] == s[k]);
        }
        lemma_digit_prefix_ends(t, k - 1);
    }
}

/// The digit prefix never runs past the end, and holds digits only.
pub proof fn lemma_digit_prefix_bounds(s: Seq<char>)
    ensures
        digit_prefix_len(s) <= s.len(),
        forall|i: int| 0 <= i < digit_prefix_len(s) ==> is_digit(#[trigger] s[i]),
        digit_prefix_len(s) < s.len() ==> !is_digit(s[digit_prefix_len(s) as int]),
    decreases s.len(),
{
    if s.len() > 0 && is_digit(s[0]) {
        let t = s.drop_first();
        lemma_digit_prefix_bounds(t);
        assert forall|i: int| 0 <= i < digit_prefix_len(s) implies is_digit(#[trigger] s[i]) by {
            if i > 0 {
                assert(s[i] == t[i - 1]);
            }
        }
        if digit_prefix_len(s) < s.len() {
            assert(s[digit_prefix_len(s) as int] == t[digit_prefix_len(t) as int]);
        }
    }
}

/// A longer prefix never spells a smaller number.
pub proof fn lemma_decimal_value_monotone(s: Seq<char>, j: int, k: int)
    requires
        0 <= j <= k <= s.len(),
    ensures
        decimal_value(s.take(j)) <= decimal_value(s.take(k)),
    decreases k - j,
{
    if j < k {
        lemma_decimal_value_monotone(s, j, k - 1);
        assert(s.take(k).drop_last() =~= s.take(k - 1));
    }
}

/// A text that does not begin with a plus sign is read as an unsigned
/// integer exactly when it is a run of digits, at least one, whose number
/// fits; it is then read as that number.
pub proof fn lemma_parse_u32_of_digits(s: Seq<char>)
    requires
        s.len() > 0 ==> s[0] != '+',
    ensures
        parse_u32_spec(s) is Ok <==> s.len() > 0 && all_digits(s) && decimal_value(s)
            <= 0xffff_ffff,
        parse_u32_spec(s) matches Ok(v) ==> v == decimal_value(s),
{
    reveal(parse_u32_spec);
    lemma_digit_prefix_bounds(s);
    let k = digit_prefix_len(s) as int;
    if k == s.len() {
        assert(s.take(k) =~= s);
    }
    if s.len() > 0 && all_digits(s) {
        lemma_digit_prefix_ends(s, s.len() as int);
    }
}

fn is_digit_char(c: char) -> (b: bool)
    ensures
        b == is_digit(c),
{
    '0' <= c && c <= '9'
}

fn digit_of(c: char) -> (v: u64)
    requires
        is_digit(c),
    ensures
        v == digit_value(c),
        v <= 9,
{
    (c as u32 - '0' as u32) as u64
}

/// Reads the characters of `chars` between `from` and `to` as a magnitude of
/// at most `limit`.
fn read_magnitude(
    chars: &Vec<char>,
    from: usize,
    to: usize,
    limit: u64,
    overflow: IntErrorKind,
) -> (r: Result<u64, IntErrorKind>)
    requires
        from <= to <= chars@.len(),
        limit <= 0xffff_ffff,
    ensures
        match r {
            Ok(v) => v <= limit && read_digits(
                chars@.subrange(from as int, to as int),
                limit as nat,
                overflow,
            ) == Ok::<nat, IntErrorKind>(v as nat),
            Err(e) => read_digits(chars@.subrange(from as int, to as int), limit as nat, overflow)
                == Err::<nat, IntErrorKind>(e),
        },
{
    let ghost d = chars@.subrange(from as int, to as int);
    let mut i: usize = from;
    let mut acc: u64 = 0;
    while i < to
        invariant
            from <= i <= to <= chars@.len(),
            d == chars@.subrange(from as int, to as int),
            limit <= 0xffff_ffff,
            forall|j: int| 0 <= j < i - from ==> is_digit(#[trigger] d[j]),
            acc == decimal_value(d.take(i - from)),
            acc <= limit,
        decreases to - i,
    {
        let c = chars[i];
        assert(d[i - from] == c);
        if !is_digit_char(c) {
            proof {
                lemma_digit_prefix_ends(d, i - from);
            }
            return Err(IntErrorKind::InvalidDigit);
        }
        let next: u64 = acc * 10 + digit_of(c);
        proof {
            assert(d.take(i - from + 1).drop_last() =~= d.take(i - from));
            assert(d.take(i - from + 1).last() == c);
            assert(next == decimal_value(d.take(i - from + 1)));
        }
        if next > limit {
            proof {
                lemma_digit_prefix_at_least(d, i - from + 1);
                lemma_digit_prefix_bounds(d);
                lemma_decimal_value_monotone(d, i - from + 1, digit_prefix_len(d) as int);
            }
            return Err(overflow);
        }
        acc = next;
        i += 1;
    }
    proof {
        lemma_digit_prefix_ends(d, d.len() as int);
        assert(d.take(d.len() as int) =~= d);
    }
    Ok(acc)
}

/// Reads the characters of `chars` between `from` and `to` as an unsigned
/// 32-bit integer.
pub(crate) fn parse_u32_range(chars: &Vec<char>, from: usize, to: usize) -> (r: Result<u32, IntErrorKind>)
    requires
        from <= to <= chars@.len(),
    ensures
        r == parse_u32_spec(chars@.subrange(from as int, to as int)),
{
    reveal(parse_u32_spec);
    let ghost s = chars@.subrange(from as int, to as int);
    if from == to {
        return Err(IntErrorKind::Empty);
    }
    let first = chars[from];
    assert(s[0] == first);
    if to - from == 1 && (first == '+' || first == '-') {
        return Err(IntErrorKind::InvalidDigit);
    }
    let start: usize = if first == '+' {
        from + 1
    } else {
        from
    };
    proof {
        assert(chars@.subrange(from + 1, to as int) =~= s.drop_first());
    }
    match read_magnitude(chars, start, to, 0xffff_ffff, IntErrorKind::PosOverflow) {
        Ok(v) => Ok(v as u32),
        Err(e) => Err(e),
    }
}

/// Reads the characters of `chars` between `from` and `to` as a signed 32-bit
/// integer.
pub(crate) fn parse_i32_range(chars: &Vec<char>, from: usize, to: usize) -> (r: Result<i32, IntErrorKind>)
    requires
        from <= to <= chars@.len(),
    ensures
        r == parse_i32_spec(chars@.subrange(from as int, to as int)),
{
    reveal(parse_i32_spec);
    let ghost s = chars@.subrange(from as int, to as int);
    if from == to {
        return Err(IntErrorKind::Empty);
    }
    let first = chars[from];
    assert(s[0] == first);
    if to - from == 1 && (first == '+' || first == '-') {
        return Err(IntErrorKind::InvalidDigit);
    }
    proof {
        assert(chars@.subrange(from + 1, to as int) =~= s.drop_first());
    }
    if first == '-' {
        match read_magnitude(chars, from + 1, to, 0x8000_0000, IntErrorKind::NegOverflow) {
            Ok(v) => {
                let w: i64 = -(v as i64);
                Ok(w as i32)
            },
            Err(e) => Err(e),
        }
    } else {
        let start: usize = if first == '+' {
            from + 1
        } else {
            from
        };
        match read_magnitude(chars, start, to, 0x7fff_ffff, IntErrorKind::PosOverflow) {
            Ok(v) => Ok(v as i32),
            Err(e) => Err(e),
        }
    }
}

/// Reads a text as an unsigned 32-bit integer.
pub fn parse_u32(s: &str) -> (r: Result<u32, IntErrorKind>)
    ensures
        r == parse_u32_spec(s@),
{
    let chars = to_chars(s);
    proof {
        assert(chars@.subrange(0, chars@.len() as int) =~= s@);
    }
    parse_u32_range(&chars, 0, chars.len())
}

/// Reads a text as a signed 32-bit integer.
pub fn parse_i32(s: &str) -> (r: Result<i32, IntErrorKind>)
    ensures
        r == parse_i32_spec(s@),
{
    let chars = to_chars(s);
    proof {
        assert(chars@.subrange(0, chars@.len() as int) =~= s@);
    }
    parse_i32_range(&chars, 0, chars.len())
}

} // verus!
