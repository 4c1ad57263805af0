//! Decimal numbers as the interchange format writes them: base-10 literals with
//! an optional sign, an optional fractional part and an optional exponent.
//!
//! The decoder checks that a field is such a literal and keeps its text. It
//! does no arithmetic on the number, so no rounding happens here: a consumer
//! turns the literal into whatever numeric type it computes with.

use vstd::prelude::*;
use crate::number::{all_digits, digit_prefix_len, is_digit, lemma_digit_prefix_bounds, lemma_digit_prefix_ends};
use crate::text::to_chars;

verus! {

pub open spec fn is_sign(c: char) -> bool {
    c == '+' || c == '-'
}

/// `s` without a leading sign.
pub open spec fn skip_sign(s: Seq<char>) -> Seq<char> {
    if s.len() > 0 && is_sign(s[0]) {
        s.drop_first()
    } else {
        s
    }
}

/// An exponent: `e` or `E`, an optional sign, and at least one digit.
pub open spec fn is_exponent(s: Seq<char>) -> bool {
    &&& s.len() > 0
    &&& (s[0] == 'e' || s[0] == 'E')
    &&& skip_sign(s.drop_first()).len() > 0
    &&& all_digits(skip_sign(s.drop_first()))
}

/// Nothing, or an exponent.
pub open spec fn is_optional_exponent(s: Seq<char>) -> bool {
    s.len() == 0 || is_exponent(s)
}

/// A base-10 decimal literal: an optional sign; then digits, digits with a point
/// and maybe more digits, or a point with digits; then an optional exponent.
/// At least one digit stands before the exponent.
#[verifier::opaque]
pub open spec fn is_decimal_literal(s: Seq<char>) -> bool {
    let a = skip_sign(s);
    let n = digit_prefix_len(a) as int;
    let b = a.skip(n);
    if b.len() > 0 && b[0] == '.' {
        let c = b.drop_first();
        let m = digit_prefix_len(c) as int;
        n + m > 0 && is_optional_exponent(c.skip(m))
    } else {
        n > 0 && is_optional_exponent(b)
    }
}

/// A decimal number, held as the literal that spells it.
#[derive(Debug)]
pub struct Decimal {
    literal: String,
}

impl Clone for Decimal {
    fn clone(&self) -> (r: Self)
        ensures
            r@ == self@,
    {
        proof {
            use_type_invariant(self);
        }
        Decimal { literal: self.literal.clone() }
    }
}

impl View for Decimal {
    type V = Seq<char>;

    closed spec fn view(&self) -> Seq<char> {
        self.literal@
    }
}

/// The literal of an optional decimal, if there is one.
pub open spec fn literal_of(r: Option<Decimal>) -> Option<Seq<char>> {
    match r {
        Some(x) => Some(x@),
        None => None,
    }
}

/// The literals of a sequence of optional decimals.
pub open spec fn literals_of(v: Seq<Option<Decimal>>) -> Seq<Option<Seq<char>>> {
    Seq::new(v.len(), |i: int| literal_of(v[i]))
}

fn is_sign_char(c: char) -> (b: bool)
    ensures
        b == is_sign(c),
{
    c == '+' || c == '-'
}

/// The end of the run of digits that begins at `from`.
fn digit_run(chars: &Vec<char>, from: usize, to: usize) -> (k: usize)
    requires
        from <= to <= chars@.len(),
    ensures
        from <= k <= to,
        k - from == digit_prefix_len(chars@.subrange(from as int, to as int)),
{
    let ghost d = chars@.subrange(from as int, to as int);
    let mut k: usize = from;
    while k < to && '0' <= chars[k] && chars[k] <= '9'
        invariant
            from <= k <= to <= chars@.len(),
            d == chars@.subrange(from as int, to as int),
            forall|j: int| 0 <= j < k - from ==> is_digit(#[trigger] d[j]),
        decreases to - k,
    {
        assert(d[k - from] == chars@[k as int]);
        k += 1;
    }
    proof {
        if k < to {
            assert(d[k - from] == chars@[k as int]);
        }
        lemma_digit_prefix_ends(d, k - from);
    }
    k
}

/// The position after a sign at `from`, or `from` where no sign stands.
fn after_sign(chars: &Vec<char>, from: usize, to: usize) -> (k: usize)
    requires
        from <= to <= chars@.len(),
    ensures
        from <= k <= to,
        chars@.subrange(k as int, to as int) == skip_sign(chars@.subrange(from as int, to as int)),
{
    let ghost s = chars@.subrange(from as int, to as int);
    if from < to && is_sign_char(chars[from]) {
        assert(s[0] == chars@[from as int]);
        assert(chars@.subrange(from + 1, to as int) =~= s.drop_first());
        from + 1
    } else {
        if from < to {
            assert(s[0] == chars@[from as int]);
        }
        from
    }
}

fn is_optional_exponent_range(chars: &Vec<char>, from: usize, to: usize) -> (b: bool)
    requires
        from <= to <= chars@.len(),
    ensures
        b == is_optional_exponent(chars@.subrange(from as int, to as int)),
{
    let ghost s = chars@.subrange(from as int, to as int);
    if from == to {
        return true;
    }
    let c = chars[from];
    assert(s[0] == c);
    if !(c == 'e' || c == 'E') {
        return false;
    }
    proof {
        assert(chars@.subrange(from + 1, to as int) =~= s.drop_first());
    }
    let p = after_sign(chars, from + 1, to);
    let q = digit_run(chars, p, to);
    proof {
        lemma_digit_prefix_bounds(chars@.subrange(p as int, to as int));
    }
    p < to && q == to
}

/// Whether the characters between `from` and `to` spell a decimal literal.
fn is_decimal_range(chars: &Vec<char>, from: usize, to: usize) -> (b: bool)
    requires
        from <= to <= chars@.len(),
    ensures
        b == is_decimal_literal(chars@.subrange(from as int, to as int)),
{
    reveal(is_decimal_literal);
    let start = after_sign(chars, from, to);
    let ghost a = chars@.subrange(start as int, to as int);
    let point = digit_run(chars, start, to);
    proof {
        assert(chars@.subrange(point as int, to as int) =~= a.skip(point - start));
    }
    if point < to && chars[point] == '.' {
        let ghost b = a.skip(point - start);
        assert(b[0] == chars@[point as int]);
        let ghost c = b.drop_first();
        proof {
            assert(chars@.subrange(point + 1, to as int) =~= c);
        }
        let end = digit_run(chars, point + 1, to);
        proof {
            assert(chars@.subrange(end as int, to as int) =~= c.skip(end - (point + 1)));
        }
        let tail = is_optional_exponent_range(chars, end, to);
        (point - start) + (end - (point + 1)) > 0 && tail
    } else {
        if point < to {
            assert(a.skip(point - start)[0] == chars@[point as int]);
        }
        let tail = is_optional_exponent_range(chars, point, to);
        point > start && tail
    }
}

impl Decimal {
    #[verifier::type_invariant]
    spec fn well_formed(&self) -> bool {
        is_decimal_literal(self.literal@)
    }

    /// A decimal from its literal; `None` where `text` is no decimal literal.
    pub fn new(text: &str) -> (r: Option<Decimal>)
        ensures
            r is Some <==> is_decimal_literal(text@),
            r matches Some(x) ==> x@ == text@,
    {
        let chars = to_chars(text);
        let n = chars.len();
        proof {
            assert(chars@.subrange(0, n as int) =~= text@);
        }
        if is_decimal_range(&chars, 0, n) {
            Some(Decimal { literal: text.to_owned() })
        } else {
            None
        }
    }

    /// The literal that spells this number.
    pub fn as_str(&self) -> (s: &str)
        ensures
            s@ == self@,
            is_decimal_literal(s@),
    {
        proof {
            use_type_invariant(self);
        }
        self.literal.as_str()
    }
}

} // verus!
