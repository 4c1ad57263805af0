//! Decoding: the tokenizer, the scalar coercions and one decoder per record kind.

use vstd::prelude::*;
use crate::decimal::{is_decimal_literal, literal_of, literals_of, Decimal};
use crate::model::rotation::{rotation_of, Rotation};
use crate::number::{
    all_digits, decimal_value, lemma_parse_u32_of_digits, parse_i32, parse_i32_spec, parse_u32,
    parse_u32_range, parse_u32_spec, IntErrorKind,
};
use crate::text::{
    is_blank, lemma_trim_start_skips, lemma_trim_twice, texts, to_chars, trim, trim_bounds,
};

pub mod control_point;
pub mod dose_action;
pub mod dose_tracking;
pub mod extended_field;
pub mod extended_plan;
pub mod field;
pub mod mlc_shape;
pub mod multi_leaf_collimator;
pub mod parser;
pub mod plan;
pub mod prescription;
pub mod simulation;
pub mod site_setup;

pub use parser::{get_params, parse_line, parse_lines, Error, ErrorView, RecordKind};

verus! {

/// The unsigned integer in an optional field. Once trimmed, the field must
/// be a run of digits, at least one, whose number fits in 32 bits: it then
/// holds that number. Anything else is absent: a blank field, a sign of
/// either kind, any character that is no digit, a number too large.
pub open spec fn opt_u32_spec(s: Seq<char>) -> Option<u32> {
    if trim(s).len() > 0 && all_digits(trim(s)) && decimal_value(trim(s)) <= u32::MAX {
        Some(decimal_value(trim(s)) as u32)
    } else {
        None
    }
}

/// The unsigned integer in a mandatory field that may be padded: the integer
/// that the field spells once trimmed. A plus sign may stand before it.
pub open spec fn padded_u32_spec(s: Seq<char>) -> Result<u32, IntErrorKind> {
    parse_u32_spec(trim(s))
}

/// The decimal in an optional field: the literal left after trimming, absent
/// where that is no decimal literal.
pub open spec fn opt_f64_spec(s: Seq<char>) -> Option<Seq<char>> {
    if is_decimal_literal(trim(s)) {
        Some(trim(s))
    } else {
        None
    }
}

/// Reads a mandatory unsigned integer that may be padded with whitespace.
pub fn padded_u32(s: &str) -> (r: Result<u32, IntErrorKind>)
    ensures
        r == padded_u32_spec(s@),
{
    let chars = to_chars(s);
    let (a, b) = trim_bounds(&chars);
    parse_u32_range(&chars, a, b)
}

/// Converts a field to an optional unsigned integer. A field that, once
/// trimmed, is not digits only, or spells a number too large, gives `None`.
pub fn opt_u32(s: &str) -> (r: Option<u32>)
    ensures
        r == opt_u32_spec(s@),
{
    let chars = to_chars(s);
    let (a, b) = trim_bounds(&chars);
    if a < b && chars[a] == '+' {
        assert(trim(s@)[0] == '+');
        return None;
    }
    proof {
        lemma_parse_u32_of_digits(trim(s@));
    }
    match parse_u32_range(&chars, a, b) {
        Ok(v) => Some(v),
        Err(_) => None,
    }
}

/// Converts a field to an optional decimal. A field that is blank or spells
/// no decimal gives `None`.
pub fn opt_f64(s: &str) -> (r: Option<Decimal>)
    ensures
        literal_of(r) == opt_f64_spec(s@),
{
    let chars = to_chars(s);
    let (a, b) = trim_bounds(&chars);
    Decimal::new(s.substring_char(a, b))
}

/// The first failure of two checks made one after the other.
pub open spec fn first_of(a: Option<ErrorView>, b: Option<ErrorView>) -> Option<ErrorView> {
    if a is Some {
        a
    } else {
        b
    }
}

/// The failure of the two checks that come before any field is read: the
/// number of fields, then the keyword in the first field.
pub open spec fn header_failure(f: Seq<Seq<char>>, length: nat, keyword: Seq<char>) -> Option<
    ErrorView,
> {
    if f.len() != length {
        Some(ErrorView::ParameterLengthMismatch(length, f.len()))
    } else if f[0] != keyword {
        Some(ErrorView::Keyword(keyword, f[0]))
    } else {
        None
    }
}

/// The failure of reading a mandatory integer.
pub open spec fn int_failure<T>(r: Result<T, IntErrorKind>) -> Option<ErrorView> {
    match r {
        Ok(_) => None,
        Err(kind) => Some(ErrorView::ParseIntError(kind)),
    }
}

/// The optional decimals of `count` slots, the first at `base` and each next
/// one `stride` fields further.
pub open spec fn decimal_slots(f: Seq<Seq<char>>, base: int, stride: int, count: int) -> Seq<
    Option<Seq<char>>,
> {
    Seq::new(count as nat, |i: int| opt_f64_spec(f[base + i * stride]))
}

/// The texts of `count` slots, the first at `base` and each next one `stride`
/// fields further.
pub open spec fn text_slots(f: Seq<Seq<char>>, base: int, stride: int, count: int) -> Seq<
    Seq<char>,
> {
    Seq::new(count as nat, |i: int| f[base + i * stride])
}

/// The value of an optional integer that counts as zero where it is absent.
pub open spec fn value_or_zero(v: Option<u32>) -> u32 {
    match v {
        Some(x) => x,
        None => 0,
    }
}

/// How many elements a region holds: what the count field says, but never
/// more than the region has room for.
pub open spec fn used_slots(count: u32, capacity: nat) -> nat {
    if count as nat > capacity {
        capacity
    } else {
        count as nat
    }
}

/// Whether two texts are equal.
pub fn same_text(a: &str, b: &str) -> (r: bool)
    ensures
        r == (a@ == b@),
{
    let x = to_chars(a);
    let y = to_chars(b);
    if x.len() != y.len() {
        return false;
    }
    let n = x.len();
    let mut i: usize = 0;
    while i < n
        invariant
            i <= n,
            n == x@.len(),
            n == y@.len(),
            x@ == a@,
            y@ == b@,
            forall|j: int| 0 <= j < i ==> x@[j] == y@[j],
        decreases n - i,
    {
        if x[i] != y[i] {
            return false;
        }
        i += 1;
    }
    assert(x@ =~= y@);
    true
}

/// Checks the number of fields and the keyword of a record.
pub(crate) fn check_header(params: &Vec<String>, length: usize, keyword: &str) -> (r: Result<(), Error>)
    requires
        length > 0,
    ensures
        match r {
            Ok(_) => header_failure(texts(params@), length as nat, keyword@) is None,
            Err(e) => header_failure(texts(params@), length as nat, keyword@) == Some(e@),
        },
{
    if params.len() != length {
        return Err(Error::ParameterLengthMismatch(length, params.len()));
    }
    if !same_text(params[0].as_str(), keyword) {
        return Err(Error::Keyword(keyword.to_owned(), params[0].clone()));
    }
    Ok(())
}

/// Reads the checksum of a record: a mandatory signed integer.
pub(crate) fn read_crc(s: &str) -> (r: Result<i32, Error>)
    ensures
        match r {
            Ok(v) => parse_i32_spec(s@) == Ok::<i32, IntErrorKind>(v),
            Err(e) => int_failure(parse_i32_spec(s@)) == Some(e@),
        },
{
    match parse_i32(s) {
        Ok(v) => Ok(v),
        Err(kind) => Err(Error::ParseIntError(kind)),
    }
}

/// Reads a mandatory count: an unsigned integer that may be padded.
pub(crate) fn read_count(s: &str) -> (r: Result<u32, Error>)
    ensures
        match r {
            Ok(v) => padded_u32_spec(s@) == Ok::<u32, IntErrorKind>(v),
            Err(e) => int_failure(padded_u32_spec(s@)) == Some(e@),
        },
{
    match padded_u32(s) {
        Ok(v) => Ok(v),
        Err(kind) => Err(Error::ParseIntError(kind)),
    }
}

/// Reads a mandatory unsigned integer that fills its field.
pub(crate) fn read_u32(s: &str) -> (r: Result<u32, Error>)
    ensures
        match r {
            Ok(v) => parse_u32_spec(s@) == Ok::<u32, IntErrorKind>(v),
            Err(e) => int_failure(parse_u32_spec(s@)) == Some(e@),
        },
{
    match parse_u32(s) {
        Ok(v) => Ok(v),
        Err(kind) => Err(Error::ParseIntError(kind)),
    }
}

/// How many slots of a region of `capacity` a record with count field
/// `count` uses.
pub(crate) fn slots_in_use(count: u32, capacity: usize) -> (n: usize)
    ensures
        n == used_slots(count, capacity as nat),
{
    if count as usize > capacity {
        capacity
    } else {
        count as usize
    }
}

/// Slot `i` of `count` lies no further than the last one.
proof fn lemma_slot_in_range(i: int, stride: int, count: int)
    requires
        0 <= i < count,
        0 <= stride,
    ensures
        0 <= i * stride <= (count - 1) * stride,
{
    assert(0 <= i * stride <= (count - 1) * stride) by (nonlinear_arith)
        requires
            0 <= i <= count - 1,
            0 <= stride,
    ;
}

/// Reads `count` optional decimals, the first at `base` and each next one
/// `stride` fields further.
pub(crate) fn read_decimals(params: &Vec<String>, base: usize, stride: usize, count: usize) -> (v: Vec<
    Option<Decimal>,
>)
    requires
        count > 0 ==> base + (count - 1) * stride < params@.len(),
    ensures
        v@.len() == count,
        literals_of(v@) == decimal_slots(texts(params@), base as int, stride as int, count as int),
{
    let n = params.len();
    let mut v: Vec<Option<Decimal>> = Vec::new();
    let mut i: usize = 0;
    while i < count
        invariant
            i <= count,
            n == params@.len(),
            count > 0 ==> base + (count - 1) * stride < params@.len(),
            v@.len() == i,
            forall|j: int|
                0 <= j < i ==> literal_of(#[trigger] v@[j]) == opt_f64_spec(
                    texts(params@)[base + j * stride],
                ),
        decreases count - i,
    {
        proof {
            lemma_slot_in_range(i as int, stride as int, count as int);
        }
        let pos = base + i * stride;
        let x = opt_f64(params[pos].as_str());
        v.push(x);
        i += 1;
    }
    assert(literals_of(v@) =~= decimal_slots(
        texts(params@),
        base as int,
        stride as int,
        count as int,
    ));
    v
}

/// Reads `count` texts, the first at `base` and each next one `stride`
/// fields further.
pub(crate) fn read_texts(params: &Vec<String>, base: usize, stride: usize, count: usize) -> (v: Vec<
    String,
>)
    requires
        count > 0 ==> base + (count - 1) * stride < params@.len(),
    ensures
        v@.len() == count,
        texts(v@) == text_slots(texts(params@), base as int, stride as int, count as int),
{
    let n = params.len();
    let mut v: Vec<String> = Vec::new();
    let mut i: usize = 0;
    while i < count
        invariant
            i <= count,
            n == params@.len(),
            count > 0 ==> base + (count - 1) * stride < params@.len(),
            v@.len() == i,
            forall|j: int| 0 <= j < i ==> (#[trigger] v@[j])@ == texts(params@)[base + j * stride],
        decreases count - i,
    {
        proof {
            lemma_slot_in_range(i as int, stride as int, count as int);
        }
        let pos = base + i * stride;
        let x = params[pos].clone();
        v.push(x);
        i += 1;
    }
    assert(texts(v@) =~= text_slots(texts(params@), base as int, stride as int, count as int));
    v
}

/// Reads an optional rotation: absent where the field names none.
pub(crate) fn opt_rotation(s: &str) -> (r: Option<Rotation>)
    ensures
        r == rotation_of(s@),
{
    Rotation::try_from(s).ok()
}

/// Trimming a blank text leaves nothing.
pub proof fn lemma_trim_blank(s: Seq<char>)
    requires
        is_blank(s),
    ensures
        trim(s) == Seq::<char>::empty(),
{
    reveal(trim);
    lemma_trim_start_skips(s, s.len() as int);
    assert(s.skip(s.len() as int) =~= Seq::<char>::empty());
}

/// A blank field holds no integer and no decimal: both coercions give
/// absence, and never an error.
pub proof fn lemma_blank_is_absent(s: Seq<char>)
    requires
        is_blank(s),
    ensures
        opt_u32_spec(s) is None,
        opt_f64_spec(s) is None,
{
    reveal(is_decimal_literal);
    lemma_trim_blank(s);
}

/// Trimming twice is trimming once, so a coercion reads a trimmed field as
/// it reads the field itself.
pub proof fn lemma_trim_idempotent(s: Seq<char>)
    ensures
        trim(trim(s)) == trim(s),
        opt_u32_spec(trim(s)) == opt_u32_spec(s),
        opt_f64_spec(trim(s)) == opt_f64_spec(s),
{
    lemma_trim_twice(s);
}

} // verus!
