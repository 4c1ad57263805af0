//! The direction of a rotation.

use vstd::prelude::*;
use vstd::std_specs::convert::TryFromSpecImpl;
use crate::text::to_chars;

verus! {

/// The direction of a rotation.
#[derive(PartialEq, Eq, Debug, Clone, Copy, Structural)]
pub enum Rotation {
    /// Clockwise.
    CW,
    /// Counterclockwise.
    CC,
}

/// Why a text names no rotation.
#[derive(Debug)]
pub enum RotationError {
    NoMatch(&'static str),
}

/// The message of a text that names no rotation.
pub const NO_MATCH: &'static str =
    "no matching text found [case insensitive format: cw || clockwise || cc || counterclockwise]";

/// The code point of `c`, with an ASCII capital taken as its small letter.
pub open spec fn folded(c: char) -> int {
    if 'A' <= c && c <= 'Z' {
        c as int + 32
    } else {
        c as int
    }
}

/// Whether two texts are the same but for the case of their ASCII letters.
pub open spec fn same_ignoring_case(a: Seq<char>, b: Seq<char>) -> bool {
    &&& a.len() == b.len()
    &&& forall|i: int| 0 <= i < a.len() ==> folded(#[trigger] a[i]) == folded(b[i])
}

/// The texts that name a clockwise rotation: `cw` and `clockwise`, in any case.
pub open spec fn is_cw_text(value: Seq<char>) -> bool {
    same_ignoring_case(value, "cw"@) || same_ignoring_case(value, "clockwise"@)
}

/// The texts that name a counterclockwise rotation: `cc` and
/// `counterclockwise`, in any case.
pub open spec fn is_cc_text(value: Seq<char>) -> bool {
    same_ignoring_case(value, "cc"@) || same_ignoring_case(value, "counterclockwise"@)
}

/// The rotation that a text names, if it names one.
pub open spec fn rotation_of(value: Seq<char>) -> Option<Rotation> {
    if is_cw_text(value) {
        Some(Rotation::CW)
    } else if is_cc_text(value) {
        Some(Rotation::CC)
    } else {
        None
    }
}

/// What converting a text into a rotation gives.
pub open spec fn rotation_result(value: Seq<char>) -> Result<Rotation, RotationError> {
    match rotation_of(value) {
        Some(r) => Ok(r),
        None => Err(RotationError::NoMatch(NO_MATCH)),
    }
}

fn fold_char(c: char) -> (r: u32)
    ensures
        r == folded(c),
{
    if 'A' <= c && c <= 'Z' {
        c as u32 + 32
    } else {
        c as u32
    }
}

fn eq_ignoring_case(a: &str, b: &str) -> (r: bool)
    ensures
        r == same_ignoring_case(a@, b@),
{
    let x = to_chars(a);
    let y = to_chars(b);
    if x.len() != y.len() {
        return false;
    }
    let n = x.len();
    let mut i: usize = 0;
    while i < n
        invariant
            i <= n,
            n == x@.len(),
            n == y@.len(),
            x@ == a@,
            y@ == b@,
            forall|j: int| 0 <= j < i ==> folded(#[trigger] a@[j]) == folded(b@[j]),
        decreases n - i,
    {
        if fold_char(x[i]) != fold_char(y[i]) {
            return false;
        }
        i += 1;
    }
    true
}

/// Tests whether a text names a clockwise rotation.
pub fn is_cw(value: &str) -> (r: bool)
    ensures
        r == is_cw_text(value@),
{
    eq_ignoring_case(value, "cw") || eq_ignoring_case(value, "clockwise")
}

/// Tests whether a text names a counterclockwise rotation.
pub fn is_cc(value: &str) -> (r: bool)
    ensures
        r == is_cc_text(value@),
{
    eq_ignoring_case(value, "cc") || eq_ignoring_case(value, "counterclockwise")
}

impl<'a> TryFrom<&'a str> for Rotation {
    type Error = RotationError;

    fn try_from(value: &'a str) -> (r: Result<Self, Self::Error>)
    {
        if is_cw(value) {
            return Ok(Rotation::CW);
        } else if is_cc(value) {
            return Ok(Rotation::CC);
        }
        Err(RotationError::NoMatch(NO_MATCH))
    }
}

impl<'a> TryFromSpecImpl<&'a str> for Rotation {
    open spec fn obeys_try_from_spec() -> bool {
        true
    }

    open spec fn try_from_spec(value: &'a str) -> Result<Self, Self::Error> {
        rotation_result(value@)
    }
}

impl TryFrom<String> for Rotation {
    type Error = RotationError;

    fn try_from(value: String) -> (r: Result<Self, Self::Error>)
    {
        if is_cw(value.as_str()) {
            return Ok(Rotation::CW);
        } else if is_cc(value.as_str()) {
            return Ok(Rotation::CC);
        }
        Err(RotationError::NoMatch(NO_MATCH))
    }
}

impl TryFromSpecImpl<String> for Rotation {
    open spec fn obeys_try_from_spec() -> bool {
        true
    }

    open spec fn try_from_spec(value: String) -> Result<Self, Self::Error> {
        rotation_result(value@)
    }
}

impl std::str::FromStr for Rotation {
    type Err = RotationError;

    fn from_str(value: &str) -> (r: Result<Self, Self::Err>)
        ensures
            r == rotation_result(value@),
    {
        if is_cw(value) {
            return Ok(Rotation::CW);
        } else if is_cc(value) {
            return Ok(Rotation::CC);
        }
        Err(RotationError::NoMatch(NO_MATCH))
    }
}

} // verus!
