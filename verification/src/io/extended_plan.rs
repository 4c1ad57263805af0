//! The layout of an extended plan definition record and its decoder.

use vstd::prelude::*;
use crate::io::{check_header, Error, ErrorView, first_of, header_failure, int_failure, read_crc};
use crate::model::extended_plan::ExtendedPlan;
use crate::number::{IntErrorKind, parse_i32_spec};
use crate::text::texts;

verus! {

/// The keyword in the first field of an extended plan definition record.
pub const KEYWORD: &'static str = "EXTENDED_PLAN_DEF";

/// The number of fields of an extended plan definition record, the keyword and the checksum
/// included.
pub const LENGTH: usize = 5;

/// Why the fields `f` are not an extended plan definition record, if they are not:
/// the first check that fails. The number of fields is checked first, then
/// the keyword, then the checksum in field 4.
pub open spec fn failure(f: Seq<Seq<char>>) -> Option<ErrorView> {
    first_of(
        header_failure(f, LENGTH as nat, KEYWORD@),
        int_failure(parse_i32_spec(f[4])),
    )
}

/// The layout of an extended plan definition record: which field of `f` fills which slot
/// of the record, and how it is read.
pub open spec fn decoded(plan: ExtendedPlan, f: Seq<Seq<char>>) -> bool {
    &&& plan.encoding@ == f[1]
    &&& plan.fullname@ == f[2]
    &&& plan.patient_comments@ == f[3]
    &&& parse_i32_spec(f[4]) == Ok::<i32, IntErrorKind>(plan.crc)
}

/// Decodes an extended plan definition record from the fields of its line.
///
/// The fields must be exactly [`LENGTH`] and begin with [`KEYWORD`]; the
/// mandatory integers must be integers. Every other field is taken as it is:
/// an optional value that cannot be read is absent.
pub fn parse(params: &Vec<String>) -> (res: Result<ExtendedPlan, Error>)
    ensures
        match res {
            Ok(plan) => failure(texts(params@)) is None && decoded(plan, texts(params@)),
            Err(e) => failure(texts(params@)) == Some(e@),
        },
{
    check_header(params, LENGTH, KEYWORD)?;
    let encoding = params[1].clone();
    let fullname = params[2].clone();
    let patient_comments = params[3].clone();
    let crc: i32 = read_crc(params[4].as_str())?;
    Ok(
        ExtendedPlan {
            encoding,
            fullname,
            patient_comments,
            crc,
        },
    )
}

} // verus!
