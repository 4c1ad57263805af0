//! The layout of a dose action point record and its decoder.

use vstd::prelude::*;
use crate::decimal::literal_of;
use crate::io::{
    check_header, Error, ErrorView, first_of, header_failure, int_failure, opt_f64, opt_f64_spec,
    read_crc,
};
use crate::model::dose_action::DoseAction;
use crate::number::{IntErrorKind, parse_i32_spec};
use crate::text::texts;

verus! {

/// The keyword in the first field of a dose action point record.
pub const KEYWORD: &'static str = "DOSE_ACTION";

/// The number of fields of a dose action point record, the keyword and the checksum
/// included.
pub const LENGTH: usize = 5;

/// Why the fields `f` are not a dose action point record, if they are not:
/// the first check that fails. The number of fields is checked first, then
/// the keyword, then the checksum in field 4.
pub open spec fn failure(f: Seq<Seq<char>>) -> Option<ErrorView> {
    first_of(
        header_failure(f, LENGTH as nat, KEYWORD@),
        int_failure(parse_i32_spec(f[4])),
    )
}

/// The layout of a dose action point record: which field of `f` fills which slot
/// of the record, and how it is read.
pub open spec fn decoded(da: DoseAction, f: Seq<Seq<char>>) -> bool {
    &&& da.region_name@ == f[1]
    &&& literal_of(da.action_dose) == opt_f64_spec(f[2])
    &&& da.action_note@ == f[3]
    &&& parse_i32_spec(f[4]) == Ok::<i32, IntErrorKind>(da.crc)
}

/// Decodes a dose action point record from the fields of its line.
///
/// The fields must be exactly [`LENGTH`] and begin with [`KEYWORD`]; the
/// mandatory integers must be integers. Every other field is taken as it is:
/// an optional value that cannot be read is absent.
pub fn parse(params: &Vec<String>) -> (res: Result<DoseAction, Error>)
    ensures
        match res {
            Ok(da) => failure(texts(params@)) is None && decoded(da, texts(params@)),
            Err(e) => failure(texts(params@)) == Some(e@),
        },
{
    check_header(params, LENGTH, KEYWORD)?;
    let region_name = params[1].clone();
    let action_dose = opt_f64(params[2].as_str());
    let action_note = params[3].clone();
    let crc: i32 = read_crc(params[4].as_str())?;
    Ok(
        DoseAction {
            region_name,
            action_dose,
            action_note,
            crc,
        },
    )
}

} // verus!
