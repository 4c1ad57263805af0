//! The layout of a dose tracking record and its decoder.

use vstd::prelude::*;
use crate::decimal::{literal_of, literals_of};
use crate::io::{
    check_header, decimal_slots, Error, ErrorView, first_of, header_failure, int_failure, opt_f64,
    opt_f64_spec, opt_u32, opt_u32_spec, read_crc, read_decimals, read_texts, text_slots,
    value_or_zero,
};
use crate::model::dose_tracking::DoseTracking;
use crate::number::{IntErrorKind, parse_i32_spec};
use crate::text::texts;

verus! {

/// The keyword in the first field of a dose tracking record.
pub const KEYWORD: &'static str = "DOSE_DEF";

/// The number of fields of a dose tracking record, the keyword and the checksum
/// included.
pub const LENGTH: usize = 26;

/// Why the fields `f` are not a dose tracking record, if they are not:
/// the first check that fails. The number of fields is checked first, then
/// the keyword, then the checksum in field 25.
pub open spec fn failure(f: Seq<Seq<char>>) -> Option<ErrorView> {
    first_of(
        header_failure(f, LENGTH as nat, KEYWORD@),
        int_failure(parse_i32_spec(f[25])),
    )
}

/// The layout of a dose tracking record: which field of `f` fills which slot
/// of the record, and how it is read.
pub open spec fn decoded(dt: DoseTracking, f: Seq<Seq<char>>) -> bool {
    &&& dt.region_name@ == f[1]
    &&& literal_of(dt.region_prior_dose) == opt_f64_spec(f[2])
    &&& dt.field_ids@.len() == 10
    &&& texts(dt.field_ids@) == text_slots(f, 3, 2, 10)
    &&& dt.reg_coeffs@.len() == 10
    &&& literals_of(dt.reg_coeffs@) == decimal_slots(f, 4, 2, 10)
    &&& literal_of(dt.actual_dose) == opt_f64_spec(f[23])
    &&& dt.actual_fractions == value_or_zero(opt_u32_spec(f[24]))
    &&& parse_i32_spec(f[25]) == Ok::<i32, IntErrorKind>(dt.crc)
}

/// Decodes a dose tracking record from the fields of its line.
///
/// The fields must be exactly [`LENGTH`] and begin with [`KEYWORD`]; the
/// mandatory integers must be integers. Every other field is taken as it is:
/// an optional value that cannot be read is absent.
pub fn parse(params: &Vec<String>) -> (res: Result<DoseTracking, Error>)
    ensures
        match res {
            Ok(dt) => failure(texts(params@)) is None && decoded(dt, texts(params@)),
            Err(e) => failure(texts(params@)) == Some(e@),
        },
{
    check_header(params, LENGTH, KEYWORD)?;
    let region_name = params[1].clone();
    let region_prior_dose = opt_f64(params[2].as_str());
    let field_ids = read_texts(params, 3, 2, 10);
    let reg_coeffs = read_decimals(params, 4, 2, 10);
    let actual_dose = opt_f64(params[23].as_str());
    let actual_fractions: u32 = opt_u32(params[24].as_str()).unwrap_or(0);
    let crc: i32 = read_crc(params[25].as_str())?;
    Ok(
        DoseTracking {
            region_name,
            region_prior_dose,
            field_ids,
            reg_coeffs,
            actual_dose,
            actual_fractions,
            crc,
        },
    )
}

} // verus!
