//! The layout of a prescription site record and its decoder.

use vstd::prelude::*;
use crate::decimal::literal_of;
use crate::io::{
    check_header, Error, ErrorView, first_of, header_failure, int_failure, opt_f64, opt_f64_spec,
    read_crc, read_u32,
};
use crate::model::prescription::Prescription;
use crate::number::{IntErrorKind, parse_i32_spec, parse_u32_spec};
use crate::text::texts;

verus! {

/// The keyword in the first field of a prescription site record.
pub const KEYWORD: &'static str = "RX_DEF";

/// The number of fields of a prescription site record, the keyword and the checksum
/// included.
pub const LENGTH: usize = 13;

/// Why the fields `f` are not a prescription site record, if they are not:
/// the first check that fails. The number of fields is checked first, then
/// the keyword, then the mandatory integers in fields 11 and 12.
pub open spec fn failure(f: Seq<Seq<char>>) -> Option<ErrorView> {
    first_of(
        header_failure(f, LENGTH as nat, KEYWORD@),
        first_of(
            int_failure(parse_u32_spec(f[11])),
            int_failure(parse_i32_spec(f[12])),
        ),
    )
}

/// The layout of a prescription site record: which field of `f` fills which slot
/// of the record, and how it is read.
pub open spec fn decoded(presc: Prescription, f: Seq<Seq<char>>) -> bool {
    &&& presc.course_id@ == f[1]
    &&& presc.rx_site_name@ == f[2]
    &&& presc.technique@ == f[3]
    &&& presc.modality@ == f[4]
    &&& presc.dose_spec@ == f[5]
    &&& literal_of(presc.rx_depth) == opt_f64_spec(f[6])
    &&& literal_of(presc.dose_ttl) == opt_f64_spec(f[7])
    &&& literal_of(presc.dose_tx) == opt_f64_spec(f[8])
    &&& presc.pattern@ == f[9]
    &&& presc.rx_note@ == f[10]
    &&& parse_u32_spec(f[11]) == Ok::<u32, IntErrorKind>(presc.number_of_fields)
    &&& parse_i32_spec(f[12]) == Ok::<i32, IntErrorKind>(presc.crc)
}

/// Decodes a prescription site record from the fields of its line.
///
/// The fields must be exactly [`LENGTH`] and begin with [`KEYWORD`]; the
/// mandatory integers must be integers. Every other field is taken as it is:
/// an optional value that cannot be read is absent.
pub fn parse(params: &Vec<String>) -> (res: Result<Prescription, Error>)
    ensures
        match res {
            Ok(presc) => failure(texts(params@)) is None && decoded(presc, texts(params@)),
            Err(e) => failure(texts(params@)) == Some(e@),
        },
{
    check_header(params, LENGTH, KEYWORD)?;
    let course_id = params[1].clone();
    let rx_site_name = params[2].clone();
    let technique = params[3].clone();
    let modality = params[4].clone();
    let dose_spec = params[5].clone();
    let rx_depth = opt_f64(params[6].as_str());
    let dose_ttl = opt_f64(params[7].as_str());
    let dose_tx = opt_f64(params[8].as_str());
    let pattern = params[9].clone();
    let rx_note = params[10].clone();
    let number_of_fields: u32 = read_u32(params[11].as_str())?;
    let crc: i32 = read_crc(params[12].as_str())?;
    Ok(
        Prescription {
            course_id,
            rx_site_name,
            technique,
            modality,
            dose_spec,
            rx_depth,
            dose_ttl,
            dose_tx,
            pattern,
            rx_note,
            number_of_fields,
            crc,
        },
    )
}

} // verus!
