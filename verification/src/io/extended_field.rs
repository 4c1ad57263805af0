//! The layout of an extended treatment field record and its decoder.

use vstd::prelude::*;
use crate::io::{check_header, Error, ErrorView, first_of, header_failure, int_failure, read_crc};
use crate::model::extended_field::ExtendedField;
use crate::number::{IntErrorKind, parse_i32_spec};
use crate::text::texts;

verus! {

/// The keyword in the first field of an extended treatment field record.
pub const KEYWORD: &'static str = "EXTENDED_FIELD_DEF";

/// The number of fields of an extended treatment field record, the keyword and the checksum
/// included.
pub const LENGTH: usize = 12;

/// Why the fields `f` are not an extended treatment field record, if they are not:
/// the first check that fails. The number of fields is checked first, then
/// the keyword, then the checksum in field 11.
pub open spec fn failure(f: Seq<Seq<char>>) -> Option<ErrorView> {
    first_of(
        header_failure(f, LENGTH as nat, KEYWORD@),
        int_failure(parse_i32_spec(f[11])),
    )
}

/// The layout of an extended treatment field record: which field of `f` fills which slot
/// of the record, and how it is read.
pub open spec fn decoded(field: ExtendedField, f: Seq<Seq<char>>) -> bool {
    &&& field.field_id@ == f[1]
    &&& field.original_plan_uid@ == f[2]
    &&& field.original_beam_number@ == f[3]
    &&& field.original_beam_name@ == f[4]
    &&& field.is_fff@ == f[5]
    &&& field.accessory_code@ == f[6]
    &&& field.accessory_type@ == f[7]
    &&& field.high_dose_authorization@ == f[8]
    &&& field.referenced_rt_plan_uid@ == f[9]
    &&& field.rt_plan_relationship@ == f[10]
    &&& parse_i32_spec(f[11]) == Ok::<i32, IntErrorKind>(field.crc)
}

/// Decodes an extended treatment field record from the fields of its line.
///
/// The fields must be exactly [`LENGTH`] and begin with [`KEYWORD`]; the
/// mandatory integers must be integers. Every other field is taken as it is:
/// an optional value that cannot be read is absent.
pub fn parse(params: &Vec<String>) -> (res: Result<ExtendedField, Error>)
    ensures
        match res {
            Ok(field) => failure(texts(params@)) is None && decoded(field, texts(params@)),
            Err(e) => failure(texts(params@)) == Some(e@),
        },
{
    check_header(params, LENGTH, KEYWORD)?;
    let field_id = params[1].clone();
    let original_plan_uid = params[2].clone();
    let original_beam_number = params[3].clone();
    let original_beam_name = params[4].clone();
    let is_fff = params[5].clone();
    let accessory_code = params[6].clone();
    let accessory_type = params[7].clone();
    let high_dose_authorization = params[8].clone();
    let referenced_rt_plan_uid = params[9].clone();
    let rt_plan_relationship = params[10].clone();
    let crc: i32 = read_crc(params[11].as_str())?;
    Ok(
        ExtendedField {
            field_id,
            original_plan_uid,
            original_beam_number,
            original_beam_name,
            is_fff,
            accessory_code,
            accessory_type,
            high_dose_authorization,
            referenced_rt_plan_uid,
            rt_plan_relationship,
            crc,
        },
    )
}

} // verus!
