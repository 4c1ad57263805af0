//! The layout of a site setup record and its decoder.

use vstd::prelude::*;
use crate::decimal::literal_of;
use crate::io::{
    check_header, Error, ErrorView, first_of, header_failure, int_failure, opt_f64, opt_f64_spec,
    opt_u32, opt_u32_spec, read_crc,
};
use crate::model::site_setup::SiteSetup;
use crate::number::{IntErrorKind, parse_i32_spec};
use crate::text::texts;

verus! {

/// The keyword in the first field of a site setup record.
pub const KEYWORD: &'static str = "SITE_SETUP_DEF";

/// The number of fields of a site setup record, the keyword and the checksum
/// included.
pub const LENGTH: usize = 25;

/// Why the fields `f` are not a site setup record, if they are not:
/// the first check that fails. The number of fields is checked first, then
/// the keyword, then the checksum in field 24.
pub open spec fn failure(f: Seq<Seq<char>>) -> Option<ErrorView> {
    first_of(
        header_failure(f, LENGTH as nat, KEYWORD@),
        int_failure(parse_i32_spec(f[24])),
    )
}

/// The layout of a site setup record: which field of `f` fills which slot
/// of the record, and how it is read.
pub open spec fn decoded(ss: SiteSetup, f: Seq<Seq<char>>) -> bool {
    &&& ss.rx_site_name@ == f[1]
    &&& ss.patient_orientation@ == f[2]
    &&& ss.treatment_machine@ == f[3]
    &&& ss.tolerance_table@ == f[4]
    &&& literal_of(ss.isocenter_position_x) == opt_f64_spec(f[5])
    &&& literal_of(ss.isocenter_position_y) == opt_f64_spec(f[6])
    &&& literal_of(ss.isocenter_position_z) == opt_f64_spec(f[7])
    &&& ss.structure_set_uid@ == f[8]
    &&& ss.frame_of_reference_uid@ == f[9]
    &&& literal_of(ss.couch_vertical) == opt_f64_spec(f[10])
    &&& literal_of(ss.couch_lateral) == opt_f64_spec(f[11])
    &&& literal_of(ss.couch_longitudinal) == opt_f64_spec(f[12])
    &&& literal_of(ss.couch_angle) == opt_f64_spec(f[13])
    &&& literal_of(ss.couch_pedestal) == opt_f64_spec(f[14])
    &&& literal_of(ss.table_top_vertical_displacement) == opt_f64_spec(f[15])
    &&& literal_of(ss.table_top_longitudinal_displacement) == opt_f64_spec(f[16])
    &&& literal_of(ss.table_top_lateral_displacement) == opt_f64_spec(f[17])
    &&& ss.mrl_coil_name@ == f[18]
    &&& ss.mrl_coil_index == opt_u32_spec(f[19])
    &&& ss.couch_reference@ == f[20]
    &&& ss.couch_reference_index == opt_u32_spec(f[21])
    &&& ss.respiratory_motion_compensation_technique@ == f[22]
    &&& ss.respiratory_signal_source@ == f[23]
    &&& parse_i32_spec(f[24]) == Ok::<i32, IntErrorKind>(ss.crc)
}

/// Decodes a site setup record from the fields of its line.
///
/// The fields must be exactly [`LENGTH`] and begin with [`KEYWORD`]; the
/// mandatory integers must be integers. Every other field is taken as it is:
/// an optional value that cannot be read is absent.
pub fn parse(params: &Vec<String>) -> (res: Result<SiteSetup, Error>)
    ensures
        match res {
            Ok(ss) => failure(texts(params@)) is None && decoded(ss, texts(params@)),
            Err(e) => failure(texts(params@)) == Some(e@),
        },
{
    check_header(params, LENGTH, KEYWORD)?;
    let rx_site_name = params[1].clone();
    let patient_orientation = params[2].clone();
    let treatment_machine = params[3].clone();
    let tolerance_table = params[4].clone();
    let isocenter_position_x = opt_f64(params[5].as_str());
    let isocenter_position_y = opt_f64(params[6].as_str());
    let isocenter_position_z = opt_f64(params[7].as_str());
    let structure_set_uid = params[8].clone();
    let frame_of_reference_uid = params[9].clone();
    let couch_vertical = opt_f64(params[10].as_str());
    let couch_lateral = opt_f64(params[11].as_str());
    let couch_longitudinal = opt_f64(params[12].as_str());
    let couch_angle = opt_f64(params[13].as_str());
    let couch_pedestal = opt_f64(params[14].as_str());
    let table_top_vertical_displacement = opt_f64(params[15].as_str());
    let table_top_longitudinal_displacement = opt_f64(params[16].as_str());
    let table_top_lateral_displacement = opt_f64(params[17].as_str());
    let mrl_coil_name = params[18].clone();
    let mrl_coil_index = opt_u32(params[19].as_str());
    let couch_reference = params[20].clone();
    let couch_reference_index = opt_u32(params[21].as_str());
    let respiratory_motion_compensation_technique = params[22].clone();
    let respiratory_signal_source = params[23].clone();
    let crc: i32 = read_crc(params[24].as_str())?;
    Ok(
        SiteSetup {
            rx_site_name,
            patient_orientation,
            treatment_machine,
            tolerance_table,
            isocenter_position_x,
            isocenter_position_y,
            isocenter_position_z,
            structure_set_uid,
            frame_of_reference_uid,
            couch_vertical,
            couch_lateral,
            couch_longitudinal,
            couch_angle,
            couch_pedestal,
            table_top_vertical_displacement,
            table_top_longitudinal_displacement,
            table_top_lateral_displacement,
            mrl_coil_name,
            mrl_coil_index,
            couch_reference,
            couch_reference_index,
            respiratory_motion_compensation_technique,
            respiratory_signal_source,
            crc,
        },
    )
}

} // verus!
