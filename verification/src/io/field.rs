//! The layout of a treatment field record and its decoder.

use vstd::prelude::*;
use crate::decimal::literal_of;
use crate::io::{
    check_header, Error, ErrorView, first_of, header_failure, int_failure, opt_f64, opt_f64_spec,
    opt_u32, opt_u32_spec, read_crc,
};
use crate::model::field::Field;
use crate::number::{IntErrorKind, parse_i32_spec};
use crate::text::texts;

verus! {

/// The keyword in the first field of a treatment field record.
pub const KEYWORD: &'static str = "FIELD_DEF";

/// The number of fields of a treatment field record, the keyword and the checksum
/// included.
pub const LENGTH: usize = 52;

/// Why the fields `f` are not a treatment field record, if they are not:
/// the first check that fails. The number of fields is checked first, then
/// the keyword, then the checksum in field 51.
pub open spec fn failure(f: Seq<Seq<char>>) -> Option<ErrorView> {
    first_of(
        header_failure(f, LENGTH as nat, KEYWORD@),
        int_failure(parse_i32_spec(f[51])),
    )
}

/// The layout of a treatment field record: which field of `f` fills which slot
/// of the record, and how it is read.
pub open spec fn decoded(field: Field, f: Seq<Seq<char>>) -> bool {
    &&& field.rx_site_name@ == f[1]
    &&& field.field_name@ == f[2]
    &&& field.field_id@ == f[3]
    &&& field.field_note@ == f[4]
    &&& literal_of(field.field_dose) == opt_f64_spec(f[5])
    &&& literal_of(field.field_monitor_units) == opt_f64_spec(f[6])
    &&& literal_of(field.wedge_monitor_units) == opt_f64_spec(f[7])
    &&& field.treatment_machine@ == f[8]
    &&& field.treatment_type@ == f[9]
    &&& field.modality@ == f[10]
    &&& literal_of(field.energy) == opt_f64_spec(f[11])
    &&& field.time == opt_u32_spec(f[12])
    &&& literal_of(field.dose_rate) == opt_f64_spec(f[13])
    &&& literal_of(field.sad) == opt_f64_spec(f[14])
    &&& literal_of(field.ssd) == opt_f64_spec(f[15])
    &&& literal_of(field.gantry_angle) == opt_f64_spec(f[16])
    &&& literal_of(field.collimator_angle) == opt_f64_spec(f[17])
    &&& field.field_x_mode@ == f[18]
    &&& literal_of(field.field_x) == opt_f64_spec(f[19])
    &&& literal_of(field.collimator_x1) == opt_f64_spec(f[20])
    &&& literal_of(field.collimator_x2) == opt_f64_spec(f[21])
    &&& field.field_y_mode@ == f[22]
    &&& literal_of(field.field_y) == opt_f64_spec(f[23])
    &&& literal_of(field.collimator_y1) == opt_f64_spec(f[24])
    &&& literal_of(field.collimator_y2) == opt_f64_spec(f[25])
    &&& literal_of(field.couch_vertical) == opt_f64_spec(f[26])
    &&& literal_of(field.couch_lateral) == opt_f64_spec(f[27])
    &&& literal_of(field.couch_longitudinal) == opt_f64_spec(f[28])
    &&& literal_of(field.couch_angle) == opt_f64_spec(f[29])
    &&& literal_of(field.couch_pedestal) == opt_f64_spec(f[30])
    &&& field.tolerance_table@ == f[31]
    &&& field.arc_direction@ == f[32]
    &&& literal_of(field.arc_start_angle) == opt_f64_spec(f[33])
    &&& literal_of(field.arc_stop_angle) == opt_f64_spec(f[34])
    &&& literal_of(field.arc_mu_degree) == opt_f64_spec(f[35])
    &&& field.wedge@ == f[36]
    &&& field.dynamic_wedge@ == f[37]
    &&& field.block@ == f[38]
    &&& field.compensator@ == f[39]
    &&& field.e_applicator@ == f[40]
    &&& field.e_field_def_aperture@ == f[41]
    &&& field.bolus@ == f[42]
    &&& literal_of(field.portfilm_mu_open) == opt_f64_spec(f[43])
    &&& literal_of(field.portfilm_coeff_open) == opt_f64_spec(f[44])
    &&& literal_of(field.portfilm_delta_open) == opt_f64_spec(f[45])
    &&& literal_of(field.portfilm_mu_treat) == opt_f64_spec(f[46])
    &&& literal_of(field.portfilm_coeff_treat) == opt_f64_spec(f[47])
    &&& literal_of(field.isocenter_position_x) == opt_f64_spec(f[48])
    &&& literal_of(field.isocenter_position_y) == opt_f64_spec(f[49])
    &&& literal_of(field.isocenter_position_z) == opt_f64_spec(f[50])
    &&& parse_i32_spec(f[51]) == Ok::<i32, IntErrorKind>(field.crc)
}

/// Decodes a treatment field record from the fields of its line.
///
/// The fields must be exactly [`LENGTH`] and begin with [`KEYWORD`]; the
/// mandatory integers must be integers. Every other field is taken as it is:
/// an optional value that cannot be read is absent.
pub fn parse(params: &Vec<String>) -> (res: Result<Field, Error>)
    ensures
        match res {
            Ok(field) => failure(texts(params@)) is None && decoded(field, texts(params@)),
            Err(e) => failure(texts(params@)) == Some(e@),
        },
{
    check_header(params, LENGTH, KEYWORD)?;
    let rx_site_name = params[1].clone();
    let field_name = params[2].clone();
    let field_id = params[3].clone();
    let field_note = params[4].clone();
    let field_dose = opt_f64(params[5].as_str());
    let field_monitor_units = opt_f64(params[6].as_str());
    let wedge_monitor_units = opt_f64(params[7].as_str());
    let treatment_machine = params[8].clone();
    let treatment_type = params[9].clone();
    let modality = params[10].clone();
    let energy = opt_f64(params[11].as_str());
    let time = opt_u32(params[12].as_str());
    let dose_rate = opt_f64(params[13].as_str());
    let sad = opt_f64(params[14].as_str());
    let ssd = opt_f64(params[15].as_str());
    let gantry_angle = opt_f64(params[16].as_str());
    let collimator_angle = opt_f64(params[17].as_str());
    let field_x_mode = params[18].clone();
    let field_x = opt_f64(params[19].as_str());
    let collimator_x1 = opt_f64(params[20].as_str());
    let collimator_x2 = opt_f64(params[21].as_str());
    let field_y_mode = params[22].clone();
    let field_y = opt_f64(params[23].as_str());
    let collimator_y1 = opt_f64(params[24].as_str());
    let collimator_y2 = opt_f64(params[25].as_str());
    let couch_vertical = opt_f64(params[26].as_str());
    let couch_lateral = opt_f64(params[27].as_str());
    let couch_longitudinal = opt_f64(params[28].as_str());
    let couch_angle = opt_f64(params[29].as_str());
    let couch_pedestal = opt_f64(params[30].as_str());
    let tolerance_table = params[31].clone();
    let arc_direction = params[32].clone();
    let arc_start_angle = opt_f64(params[33].as_str());
    let arc_stop_angle = opt_f64(params[34].as_str());
    let arc_mu_degree = opt_f64(params[35].as_str());
    let wedge = params[36].clone();
    let dynamic_wedge = params[37].clone();
    let block = params[38].clone();
    let compensator = params[39].clone();
    let e_applicator = params[40].clone();
    let e_field_def_aperture = params[41].clone();
    let bolus = params[42].clone();
    let portfilm_mu_open = opt_f64(params[43].as_str());
    let portfilm_coeff_open = opt_f64(params[44].as_str());
    let portfilm_delta_open = opt_f64(params[45].as_str());
    let portfilm_mu_treat = opt_f64(params[46].as_str());
    let portfilm_coeff_treat = opt_f64(params[47].as_str());
    let isocenter_position_x = opt_f64(params[48].as_str());
    let isocenter_position_y = opt_f64(params[49].as_str());
    let isocenter_position_z = opt_f64(params[50].as_str());
    let crc: i32 = read_crc(params[51].as_str())?;
    Ok(
        Field {
            rx_site_name,
            field_name,
            field_id,
            field_note,
            field_dose,
            field_monitor_units,
            wedge_monitor_units,
            treatment_machine,
            treatment_type,
            modality,
            energy,
            time,
            dose_rate,
            sad,
            ssd,
            gantry_angle,
            collimator_angle,
            field_x_mode,
            field_x,
            collimator_x1,
            collimator_x2,
            field_y_mode,
            field_y,
            collimator_y1,
            collimator_y2,
            couch_vertical,
            couch_lateral,
            couch_longitudinal,
            couch_angle,
            couch_pedestal,
            tolerance_table,
            arc_direction,
            arc_start_angle,
            arc_stop_angle,
            arc_mu_degree,
            wedge,
            dynamic_wedge,
            block,
            compensator,
            e_applicator,
            e_field_def_aperture,
            bolus,
            portfilm_mu_open,
            portfilm_coeff_open,
            portfilm_delta_open,
            portfilm_mu_treat,
            portfilm_coeff_treat,
            isocenter_position_x,
            isocenter_position_y,
            isocenter_position_z,
            crc,
        },
    )
}

} // verus!
