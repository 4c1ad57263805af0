//! The layout of a simulation field record and its decoder.

use vstd::prelude::*;
use crate::decimal::literal_of;
use crate::io::{
    check_header, Error, ErrorView, first_of, header_failure, int_failure, opt_f64, opt_f64_spec,
    read_crc,
};
use crate::model::simulation::Simulation;
use crate::number::{IntErrorKind, parse_i32_spec};
use crate::text::texts;

verus! {

/// The keyword in the first field of a simulation field record.
pub const KEYWORD: &'static str = "SIM_DEF";

/// The number of fields of a simulation field record, the keyword and the checksum
/// included.
pub const LENGTH: usize = 53;

/// Why the fields `f` are not a simulation field record, if they are not:
/// the first check that fails. The number of fields is checked first, then
/// the keyword, then the checksum in field 52.
pub open spec fn failure(f: Seq<Seq<char>>) -> Option<ErrorView> {
    first_of(
        header_failure(f, LENGTH as nat, KEYWORD@),
        int_failure(parse_i32_spec(f[52])),
    )
}

/// The layout of a simulation field record: which field of `f` fills which slot
/// of the record, and how it is read.
pub open spec fn decoded(sim: Simulation, f: Seq<Seq<char>>) -> bool {
    &&& sim.rx_site_name@ == f[1]
    &&& sim.field_name@ == f[2]
    &&& sim.field_id@ == f[3]
    &&& sim.field_note@ == f[4]
    &&& sim.treatment_machine@ == f[5]
    &&& literal_of(sim.gantry_angle) == opt_f64_spec(f[6])
    &&& literal_of(sim.collimator_angle) == opt_f64_spec(f[7])
    &&& sim.field_x_mode@ == f[8]
    &&& literal_of(sim.field_x) == opt_f64_spec(f[9])
    &&& literal_of(sim.collimator_x1) == opt_f64_spec(f[10])
    &&& literal_of(sim.collimator_x2) == opt_f64_spec(f[11])
    &&& sim.field_y_mode@ == f[12]
    &&& literal_of(sim.field_y) == opt_f64_spec(f[13])
    &&& literal_of(sim.collimator_y1) == opt_f64_spec(f[14])
    &&& literal_of(sim.collimator_y2) == opt_f64_spec(f[15])
    &&& literal_of(sim.couch_vertical) == opt_f64_spec(f[16])
    &&& literal_of(sim.couch_lateral) == opt_f64_spec(f[17])
    &&& literal_of(sim.couch_longitudinal) == opt_f64_spec(f[18])
    &&& literal_of(sim.couch_angle) == opt_f64_spec(f[19])
    &&& literal_of(sim.couch_pedestal) == opt_f64_spec(f[20])
    &&& literal_of(sim.sad) == opt_f64_spec(f[21])
    &&& literal_of(sim.ap_separation) == opt_f64_spec(f[22])
    &&& literal_of(sim.pa_separation) == opt_f64_spec(f[23])
    &&& literal_of(sim.lateral_separation) == opt_f64_spec(f[24])
    &&& literal_of(sim.tangential_separation) == opt_f64_spec(f[25])
    &&& sim.other_label_1@ == f[26]
    &&& literal_of(sim.ssd_1) == opt_f64_spec(f[27])
    &&& literal_of(sim.sfd_1) == opt_f64_spec(f[28])
    &&& sim.other_label_2@ == f[29]
    &&& sim.other_measurement_1@ == f[30]
    &&& sim.other_measurement_2@ == f[31]
    &&& sim.other_label_3@ == f[32]
    &&& sim.other_measurement_3@ == f[33]
    &&& sim.other_measurement_4@ == f[34]
    &&& sim.other_label_4@ == f[35]
    &&& sim.other_measurement_5@ == f[36]
    &&& sim.other_measurement_6@ == f[37]
    &&& sim.blade_x_mode@ == f[38]
    &&& literal_of(sim.blade_x) == opt_f64_spec(f[39])
    &&& literal_of(sim.blade_x1) == opt_f64_spec(f[40])
    &&& literal_of(sim.blade_x2) == opt_f64_spec(f[41])
    &&& sim.blade_y_mode@ == f[42]
    &&& literal_of(sim.blade_y) == opt_f64_spec(f[43])
    &&& literal_of(sim.blade_y1) == opt_f64_spec(f[44])
    &&& literal_of(sim.blade_y2) == opt_f64_spec(f[45])
    &&& literal_of(sim.ii_lateral) == opt_f64_spec(f[46])
    &&& literal_of(sim.ii_longitudinal) == opt_f64_spec(f[47])
    &&& literal_of(sim.ii_vertical) == opt_f64_spec(f[48])
    &&& literal_of(sim.kvp) == opt_f64_spec(f[49])
    &&& literal_of(sim.ma) == opt_f64_spec(f[50])
    &&& literal_of(sim.seconds) == opt_f64_spec(f[51])
    &&& parse_i32_spec(f[52]) == Ok::<i32, IntErrorKind>(sim.crc)
}

/// Decodes a simulation field record from the fields of its line.
///
/// The fields must be exactly [`LENGTH`] and begin with [`KEYWORD`]; the
/// mandatory integers must be integers. Every other field is taken as it is:
/// an optional value that cannot be read is absent.
pub fn parse(params: &Vec<String>) -> (res: Result<Simulation, Error>)
    ensures
        match res {
            Ok(sim) => failure(texts(params@)) is None && decoded(sim, texts(params@)),
            Err(e) => failure(texts(params@)) == Some(e@),
        },
{
    check_header(params, LENGTH, KEYWORD)?;
    let rx_site_name = params[1].clone();
    let field_name = params[2].clone();
    let field_id = params[3].clone();
    let field_note = params[4].clone();
    let treatment_machine = params[5].clone();
    let gantry_angle = opt_f64(params[6].as_str());
    let collimator_angle = opt_f64(params[7].as_str());
    let field_x_mode = params[8].clone();
    let field_x = opt_f64(params[9].as_str());
    let collimator_x1 = opt_f64(params[10].as_str());
    let collimator_x2 = opt_f64(params[11].as_str());
    let field_y_mode = params[12].clone();
    let field_y = opt_f64(params[13].as_str());
    let collimator_y1 = opt_f64(params[14].as_str());
    let collimator_y2 = opt_f64(params[15].as_str());
    let couch_vertical = opt_f64(params[16].as_str());
    let couch_lateral = opt_f64(params[17].as_str());
    let couch_longitudinal = opt_f64(params[18].as_str());
    let couch_angle = opt_f64(params[19].as_str());
    let couch_pedestal = opt_f64(params[20].as_str());
    let sad = opt_f64(params[21].as_str());
    let ap_separation = opt_f64(params[22].as_str());
    let pa_separation = opt_f64(params[23].as_str());
    let lateral_separation = opt_f64(params[24].as_str());
    let tangential_separation = opt_f64(params[25].as_str());
    let other_label_1 = params[26].clone();
    let ssd_1 = opt_f64(params[27].as_str());
    let sfd_1 = opt_f64(params[28].as_str());
    let other_label_2 = params[29].clone();
    let other_measurement_1 = params[30].clone();
    let other_measurement_2 = params[31].clone();
    let other_label_3 = params[32].clone();
    let other_measurement_3 = params[33].clone();
    let other_measurement_4 = params[34].clone();
    let other_label_4 = params[35].clone();
    let other_measurement_5 = params[36].clone();
    let other_measurement_6 = params[37].clone();
    let blade_x_mode = params[38].clone();
    let blade_x = opt_f64(params[39].as_str());
    let blade_x1 = opt_f64(params[40].as_str());
    let blade_x2 = opt_f64(params[41].as_str());
    let blade_y_mode = params[42].clone();
    let blade_y = opt_f64(params[43].as_str());
    let blade_y1 = opt_f64(params[44].as_str());
    let blade_y2 = opt_f64(params[45].as_str());
    let ii_lateral = opt_f64(params[46].as_str());
    let ii_longitudinal = opt_f64(params[47].as_str());
    let ii_vertical = opt_f64(params[48].as_str());
    let kvp = opt_f64(params[49].as_str());
    let ma = opt_f64(params[50].as_str());
    let seconds = opt_f64(params[51].as_str());
    let crc: i32 = read_crc(params[52].as_str())?;
    Ok(
        Simulation {
            rx_site_name,
            field_name,
            field_id,
            field_note,
            treatment_machine,
            gantry_angle,
            collimator_angle,
            field_x_mode,
            field_x,
            collimator_x1,
            collimator_x2,
            field_y_mode,
            field_y,
            collimator_y1,
            collimator_y2,
            couch_vertical,
            couch_lateral,
            couch_longitudinal,
            couch_angle,
            couch_pedestal,
            sad,
            ap_separation,
            pa_separation,
            lateral_separation,
            tangential_separation,
            other_label_1,
            ssd_1,
            sfd_1,
            other_label_2,
            other_measurement_1,
            other_measurement_2,
            other_label_3,
            other_measurement_3,
            other_measurement_4,
            other_label_4,
            other_measurement_5,
            other_measurement_6,
            blade_x_mode,
            blade_x,
            blade_x1,
            blade_x2,
            blade_y_mode,
            blade_y,
            blade_y1,
            blade_y2,
            ii_lateral,
            ii_longitudinal,
            ii_vertical,
            kvp,
            ma,
            seconds,
            crc,
        },
    )
}

} // verus!
