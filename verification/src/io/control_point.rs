//! The layout of a control point record and its decoder.

use vstd::prelude::*;
use crate::decimal::{literal_of, literals_of};
use crate::io::{
    check_header, decimal_slots, Error, ErrorView, first_of, header_failure, int_failure, opt_f64,
    opt_f64_spec, opt_rotation, opt_u32, opt_u32_spec, padded_u32_spec, read_count, read_crc,
    read_decimals, slots_in_use, used_slots,
};
use crate::model::rotation::rotation_of;
use crate::model::control_point::ControlPoint;
use crate::number::{IntErrorKind, parse_i32_spec};
use crate::text::texts;

verus! {

/// The keyword in the first field of a control point record.
pub const KEYWORD: &'static str = "CONTROL_PT_DEF";

/// The number of fields of a control point record, the keyword and the checksum
/// included.
pub const LENGTH: usize = 236;

/// Why the fields `f` are not a control point record, if they are not:
/// the first check that fails. The number of fields is checked first, then
/// the keyword, then the mandatory integers in fields 3, 4, 5 and 235.
pub open spec fn failure(f: Seq<Seq<char>>) -> Option<ErrorView> {
    first_of(
        header_failure(f, LENGTH as nat, KEYWORD@),
        first_of(
            int_failure(padded_u32_spec(f[3])),
            first_of(
                int_failure(padded_u32_spec(f[4])),
                first_of(
                    int_failure(padded_u32_spec(f[5])),
                    int_failure(parse_i32_spec(f[235])),
                ),
            ),
        ),
    )
}

/// The layout of a control point record: which field of `f` fills which slot
/// of the record, and how it is read.
pub open spec fn decoded(cp: ControlPoint, f: Seq<Seq<char>>) -> bool {
    &&& cp.field_id@ == f[1]
    &&& cp.mlc_type@ == f[2]
    &&& padded_u32_spec(f[3]) == Ok::<u32, IntErrorKind>(cp.mlc_leaves)
    &&& padded_u32_spec(f[4]) == Ok::<u32, IntErrorKind>(cp.total_control_points)
    &&& padded_u32_spec(f[5]) == Ok::<u32, IntErrorKind>(cp.control_pt_number)
    &&& cp.mu_convention == opt_u32_spec(f[6])
    &&& literal_of(cp.monitor_units) == opt_f64_spec(f[7])
    &&& cp.wedge_position@ == f[8]
    &&& literal_of(cp.energy) == opt_f64_spec(f[9])
    &&& literal_of(cp.dose_rate) == opt_f64_spec(f[10])
    &&& literal_of(cp.ssd) == opt_f64_spec(f[11])
    &&& cp.scale_convention == opt_u32_spec(f[12])
    &&& literal_of(cp.gantry_angle) == opt_f64_spec(f[13])
    &&& cp.gantry_dir == rotation_of(f[14])
    &&& literal_of(cp.collimator_angle) == opt_f64_spec(f[15])
    &&& cp.collimator_dir == rotation_of(f[16])
    &&& cp.field_x_mode@ == f[17]
    &&& literal_of(cp.field_x) == opt_f64_spec(f[18])
    &&& literal_of(cp.collimator_x1) == opt_f64_spec(f[19])
    &&& literal_of(cp.collimator_x2) == opt_f64_spec(f[20])
    &&& cp.field_y_mode@ == f[21]
    &&& literal_of(cp.field_y) == opt_f64_spec(f[22])
    &&& literal_of(cp.collimator_y1) == opt_f64_spec(f[23])
    &&& literal_of(cp.collimator_y2) == opt_f64_spec(f[24])
    &&& literal_of(cp.couch_vertical) == opt_f64_spec(f[25])
    &&& literal_of(cp.couch_lateral) == opt_f64_spec(f[26])
    &&& literal_of(cp.couch_longitudinal) == opt_f64_spec(f[27])
    &&& literal_of(cp.couch_angle) == opt_f64_spec(f[28])
    &&& cp.couch_dir == rotation_of(f[29])
    &&& literal_of(cp.couch_pedestal) == opt_f64_spec(f[30])
    &&& cp.couch_pedestal_dir == rotation_of(f[31])
    &&& literal_of(cp.isocenter_position_x) == opt_f64_spec(f[32])
    &&& literal_of(cp.isocenter_position_y) == opt_f64_spec(f[33])
    &&& literal_of(cp.isocenter_position_z) == opt_f64_spec(f[34])
    &&& cp.mlc_a@.len() == used_slots(cp.mlc_leaves, 100)
    &&& literals_of(cp.mlc_a@) == decimal_slots(f, 35, 1, used_slots(cp.mlc_leaves, 100) as int)
    &&& cp.mlc_b@.len() == used_slots(cp.mlc_leaves, 100)
    &&& literals_of(cp.mlc_b@) == decimal_slots(f, 135, 1, used_slots(cp.mlc_leaves, 100) as int)
    &&& parse_i32_spec(f[235]) == Ok::<i32, IntErrorKind>(cp.crc)
}

/// Decodes a control point record from the fields of its line.
///
/// The fields must be exactly [`LENGTH`] and begin with [`KEYWORD`]; the
/// mandatory integers must be integers. Every other field is taken as it is:
/// an optional value that cannot be read is absent.
pub fn parse(params: &Vec<String>) -> (res: Result<ControlPoint, Error>)
    ensures
        match res {
            Ok(cp) => failure(texts(params@)) is None && decoded(cp, texts(params@)),
            Err(e) => failure(texts(params@)) == Some(e@),
        },
{
    check_header(params, LENGTH, KEYWORD)?;
    let field_id = params[1].clone();
    let mlc_type = params[2].clone();
    let mlc_leaves: u32 = read_count(params[3].as_str())?;
    let total_control_points: u32 = read_count(params[4].as_str())?;
    let control_pt_number: u32 = read_count(params[5].as_str())?;
    let mu_convention = opt_u32(params[6].as_str());
    let monitor_units = opt_f64(params[7].as_str());
    let wedge_position = params[8].clone();
    let energy = opt_f64(params[9].as_str());
    let dose_rate = opt_f64(params[10].as_str());
    let ssd = opt_f64(params[11].as_str());
    let scale_convention = opt_u32(params[12].as_str());
    let gantry_angle = opt_f64(params[13].as_str());
    let gantry_dir = opt_rotation(params[14].as_str());
    let collimator_angle = opt_f64(params[15].as_str());
    let collimator_dir = opt_rotation(params[16].as_str());
    let field_x_mode = params[17].clone();
    let field_x = opt_f64(params[18].as_str());
    let collimator_x1 = opt_f64(params[19].as_str());
    let collimator_x2 = opt_f64(params[20].as_str());
    let field_y_mode = params[21].clone();
    let field_y = opt_f64(params[22].as_str());
    let collimator_y1 = opt_f64(params[23].as_str());
    let collimator_y2 = opt_f64(params[24].as_str());
    let couch_vertical = opt_f64(params[25].as_str());
    let couch_lateral = opt_f64(params[26].as_str());
    let couch_longitudinal = opt_f64(params[27].as_str());
    let couch_angle = opt_f64(params[28].as_str());
    let couch_dir = opt_rotation(params[29].as_str());
    let couch_pedestal = opt_f64(params[30].as_str());
    let couch_pedestal_dir = opt_rotation(params[31].as_str());
    let isocenter_position_x = opt_f64(params[32].as_str());
    let isocenter_position_y = opt_f64(params[33].as_str());
    let isocenter_position_z = opt_f64(params[34].as_str());
    let used: usize = slots_in_use(mlc_leaves, 100);
    let mlc_a = read_decimals(params, 35, 1, used);
    let mlc_b = read_decimals(params, 135, 1, used);
    let crc: i32 = read_crc(params[235].as_str())?;
    Ok(
        ControlPoint {
            field_id,
            mlc_type,
            mlc_leaves,
            total_control_points,
            control_pt_number,
            mu_convention,
            monitor_units,
            wedge_position,
            energy,
            dose_rate,
            ssd,
            scale_convention,
            gantry_angle,
            gantry_dir,
            collimator_angle,
            collimator_dir,
            field_x_mode,
            field_x,
            collimator_x1,
            collimator_x2,
            field_y_mode,
            field_y,
            collimator_y1,
            collimator_y2,
            couch_vertical,
            couch_lateral,
            couch_longitudinal,
            couch_angle,
            couch_dir,
            couch_pedestal,
            couch_pedestal_dir,
            isocenter_position_x,
            isocenter_position_y,
            isocenter_position_z,
            mlc_a,
            mlc_b,
            crc,
        },
    )
}

/// Whether field `i` is a reserved position that a record with `used` leaves
/// leaves unused.
pub open spec fn is_unused_slot(i: int, used: nat) -> bool {
    (35 + used <= i < 135) || (135 + used <= i < 235)
}

/// What stands in the unused positions does not matter. Two lines that differ
/// there only fail alike, and a record decoded from one is a record decoded
/// from the other: it holds as many leaves as its count field says, taken from
/// the first positions of each region.
pub proof fn lemma_unused_slots_ignored(cp: ControlPoint, f: Seq<Seq<char>>, g: Seq<Seq<char>>)
    requires
        f.len() == g.len(),
        forall|i: int|
            0 <= i < LENGTH && !is_unused_slot(i, used_slots(cp.mlc_leaves, 100)) ==> f[i]
                == #[trigger] g[i],
    ensures
        failure(g) == failure(f),
        decoded(cp, f) ==> decoded(cp, g),
{
    let used = used_slots(cp.mlc_leaves, 100) as int;
    assert(decimal_slots(f, 35, 1, used) =~= decimal_slots(g, 35, 1, used));
    assert(decimal_slots(f, 135, 1, used) =~= decimal_slots(g, 135, 1, used));
}

} // verus!
