//! The layout of an MLC shape record and its decoder.

use vstd::prelude::*;
use crate::decimal::literals_of;
use crate::io::{
    check_header, decimal_slots, Error, ErrorView, first_of, header_failure, int_failure,
    padded_u32_spec, read_count, read_crc, read_decimals, slots_in_use, used_slots,
};
use crate::model::mlc_shape::MlcShape;
use crate::number::{IntErrorKind, parse_i32_spec};
use crate::text::texts;

verus! {

/// The keyword in the first field of an MLC shape record.
pub const KEYWORD: &'static str = "MLC_SHAPE_DEF";

/// The number of fields of an MLC shape record, the keyword and the checksum
/// included.
pub const LENGTH: usize = 325;

/// Why the fields `f` are not an MLC shape record, if they are not:
/// the first check that fails. The number of fields is checked first, then
/// the keyword, then the mandatory integers in fields 2, 3 and 324.
pub open spec fn failure(f: Seq<Seq<char>>) -> Option<ErrorView> {
    first_of(
        header_failure(f, LENGTH as nat, KEYWORD@),
        first_of(
            int_failure(padded_u32_spec(f[2])),
            first_of(
                int_failure(padded_u32_spec(f[3])),
                int_failure(parse_i32_spec(f[324])),
            ),
        ),
    )
}

/// The layout of an MLC shape record: which field of `f` fills which slot
/// of the record, and how it is read.
pub open spec fn decoded(shape: MlcShape, f: Seq<Seq<char>>) -> bool {
    &&& shape.field_id@ == f[1]
    &&& padded_u32_spec(f[2]) == Ok::<u32, IntErrorKind>(shape.control_pt_number)
    &&& padded_u32_spec(f[3]) == Ok::<u32, IntErrorKind>(shape.total_shape_points)
    &&& shape.coordinates_x@.len() == used_slots(shape.total_shape_points, 160)
    &&& literals_of(shape.coordinates_x@) == decimal_slots(f, 4, 2, used_slots(shape.total_shape_points, 160) as int)
    &&& shape.coordinates_y@.len() == used_slots(shape.total_shape_points, 160)
    &&& literals_of(shape.coordinates_y@) == decimal_slots(f, 5, 2, used_slots(shape.total_shape_points, 160) as int)
    &&& parse_i32_spec(f[324]) == Ok::<i32, IntErrorKind>(shape.crc)
}

/// Decodes an MLC shape record from the fields of its line.
///
/// The fields must be exactly [`LENGTH`] and begin with [`KEYWORD`]; the
/// mandatory integers must be integers. Every other field is taken as it is:
/// an optional value that cannot be read is absent.
pub fn parse(params: &Vec<String>) -> (res: Result<MlcShape, Error>)
    ensures
        match res {
            Ok(shape) => failure(texts(params@)) is None && decoded(shape, texts(params@)),
            Err(e) => failure(texts(params@)) == Some(e@),
        },
{
    check_header(params, LENGTH, KEYWORD)?;
    let field_id = params[1].clone();
    let control_pt_number: u32 = read_count(params[2].as_str())?;
    let total_shape_points: u32 = read_count(params[3].as_str())?;
    let used: usize = slots_in_use(total_shape_points, 160);
    let coordinates_x = read_decimals(params, 4, 2, used);
    let coordinates_y = read_decimals(params, 5, 2, used);
    let crc: i32 = read_crc(params[324].as_str())?;
    Ok(
        MlcShape {
            field_id,
            control_pt_number,
            total_shape_points,
            coordinates_x,
            coordinates_y,
            crc,
        },
    )
}

/// Whether field `i` is a reserved position that a record with `used` points
/// leaves unused.
pub open spec fn is_unused_slot(i: int, used: nat) -> bool {
    4 + 2 * used <= i < 324
}

/// What stands in the unused positions does not matter. Two lines that differ
/// there only fail alike, and a record decoded from one is a record decoded
/// from the other: it holds as many points as its count field says, taken from
/// the first positions of each region.
pub proof fn lemma_unused_slots_ignored(shape: MlcShape, f: Seq<Seq<char>>, g: Seq<Seq<char>>)
    requires
        f.len() == g.len(),
        forall|i: int|
            0 <= i < LENGTH && !is_unused_slot(i, used_slots(shape.total_shape_points, 160)) ==> f[i]
                == #[trigger] g[i],
    ensures
        failure(g) == failure(f),
        decoded(shape, f) ==> decoded(shape, g),
{
    let used = used_slots(shape.total_shape_points, 160) as int;
    assert(decimal_slots(f, 4, 2, used) =~= decimal_slots(g, 4, 2, used));
    assert(decimal_slots(f, 5, 2, used) =~= decimal_slots(g, 5, 2, used));
}

} // verus!
