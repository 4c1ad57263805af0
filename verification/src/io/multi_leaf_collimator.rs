//! The layout of a multi leaf collimator record and its decoder.

use vstd::prelude::*;
use crate::decimal::literals_of;
use crate::io::{
    check_header, decimal_slots, Error, ErrorView, first_of, header_failure, int_failure,
    padded_u32_spec, read_count, read_crc, read_decimals, slots_in_use, used_slots,
};
use crate::model::multi_leaf_collimator::MultiLeafCollimator;
use crate::number::{IntErrorKind, parse_i32_spec};
use crate::text::texts;

verus! {

/// The keyword in the first field of a multi leaf collimator record.
pub const KEYWORD: &'static str = "MLC_DEF";

/// The number of fields of a multi leaf collimator record, the keyword and the checksum
/// included.
pub const LENGTH: usize = 105;

/// Why the fields `f` are not a multi leaf collimator record, if they are not:
/// the first check that fails. The number of fields is checked first, then
/// the keyword, then the mandatory integers in fields 3 and 104.
pub open spec fn failure(f: Seq<Seq<char>>) -> Option<ErrorView> {
    first_of(
        header_failure(f, LENGTH as nat, KEYWORD@),
        first_of(
            int_failure(padded_u32_spec(f[3])),
            int_failure(parse_i32_spec(f[104])),
        ),
    )
}

/// The layout of a multi leaf collimator record: which field of `f` fills which slot
/// of the record, and how it is read.
pub open spec fn decoded(mlc: MultiLeafCollimator, f: Seq<Seq<char>>) -> bool {
    &&& mlc.field_id@ == f[1]
    &&& mlc.mlc_type@ == f[2]
    &&& padded_u32_spec(f[3]) == Ok::<u32, IntErrorKind>(mlc.mlc_leaves)
    &&& mlc.mlc_a@.len() == used_slots(mlc.mlc_leaves, 50)
    &&& literals_of(mlc.mlc_a@) == decimal_slots(f, 4, 1, used_slots(mlc.mlc_leaves, 50) as int)
    &&& mlc.mlc_b@.len() == used_slots(mlc.mlc_leaves, 50)
    &&& literals_of(mlc.mlc_b@) == decimal_slots(f, 54, 1, used_slots(mlc.mlc_leaves, 50) as int)
    &&& parse_i32_spec(f[104]) == Ok::<i32, IntErrorKind>(mlc.crc)
}

/// Decodes a multi leaf collimator record from the fields of its line.
///
/// The fields must be exactly [`LENGTH`] and begin with [`KEYWORD`]; the
/// mandatory integers must be integers. Every other field is taken as it is:
/// an optional value that cannot be read is absent.
pub fn parse(params: &Vec<String>) -> (res: Result<MultiLeafCollimator, Error>)
    ensures
        match res {
            Ok(mlc) => failure(texts(params@)) is None && decoded(mlc, texts(params@)),
            Err(e) => failure(texts(params@)) == Some(e@),
        },
{
    check_header(params, LENGTH, KEYWORD)?;
    let field_id = params[1].clone();
    let mlc_type = params[2].clone();
    let mlc_leaves: u32 = read_count(params[3].as_str())?;
    let used: usize = slots_in_use(mlc_leaves, 50);
    let mlc_a = read_decimals(params, 4, 1, used);
    let mlc_b = read_decimals(params, 54, 1, used);
    let crc: i32 = read_crc(params[104].as_str())?;
    Ok(
        MultiLeafCollimator {
            field_id,
            mlc_type,
            mlc_leaves,
            mlc_a,
            mlc_b,
            crc,
        },
    )
}

/// Whether field `i` is a reserved position that a record with `used` leaves
/// leaves unused.
pub open spec fn is_unused_slot(i: int, used: nat) -> bool {
    (4 + used <= i < 54) || (54 + used <= i < 104)
}

/// What stands in the unused positions does not matter. Two lines that differ
/// there only fail alike, and a record decoded from one is a record decoded
/// from the other: it holds as many leaves as its count field says, taken from
/// the first positions of each region.
pub proof fn lemma_unused_slots_ignored(mlc: MultiLeafCollimator, f: Seq<Seq<char>>, g: Seq<Seq<char>>)
    requires
        f.len() == g.len(),
        forall|i: int|
            0 <= i < LENGTH && !is_unused_slot(i, used_slots(mlc.mlc_leaves, 50)) ==> f[i]
                == #[trigger] g[i],
    ensures
        failure(g) == failure(f),
        decoded(mlc, f) ==> decoded(mlc, g),
{
    let used = used_slots(mlc.mlc_leaves, 50) as int;
    assert(decimal_slots(f, 4, 1, used) =~= decimal_slots(g, 4, 1, used));
    assert(decimal_slots(f, 54, 1, used) =~= decimal_slots(g, 54, 1, used));
}

} // verus!
