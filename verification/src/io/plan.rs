//! The layout of a plan definition record and its decoder.

use vstd::prelude::*;
use crate::io::{check_header, Error, ErrorView, first_of, header_failure, int_failure, read_crc};
use crate::model::plan::Plan;
use crate::number::{IntErrorKind, parse_i32_spec};
use crate::text::texts;

verus! {

/// The keyword in the first field of a plan definition record.
pub const KEYWORD: &'static str = "PLAN_DEF";

/// The number of fields of a plan definition record, the keyword and the checksum
/// included.
pub const LENGTH: usize = 28;

/// Why the fields `f` are not a plan definition record, if they are not:
/// the first check that fails. The number of fields is checked first, then
/// the keyword, then the checksum in field 27.
pub open spec fn failure(f: Seq<Seq<char>>) -> Option<ErrorView> {
    first_of(
        header_failure(f, LENGTH as nat, KEYWORD@),
        int_failure(parse_i32_spec(f[27])),
    )
}

/// The layout of a plan definition record: which field of `f` fills which slot
/// of the record, and how it is read.
pub open spec fn decoded(plan: Plan, f: Seq<Seq<char>>) -> bool {
    &&& plan.patient_id@ == f[1]
    &&& plan.patient_last_name@ == f[2]
    &&& plan.patient_first_name@ == f[3]
    &&& plan.patient_middle_initial@ == f[4]
    &&& plan.plan_id@ == f[5]
    &&& plan.plan_date@ == f[6]
    &&& plan.plan_time@ == f[7]
    &&& plan.course_id@ == f[8]
    &&& plan.diagnosis@ == f[9]
    &&& plan.md_last_name@ == f[10]
    &&& plan.md_first_name@ == f[11]
    &&& plan.md_middle_initial@ == f[12]
    &&& plan.md_approve_last_name@ == f[13]
    &&& plan.md_approve_first_name@ == f[14]
    &&& plan.md_approve_middle_initial@ == f[15]
    &&& plan.phy_approve_last_name@ == f[16]
    &&& plan.phy_approve_first_name@ == f[17]
    &&& plan.phy_approve_middle_initial@ == f[18]
    &&& plan.author_last_name@ == f[19]
    &&& plan.author_first_name@ == f[20]
    &&& plan.author_middle_initial@ == f[21]
    &&& plan.rtp_mfg@ == f[22]
    &&& plan.rtp_model@ == f[23]
    &&& plan.rtp_version@ == f[24]
    &&& plan.rtp_if_protocol@ == f[25]
    &&& plan.rtp_if_version@ == f[26]
    &&& parse_i32_spec(f[27]) == Ok::<i32, IntErrorKind>(plan.crc)
}

/// Decodes a plan definition record from the fields of its line.
///
/// The fields must be exactly [`LENGTH`] and begin with [`KEYWORD`]; the
/// mandatory integers must be integers. Every other field is taken as it is:
/// an optional value that cannot be read is absent.
pub fn parse(params: &Vec<String>) -> (res: Result<Plan, Error>)
    ensures
        match res {
            Ok(plan) => failure(texts(params@)) is None && decoded(plan, texts(params@)),
            Err(e) => failure(texts(params@)) == Some(e@),
        },
{
    check_header(params, LENGTH, KEYWORD)?;
    let patient_id = params[1].clone();
    let patient_last_name = params[2].clone();
    let patient_first_name = params[3].clone();
    let patient_middle_initial = params[4].clone();
    let plan_id = params[5].clone();
    let plan_date = params[6].clone();
    let plan_time = params[7].clone();
    let course_id = params[8].clone();
    let diagnosis = params[9].clone();
    let md_last_name = params[10].clone();
    let md_first_name = params[11].clone();
    let md_middle_initial = params[12].clone();
    let md_approve_last_name = params[13].clone();
    let md_approve_first_name = params[14].clone();
    let md_approve_middle_initial = params[15].clone();
    let phy_approve_last_name = params[16].clone();
    let phy_approve_first_name = params[17].clone();
    let phy_approve_middle_initial = params[18].clone();
    let author_last_name = params[19].clone();
    let author_first_name = params[20].clone();
    let author_middle_initial = params[21].clone();
    let rtp_mfg = params[22].clone();
    let rtp_model = params[23].clone();
    let rtp_version = params[24].clone();
    let rtp_if_protocol = params[25].clone();
    let rtp_if_version = params[26].clone();
    let crc: i32 = read_crc(params[27].as_str())?;
    Ok(
        Plan {
            patient_id,
            patient_last_name,
            patient_first_name,
            patient_middle_initial,
            plan_id,
            plan_date,
            plan_time,
            course_id,
            diagnosis,
            md_last_name,
            md_first_name,
            md_middle_initial,
            md_approve_last_name,
            md_approve_first_name,
            md_approve_middle_initial,
            phy_approve_last_name,
            phy_approve_first_name,
            phy_approve_middle_initial,
            author_last_name,
            author_first_name,
            author_middle_initial,
            rtp_mfg,
            rtp_model,
            rtp_version,
            rtp_if_protocol,
            rtp_if_version,
            crc,
        },
    )
}

} // verus!
