//! A plan definition record: the patient, the people who wrote and approved the plan, and the system it comes from.

use vstd::prelude::*;

verus! {

/// A plan definition record: the patient, the people who wrote and approved the plan, and the system it comes from.
#[derive(Debug, Clone)]
pub struct Plan {
    pub patient_id: String,
    pub patient_last_name: String,
    pub patient_first_name: String,
    pub patient_middle_initial: String,
    pub plan_id: String,
    pub plan_date: String,
    pub plan_time: String,
    pub course_id: String,
    pub diagnosis: String,
    pub md_last_name: String,
    pub md_first_name: String,
    pub md_middle_initial: String,
    pub md_approve_last_name: String,
    pub md_approve_first_name: String,
    pub md_approve_middle_initial: String,
    pub phy_approve_last_name: String,
    pub phy_approve_first_name: String,
    pub phy_approve_middle_initial: String,
    pub author_last_name: String,
    pub author_first_name: String,
    pub author_middle_initial: String,
    pub rtp_mfg: String,
    pub rtp_model: String,
    pub rtp_version: String,
    pub rtp_if_protocol: String,
    pub rtp_if_version: String,
    pub crc: i32,
}

impl Plan {
    /// The record in which nothing has been decoded yet: every text and list is
    /// empty, every optional value absent and every number zero.
    pub open spec fn is_default(&self) -> bool {
        &&& self.patient_id@ == Seq::<char>::empty()
        &&& self.patient_last_name@ == Seq::<char>::empty()
        &&& self.patient_first_name@ == Seq::<char>::empty()
        &&& self.patient_middle_initial@ == Seq::<char>::empty()
        &&& self.plan_id@ == Seq::<char>::empty()
        &&& self.plan_date@ == Seq::<char>::empty()
        &&& self.plan_time@ == Seq::<char>::empty()
        &&& self.course_id@ == Seq::<char>::empty()
        &&& self.diagnosis@ == Seq::<char>::empty()
        &&& self.md_last_name@ == Seq::<char>::empty()
        &&& self.md_first_name@ == Seq::<char>::empty()
        &&& self.md_middle_initial@ == Seq::<char>::empty()
        &&& self.md_approve_last_name@ == Seq::<char>::empty()
        &&& self.md_approve_first_name@ == Seq::<char>::empty()
        &&& self.md_approve_middle_initial@ == Seq::<char>::empty()
        &&& self.phy_approve_last_name@ == Seq::<char>::empty()
        &&& self.phy_approve_first_name@ == Seq::<char>::empty()
        &&& self.phy_approve_middle_initial@ == Seq::<char>::empty()
        &&& self.author_last_name@ == Seq::<char>::empty()
        &&& self.author_first_name@ == Seq::<char>::empty()
        &&& self.author_middle_initial@ == Seq::<char>::empty()
        &&& self.rtp_mfg@ == Seq::<char>::empty()
        &&& self.rtp_model@ == Seq::<char>::empty()
        &&& self.rtp_version@ == Seq::<char>::empty()
        &&& self.rtp_if_protocol@ == Seq::<char>::empty()
        &&& self.rtp_if_version@ == Seq::<char>::empty()
        &&& self.crc == 0
    }

    pub fn new() -> (r: Self)
        ensures
            r.is_default(),
    {
        Self::default()
    }
}

impl Default for Plan {
    fn default() -> (r: Self)
        ensures
            r.is_default(),
    {
        Self {
            patient_id: String::new(),
            patient_last_name: String::new(),
            patient_first_name: String::new(),
            patient_middle_initial: String::new(),
            plan_id: String::new(),
            plan_date: String::new(),
            plan_time: String::new(),
            course_id: String::new(),
            diagnosis: String::new(),
            md_last_name: String::new(),
            md_first_name: String::new(),
            md_middle_initial: String::new(),
            md_approve_last_name: String::new(),
            md_approve_first_name: String::new(),
            md_approve_middle_initial: String::new(),
            phy_approve_last_name: String::new(),
            phy_approve_first_name: String::new(),
            phy_approve_middle_initial: String::new(),
            author_last_name: String::new(),
            author_first_name: String::new(),
            author_middle_initial: String::new(),
            rtp_mfg: String::new(),
            rtp_model: String::new(),
            rtp_version: String::new(),
            rtp_if_protocol: String::new(),
            rtp_if_version: String::new(),
            crc: 0,
        }
    }
}

} // verus!
