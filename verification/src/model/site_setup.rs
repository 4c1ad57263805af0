//! A site setup record: how the patient is positioned for a prescription site.

use vstd::prelude::*;
use crate::decimal::Decimal;

verus! {

/// A site setup record: how the patient is positioned for a prescription site.
#[derive(Debug, Clone)]
pub struct SiteSetup {
    pub rx_site_name: String,
    pub patient_orientation: String,
    pub treatment_machine: String,
    pub tolerance_table: String,
    pub isocenter_position_x: Option<Decimal>,
    pub isocenter_position_y: Option<Decimal>,
    pub isocenter_position_z: Option<Decimal>,
    pub structure_set_uid: String,
    pub frame_of_reference_uid: String,
    pub couch_vertical: Option<Decimal>,
    pub couch_lateral: Option<Decimal>,
    pub couch_longitudinal: Option<Decimal>,
    pub couch_angle: Option<Decimal>,
    pub couch_pedestal: Option<Decimal>,
    pub table_top_vertical_displacement: Option<Decimal>,
    pub table_top_longitudinal_displacement: Option<Decimal>,
    pub table_top_lateral_displacement: Option<Decimal>,
    pub mrl_coil_name: String,
    pub mrl_coil_index: Option<u32>,
    pub couch_reference: String,
    pub couch_reference_index: Option<u32>,
    pub respiratory_motion_compensation_technique: String,
    pub respiratory_signal_source: String,
    pub crc: i32,
}

impl SiteSetup {
    /// The record in which nothing has been decoded yet: every text and list is
    /// empty, every optional value absent and every number zero.
    pub open spec fn is_default(&self) -> bool {
        &&& self.rx_site_name@ == Seq::<char>::empty()
        &&& self.patient_orientation@ == Seq::<char>::empty()
        &&& self.treatment_machine@ == Seq::<char>::empty()
        &&& self.tolerance_table@ == Seq::<char>::empty()
        &&& self.isocenter_position_x is None
        &&& self.isocenter_position_y is None
        &&& self.isocenter_position_z is None
        &&& self.structure_set_uid@ == Seq::<char>::empty()
        &&& self.frame_of_reference_uid@ == Seq::<char>::empty()
        &&& self.couch_vertical is None
        &&& self.couch_lateral is None
        &&& self.couch_longitudinal is None
        &&& self.couch_angle is None
        &&& self.couch_pedestal is None
        &&& self.table_top_vertical_displacement is None
        &&& self.table_top_longitudinal_displacement is None
        &&& self.table_top_lateral_displacement is None
        &&& self.mrl_coil_name@ == Seq::<char>::empty()
        &&& self.mrl_coil_index is None
        &&& self.couch_reference@ == Seq::<char>::empty()
        &&& self.couch_reference_index is None
        &&& self.respiratory_motion_compensation_technique@ == Seq::<char>::empty()
        &&& self.respiratory_signal_source@ == Seq::<char>::empty()
        &&& self.crc == 0
    }

    pub fn new() -> (r: Self)
        ensures
            r.is_default(),
    {
        Self::default()
    }
}

impl Default for SiteSetup {
    fn default() -> (r: Self)
        ensures
            r.is_default(),
    {
        Self {
            rx_site_name: String::new(),
            patient_orientation: String::new(),
            treatment_machine: String::new(),
            tolerance_table: String::new(),
            isocenter_position_x: None,
            isocenter_position_y: None,
            isocenter_position_z: None,
            structure_set_uid: String::new(),
            frame_of_reference_uid: String::new(),
            couch_vertical: None,
            couch_lateral: None,
            couch_longitudinal: None,
            couch_angle: None,
            couch_pedestal: None,
            table_top_vertical_displacement: None,
            table_top_longitudinal_displacement: None,
            table_top_lateral_displacement: None,
            mrl_coil_name: String::new(),
            mrl_coil_index: None,
            couch_reference: String::new(),
            couch_reference_index: None,
            respiratory_motion_compensation_technique: String::new(),
            respiratory_signal_source: String::new(),
            crc: 0,
        }
    }
}

} // verus!
