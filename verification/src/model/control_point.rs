//! A control point record: the machine state at one control point of a field, with the leaf positions of the two banks.

use vstd::prelude::*;
use crate::decimal::Decimal;
use crate::model::rotation::Rotation;

verus! {

/// A control point record: the machine state at one control point of a field, with the leaf positions of the two banks.
#[derive(Debug, Clone)]
pub struct ControlPoint {
    pub field_id: String,
    pub mlc_type: String,
    /// The number of leaves in use in each bank.
    pub mlc_leaves: u32,
    pub total_control_points: u32,
    pub control_pt_number: u32,
    pub mu_convention: Option<u32>,
    pub monitor_units: Option<Decimal>,
    pub wedge_position: String,
    pub energy: Option<Decimal>,
    pub dose_rate: Option<Decimal>,
    pub ssd: Option<Decimal>,
    pub scale_convention: Option<u32>,
    pub gantry_angle: Option<Decimal>,
    pub gantry_dir: Option<Rotation>,
    pub collimator_angle: Option<Decimal>,
    pub collimator_dir: Option<Rotation>,
    pub field_x_mode: String,
    pub field_x: Option<Decimal>,
    pub collimator_x1: Option<Decimal>,
    pub collimator_x2: Option<Decimal>,
    pub field_y_mode: String,
    pub field_y: Option<Decimal>,
    pub collimator_y1: Option<Decimal>,
    pub collimator_y2: Option<Decimal>,
    pub couch_vertical: Option<Decimal>,
    pub couch_lateral: Option<Decimal>,
    pub couch_longitudinal: Option<Decimal>,
    pub couch_angle: Option<Decimal>,
    pub couch_dir: Option<Rotation>,
    pub couch_pedestal: Option<Decimal>,
    pub couch_pedestal_dir: Option<Rotation>,
    pub isocenter_position_x: Option<Decimal>,
    pub isocenter_position_y: Option<Decimal>,
    pub isocenter_position_z: Option<Decimal>,
    /// The positions of the leaves in use in bank A; a position that cannot be
    /// read is absent.
    pub mlc_a: Vec<Option<Decimal>>,
    /// The positions of the leaves in use in bank B.
    pub mlc_b: Vec<Option<Decimal>>,
    pub crc: i32,
}

impl ControlPoint {
    /// The record in which nothing has been decoded yet: every text and list is
    /// empty, every optional value absent and every number zero.
    pub open spec fn is_default(&self) -> bool {
        &&& self.field_id@ == Seq::<char>::empty()
        &&& self.mlc_type@ == Seq::<char>::empty()
        &&& self.mlc_leaves == 0
        &&& self.total_control_points == 0
        &&& self.control_pt_number == 0
        &&& self.mu_convention is None
        &&& self.monitor_units is None
        &&& self.wedge_position@ == Seq::<char>::empty()
        &&& self.energy is None
        &&& self.dose_rate is None
        &&& self.ssd is None
        &&& self.scale_convention is None
        &&& self.gantry_angle is None
        &&& self.gantry_dir is None
        &&& self.collimator_angle is None
        &&& self.collimator_dir is None
        &&& self.field_x_mode@ == Seq::<char>::empty()
        &&& self.field_x is None
        &&& self.collimator_x1 is None
        &&& self.collimator_x2 is None
        &&& self.field_y_mode@ == Seq::<char>::empty()
        &&& self.field_y is None
        &&& self.collimator_y1 is None
        &&& self.collimator_y2 is None
        &&& self.couch_vertical is None
        &&& self.couch_lateral is None
        &&& self.couch_longitudinal is None
        &&& self.couch_angle is None
        &&& self.couch_dir is None
        &&& self.couch_pedestal is None
        &&& self.couch_pedestal_dir is None
        &&& self.isocenter_position_x is None
        &&& self.isocenter_position_y is None
        &&& self.isocenter_position_z is None
        &&& self.mlc_a@.len() == 0
        &&& self.mlc_b@.len() == 0
        &&& self.crc == 0
    }

    pub fn new() -> (r: Self)
        ensures
            r.is_default(),
    {
        Self::default()
    }
}

impl Default for ControlPoint {
    fn default() -> (r: Self)
        ensures
            r.is_default(),
    {
        Self {
            field_id: String::new(),
            mlc_type: String::new(),
            mlc_leaves: 0,
            total_control_points: 0,
            control_pt_number: 0,
            mu_convention: None,
            monitor_units: None,
            wedge_position: String::new(),
            energy: None,
            dose_rate: None,
            ssd: None,
            scale_convention: None,
            gantry_angle: None,
            gantry_dir: None,
            collimator_angle: None,
            collimator_dir: None,
            field_x_mode: String::new(),
            field_x: None,
            collimator_x1: None,
            collimator_x2: None,
            field_y_mode: String::new(),
            field_y: None,
            collimator_y1: None,
            collimator_y2: None,
            couch_vertical: None,
            couch_lateral: None,
            couch_longitudinal: None,
            couch_angle: None,
            couch_dir: None,
            couch_pedestal: None,
            couch_pedestal_dir: None,
            isocenter_position_x: None,
            isocenter_position_y: None,
            isocenter_position_z: None,
            mlc_a: Vec::new(),
            mlc_b: Vec::new(),
            crc: 0,
        }
    }
}

} // verus!
