//! A simulation field record: the geometry and the measurements of a simulated field.

use vstd::prelude::*;
use crate::decimal::Decimal;

verus! {

/// A simulation field record: the geometry and the measurements of a simulated field.
#[derive(Debug, Clone)]
pub struct Simulation {
    pub rx_site_name: String,
    pub field_name: String,
    pub field_id: String,
    pub field_note: String,
    pub treatment_machine: String,
    pub gantry_angle: Option<Decimal>,
    pub collimator_angle: Option<Decimal>,
    pub field_x_mode: String,
    pub field_x: Option<Decimal>,
    pub collimator_x1: Option<Decimal>,
    pub collimator_x2: Option<Decimal>,
    pub field_y_mode: String,
    pub field_y: Option<Decimal>,
    pub collimator_y1: Option<Decimal>,
    pub collimator_y2: Option<Decimal>,
    pub couch_vertical: Option<Decimal>,
    pub couch_lateral: Option<Decimal>,
    pub couch_longitudinal: Option<Decimal>,
    pub couch_angle: Option<Decimal>,
    pub couch_pedestal: Option<Decimal>,
    pub sad: Option<Decimal>,
    pub ap_separation: Option<Decimal>,
    pub pa_separation: Option<Decimal>,
    pub lateral_separation: Option<Decimal>,
    pub tangential_separation: Option<Decimal>,
    pub other_label_1: String,
    pub ssd_1: Option<Decimal>,
    pub sfd_1: Option<Decimal>,
    pub other_label_2: String,
    pub other_measurement_1: String,
    pub other_measurement_2: String,
    pub other_label_3: String,
    pub other_measurement_3: String,
    pub other_measurement_4: String,
    pub other_label_4: String,
    pub other_measurement_5: String,
    pub other_measurement_6: String,
    pub blade_x_mode: String,
    pub blade_x: Option<Decimal>,
    pub blade_x1: Option<Decimal>,
    pub blade_x2: Option<Decimal>,
    pub blade_y_mode: String,
    pub blade_y: Option<Decimal>,
    pub blade_y1: Option<Decimal>,
    pub blade_y2: Option<Decimal>,
    pub ii_lateral: Option<Decimal>,
    pub ii_longitudinal: Option<Decimal>,
    pub ii_vertical: Option<Decimal>,
    pub kvp: Option<Decimal>,
    pub ma: Option<Decimal>,
    pub seconds: Option<Decimal>,
    pub crc: i32,
}

impl Simulation {
    /// The record in which nothing has been decoded yet: every text and list is
    /// empty, every optional value absent and every number zero.
    pub open spec fn is_default(&self) -> bool {
        &&& self.rx_site_name@ == Seq::<char>::empty()
        &&& self.field_name@ == Seq::<char>::empty()
        &&& self.field_id@ == Seq::<char>::empty()
        &&& self.field_note@ == Seq::<char>::empty()
        &&& self.treatment_machine@ == Seq::<char>::empty()
        &&& self.gantry_angle is None
        &&& self.collimator_angle is None
        &&& self.field_x_mode@ == Seq::<char>::empty()
        &&& self.field_x is None
        &&& self.collimator_x1 is None
        &&& self.collimator_x2 is None
        &&& self.field_y_mode@ == Seq::<char>::empty()
        &&& self.field_y is None
        &&& self.collimator_y1 is None
        &&& self.collimator_y2 is None
        &&& self.couch_vertical is None
        &&& self.couch_lateral is None
        &&& self.couch_longitudinal is None
        &&& self.couch_angle is None
        &&& self.couch_pedestal is None
        &&& self.sad is None
        &&& self.ap_separation is None
        &&& self.pa_separation is None
        &&& self.lateral_separation is None
        &&& self.tangential_separation is None
        &&& self.other_label_1@ == Seq::<char>::empty()
        &&& self.ssd_1 is None
        &&& self.sfd_1 is None
        &&& self.other_label_2@ == Seq::<char>::empty()
        &&& self.other_measurement_1@ == Seq::<char>::empty()
        &&& self.other_measurement_2@ == Seq::<char>::empty()
        &&& self.other_label_3@ == Seq::<char>::empty()
        &&& self.other_measurement_3@ == Seq::<char>::empty()
        &&& self.other_measurement_4@ == Seq::<char>::empty()
        &&& self.other_label_4@ == Seq::<char>::empty()
        &&& self.other_measurement_5@ == Seq::<char>::empty()
        &&& self.other_measurement_6@ == Seq::<char>::empty()
        &&& self.blade_x_mode@ == Seq::<char>::empty()
        &&& self.blade_x is None
        &&& self.blade_x1 is None
        &&& self.blade_x2 is None
        &&& self.blade_y_mode@ == Seq::<char>::empty()
        &&& self.blade_y is None
        &&& self.blade_y1 is None
        &&& self.blade_y2 is None
        &&& self.ii_lateral is None
        &&& self.ii_longitudinal is None
        &&& self.ii_vertical is None
        &&& self.kvp is None
        &&& self.ma is None
        &&& self.seconds is None
        &&& self.crc == 0
    }

    pub fn new() -> (r: Self)
        ensures
            r.is_default(),
    {
        Self::default()
    }
}

impl Default for Simulation {
    fn default() -> (r: Self)
        ensures
            r.is_default(),
    {
        Self {
            rx_site_name: String::new(),
            field_name: String::new(),
            field_id: String::new(),
            field_note: String::new(),
            treatment_machine: String::new(),
            gantry_angle: None,
            collimator_angle: None,
            field_x_mode: String::new(),
            field_x: None,
            collimator_x1: None,
            collimator_x2: None,
            field_y_mode: String::new(),
            field_y: None,
            collimator_y1: None,
            collimator_y2: None,
            couch_vertical: None,
            couch_lateral: None,
            couch_longitudinal: None,
            couch_angle: None,
            couch_pedestal: None,
            sad: None,
            ap_separation: None,
            pa_separation: None,
            lateral_separation: None,
            tangential_separation: None,
            other_label_1: String::new(),
            ssd_1: None,
            sfd_1: None,
            other_label_2: String::new(),
            other_measurement_1: String::new(),
            other_measurement_2: String::new(),
            other_label_3: String::new(),
            other_measurement_3: String::new(),
            other_measurement_4: String::new(),
            other_label_4: String::new(),
            other_measurement_5: String::new(),
            other_measurement_6: String::new(),
            blade_x_mode: String::new(),
            blade_x: None,
            blade_x1: None,
            blade_x2: None,
            blade_y_mode: String::new(),
            blade_y: None,
            blade_y1: None,
            blade_y2: None,
            ii_lateral: None,
            ii_longitudinal: None,
            ii_vertical: None,
            kvp: None,
            ma: None,
            seconds: None,
            crc: 0,
        }
    }
}

} // verus!
