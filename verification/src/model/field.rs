//! A treatment field record: the machine settings and the geometry of one field.

use vstd::prelude::*;
use crate::decimal::Decimal;

verus! {

/// A treatment field record: the machine settings and the geometry of one field.
#[derive(Debug, Clone)]
pub struct Field {
    pub rx_site_name: String,
    pub field_name: String,
    pub field_id: String,
    pub field_note: String,
    pub field_dose: Option<Decimal>,
    pub field_monitor_units: Option<Decimal>,
    pub wedge_monitor_units: Option<Decimal>,
    pub treatment_machine: String,
    pub treatment_type: String,
    pub modality: String,
    pub energy: Option<Decimal>,
    pub time: Option<u32>,
    pub dose_rate: Option<Decimal>,
    pub sad: Option<Decimal>,
    pub ssd: Option<Decimal>,
    pub gantry_angle: Option<Decimal>,
    pub collimator_angle: Option<Decimal>,
    pub field_x_mode: String,
    pub field_x: Option<Decimal>,
    pub collimator_x1: Option<Decimal>,
    pub collimator_x2: Option<Decimal>,
    pub field_y_mode: String,
    pub field_y: Option<Decimal>,
    pub collimator_y1: Option<Decimal>,
    pub collimator_y2: Option<Decimal>,
    pub couch_vertical: Option<Decimal>,
    pub couch_lateral: Option<Decimal>,
    pub couch_longitudinal: Option<Decimal>,
    pub couch_angle: Option<Decimal>,
    pub couch_pedestal: Option<Decimal>,
    pub tolerance_table: String,
    pub arc_direction: String,
    pub arc_start_angle: Option<Decimal>,
    pub arc_stop_angle: Option<Decimal>,
    pub arc_mu_degree: Option<Decimal>,
    pub wedge: String,
    pub dynamic_wedge: String,
    pub block: String,
    pub compensator: String,
    pub e_applicator: String,
    pub e_field_def_aperture: String,
    pub bolus: String,
    pub portfilm_mu_open: Option<Decimal>,
    pub portfilm_coeff_open: Option<Decimal>,
    pub portfilm_delta_open: Option<Decimal>,
    pub portfilm_mu_treat: Option<Decimal>,
    pub portfilm_coeff_treat: Option<Decimal>,
    pub isocenter_position_x: Option<Decimal>,
    pub isocenter_position_y: Option<Decimal>,
    pub isocenter_position_z: Option<Decimal>,
    pub crc: i32,
}

impl Field {
    /// The record in which nothing has been decoded yet: every text and list is
    /// empty, every optional value absent and every number zero.
    pub open spec fn is_default(&self) -> bool {
        &&& self.rx_site_name@ == Seq::<char>::empty()
        &&& self.field_name@ == Seq::<char>::empty()
        &&& self.field_id@ == Seq::<char>::empty()
        &&& self.field_note@ == Seq::<char>::empty()
        &&& self.field_dose is None
        &&& self.field_monitor_units is None
        &&& self.wedge_monitor_units is None
        &&& self.treatment_machine@ == Seq::<char>::empty()
        &&& self.treatment_type@ == Seq::<char>::empty()
        &&& self.modality@ == Seq::<char>::empty()
        &&& self.energy is None
        &&& self.time is None
        &&& self.dose_rate is None
        &&& self.sad is None
        &&& self.ssd is None
        &&& self.gantry_angle is None
        &&& self.collimator_angle is None
        &&& self.field_x_mode@ == Seq::<char>::empty()
        &&& self.field_x is None
        &&& self.collimator_x1 is None
        &&& self.collimator_x2 is None
        &&& self.field_y_mode@ == Seq::<char>::empty()
        &&& self.field_y is None
        &&& self.collimator_y1 is None
        &&& self.collimator_y2 is None
        &&& self.couch_vertical is None
        &&& self.couch_lateral is None
        &&& self.couch_longitudinal is None
        &&& self.couch_angle is None
        &&& self.couch_pedestal is None
        &&& self.tolerance_table@ == Seq::<char>::empty()
        &&& self.arc_direction@ == Seq::<char>::empty()
        &&& self.arc_start_angle is None
        &&& self.arc_stop_angle is None
        &&& self.arc_mu_degree is None
        &&& self.wedge@ == Seq::<char>::empty()
        &&& self.dynamic_wedge@ == Seq::<char>::empty()
        &&& self.block@ == Seq::<char>::empty()
        &&& self.compensator@ == Seq::<char>::empty()
        &&& self.e_applicator@ == Seq::<char>::empty()
        &&& self.e_field_def_aperture@ == Seq::<char>::empty()
        &&& self.bolus@ == Seq::<char>::empty()
        &&& self.portfilm_mu_open is None
        &&& self.portfilm_coeff_open is None
        &&& self.portfilm_delta_open is None
        &&& self.portfilm_mu_treat is None
        &&& self.portfilm_coeff_treat is None
        &&& self.isocenter_position_x is None
        &&& self.isocenter_position_y is None
        &&& self.isocenter_position_z is None
        &&& self.crc == 0
    }

    pub fn new() -> (r: Self)
        ensures
            r.is_default(),
    {
        Self::default()
    }
}

impl Default for Field {
    fn default() -> (r: Self)
        ensures
            r.is_default(),
    {
        Self {
            rx_site_name: String::new(),
            field_name: String::new(),
            field_id: String::new(),
            field_note: String::new(),
            field_dose: None,
            field_monitor_units: None,
            wedge_monitor_units: None,
            treatment_machine: String::new(),
            treatment_type: String::new(),
            modality: String::new(),
            energy: None,
            time: None,
            dose_rate: None,
            sad: None,
            ssd: None,
            gantry_angle: None,
            collimator_angle: None,
            field_x_mode: String::new(),
            field_x: None,
            collimator_x1: None,
            collimator_x2: None,
            field_y_mode: String::new(),
            field_y: None,
            collimator_y1: None,
            collimator_y2: None,
            couch_vertical: None,
            couch_lateral: None,
            couch_longitudinal: None,
            couch_angle: None,
            couch_pedestal: None,
            tolerance_table: String::new(),
            arc_direction: String::new(),
            arc_start_angle: None,
            arc_stop_angle: None,
            arc_mu_degree: None,
            wedge: String::new(),
            dynamic_wedge: String::new(),
            block: String::new(),
            compensator: String::new(),
            e_applicator: String::new(),
            e_field_def_aperture: String::new(),
            bolus: String::new(),
            portfilm_mu_open: None,
            portfilm_coeff_open: None,
            portfilm_delta_open: None,
            portfilm_mu_treat: None,
            portfilm_coeff_treat: None,
            isocenter_position_x: None,
            isocenter_position_y: None,
            isocenter_position_z: None,
            crc: 0,
        }
    }
}

} // verus!
