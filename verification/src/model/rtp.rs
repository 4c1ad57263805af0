//! The plan that a file describes: every record decoded from it.

use vstd::prelude::*;
use crate::model::control_point::ControlPoint;
use crate::model::dose_action::DoseAction;
use crate::model::dose_tracking::DoseTracking;
use crate::model::extended_field::ExtendedField;
use crate::model::extended_plan::ExtendedPlan;
use crate::model::field::Field;
use crate::model::mlc_shape::MlcShape;
use crate::model::multi_leaf_collimator::MultiLeafCollimator;
use crate::model::plan::Plan;
use crate::model::prescription::Prescription;
use crate::model::simulation::Simulation;
use crate::model::site_setup::SiteSetup;

verus! {

/// All the records of one file. A record kind that a file holds once has one
/// slot; a kind that it may hold many times has a list, in file order.
pub struct Rtp {
    pub plan: Plan,
    pub extended_plan: ExtendedPlan,
    pub prescription: Prescription,
    pub site_setup: SiteSetup,
    pub simulation: Simulation,
    pub fields: Vec<Field>,
    pub extended_fields: Vec<ExtendedField>,
    pub mlcs: Vec<MultiLeafCollimator>,
    pub control_points: Vec<ControlPoint>,
    pub mlc_shapes: Vec<MlcShape>,
    pub dose_trackings: Vec<DoseTracking>,
    pub dose_actions: Vec<DoseAction>,
}

impl Rtp {
    /// The plan of a file without records: every slot holds the record in
    /// which nothing is decoded, and every list is empty.
    pub open spec fn is_default(&self) -> bool {
        &&& self.plan.is_default()
        &&& self.extended_plan.is_default()
        &&& self.prescription.is_default()
        &&& self.site_setup.is_default()
        &&& self.simulation.is_default()
        &&& self.fields@.len() == 0
        &&& self.extended_fields@.len() == 0
        &&& self.mlcs@.len() == 0
        &&& self.control_points@.len() == 0
        &&& self.mlc_shapes@.len() == 0
        &&& self.dose_trackings@.len() == 0
        &&& self.dose_actions@.len() == 0
    }

    pub fn new() -> (r: Rtp)
        ensures
            r.is_default(),
    {
        Self::default()
    }
}

impl Default for Rtp {
    fn default() -> (r: Self)
        ensures
            r.is_default(),
    {
        Self {
            plan: Default::default(),
            extended_plan: Default::default(),
            prescription: Default::default(),
            site_setup: Default::default(),
            simulation: Default::default(),
            fields: Vec::new(),
            extended_fields: Vec::new(),
            mlcs: Vec::new(),
            control_points: Vec::new(),
            mlc_shapes: Vec::new(),
            dose_trackings: Vec::new(),
            dose_actions: Vec::new(),
        }
    }
}

} // verus!
