//! The typed records and the plan that collects them.

pub mod control_point;
pub mod dose_action;
pub mod dose_tracking;
pub mod extended_field;
pub mod extended_plan;
pub mod field;
pub mod mlc_shape;
pub mod multi_leaf_collimator;
pub mod plan;
pub mod prescription;
pub mod rotation;
pub mod rtp;
pub mod simulation;
pub mod site_setup;

pub use control_point::ControlPoint;
pub use dose_action::DoseAction;
pub use dose_tracking::DoseTracking;
pub use extended_field::ExtendedField;
pub use extended_plan::ExtendedPlan;
pub use field::Field;
pub use mlc_shape::MlcShape;
pub use multi_leaf_collimator::MultiLeafCollimator;
pub use plan::Plan;
pub use prescription::Prescription;
pub use rotation::{Rotation, RotationError};
pub use rtp::Rtp;
pub use simulation::Simulation;
pub use site_setup::SiteSetup;
