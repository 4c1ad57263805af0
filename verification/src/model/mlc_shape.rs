//! An MLC shape record: the outline of the aperture at one control point, as a list of points.

use vstd::prelude::*;
use crate::decimal::Decimal;

verus! {

/// An MLC shape record: the outline of the aperture at one control point, as a list of points.
#[derive(Debug, Clone)]
pub struct MlcShape {
    pub field_id: String,
    pub control_pt_number: u32,
    /// The number of points of the outline.
    pub total_shape_points: u32,
    /// The x coordinate of each point of the outline; a coordinate that cannot
    /// be read is absent.
    pub coordinates_x: Vec<Option<Decimal>>,
    /// The y coordinate of each point of the outline.
    pub coordinates_y: Vec<Option<Decimal>>,
    pub crc: i32,
}

impl MlcShape {
    /// The record in which nothing has been decoded yet: every text and list is
    /// empty, every optional value absent and every number zero.
    pub open spec fn is_default(&self) -> bool {
        &&& self.field_id@ == Seq::<char>::empty()
        &&& self.control_pt_number == 0
        &&& self.total_shape_points == 0
        &&& self.coordinates_x@.len() == 0
        &&& self.coordinates_y@.len() == 0
        &&& self.crc == 0
    }

    pub fn new() -> (r: Self)
        ensures
            r.is_default(),
    {
        Self::default()
    }
}

impl Default for MlcShape {
    fn default() -> (r: Self)
        ensures
            r.is_default(),
    {
        Self {
            field_id: String::new(),
            control_pt_number: 0,
            total_shape_points: 0,
            coordinates_x: Vec::new(),
            coordinates_y: Vec::new(),
            crc: 0,
        }
    }
}

} // verus!
