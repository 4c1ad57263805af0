//! A dose tracking record: how much each field contributes to the dose of a region.

use vstd::prelude::*;
use crate::decimal::Decimal;

verus! {

/// A dose tracking record: how much each field contributes to the dose of a region.
#[derive(Debug, Clone)]
pub struct DoseTracking {
    pub region_name: String,
    pub region_prior_dose: Option<Decimal>,
    /// The identifiers of the ten fields that may contribute, used or not.
    pub field_ids: Vec<String>,
    /// The coefficient of each of the ten fields.
    pub reg_coeffs: Vec<Option<Decimal>>,
    pub actual_dose: Option<Decimal>,
    /// The number of fractions given; zero where the record does not tell.
    pub actual_fractions: u32,
    pub crc: i32,
}

impl DoseTracking {
    /// The record in which nothing has been decoded yet: every text and list is
    /// empty, every optional value absent and every number zero.
    pub open spec fn is_default(&self) -> bool {
        &&& self.region_name@ == Seq::<char>::empty()
        &&& self.region_prior_dose is None
        &&& self.field_ids@.len() == 0
        &&& self.reg_coeffs@.len() == 0
        &&& self.actual_dose is None
        &&& self.actual_fractions == 0
        &&& self.crc == 0
    }

    pub fn new() -> (r: Self)
        ensures
            r.is_default(),
    {
        Self::default()
    }
}

impl Default for DoseTracking {
    fn default() -> (r: Self)
        ensures
            r.is_default(),
    {
        Self {
            region_name: String::new(),
            region_prior_dose: None,
            field_ids: Vec::new(),
            reg_coeffs: Vec::new(),
            actual_dose: None,
            actual_fractions: 0,
            crc: 0,
        }
    }
}

} // verus!
