//! A dose action point record: a dose at which something is to be done.

use vstd::prelude::*;
use crate::decimal::Decimal;

verus! {

/// A dose action point record: a dose at which something is to be done.
#[derive(Debug, Clone)]
pub struct DoseAction {
    pub region_name: String,
    pub action_dose: Option<Decimal>,
    pub action_note: String,
    pub crc: i32,
}

impl DoseAction {
    /// The record in which nothing has been decoded yet: every text and list is
    /// empty, every optional value absent and every number zero.
    pub open spec fn is_default(&self) -> bool {
        &&& self.region_name@ == Seq::<char>::empty()
        &&& self.action_dose is None
        &&& self.action_note@ == Seq::<char>::empty()
        &&& self.crc == 0
    }

    pub fn new() -> (r: Self)
        ensures
            r.is_default(),
    {
        Self::default()
    }
}

impl Default for DoseAction {
    fn default() -> (r: Self)
        ensures
            r.is_default(),
    {
        Self {
            region_name: String::new(),
            action_dose: None,
            action_note: String::new(),
            crc: 0,
        }
    }
}

} // verus!
