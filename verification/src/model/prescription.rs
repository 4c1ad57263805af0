//! A prescription site record: the prescribed dose and how it is to be given.

use vstd::prelude::*;
use crate::decimal::Decimal;

verus! {

/// A prescription site record: the prescribed dose and how it is to be given.
#[derive(Debug, Clone)]
pub struct Prescription {
    pub course_id: String,
    pub rx_site_name: String,
    pub technique: String,
    pub modality: String,
    pub dose_spec: String,
    pub rx_depth: Option<Decimal>,
    pub dose_ttl: Option<Decimal>,
    pub dose_tx: Option<Decimal>,
    pub pattern: String,
    pub rx_note: String,
    pub number_of_fields: u32,
    pub crc: i32,
}

impl Prescription {
    /// The record in which nothing has been decoded yet: every text and list is
    /// empty, every optional value absent and every number zero.
    pub open spec fn is_default(&self) -> bool {
        &&& self.course_id@ == Seq::<char>::empty()
        &&& self.rx_site_name@ == Seq::<char>::empty()
        &&& self.technique@ == Seq::<char>::empty()
        &&& self.modality@ == Seq::<char>::empty()
        &&& self.dose_spec@ == Seq::<char>::empty()
        &&& self.rx_depth is None
        &&& self.dose_ttl is None
        &&& self.dose_tx is None
        &&& self.pattern@ == Seq::<char>::empty()
        &&& self.rx_note@ == Seq::<char>::empty()
        &&& self.number_of_fields == 0
        &&& self.crc == 0
    }

    pub fn new() -> (r: Self)
        ensures
            r.is_default(),
    {
        Self::default()
    }
}

impl Default for Prescription {
    fn default() -> (r: Self)
        ensures
            r.is_default(),
    {
        Self {
            course_id: String::new(),
            rx_site_name: String::new(),
            technique: String::new(),
            modality: String::new(),
            dose_spec: String::new(),
            rx_depth: None,
            dose_ttl: None,
            dose_tx: None,
            pattern: String::new(),
            rx_note: String::new(),
            number_of_fields: 0,
            crc: 0,
        }
    }
}

} // verus!
