//! A multi leaf collimator record: the leaf positions of the two banks for one field.

use vstd::prelude::*;
use crate::decimal::Decimal;

verus! {

/// A multi leaf collimator record: the leaf positions of the two banks for one field.
#[derive(Debug, Clone)]
pub struct MultiLeafCollimator {
    pub field_id: String,
    pub mlc_type: String,
    /// The number of leaves in use in each bank.
    pub mlc_leaves: u32,
    /// The positions of the leaves in use in bank A; a position that cannot be
    /// read is absent.
    pub mlc_a: Vec<Option<Decimal>>,
    /// The positions of the leaves in use in bank B.
    pub mlc_b: Vec<Option<Decimal>>,
    pub crc: i32,
}

impl MultiLeafCollimator {
    /// The record in which nothing has been decoded yet: every text and list is
    /// empty, every optional value absent and every number zero.
    pub open spec fn is_default(&self) -> bool {
        &&& self.field_id@ == Seq::<char>::empty()
        &&& self.mlc_type@ == Seq::<char>::empty()
        &&& self.mlc_leaves == 0
        &&& self.mlc_a@.len() == 0
        &&& self.mlc_b@.len() == 0
        &&& self.crc == 0
    }

    pub fn new() -> (r: Self)
        ensures
            r.is_default(),
    {
        Self::default()
    }
}

impl Default for MultiLeafCollimator {
    fn default() -> (r: Self)
        ensures
            r.is_default(),
    {
        Self {
            field_id: String::new(),
            mlc_type: String::new(),
            mlc_leaves: 0,
            mlc_a: Vec::new(),
            mlc_b: Vec::new(),
            crc: 0,
        }
    }
}

} // verus!
