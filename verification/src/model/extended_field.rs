//! An extended treatment field record: where the field comes from and what accessories it uses.

use vstd::prelude::*;

verus! {

/// An extended treatment field record: where the field comes from and what accessories it uses.
#[derive(Debug, Clone)]
pub struct ExtendedField {
    pub field_id: String,
    pub original_plan_uid: String,
    pub original_beam_number: String,
    pub original_beam_name: String,
    pub is_fff: String,
    pub accessory_code: String,
    pub accessory_type: String,
    pub high_dose_authorization: String,
    pub referenced_rt_plan_uid: String,
    pub rt_plan_relationship: String,
    pub crc: i32,
}

impl ExtendedField {
    /// The record in which nothing has been decoded yet: every text and list is
    /// empty, every optional value absent and every number zero.
    pub open spec fn is_default(&self) -> bool {
        &&& self.field_id@ == Seq::<char>::empty()
        &&& self.original_plan_uid@ == Seq::<char>::empty()
        &&& self.original_beam_number@ == Seq::<char>::empty()
        &&& self.original_beam_name@ == Seq::<char>::empty()
        &&& self.is_fff@ == Seq::<char>::empty()
        &&& self.accessory_code@ == Seq::<char>::empty()
        &&& self.accessory_type@ == Seq::<char>::empty()
        &&& self.high_dose_authorization@ == Seq::<char>::empty()
        &&& self.referenced_rt_plan_uid@ == Seq::<char>::empty()
        &&& self.rt_plan_relationship@ == Seq::<char>::empty()
        &&& self.crc == 0
    }

    pub fn new() -> (r: Self)
        ensures
            r.is_default(),
    {
        Self::default()
    }
}

impl Default for ExtendedField {
    fn default() -> (r: Self)
        ensures
            r.is_default(),
    {
        Self {
            field_id: String::new(),
            original_plan_uid: String::new(),
            original_beam_number: String::new(),
            original_beam_name: String::new(),
            is_fff: String::new(),
            accessory_code: String::new(),
            accessory_type: String::new(),
            high_dose_authorization: String::new(),
            referenced_rt_plan_uid: String::new(),
            rt_plan_relationship: String::new(),
            crc: 0,
        }
    }
}

} // verus!
