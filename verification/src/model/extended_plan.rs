//! An extended plan definition record: the text encoding, the full name of the patient and comments.

use vstd::prelude::*;

verus! {

/// An extended plan definition record: the text encoding, the full name of the patient and comments.
#[derive(Debug, Clone)]
pub struct ExtendedPlan {
    pub encoding: String,
    pub fullname: String,
    pub patient_comments: String,
    pub crc: i32,
}

impl ExtendedPlan {
    /// The record in which nothing has been decoded yet: every text and list is
    /// empty, every optional value absent and every number zero.
    pub open spec fn is_default(&self) -> bool {
        &&& self.encoding@ == Seq::<char>::empty()
        &&& self.fullname@ == Seq::<char>::empty()
        &&& self.patient_comments@ == Seq::<char>::empty()
        &&& self.crc == 0
    }

    pub fn new() -> (r: Self)
        ensures
            r.is_default(),
    {
        Self::default()
    }
}

impl Default for ExtendedPlan {
    fn default() -> (r: Self)
        ensures
            r.is_default(),
    {
        Self {
            encoding: String::new(),
            fullname: String::new(),
            patient_comments: String::new(),
            crc: 0,
        }
    }
}

} // verus!
