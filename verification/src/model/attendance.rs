//! Attendance: the days on which a student entered and left the school.

use crate::calendar::Date;
use vstd::prelude::*;

verus! {

/// The envelope in which some endpoints wrap what they return.
#[derive(Clone, Debug, PartialEq, Eq)]
pub struct Payload<T> {
    pub payload: T,
}

impl<T> Payload<T> {
    /// What the envelope holds, without the envelope.
    pub fn into_inner(self) -> (r: T)
        ensures
            r == self.payload,
    {
        self.payload
    }
}

#[derive(Clone, Debug, PartialEq, Eq)]
pub struct StudentAttendance {
    /// Date of this attendance
    pub date: Date,
    /// Visits of that day
    pub visits: Vec<StudentVisit>,
}

#[derive(Clone, Debug, PartialEq, Eq)]
pub struct StudentVisit {
    /// Time of entrance to the school
    pub entrance: String,
    /// Time of exit out of the school
    pub exit: String,
    /// Time spent inside the school
    pub duration: String,
    /// Address of the building
    pub address: String,
    /// Kind of the visit; `COMMON` as a rule
    pub visit_type: String,
    /// Whether this visit carries a warning
    pub is_warning: bool,
    /// Short name of the school building
    pub short_name: String,
}

} // verus!
