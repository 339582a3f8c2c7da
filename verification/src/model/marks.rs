//! The progress report: average grades by subject and by period.

use crate::calendar::Date;
use crate::model::lessons::MarkInstance;
use crate::model::FloatBits;
use vstd::prelude::*;

verus! {

#[derive(Clone, Debug, PartialEq, Eq)]
pub struct GlobalAverageGrade {
    /// Name of the subject this grade belongs to
    pub subject_name: String,
    /// Five-based average, as the service writes it
    pub five: String,
    /// Hundred-based average, as the service writes it
    pub hundred: String,
    /// The averages of the periods below
    pub periods: Vec<PeriodAverageGrade>,
}

#[derive(Clone, Debug, PartialEq, Eq)]
pub struct PeriodAverageGrade {
    /// Name of this period
    pub name: String,
    /// Date at which this period starts
    pub start: Date,
    /// Date at which this period ends
    pub end: Date,
    /// Five-based average, as the service writes it
    pub five: String,
    /// Hundred-based average, as the service writes it
    pub hundred: String,
    /// The marks of this period
    pub marks: Vec<MarkInstance>,
}

#[derive(Clone, Debug, PartialEq, Eq)]
pub struct LocalGradeMark {
    /// ID of this mark
    pub id: u64,
    /// Comment to this mark
    pub comment: String,
    /// Weight of this mark
    pub weight: u8,
    /// Whether this is the mark of an examination
    pub is_exam: bool,
    /// Date at which this mark was created
    pub date: Date,
    /// Whether this mark is a point
    pub is_point: bool,
    /// ID of this mark's control form
    pub control_form_id: u64,
    /// Name of the grading system
    pub grade_system: String,
    /// Name of the topic this mark belongs to
    pub topic_name: String,
    /// Name of the control form this mark belongs to
    pub control_form_name: String,
    /// The values of this mark
    pub values: Vec<LocalGradeMarkValue>,
}

#[derive(Clone, Debug, PartialEq, Eq)]
pub struct LocalGradeMarkValue {
    /// Five-based value of this mark
    pub five: FloatBits,
    /// Hundred-based value of this mark
    pub hundred: FloatBits,
    /// This mark as it was given
    pub original: String,
}

} // verus!
