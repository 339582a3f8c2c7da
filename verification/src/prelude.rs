//! The names that most users of this crate need.

pub use crate::calendar::{Date, Timestamp};
pub use crate::diary::Diary;
pub use crate::error::DiaryError;
pub use crate::model::attendance::{StudentAttendance, StudentVisit};
pub use crate::model::hw::{HomeworkAttachment, HomeworkEntry, HomeworkSubject, StudentHomework};
pub use crate::model::lessons::{
    AcademicYear, LessonActivity, LessonInstance, Schedule, ScheduleActivity,
};
pub use crate::model::marks::{GlobalAverageGrade, LocalGradeMark, LocalGradeMarkValue};
pub use crate::model::{Account, StudentDetails, StudentProfile};
pub use crate::request::Request;
