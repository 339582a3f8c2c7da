//! The schedule of a day, the marks of a lesson, academic years and lesson
//! plans.

use crate::calendar::{Date, Timestamp};
use crate::error::{ActivityField, DecodeFault, DiaryError};
use crate::model::FloatBits;
use vstd::prelude::*;

verus! {

#[derive(Clone, Debug, PartialEq, Eq)]
pub struct Teacher {
    /// Last name or surname of the teacher
    pub last_name: String,
    /// First name of the teacher
    pub first_name: String,
    /// Middle name or the patronymic of the teacher
    pub middle_name: String,
    /// Date of birth of this teacher
    pub birth_date: Option<Date>,
    /// Sex of this teacher
    pub sex: Option<String>,
    /// Unique ID of this teacher
    pub user_id: Option<u64>,
}

impl Teacher {
    /// The three names in the order last, first, middle, a space between.
    pub open spec fn full_name(self) -> Seq<char> {
        self.last_name@ + seq![' '] + self.first_name@ + seq![' '] + self.middle_name@
    }

    /// The full name of this teacher.
    pub fn name(&self) -> (r: String)
        ensures
            r@ == self.full_name(),
    {
        let mut name = self.last_name.clone();
        name.append(" ");
        name.append(self.first_name.as_str());
        name.append(" ");
        name.append(self.middle_name.as_str());
        proof {
            reveal_strlit(" ");
            assert(" "@ =~= seq![' ']);
            assert(name@ =~= self.full_name());
        }
        name
    }
}

/// A mark in the two bases the service grades in.
#[derive(Clone, Debug, PartialEq, Eq)]
pub struct Grade {
    /// Five-base value of this grade
    pub five_based: FloatBits,
    /// Hundred-base value of this grade
    pub hundred_based: FloatBits,
}

#[derive(Clone, Debug, PartialEq, Eq)]
pub struct SystemBasedMarkValue {
    /// Name of this system
    pub name: String,
    /// Possibly the highest mark of this system
    pub nmax: FloatBits,
    /// Internal ID of this grade system
    pub internal_grade_system_id: u64,
    /// Internal name of this grade system
    pub internal_grade_system_type: Option<String>,
    /// The value of the mark in this system
    pub grade: Grade,
}

#[derive(Clone, Debug, PartialEq, Eq)]
pub struct MarkInstance {
    /// Unique ID of this mark
    pub id: u64,
    /// This mark as the diary shows it
    pub value: String,
    /// This mark in each grading system
    pub system_values: Vec<SystemBasedMarkValue>,
    /// Comment to this mark
    pub comment: Option<String>,
    /// Weight of this mark
    pub weight: FloatBits,
    /// Possibly the time when a point became this mark
    pub point_date: Option<Timestamp>,
    /// Name of the control form this mark was given for
    pub cause: String,
    /// Time at which this mark was created
    pub created_at: Timestamp,
    /// Time at which this mark was last updated
    pub updated_at: Timestamp,
    /// Whether this is the mark of a control examination
    pub is_exam: bool,
    /// Whether this mark is a point that is to be corrected
    pub is_point: bool,
}

#[derive(Clone, Debug, PartialEq, Eq)]
pub struct LessonInstance {
    /// ID of this scheduled item
    pub schedule_id: u64,
    /// ID of this lesson's subject
    pub subject_id: u64,
    /// Name of this lesson's subject
    pub subject_name: String,
    /// Teacher of this lesson
    pub teacher: Teacher,
    /// The marks given in this lesson
    pub marks: Vec<MarkInstance>,
    /// Homework of this lesson
    pub homework: String,
    /// Whether this lesson was cancelled
    pub is_cancelled: bool,
    /// Whether the student missed this lesson
    pub is_missed_lesson: bool,
    /// Whether this is a virtual lesson
    pub is_virtual: bool,
}

#[derive(Clone, Debug, PartialEq, Eq)]
pub struct Schedule {
    /// Summary of this day's schedule
    pub summary: String,
    /// Date of this schedule
    pub date: Date,
    /// The lessons and breaks of the day, in order
    pub lessons: Vec<ScheduleActivity>,
}

#[derive(Clone, Debug, PartialEq, Eq)]
pub struct AcademicYear {
    /// ID of this year
    pub id: u16,
    /// Description of this academic year
    pub description: String,
    /// When this year starts
    pub begin_date: Date,
    /// When this year ends
    pub end_date: Date,
    /// Whether this is the current academic year
    pub is_current: bool,
}

#[derive(Clone, Debug, PartialEq, Eq)]
pub struct LessonActivity {
    /// A text about this lesson
    pub info: Option<String>,
    /// When this lesson begins, in seconds since the Unix epoch
    pub begin: i64,
    /// When this lesson ends, in seconds since the Unix epoch
    pub end: i64,
    /// When this lesson begins, as the diary shows it
    pub begin_str: String,
    /// When this lesson ends, as the diary shows it
    pub end_str: String,
    /// Number of the room where this lesson takes place
    pub room: String,
    /// Name of the room where this lesson takes place
    pub room_name: String,
    /// Building in which this lesson takes place
    pub building: String,
    /// The lesson itself
    pub subject: LessonInstance,
}

#[derive(Clone, Debug, PartialEq, Eq)]
pub struct BreakActivity {
    /// A text about this break
    pub info: String,
    /// When this break begins, in seconds since the Unix epoch
    pub begin: i64,
    /// When this break ends, in seconds since the Unix epoch
    pub end: i64,
    /// Length of this break in seconds
    pub duration: u64,
}

/// One entry of a day's schedule.
#[derive(Clone, Debug, PartialEq, Eq)]
pub enum ScheduleActivity {
    /// A lesson
    Lesson(Box<LessonActivity>),
    /// A break between lessons
    Break(BreakActivity),
}

/// The two shapes of a schedule activity.
#[derive(Clone, Copy, Debug, PartialEq, Eq, Structural)]
pub enum ActivityTag {
    Lesson,
    Break,
}

/// A schedule activity as it arrives: the tag, and every field of either
/// shape, absent where the service sent none.
#[derive(Clone, Debug, PartialEq, Eq)]
pub struct RawActivity {
    pub tag: String,
    pub info: Option<String>,
    pub begin: Option<i64>,
    pub end: Option<i64>,
    pub begin_str: Option<String>,
    pub end_str: Option<String>,
    pub room: Option<String>,
    pub room_name: Option<String>,
    pub building: Option<String>,
    pub subject: Option<LessonInstance>,
    pub duration: Option<u64>,
}

/// The shape that a tag's text names, if it names one.
pub open spec fn tag_of(text: Seq<char>) -> Option<ActivityTag> {
    if text == "LESSON"@ {
        Some(ActivityTag::Lesson)
    } else if text == "BREAK"@ {
        Some(ActivityTag::Break)
    } else {
        None
    }
}

impl ActivityTag {
    /// The text that names this shape on the wire.
    pub open spec fn wire_text(self) -> Seq<char> {
        match self {
            ActivityTag::Lesson => "LESSON"@,
            ActivityTag::Break => "BREAK"@,
        }
    }

    /// The shape that `text` names. Any text but the two names is refused.
    pub fn parse(text: &str) -> (r: Result<ActivityTag, DiaryError>)
        ensures
            match tag_of(text@) {
                Some(tag) => r == Ok::<ActivityTag, DiaryError>(tag),
                None => r matches Err(DiaryError::Decode(DecodeFault::UnknownActivity(t))) && t@
                    == text@,
            },
    {
        let owned = String::from_str(text);
        if owned == String::from_str("LESSON") {
            Ok(ActivityTag::Lesson)
        } else if owned == String::from_str("BREAK") {
            Ok(ActivityTag::Break)
        } else {
            Err(DiaryError::Decode(DecodeFault::UnknownActivity(owned)))
        }
    }

    /// The text that names this shape on the wire.
    pub fn wire_name(&self) -> (r: &'static str)
        ensures
            r@ == self.wire_text(),
    {
        match self {
            ActivityTag::Lesson => "LESSON",
            ActivityTag::Break => "BREAK",
        }
    }
}

/// Each shape is the one that its own name names.
pub proof fn lemma_tag_names_itself(tag: ActivityTag)
    ensures
        tag_of(tag.wire_text()) == Some(tag),
{
    reveal_strlit("LESSON");
    reveal_strlit("BREAK");
    assert("LESSON"@.len() == 6);
    assert("BREAK"@.len() == 5);
}

/// The first field that a lesson needs and `raw` lacks.
pub open spec fn missing_lesson_field(raw: RawActivity) -> Option<ActivityField> {
    if raw.begin is None {
        Some(ActivityField::BeginUtc)
    } else if raw.end is None {
        Some(ActivityField::EndUtc)
    } else if raw.begin_str is None {
        Some(ActivityField::BeginTime)
    } else if raw.end_str is None {
        Some(ActivityField::EndTime)
    } else if raw.room is None {
        Some(ActivityField::RoomNumber)
    } else if raw.room_name is None {
        Some(ActivityField::RoomName)
    } else if raw.building is None {
        Some(ActivityField::BuildingName)
    } else if raw.subject is None {
        Some(ActivityField::Lesson)
    } else {
        None
    }
}

/// The first field that a break needs and `raw` lacks.
pub open spec fn missing_break_field(raw: RawActivity) -> Option<ActivityField> {
    if raw.info is None {
        Some(ActivityField::Info)
    } else if raw.begin is None {
        Some(ActivityField::BeginUtc)
    } else if raw.end is None {
        Some(ActivityField::EndUtc)
    } else if raw.duration is None {
        Some(ActivityField::Duration)
    } else {
        None
    }
}

/// The lesson that `raw` holds, where it lacks no field of one.
pub open spec fn lesson_of(raw: RawActivity) -> LessonActivity {
    LessonActivity {
        info: raw.info,
        begin: raw.begin.unwrap(),
        end: raw.end.unwrap(),
        begin_str: raw.begin_str.unwrap(),
        end_str: raw.end_str.unwrap(),
        room: raw.room.unwrap(),
        room_name: raw.room_name.unwrap(),
        building: raw.building.unwrap(),
        subject: raw.subject.unwrap(),
    }
}

/// The break that `raw` holds, where it lacks no field of one.
pub open spec fn break_of(raw: RawActivity) -> BreakActivity {
    BreakActivity {
        info: raw.info.unwrap(),
        begin: raw.begin.unwrap(),
        end: raw.end.unwrap(),
        duration: raw.duration.unwrap(),
    }
}

fn lesson_from(raw: RawActivity) -> (r: Result<LessonActivity, DiaryError>)
    ensures
        match missing_lesson_field(raw) {
            Some(field) => r == Err::<LessonActivity, DiaryError>(
                DiaryError::Decode(DecodeFault::MissingField(field)),
            ),
            None => r == Ok::<LessonActivity, DiaryError>(lesson_of(raw)),
        },
{
    let RawActivity {
        tag: _,
        info,
        begin,
        end,
        begin_str,
        end_str,
        room,
        room_name,
        building,
        subject,
        duration: _,
    } = raw;
    match (begin, end, begin_str, end_str, room, room_name, building, subject) {
        (
            Some(begin),
            Some(end),
            Some(begin_str),
            Some(end_str),
            Some(room),
            Some(room_name),
            Some(building),
            Some(subject),
        ) => Ok(
            LessonActivity {
                info,
                begin,
                end,
                begin_str,
                end_str,
                room,
                room_name,
                building,
                subject,
            },
        ),
        (None, _, _, _, _, _, _, _) => Err(missing(ActivityField::BeginUtc)),
        (_, None, _, _, _, _, _, _) => Err(missing(ActivityField::EndUtc)),
        (_, _, None, _, _, _, _, _) => Err(missing(ActivityField::BeginTime)),
        (_, _, _, None, _, _, _, _) => Err(missing(ActivityField::EndTime)),
        (_, _, _, _, None, _, _, _) => Err(missing(ActivityField::RoomNumber)),
        (_, _, _, _, _, None, _, _) => Err(missing(ActivityField::RoomName)),
        (_, _, _, _, _, _, None, _) => Err(missing(ActivityField::BuildingName)),
        (_, _, _, _, _, _, _, None) => Err(missing(ActivityField::Lesson)),
    }
}

fn break_from(raw: RawActivity) -> (r: Result<BreakActivity, DiaryError>)
    ensures
        match missing_break_field(raw) {
            Some(field) => r == Err::<BreakActivity, DiaryError>(
                DiaryError::Decode(DecodeFault::MissingField(field)),
            ),
            None => r == Ok::<BreakActivity, DiaryError>(break_of(raw)),
        },
{
    match (raw.info, raw.begin, raw.end, raw.duration) {
        (Some(info), Some(begin), Some(end), Some(duration)) => Ok(
            BreakActivity { info, begin, end, duration },
        ),
        (None, _, _, _) => Err(missing(ActivityField::Info)),
        (_, None, _, _) => Err(missing(ActivityField::BeginUtc)),
        (_, _, None, _) => Err(missing(ActivityField::EndUtc)),
        (_, _, _, None) => Err(missing(ActivityField::Duration)),
    }
}

fn missing(field: ActivityField) -> (r: DiaryError)
    ensures
        r == DiaryError::Decode(DecodeFault::MissingField(field)),
{
    DiaryError::Decode(DecodeFault::MissingField(field))
}

/// Whether `r` is the outcome of decoding `raw`. The tag alone decides
/// the shape: a lesson for `LESSON`, a break for `BREAK`, each with the
/// fields of `raw` unchanged, and a failure for any other tag. A field
/// that the named shape needs and `raw` lacks is a failure too.
pub open spec fn activity_decoded(raw: RawActivity, r: Result<ScheduleActivity, DiaryError>)
    -> bool {
    match tag_of(raw.tag@) {
        Some(ActivityTag::Lesson) => match missing_lesson_field(raw) {
            Some(field) => r == Err::<ScheduleActivity, DiaryError>(
                DiaryError::Decode(DecodeFault::MissingField(field)),
            ),
            None => r matches Ok(ScheduleActivity::Lesson(lesson)) && *lesson == lesson_of(raw),
        },
        Some(ActivityTag::Break) => match missing_break_field(raw) {
            Some(field) => r == Err::<ScheduleActivity, DiaryError>(
                DiaryError::Decode(DecodeFault::MissingField(field)),
            ),
            None => r == Ok::<ScheduleActivity, DiaryError>(ScheduleActivity::Break(break_of(raw))),
        },
        None => r matches Err(DiaryError::Decode(DecodeFault::UnknownActivity(t))) && t@
            == raw.tag@,
    }
}

impl ScheduleActivity {
    /// The shape of this activity.
    pub open spec fn tag_spec(self) -> ActivityTag {
        match self {
            ScheduleActivity::Lesson(_) => ActivityTag::Lesson,
            ScheduleActivity::Break(_) => ActivityTag::Break,
        }
    }

    /// The shape of this activity.
    pub fn tag(&self) -> (r: ActivityTag)
        ensures
            r == self.tag_spec(),
    {
        match self {
            ScheduleActivity::Lesson(_) => ActivityTag::Lesson,
            ScheduleActivity::Break(_) => ActivityTag::Break,
        }
    }

    /// The activity that `raw` holds. The tag alone decides the shape: a
    /// tag that names neither shape fails, and so does a missing field
    /// of the shape that the tag names. The fields of the other shape
    /// are not looked at.
    pub fn decode(raw: RawActivity) -> (r: Result<ScheduleActivity, DiaryError>)
        ensures
            activity_decoded(raw, r),
    {
        match ActivityTag::parse(raw.tag.as_str()) {
            Ok(ActivityTag::Lesson) => match lesson_from(raw) {
                Ok(lesson) => Ok(ScheduleActivity::Lesson(Box::new(lesson))),
                Err(e) => Err(e),
            },
            Ok(ActivityTag::Break) => match break_from(raw) {
                Ok(pause) => Ok(ScheduleActivity::Break(pause)),
                Err(e) => Err(e),
            },
            Err(e) => Err(e),
        }
    }
}

/// Whether `raw` decodes to an activity: its tag names a shape, and it
/// lacks no field of that shape.
pub open spec fn activity_decodes(raw: RawActivity) -> bool {
    match tag_of(raw.tag@) {
        Some(ActivityTag::Lesson) => missing_lesson_field(raw) is None,
        Some(ActivityTag::Break) => missing_break_field(raw) is None,
        None => false,
    }
}

/// Whether `r` is the outcome of decoding the schedule of a day from its
/// summary, its date and its activities as they arrived: every activity
/// decoded, in the order of arrival; or the failure of the first that
/// does not decode.
pub open spec fn schedule_decoded(
    summary: String,
    date: Date,
    raw: Seq<RawActivity>,
    r: Result<Schedule, DiaryError>,
) -> bool {
    match r {
        Ok(schedule) => {
            &&& schedule.summary == summary
            &&& schedule.date == date
            &&& schedule.lessons@.len() == raw.len()
            &&& forall|i: int|
                0 <= i < raw.len() ==> activity_decoded(
                    #[trigger] raw[i],
                    Ok(schedule.lessons@[i]),
                )
        },
        Err(e) => exists|k: int|
            {
                &&& 0 <= k < raw.len()
                &&& activity_decoded(#[trigger] raw[k], Err(e))
                &&& forall|i: int| 0 <= i < k ==> activity_decodes(#[trigger] raw[i])
            },
    }
}

impl Schedule {
    /// The schedule of a day, decoded from its summary, its date and its
    /// activities as they arrived. It fails with the first activity that
    /// does not decode, and only then.
    pub fn decode(summary: String, date: Date, activities: Vec<RawActivity>) -> (r: Result<
        Schedule,
        DiaryError,
    >)
        ensures
            schedule_decoded(summary, date, activities@, r),
            r is Ok <==> forall|i: int|
                0 <= i < activities@.len() ==> activity_decodes(#[trigger] activities@[i]),
    {
        let ghost raws = activities@;
        let mut lessons: Vec<ScheduleActivity> = Vec::new();
        for raw in it: activities.into_iter()
            invariant
                it.seq() == raws,
                lessons@.len() == it.index(),
                forall|i: int|
                    0 <= i < it.index() ==> activity_decoded(#[trigger] raws[i], Ok(lessons@[i])),
        {
            let ghost k = it.index();
            match ScheduleActivity::decode(raw) {
                Ok(activity) => {
                    lessons.push(activity);
                },
                Err(e) => {
                    proof {
                        assert(activity_decoded(raws[k], Err(e)));
                        assert(!activity_decodes(raws[k]));
                        assert forall|i: int| 0 <= i < k implies activity_decodes(
                            #[trigger] raws[i],
                        ) by {
                            assert(activity_decoded(raws[i], Ok(lessons@[i])));
                        }
                    }
                    return Err(e);
                },
            }
        }
        proof {
            assert forall|i: int| 0 <= i < raws.len() implies activity_decodes(
                #[trigger] raws[i],
            ) by {
                assert(activity_decoded(raws[i], Ok(lessons@[i])));
            }
        }
        Ok(Schedule { summary, date, lessons })
    }
}

/// A decoded activity has the shape that the tag names, and holds the
/// fields that came with it.
pub proof fn lemma_decoded_shape(raw: RawActivity, activity: ScheduleActivity)
    requires
        activity_decoded(raw, Ok(activity)),
    ensures
        tag_of(raw.tag@) == Some(activity.tag_spec()),
        activity matches ScheduleActivity::Lesson(lesson) ==> *lesson == lesson_of(raw),
        activity matches ScheduleActivity::Break(pause) ==> pause == break_of(raw),
{
}

/// A tag that names no shape never decodes.
pub proof fn lemma_unknown_tag_fails(raw: RawActivity, r: Result<ScheduleActivity, DiaryError>)
    requires
        activity_decoded(raw, r),
        raw.tag@ != "LESSON"@,
        raw.tag@ != "BREAK"@,
    ensures
        r is Err,
{
}

#[derive(Clone, Debug, PartialEq, Eq)]
pub struct FinalMark {
    /// Value of this mark
    pub value: FloatBits,
    /// Name of the grading system
    pub grade_system: String,
    /// Whether the student was attested this year
    pub attested: bool,
    /// Whether the student had academic debt this year
    pub has_debt: bool,
    /// ID of the subject this mark belongs to
    pub subject_id: u64,
    /// Name of the subject this mark belongs to
    pub subject_name: String,
}

#[derive(Clone, Debug, PartialEq, Eq)]
pub struct LessonScheduleItem {
    /// ID of this schedule item
    pub id: u64,
    /// ID of the plan of this lesson, if it has one
    pub plan_id: Option<u64>,
    /// ID of this lesson's subject
    pub subject_id: u64,
}

#[derive(Clone, Debug, PartialEq, Eq)]
pub struct ModuleTopic {
    /// ID of this topic
    pub id: u64,
    /// Name of this topic's theme
    pub name: String,
    /// Whether this topic is repeated later
    pub repeatable: bool,
    /// ID of this topic's theme frame
    pub theme_frame_id: Option<u64>,
    /// Accent colour of this topic, `#` and hex digits
    pub color: Option<String>,
    /// Time at which this topic was created
    pub created_at: Timestamp,
    /// Time at which this topic was updated
    pub updated_at: Timestamp,
}

#[derive(Clone, Debug, PartialEq, Eq)]
pub struct PlanModule {
    /// ID of this module
    pub id: u64,
    /// Name of this module
    pub name: String,
    /// Place of this module in the plan, counted from one
    pub ordinal: Option<u64>,
    /// Time at which this module was created
    pub created_at: Timestamp,
    /// Time at which this module was updated
    pub updated_at: Timestamp,
    /// The topics of this module
    pub topics: Vec<ModuleTopic>,
}

#[derive(Clone, Debug, PartialEq, Eq)]
pub struct LessonPlan {
    /// ID of this plan
    pub id: u64,
    /// Name of this plan
    pub name: String,
    /// ID of this plan's template
    pub template_id: u64,
    /// ID of this plan's subject
    pub subject_id: u64,
    /// ID of this plan's teacher
    pub teacher_id: u64,
    /// Count of lessons in this plan
    pub lesson_count: u64,
    /// Count of modules in this plan
    pub module_count: u64,
    /// Time at which this plan was created
    pub created_at: Timestamp,
    /// Time at which this plan was updated
    pub updated_at: Timestamp,
    /// The modules of this plan
    pub modules: Vec<PlanModule>,
}

} // verus!
