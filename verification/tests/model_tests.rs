use dnevnik_mos::calendar::{Date, Timestamp};
use dnevnik_mos::error::{ActivityField, DecodeFault, DiaryError};
use dnevnik_mos::model::attendance::{Payload, StudentAttendance, StudentVisit};
use dnevnik_mos::model::hw::{HomeworkAttachment, HomeworkEntry, HomeworkSubject};
use dnevnik_mos::model::lessons::{
    ActivityTag, BreakActivity, LessonActivity, LessonInstance, MarkInstance, RawActivity,
    ScheduleActivity, Teacher,
};
use dnevnik_mos::model::{Account, FloatBits, School, StudentDetails, StudentProfile};

fn text(s: &str) -> String {
    s.to_string()
}

fn account(id: u64) -> Account {
    Account {
        last_name: text("Иванов"),
        first_name: text("Иван"),
        middle_name: text("Иванович"),
        birth_date: Some(Date { year: 2008, month: 3, day: 14 }),
        gender: Some(text("male")),
        user_id: Some(7),
        id,
        contract_id: None,
        phone: text("9001234567"),
        email: text("ivan@example.org"),
        snils: text("11223344595"),
        profile_type: Some(text("student")),
    }
}

fn details(class_name: &str) -> StudentDetails {
    StudentDetails {
        parent_account: account(42),
        school: School {
            id: 1,
            full_name: text("School No. 1"),
            short_name: text("S1"),
            county: text("Central"),
            principal: text("P. P. Petrov"),
            phone: text("4951234567"),
        },
        class_name: text(class_name),
        grade: 9,
        class_id: 900,
        subjects: vec![],
        representatives: vec![],
        sections: vec![],
        is_legal_representative: false,
        uuid: 0x0123_4567_89ab_cdef_0123_4567_89ab_cdef,
        contract_id: Some(555),
    }
}

fn teacher() -> Teacher {
    Teacher {
        last_name: text("Петрова"),
        first_name: text("Анна"),
        middle_name: text("Сергеевна"),
        birth_date: None,
        sex: None,
        user_id: Some(3),
    }
}

fn minute(year: u16, month: u8, day: u8, hour: u8, minute: u8) -> Timestamp {
    Timestamp { date: Date { year, month, day }, hour, minute, second: 0, nanosecond: 0 }
}

fn mark() -> MarkInstance {
    MarkInstance {
        id: 77,
        value: text("5"),
        system_values: vec![],
        comment: None,
        weight: FloatBits { bits: 1.5f32.to_bits() },
        point_date: None,
        cause: text("Test"),
        created_at: minute(2023, 9, 5, 10, 0),
        updated_at: minute(2023, 9, 5, 10, 0),
        is_exam: false,
        is_point: false,
    }
}

fn lesson_instance() -> LessonInstance {
    LessonInstance {
        schedule_id: 1001,
        subject_id: 12,
        subject_name: text("Algebra"),
        teacher: teacher(),
        marks: vec![mark()],
        homework: text("p. 12, ex. 3"),
        is_cancelled: false,
        is_missed_lesson: false,
        is_virtual: true,
    }
}

fn raw_lesson() -> RawActivity {
    RawActivity {
        tag: text("LESSON"),
        info: Some(text("first lesson")),
        begin: Some(1_693_900_800),
        end: Some(1_693_903_500),
        begin_str: Some(text("08:00")),
        end_str: Some(text("08:45")),
        room: Some(text("204")),
        room_name: Some(text("Maths")),
        building: Some(text("Main")),
        subject: Some(lesson_instance()),
        duration: None,
    }
}

fn raw_break() -> RawActivity {
    RawActivity {
        tag: text("BREAK"),
        info: Some(text("Перемена")),
        begin: Some(1_693_903_500),
        end: Some(1_693_904_100),
        begin_str: None,
        end_str: None,
        room: None,
        room_name: None,
        building: None,
        subject: None,
        duration: Some(600),
    }
}

fn missing(field: ActivityField) -> Result<ScheduleActivity, DiaryError> {
    Err(DiaryError::Decode(DecodeFault::MissingField(field)))
}

#[test]
fn teacher_name_joins_the_three_names() {
    assert_eq!(teacher().name(), "Петрова Анна Сергеевна");
    let nameless = Teacher {
        last_name: text(""),
        first_name: text(""),
        middle_name: text(""),
        birth_date: None,
        sex: None,
        user_id: None,
    };
    assert_eq!(nameless.name(), "  ");
}

#[test]
fn tag_names_one_of_two_shapes() {
    assert_eq!(ActivityTag::parse("LESSON"), Ok(ActivityTag::Lesson));
    assert_eq!(ActivityTag::parse("BREAK"), Ok(ActivityTag::Break));
    for other in ["", "lesson", "Break", "LESSON ", "EVENT", "LESSONS"] {
        assert_eq!(
            ActivityTag::parse(other),
            Err(DiaryError::Decode(DecodeFault::UnknownActivity(text(other))))
        );
    }
}

#[test]
fn tag_names_itself() {
    for tag in [ActivityTag::Lesson, ActivityTag::Break] {
        assert_eq!(ActivityTag::parse(tag.wire_name()), Ok(tag));
    }
    assert_eq!(ActivityTag::Lesson.wire_name(), "LESSON");
    assert_eq!(ActivityTag::Break.wire_name(), "BREAK");
}

#[test]
fn lesson_tag_decodes_to_a_lesson_with_its_fields() {
    let decoded = ScheduleActivity::decode(raw_lesson()).unwrap();
    assert_eq!(decoded.tag(), ActivityTag::Lesson);
    let expected = LessonActivity {
        info: Some(text("first lesson")),
        begin: 1_693_900_800,
        end: 1_693_903_500,
        begin_str: text("08:00"),
        end_str: text("08:45"),
        room: text("204"),
        room_name: text("Maths"),
        building: text("Main"),
        subject: lesson_instance(),
    };
    assert_eq!(decoded, ScheduleActivity::Lesson(Box::new(expected)));
    if let ScheduleActivity::Lesson(lesson) = decoded {
        assert_eq!(lesson.subject.subject_name, "Algebra");
        assert_eq!(lesson.subject.marks[0].weight.bits, 1.5f32.to_bits());
        assert_eq!(lesson.subject.teacher.name(), "Петрова Анна Сергеевна");
    } else {
        panic!("a lesson was expected");
    }
}

#[test]
fn lesson_may_come_without_info() {
    let mut raw = raw_lesson();
    raw.info = None;
    raw.duration = Some(1);
    match ScheduleActivity::decode(raw) {
        Ok(ScheduleActivity::Lesson(lesson)) => assert_eq!(lesson.info, None),
        _ => panic!("a lesson was expected"),
    }
}

#[test]
fn break_tag_decodes_to_a_break() {
    let decoded = ScheduleActivity::decode(raw_break());
    let expected = BreakActivity {
        info: text("Перемена"),
        begin: 1_693_903_500,
        end: 1_693_904_100,
        duration: 600,
    };
    assert_eq!(decoded, Ok(ScheduleActivity::Break(expected)));
    assert_eq!(decoded.unwrap().tag(), ActivityTag::Break);
}

#[test]
fn break_tag_never_gives_a_lesson() {
    let mut raw = raw_lesson();
    raw.tag = text("BREAK");
    raw.duration = Some(300);
    match ScheduleActivity::decode(raw) {
        Ok(ScheduleActivity::Break(pause)) => {
            assert_eq!(pause.duration, 300);
            assert_eq!(pause.info, "first lesson");
        }
        _ => panic!("a break was expected"),
    }
}

#[test]
fn unknown_tag_fails() {
    for tag in ["", "EVENT", "lesson", "break", "Lesson"] {
        let mut raw = raw_lesson();
        raw.tag = text(tag);
        raw.duration = Some(300);
        assert_eq!(
            ScheduleActivity::decode(raw),
            Err(DiaryError::Decode(DecodeFault::UnknownActivity(text(tag))))
        );
    }
}

#[test]
fn lesson_without_a_field_fails_with_the_first_that_is_missing() {
    let mut raw = raw_lesson();
    raw.subject = None;
    assert_eq!(ScheduleActivity::decode(raw), missing(ActivityField::Lesson));
    let mut raw = raw_lesson();
    raw.building = None;
    raw.subject = None;
    assert_eq!(ScheduleActivity::decode(raw), missing(ActivityField::BuildingName));
    let mut raw = raw_lesson();
    raw.room_name = None;
    assert_eq!(ScheduleActivity::decode(raw), missing(ActivityField::RoomName));
    let mut raw = raw_lesson();
    raw.room = None;
    assert_eq!(ScheduleActivity::decode(raw), missing(ActivityField::RoomNumber));
    let mut raw = raw_lesson();
    raw.end_str = None;
    assert_eq!(ScheduleActivity::decode(raw), missing(ActivityField::EndTime));
    let mut raw = raw_lesson();
    raw.begin_str = None;
    assert_eq!(ScheduleActivity::decode(raw), missing(ActivityField::BeginTime));
    let mut raw = raw_lesson();
    raw.end = None;
    raw.room = None;
    assert_eq!(ScheduleActivity::decode(raw), missing(ActivityField::EndUtc));
    let mut raw = raw_lesson();
    raw.begin = None;
    raw.end = None;
    assert_eq!(ScheduleActivity::decode(raw), missing(ActivityField::BeginUtc));
    assert_eq!(ScheduleActivity::decode(raw_break_as_lesson()), missing(ActivityField::BeginTime));
}

fn raw_break_as_lesson() -> RawActivity {
    let mut raw = raw_break();
    raw.tag = text("LESSON");
    raw
}

#[test]
fn break_without_a_field_fails_with_the_first_that_is_missing() {
    let mut raw = raw_break();
    raw.duration = None;
    assert_eq!(ScheduleActivity::decode(raw), missing(ActivityField::Duration));
    let mut raw = raw_break();
    raw.end = None;
    raw.duration = None;
    assert_eq!(ScheduleActivity::decode(raw), missing(ActivityField::EndUtc));
    let mut raw = raw_break();
    raw.begin = None;
    assert_eq!(ScheduleActivity::decode(raw), missing(ActivityField::BeginUtc));
    let mut raw = raw_break();
    raw.info = None;
    raw.begin = None;
    assert_eq!(ScheduleActivity::decode(raw), missing(ActivityField::Info));
}

#[test]
fn field_names_are_those_of_the_wire() {
    assert_eq!(ActivityField::Info.wire_name(), "info");
    assert_eq!(ActivityField::BeginUtc.wire_name(), "begin_utc");
    assert_eq!(ActivityField::EndUtc.wire_name(), "end_utc");
    assert_eq!(ActivityField::BeginTime.wire_name(), "begin_time");
    assert_eq!(ActivityField::EndTime.wire_name(), "end_time");
    assert_eq!(ActivityField::RoomNumber.wire_name(), "room_number");
    assert_eq!(ActivityField::RoomName.wire_name(), "room_name");
    assert_eq!(ActivityField::BuildingName.wire_name(), "building_name");
    assert_eq!(ActivityField::Lesson.wire_name(), "lesson");
    assert_eq!(ActivityField::Duration.wire_name(), "duration");
}

#[test]
fn envelope_gives_exactly_what_it_holds() {
    let visit = StudentVisit {
        entrance: text("08:01"),
        exit: text("14:30"),
        duration: text("6 h 29 min"),
        address: text("1 School Street"),
        visit_type: text("COMMON"),
        is_warning: false,
        short_name: text("S1"),
    };
    let days = vec![
        StudentAttendance { date: Date { year: 2023, month: 9, day: 5 }, visits: vec![visit] },
        StudentAttendance { date: Date { year: 2023, month: 9, day: 6 }, visits: vec![] },
    ];
    let envelope = Payload { payload: days.clone() };
    assert_eq!(envelope.into_inner(), days);
    assert_eq!(Payload { payload: 7u8 }.into_inner(), 7);
    assert_eq!(Payload { payload: Vec::<StudentAttendance>::new() }.into_inner(), vec![]);
}

#[test]
fn profile_without_details_is_refused() {
    assert_eq!(
        StudentProfile::new(text("hash"), account(42), vec![]),
        Err(DiaryError::Decode(DecodeFault::NoDetails))
    );
}

#[test]
fn profile_details_are_the_first() {
    let profile =
        StudentProfile::new(text("hash"), account(42), vec![details("9-A"), details("9-B")])
            .unwrap();
    assert_eq!(profile.details(), &details("9-A"));
    assert_eq!(profile.account(), &account(42));
    assert_eq!(profile.hash, "hash");
    assert_eq!(profile.account.id, 42);
}

#[test]
fn homework_entry_shows_its_subject() {
    let attachment = HomeworkAttachment {
        id: 9,
        created_at: minute(2023, 9, 4, 18, 30),
        file_name: text("task.pdf"),
        file_size: 2048,
        content_type: text("application/pdf"),
        relative_path: text("/files/9/task.pdf"),
    };
    let entry = HomeworkEntry::new(
        5,
        minute(2023, 9, 4, 18, 0),
        minute(2023, 9, 4, 18, 30),
        None,
        text("Read chapter 2"),
        20,
        vec![attachment.clone()],
        HomeworkSubject { id: 12, name: text("Algebra") },
    );
    assert_eq!(entry.subject(), &HomeworkSubject { id: 12, name: text("Algebra") });
    assert_eq!(entry.id, 5);
    assert_eq!(entry.created_at, minute(2023, 9, 4, 18, 0));
    assert_eq!(entry.updated_at, minute(2023, 9, 4, 18, 30));
    assert_eq!(entry.deleted_at, None);
    assert_eq!(entry.description, "Read chapter 2");
    assert_eq!(entry.expected_duration, 20);
    assert_eq!(entry.attachments, vec![attachment]);
}
