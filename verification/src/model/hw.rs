//! Homework: the entries a student was given, their attachments, and the
//! timestamps that homework records write as `DD.MM.YYYY HH:MM`.

use crate::calendar::{
    has_day_minute_shape, is_day_minute_text, lemma_day_minute_text_round_trip, read_day_minute,
    read_four, read_two, valid_date, valid_minute, Date, Timestamp,
};
use crate::error::{DecodeFault, DiaryError};
use chrono::{Datelike, Timelike};
use vstd::prelude::*;

verus! {

#[derive(Clone, Debug, PartialEq, Eq)]
pub struct StudentHomework {
    /// ID of this homework
    pub id: u64,
    /// ID of the student it was given to
    pub student_id: u64,
    /// Whether this homework is ready
    pub is_ready: bool,
    /// What was given
    pub homework_entry: HomeworkEntry,
}

#[derive(Clone, Debug, PartialEq, Eq)]
pub struct HomeworkEntry {
    /// ID of this homework entry
    pub id: u64,
    /// Time at which this entry was created
    pub created_at: Timestamp,
    /// Time at which this entry was last updated
    pub updated_at: Timestamp,
    /// Time at which this entry was deleted, if it was
    pub deleted_at: Option<Timestamp>,
    /// What is to be done
    pub description: String,
    /// Time this entry is expected to take, in minutes
    pub expected_duration: u32,
    /// The files attached to this entry
    pub attachments: Vec<HomeworkAttachment>,
    homework: InternalHomeworkEntry,
}

/// The record in which the service nests the subject of an entry.
#[derive(Clone, Debug, PartialEq, Eq)]
struct InternalHomeworkEntry {
    subject: HomeworkSubject,
}

#[derive(Clone, Debug, PartialEq, Eq)]
pub struct HomeworkSubject {
    /// ID of this subject
    pub id: u64,
    /// Name of this subject
    pub name: String,
}

#[derive(Clone, Debug, PartialEq, Eq)]
pub struct HomeworkAttachment {
    /// ID of this attachment
    pub id: u64,
    /// Time at which this attachment was added
    pub created_at: Timestamp,
    /// Name of the attached file
    pub file_name: String,
    /// Size of the attached file in bytes
    pub file_size: u64,
    /// Type of the file's contents
    pub content_type: String,
    /// Path of the file below the host of the service
    pub relative_path: String,
}

impl HomeworkEntry {
    /// The subject that this entry belongs to.
    pub closed spec fn subject_of(self) -> HomeworkSubject {
        self.homework.subject
    }

    /// The fields of this entry but its subject, in the order of their
    /// declaration.
    pub closed spec fn fields_of(self) -> (
        u64,
        Timestamp,
        Timestamp,
        Option<Timestamp>,
        String,
        u32,
        Vec<HomeworkAttachment>,
    ) {
        (
            self.id,
            self.created_at,
            self.updated_at,
            self.deleted_at,
            self.description,
            self.expected_duration,
            self.attachments,
        )
    }

    /// The entry of the given fields and subject.
    pub fn new(
        id: u64,
        created_at: Timestamp,
        updated_at: Timestamp,
        deleted_at: Option<Timestamp>,
        description: String,
        expected_duration: u32,
        attachments: Vec<HomeworkAttachment>,
        subject: HomeworkSubject,
    ) -> (r: HomeworkEntry)
        ensures
            r.subject_of() == subject,
            r.fields_of() == (
                id,
                created_at,
                updated_at,
                deleted_at,
                description,
                expected_duration,
                attachments,
            ),
    {
        HomeworkEntry {
            id,
            created_at,
            updated_at,
            deleted_at,
            description,
            expected_duration,
            attachments,
            homework: InternalHomeworkEntry { subject },
        }
    }

    /// The ID of this entry.
    pub fn id(&self) -> (r: u64)
        ensures
            r == self.fields_of().0,
    {
        self.id
    }

    /// The time at which this entry was created.
    pub fn created_at(&self) -> (r: Timestamp)
        ensures
            r == self.fields_of().1,
    {
        self.created_at
    }

    /// The time at which this entry was last updated.
    pub fn updated_at(&self) -> (r: Timestamp)
        ensures
            r == self.fields_of().2,
    {
        self.updated_at
    }

    /// The time at which this entry was deleted, if it was.
    pub fn deleted_at(&self) -> (r: Option<Timestamp>)
        ensures
            r == self.fields_of().3,
    {
        self.deleted_at
    }

    /// What is to be done.
    pub fn description(&self) -> (r: &String)
        ensures
            *r == self.fields_of().4,
    {
        &self.description
    }

    /// The time this entry is expected to take, in minutes.
    pub fn expected_duration(&self) -> (r: u32)
        ensures
            r == self.fields_of().5,
    {
        self.expected_duration
    }

    /// The files attached to this entry.
    pub fn attachments(&self) -> (r: &Vec<HomeworkAttachment>)
        ensures
            *r == self.fields_of().6,
    {
        &self.attachments
    }

    /// The subject that this entry belongs to.
    pub fn subject(&self) -> (r: &HomeworkSubject)
        ensures
            *r == self.subject_of(),
    {
        &self.homework.subject
    }
}

/// What `chrono::NaiveDateTime::parse_from_str` makes of a text under
/// the pattern `%d.%m.%Y %H:%M`: year, month, day, hour and minute of
/// what it read, or the words in which it refuses the text.
pub uninterp spec fn parsed_day_minute(text: Seq<char>) -> Result<
    (i32, u32, u32, u32, u32),
    Seq<char>,
>;

/// What was parsed, the words of a refusal taken as characters.
pub open spec fn parsed_view(parsed: Result<(i32, u32, u32, u32, u32), String>) -> Result<
    (i32, u32, u32, u32, u32),
    Seq<char>,
> {
    match parsed {
        Ok(fields) => Ok(fields),
        Err(reason) => Err(reason@),
    }
}

/// Why a text is refused whose numbers were read but name no timestamp
/// that this library holds.
pub const OUT_OF_RANGE: &'static str = "input is out of range";

/// The five numbers that a `DD.MM.YYYY HH:MM` text writes, in the order
/// year, month, day, hour, minute.
pub open spec fn day_minute_fields(s: Seq<char>) -> (i32, u32, u32, u32, u32) {
    (
        read_four(s, 6) as i32,
        read_two(s, 3) as u32,
        read_two(s, 0) as u32,
        read_two(s, 11) as u32,
        read_two(s, 14) as u32,
    )
}

/// Calls `chrono::NaiveDateTime::parse_from_str` with the pattern
/// `%d.%m.%Y %H:%M`. It takes the fields out of what that returns, or
/// the words of its refusal as `Display` writes them. Nothing is proved
/// of chrono. Believed of it: the result depends on the text alone; and
/// a text of exactly the shape `DD.MM.YYYY HH:MM` is read as the numbers
/// it writes where they name an existing day and minute, and refused
/// where they do not. What chrono makes of a text of any other shape (it
/// takes a single digit for a day, and blanks before a number), and in
/// which words it refuses one, is left to it.
#[verifier::external_body]
fn parse_day_minute(text: &str) -> (r: Result<(i32, u32, u32, u32, u32), String>)
    ensures
        parsed_view(r) == parsed_day_minute(text@),
        is_day_minute_text(text@) ==> r is Ok && r.unwrap() == day_minute_fields(text@),
        has_day_minute_shape(text@) && !is_day_minute_text(text@) ==> r is Err,
{
    match chrono::NaiveDateTime::parse_from_str(text, "%d.%m.%Y %H:%M") {
        Ok(t) => Ok((t.year(), t.month(), t.day(), t.hour(), t.minute())),
        Err(e) => Err(e.to_string()),
    }
}

/// The timestamp of what was parsed: on the minute, and only where five
/// numbers were read that name an existing day, in a year that four
/// digits write, and an existing minute.
pub open spec fn timestamp_of(parsed: Result<(i32, u32, u32, u32, u32), Seq<char>>) -> Option<
    Timestamp,
> {
    match parsed {
        Ok((year, month, day, hour, minute)) => if valid_date(
            year as int,
            month as int,
            day as int,
        ) && valid_minute(hour as int, minute as int) {
            Some(
                Timestamp {
                    date: Date { year: year as u16, month: month as u8, day: day as u8 },
                    hour: hour as u8,
                    minute: minute as u8,
                    second: 0,
                    nanosecond: 0,
                },
            )
        } else {
            None
        },
        Err(_) => None,
    }
}

/// Why what was parsed gives no timestamp: in the parser's words where
/// it refused the text, and as out of range where it read numbers.
pub open spec fn refusal_of(parsed: Result<(i32, u32, u32, u32, u32), Seq<char>>) -> Seq<char> {
    match parsed {
        Ok(_) => OUT_OF_RANGE@,
        Err(reason) => reason,
    }
}

/// Whether `r` is the outcome of decoding `text`, given what was parsed
/// out of it: the timestamp, or the failure that carries the reason and
/// the text.
pub open spec fn timestamp_decoded(
    parsed: Result<(i32, u32, u32, u32, u32), Seq<char>>,
    text: Seq<char>,
    r: Result<Timestamp, DiaryError>,
) -> bool {
    match timestamp_of(parsed) {
        Some(t) => r == Ok::<Timestamp, DiaryError>(t),
        None => r matches Err(DiaryError::Decode(DecodeFault::BadTimestamp { reason, text: t }))
            && reason@ == refusal_of(parsed) && t@ == text,
    }
}

/// The timestamp of what was parsed, or the failure that carries the
/// reason and the text that was handed to the parser.
pub fn timestamp_from_parsed(parsed: Result<(i32, u32, u32, u32, u32), String>, text: &str) -> (r:
    Result<Timestamp, DiaryError>)
    ensures
        timestamp_decoded(parsed_view(parsed), text@, r),
        r is Ok ==> r.unwrap().wf() && r.unwrap().on_the_minute(),
{
    let reason = match parsed {
        Ok((year, month, day, hour, minute)) => {
            if let Some(date) = Date::new(year, month, day) {
                if let Some(t) = Timestamp::new(date, hour, minute, 0, 0) {
                    return Ok(t);
                }
            }
            String::from_str(OUT_OF_RANGE)
        },
        Err(reason) => reason,
    };
    Err(DiaryError::Decode(DecodeFault::BadTimestamp { reason, text: String::from_str(text) }))
}

/// The numbers that a `DD.MM.YYYY HH:MM` text writes make the timestamp
/// that the text writes, and that timestamp is written as the text again.
pub proof fn lemma_day_minute_fields_decode(s: Seq<char>)
    requires
        is_day_minute_text(s),
    ensures
        timestamp_of(Ok(day_minute_fields(s))) == Some(read_day_minute(s)),
        read_day_minute(s).day_minute_text() == s,
{
    lemma_day_minute_text_round_trip(s);
}

/// Decodes a timestamp that a homework record writes as
/// `DD.MM.YYYY HH:MM`.
///
/// A text of exactly that shape decodes to the timestamp it writes where
/// that names an existing day and minute, and writing that timestamp
/// again gives the text back; where it names none, decoding fails. A
/// text of any other shape is the parser's to judge, and what it accepts
/// is still turned down here, as out of range, unless it is an existing
/// day and minute in a year that four digits write. A failure carries
/// the reason and the text.
pub fn deserialize_datetime(text: &str) -> (r: Result<Timestamp, DiaryError>)
    ensures
        timestamp_decoded(parsed_day_minute(text@), text@, r),
        r is Ok ==> r.unwrap().wf() && r.unwrap().on_the_minute(),
        is_day_minute_text(text@) ==> r == Ok::<Timestamp, DiaryError>(read_day_minute(text@))
            && r.unwrap().day_minute_text() == text@,
        has_day_minute_shape(text@) && !is_day_minute_text(text@) ==> r is Err,
{
    let parsed = parse_day_minute(text);
    proof {
        if is_day_minute_text(text@) {
            lemma_day_minute_fields_decode(text@);
        }
    }
    timestamp_from_parsed(parsed, text)
}

/// Decodes a timestamp that may be absent: nothing stays nothing, and a
/// text is decoded as `deserialize_datetime` does.
pub fn deserialize_opt_datetime(text: Option<&str>) -> (r: Result<Option<Timestamp>, DiaryError>)
    ensures
        match text {
            None => r == Ok::<Option<Timestamp>, DiaryError>(None),
            Some(s) => match decoded_timestamp(s@) {
                Some(t) => r == Ok::<Option<Timestamp>, DiaryError>(Some(t)),
                None => r matches Err(e) && is_bad_timestamp(e, s@),
            },
        },
        text is Some && is_day_minute_text(text.unwrap()@) ==> r == Ok::<
            Option<Timestamp>,
            DiaryError,
        >(Some(read_day_minute(text.unwrap()@))),
{
    match text {
        None => Ok(None),
        Some(s) => match deserialize_datetime(s) {
            Ok(t) => Ok(Some(t)),
            Err(e) => Err(e),
        },
    }
}

/// A homework attachment as it arrives, its timestamp still a text.
#[derive(Clone, Debug, PartialEq, Eq)]
pub struct RawHomeworkAttachment {
    pub id: u64,
    pub created_at: String,
    pub file_name: String,
    pub file_size: u64,
    pub content_type: String,
    pub relative_path: String,
}

/// A homework entry as it arrives, its timestamps still texts.
#[derive(Clone, Debug, PartialEq, Eq)]
pub struct RawHomeworkEntry {
    pub id: u64,
    pub created_at: String,
    pub updated_at: String,
    pub deleted_at: Option<String>,
    pub description: String,
    pub expected_duration: u32,
    pub attachments: Vec<RawHomeworkAttachment>,
    pub subject: HomeworkSubject,
}

/// A homework as it arrives.
#[derive(Clone, Debug, PartialEq, Eq)]
pub struct RawStudentHomework {
    pub id: u64,
    pub student_id: u64,
    pub is_ready: bool,
    pub homework_entry: RawHomeworkEntry,
}

/// The timestamp that a text decodes to, if it decodes.
pub open spec fn decoded_timestamp(text: Seq<char>) -> Option<Timestamp> {
    timestamp_of(parsed_day_minute(text))
}

/// Whether `e` is the failure of decoding `text` as a timestamp: it
/// carries the reason of the refusal and the text.
pub open spec fn is_bad_timestamp(e: DiaryError, text: Seq<char>) -> bool {
    e matches DiaryError::Decode(DecodeFault::BadTimestamp { reason, text: t }) && reason@
        == refusal_of(parsed_day_minute(text)) && t@ == text
}

/// The attachment that `raw` holds, with `created_at` decoded.
pub open spec fn attachment_of(raw: RawHomeworkAttachment, created_at: Timestamp)
    -> HomeworkAttachment {
    HomeworkAttachment {
        id: raw.id,
        created_at,
        file_name: raw.file_name,
        file_size: raw.file_size,
        content_type: raw.content_type,
        relative_path: raw.relative_path,
    }
}

/// Whether `r` is the outcome of decoding `raw`: the attachment with its
/// timestamp decoded, or the failure of that timestamp.
pub open spec fn attachment_decoded(
    raw: RawHomeworkAttachment,
    r: Result<HomeworkAttachment, DiaryError>,
) -> bool {
    match decoded_timestamp(raw.created_at@) {
        Some(created_at) => r == Ok::<HomeworkAttachment, DiaryError>(
            attachment_of(raw, created_at),
        ),
        None => r matches Err(e) && is_bad_timestamp(e, raw.created_at@),
    }
}

/// Whether `r` is the outcome of decoding the attachments of an entry
/// in their order: all of them decoded, or the failure of the first
/// that does not decode.
pub open spec fn attachments_decoded(
    raw: Seq<RawHomeworkAttachment>,
    r: Result<Vec<HomeworkAttachment>, DiaryError>,
) -> bool {
    match r {
        Ok(attachments) => {
            &&& attachments@.len() == raw.len()
            &&& forall|i: int|
                0 <= i < raw.len() ==> attachment_decoded(#[trigger] raw[i], Ok(attachments@[i]))
        },
        Err(e) => exists|k: int|
            {
                &&& 0 <= k < raw.len()
                &&& attachment_decoded(#[trigger] raw[k], Err(e))
                &&& forall|i: int|
                    0 <= i < k ==> decoded_timestamp((#[trigger] raw[i]).created_at@) is Some
            },
    }
}

/// Whether `r` is the outcome of decoding `raw`. The timestamps are
/// decoded in the order created, updated, deleted, then those of the
/// attachments in their order; the first that does not decode is the
/// failure. An entry that was not deleted stays so. Everything else is
/// kept as it came.
pub open spec fn entry_decoded(raw: RawHomeworkEntry, r: Result<HomeworkEntry, DiaryError>)
    -> bool {
    if decoded_timestamp(raw.created_at@) is None {
        r matches Err(e) && is_bad_timestamp(e, raw.created_at@)
    } else if decoded_timestamp(raw.updated_at@) is None {
        r matches Err(e) && is_bad_timestamp(e, raw.updated_at@)
    } else if raw.deleted_at matches Some(text) && decoded_timestamp(text@) is None {
        r matches Err(e) && is_bad_timestamp(e, raw.deleted_at.unwrap()@)
    } else {
        match r {
            Ok(entry) => {
                &&& entry.fields_of().0 == raw.id
                &&& Some(entry.fields_of().1) == decoded_timestamp(raw.created_at@)
                &&& Some(entry.fields_of().2) == decoded_timestamp(raw.updated_at@)
                &&& match raw.deleted_at {
                    Some(text) => entry.fields_of().3 == decoded_timestamp(text@),
                    None => entry.fields_of().3 is None,
                }
                &&& entry.fields_of().4 == raw.description
                &&& entry.fields_of().5 == raw.expected_duration
                &&& attachments_decoded(raw.attachments@, Ok(entry.fields_of().6))
                &&& entry.subject_of() == raw.subject
            },
            Err(e) => attachments_decoded(raw.attachments@, Err(e)),
        }
    }
}

/// Whether every timestamp of `raw` decodes.
pub open spec fn entry_decodes(raw: RawHomeworkEntry) -> bool {
    &&& decoded_timestamp(raw.created_at@) is Some
    &&& decoded_timestamp(raw.updated_at@) is Some
    &&& raw.deleted_at matches Some(text) ==> decoded_timestamp(text@) is Some
    &&& forall|i: int|
        0 <= i < raw.attachments@.len() ==> decoded_timestamp(
            (#[trigger] raw.attachments@[i]).created_at@,
        ) is Some
}

/// Whether `at` is what `text` writes, where `text` is an exact
/// `DD.MM.YYYY HH:MM` text of an existing minute. Of any other text
/// nothing is asked.
pub open spec fn reads_exactly(text: Seq<char>, at: Timestamp) -> bool {
    is_day_minute_text(text) ==> at == read_day_minute(text)
}

/// Whether every one of `raw` carries an exact `DD.MM.YYYY HH:MM` text
/// of an existing minute.
pub open spec fn attachments_are_exact(raw: Seq<RawHomeworkAttachment>) -> bool {
    forall|i: int| 0 <= i < raw.len() ==> is_day_minute_text((#[trigger] raw[i]).created_at@)
}

/// Whether each of `attachments` holds what the text of its raw form
/// writes, where that text is exact.
pub open spec fn attachments_read_exactly(
    raw: Seq<RawHomeworkAttachment>,
    attachments: Seq<HomeworkAttachment>,
) -> bool {
    &&& attachments.len() == raw.len()
    &&& forall|i: int|
        0 <= i < raw.len() ==> reads_exactly(
            (#[trigger] raw[i]).created_at@,
            attachments[i].created_at,
        )
}

/// Whether every timestamp of `raw` is an exact `DD.MM.YYYY HH:MM` text
/// of an existing minute.
pub open spec fn entry_is_exact(raw: RawHomeworkEntry) -> bool {
    &&& is_day_minute_text(raw.created_at@)
    &&& is_day_minute_text(raw.updated_at@)
    &&& raw.deleted_at matches Some(text) ==> is_day_minute_text(text@)
    &&& attachments_are_exact(raw.attachments@)
}

/// Whether `entry` holds what the texts of `raw` write, for each text
/// that is exact.
pub open spec fn entry_reads_exactly(raw: RawHomeworkEntry, entry: HomeworkEntry) -> bool {
    &&& reads_exactly(raw.created_at@, entry.fields_of().1)
    &&& reads_exactly(raw.updated_at@, entry.fields_of().2)
    &&& raw.deleted_at matches Some(text) ==> (entry.fields_of().3 matches Some(at)
        && reads_exactly(text@, at))
    &&& attachments_read_exactly(raw.attachments@, entry.fields_of().6@)
}

impl HomeworkAttachment {
    /// The attachment that `raw` holds, with its timestamp decoded.
    /// An exact `DD.MM.YYYY HH:MM` text of an existing minute always
    /// decodes, to what it writes; a text of that shape that names no
    /// existing minute never does.
    pub fn decode(raw: RawHomeworkAttachment) -> (r: Result<HomeworkAttachment, DiaryError>)
        ensures
            attachment_decoded(raw, r),
            is_day_minute_text(raw.created_at@) ==> r == Ok::<HomeworkAttachment, DiaryError>(
                attachment_of(raw, read_day_minute(raw.created_at@)),
            ),
            has_day_minute_shape(raw.created_at@) && !is_day_minute_text(raw.created_at@) ==> r
                is Err,
    {
        match deserialize_datetime(raw.created_at.as_str()) {
            Ok(created_at) => Ok(
                HomeworkAttachment {
                    id: raw.id,
                    created_at,
                    file_name: raw.file_name,
                    file_size: raw.file_size,
                    content_type: raw.content_type,
                    relative_path: raw.relative_path,
                },
            ),
            Err(e) => Err(e),
        }
    }

    /// The attachments that `raw` holds, each with its timestamp decoded.
    pub fn decode_all(raw: Vec<RawHomeworkAttachment>) -> (r: Result<
        Vec<HomeworkAttachment>,
        DiaryError,
    >)
        ensures
            attachments_decoded(raw@, r),
            r is Ok <==> forall|i: int|
                0 <= i < raw@.len() ==> decoded_timestamp((#[trigger] raw@[i]).created_at@) is Some,
            attachments_are_exact(raw@) ==> r is Ok,
            r matches Ok(attachments) ==> attachments_read_exactly(raw@, attachments@),
    {
        let ghost raws = raw@;
        let mut attachments: Vec<HomeworkAttachment> = Vec::new();
        for one in it: raw.into_iter()
            invariant
                it.seq() == raws,
                attachments@.len() == it.index(),
                forall|i: int|
                    0 <= i < it.index() ==> attachment_decoded(
                        #[trigger] raws[i],
                        Ok(attachments@[i]),
                    ),
                forall|i: int|
                    0 <= i < it.index() ==> reads_exactly(
                        (#[trigger] raws[i]).created_at@,
                        attachments@[i].created_at,
                    ),
        {
            let ghost k = it.index();
            match HomeworkAttachment::decode(one) {
                Ok(attachment) => {
                    attachments.push(attachment);
                },
                Err(e) => {
                    proof {
                        assert(attachment_decoded(raws[k], Err(e)));
                        assert(!is_day_minute_text(raws[k].created_at@));
                        assert forall|i: int| 0 <= i < k implies decoded_timestamp(
                            (#[trigger] raws[i]).created_at@,
                        ) is Some by {
                            assert(attachment_decoded(raws[i], Ok(attachments@[i])));
                        }
                    }
                    return Err(e);
                },
            }
        }
        proof {
            assert forall|i: int| 0 <= i < raws.len() implies decoded_timestamp(
                (#[trigger] raws[i]).created_at@,
            ) is Some by {
                assert(attachment_decoded(raws[i], Ok(attachments@[i])));
            }
        }
        Ok(attachments)
    }
}

impl HomeworkEntry {
    /// The entry that `raw` holds, with its timestamps decoded. It fails
    /// with the first timestamp that does not decode, and only then.
    /// Where every timestamp is an exact `DD.MM.YYYY HH:MM` text of an
    /// existing minute, the entry decodes, and holds what they write.
    pub fn decode(raw: RawHomeworkEntry) -> (r: Result<HomeworkEntry, DiaryError>)
        ensures
            entry_decoded(raw, r),
            r is Ok <==> entry_decodes(raw),
            entry_is_exact(raw) ==> r is Ok,
            r matches Ok(entry) ==> entry_reads_exactly(raw, entry),
    {
        let created_at = match deserialize_datetime(raw.created_at.as_str()) {
            Ok(at) => at,
            Err(e) => {
                return Err(e);
            },
        };
        let updated_at = match deserialize_datetime(raw.updated_at.as_str()) {
            Ok(at) => at,
            Err(e) => {
                return Err(e);
            },
        };
        let deleted_text: Option<&str> = match &raw.deleted_at {
            Some(text) => Some(text.as_str()),
            None => None,
        };
        let deleted_at = match deserialize_opt_datetime(deleted_text) {
            Ok(at) => at,
            Err(e) => {
                return Err(e);
            },
        };
        match HomeworkAttachment::decode_all(raw.attachments) {
            Ok(attachments) => Ok(
                HomeworkEntry::new(
                    raw.id,
                    created_at,
                    updated_at,
                    deleted_at,
                    raw.description,
                    raw.expected_duration,
                    attachments,
                    raw.subject,
                ),
            ),
            Err(e) => Err(e),
        }
    }
}

/// Whether `r` is the outcome of decoding `raw`: the homework with its
/// entry decoded and everything else as it came, or the failure of the
/// entry.
pub open spec fn homework_decoded(raw: RawStudentHomework, r: Result<StudentHomework, DiaryError>)
    -> bool {
    match r {
        Ok(homework) => {
            &&& homework.id == raw.id
            &&& homework.student_id == raw.student_id
            &&& homework.is_ready == raw.is_ready
            &&& entry_decoded(raw.homework_entry, Ok(homework.homework_entry))
        },
        Err(e) => entry_decoded(raw.homework_entry, Err(e)),
    }
}

/// Whether `r` is the outcome of decoding a list of homework in the
/// order of its arrival: every one decoded, in that order, or the
/// failure of the first that does not decode.
pub open spec fn homeworks_decoded(
    raw: Seq<RawStudentHomework>,
    r: Result<Vec<StudentHomework>, DiaryError>,
) -> bool {
    match r {
        Ok(homeworks) => {
            &&& homeworks@.len() == raw.len()
            &&& forall|i: int|
                0 <= i < raw.len() ==> homework_decoded(#[trigger] raw[i], Ok(homeworks@[i]))
        },
        Err(e) => exists|k: int|
            {
                &&& 0 <= k < raw.len()
                &&& homework_decoded(#[trigger] raw[k], Err(e))
                &&& !entry_decodes(raw[k].homework_entry)
                &&& forall|i: int|
                    0 <= i < k ==> entry_decodes((#[trigger] raw[i]).homework_entry)
            },
    }
}

/// Whether every timestamp of every homework of `raw` is an exact
/// `DD.MM.YYYY HH:MM` text of an existing minute.
pub open spec fn homeworks_are_exact(raw: Seq<RawStudentHomework>) -> bool {
    forall|i: int| 0 <= i < raw.len() ==> entry_is_exact((#[trigger] raw[i]).homework_entry)
}

/// Whether each of `homeworks` holds what the texts of its raw form
/// write, for each text that is exact.
pub open spec fn homeworks_read_exactly(
    raw: Seq<RawStudentHomework>,
    homeworks: Seq<StudentHomework>,
) -> bool {
    &&& homeworks.len() == raw.len()
    &&& forall|i: int|
        0 <= i < raw.len() ==> entry_reads_exactly(
            (#[trigger] raw[i]).homework_entry,
            homeworks[i].homework_entry,
        )
}

impl StudentHomework {
    /// The homework that `raw` holds, with its entry decoded. It fails as
    /// the entry does.
    pub fn decode(raw: RawStudentHomework) -> (r: Result<StudentHomework, DiaryError>)
        ensures
            homework_decoded(raw, r),
            r is Ok <==> entry_decodes(raw.homework_entry),
            entry_is_exact(raw.homework_entry) ==> r is Ok,
            r matches Ok(homework) ==> entry_reads_exactly(
                raw.homework_entry,
                homework.homework_entry,
            ),
    {
        match HomeworkEntry::decode(raw.homework_entry) {
            Ok(homework_entry) => Ok(
                StudentHomework {
                    id: raw.id,
                    student_id: raw.student_id,
                    is_ready: raw.is_ready,
                    homework_entry,
                },
            ),
            Err(e) => Err(e),
        }
    }

    /// The list of homework that `raw` holds, each decoded, in the order
    /// of arrival. The whole list fails with the first timestamp that
    /// does not decode, and only then. Where every timestamp is an exact
    /// `DD.MM.YYYY HH:MM` text of an existing minute, the list decodes,
    /// and holds what they write.
    pub fn decode_all(raw: Vec<RawStudentHomework>) -> (r: Result<
        Vec<StudentHomework>,
        DiaryError,
    >)
        ensures
            homeworks_decoded(raw@, r),
            r is Ok <==> forall|i: int|
                0 <= i < raw@.len() ==> entry_decodes((#[trigger] raw@[i]).homework_entry),
            homeworks_are_exact(raw@) ==> r is Ok,
            r matches Ok(homeworks) ==> homeworks_read_exactly(raw@, homeworks@),
    {
        let ghost raws = raw@;
        let mut homeworks: Vec<StudentHomework> = Vec::new();
        for one in it: raw.into_iter()
            invariant
                it.seq() == raws,
                homeworks@.len() == it.index(),
                forall|i: int|
                    0 <= i < it.index() ==> homework_decoded(#[trigger] raws[i], Ok(homeworks@[i])),
                forall|i: int|
                    0 <= i < it.index() ==> entry_decodes((#[trigger] raws[i]).homework_entry),
                forall|i: int|
                    0 <= i < it.index() ==> entry_reads_exactly(
                        (#[trigger] raws[i]).homework_entry,
                        homeworks@[i].homework_entry,
                    ),
        {
            let ghost k = it.index();
            match StudentHomework::decode(one) {
                Ok(homework) => {
                    homeworks.push(homework);
                },
                Err(e) => {
                    proof {
                        assert(homework_decoded(raws[k], Err(e)));
                        assert(!entry_decodes(raws[k].homework_entry));
                        assert(!entry_is_exact(raws[k].homework_entry));
                    }
                    return Err(e);
                },
            }
        }
        Ok(homeworks)
    }
}

} // verus!
