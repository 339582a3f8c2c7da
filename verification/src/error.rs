//! The ways in which an operation of the diary can fail.

use crate::digits::{decimal_text, push_decimal};
use vstd::prelude::*;

verus! {

/// A field of a schedule activity as the service sends it.
#[derive(Clone, Copy, Debug, PartialEq, Eq, Structural)]
pub enum ActivityField {
    Info,
    BeginUtc,
    EndUtc,
    BeginTime,
    EndTime,
    RoomNumber,
    RoomName,
    BuildingName,
    Lesson,
    Duration,
}

/// What was wrong with a response that could not be decoded.
#[derive(Clone, Debug, PartialEq, Eq)]
pub enum DecodeFault {
    /// The body is not the JSON that the endpoint promises; the text says
    /// what the decoder found.
    Malformed(String),
    /// A schedule activity carries a tag other than `LESSON` and `BREAK`;
    /// the text is the tag.
    UnknownActivity(String),
    /// A schedule activity lacks a field that its tag calls for.
    MissingField(ActivityField),
    /// A text that should be a `DD.MM.YYYY HH:MM` timestamp is none:
    /// why it was refused, and what was sent.
    BadTimestamp { reason: String, text: String },
    /// A profile came without the details of a student.
    NoDetails,
}

/// What an operation needed and the diary did not have.
#[derive(Clone, Debug, PartialEq, Eq)]
pub enum Prerequisite {
    /// The student's profile has no contract id.
    ContractId,
    /// The lesson's schedule item names no plan; the text is the lesson's
    /// subject.
    PlanId(String),
}

/// Why an operation of the diary failed. Every failure ends the call that
/// met it.
#[derive(Clone, Debug, PartialEq, Eq)]
pub enum DiaryError {
    /// The request did not go through, or the service answered with a
    /// status other than success; the text says what the transport found.
    Transport(String),
    /// The response was not of the promised shape.
    Decode(DecodeFault),
    /// The operation needs something that is absent; no request was made
    /// for it.
    MissingPrerequisite(Prerequisite),
    /// A list that should hold one element came back empty.
    EmptyResult,
    /// A download ended with fewer bytes than the attachment declares.
    SizeMismatch { copied: u64, declared: u64 },
}

impl ActivityField {
    /// The name of this field on the wire.
    pub open spec fn wire_text(self) -> Seq<char> {
        match self {
            ActivityField::Info => "info"@,
            ActivityField::BeginUtc => "begin_utc"@,
            ActivityField::EndUtc => "end_utc"@,
            ActivityField::BeginTime => "begin_time"@,
            ActivityField::EndTime => "end_time"@,
            ActivityField::RoomNumber => "room_number"@,
            ActivityField::RoomName => "room_name"@,
            ActivityField::BuildingName => "building_name"@,
            ActivityField::Lesson => "lesson"@,
            ActivityField::Duration => "duration"@,
        }
    }

    /// The name of this field on the wire.
    pub fn wire_name(&self) -> (r: &'static str)
        ensures
            r@ == self.wire_text(),
    {
        match self {
            ActivityField::Info => "info",
            ActivityField::BeginUtc => "begin_utc",
            ActivityField::EndUtc => "end_utc",
            ActivityField::BeginTime => "begin_time",
            ActivityField::EndTime => "end_time",
            ActivityField::RoomNumber => "room_number",
            ActivityField::RoomName => "room_name",
            ActivityField::BuildingName => "building_name",
            ActivityField::Lesson => "lesson",
            ActivityField::Duration => "duration",
        }
    }
}

impl DiaryError {
    /// What this failure says to a reader.
    pub open spec fn message_text(self) -> Seq<char> {
        match self {
            DiaryError::Transport(what) => "Request failed: "@ + what@,
            DiaryError::Decode(DecodeFault::Malformed(what)) => "Could not decode the response: "@
                + what@,
            DiaryError::Decode(DecodeFault::UnknownActivity(tag)) => "Unknown activity type `"@
                + tag@ + "`!"@,
            DiaryError::Decode(DecodeFault::MissingField(field)) => "Missing field `"@
                + field.wire_text() + "`!"@,
            DiaryError::Decode(DecodeFault::BadTimestamp { reason, text }) => "Parse error "@
                + reason@ + " for "@ + text@,
            DiaryError::Decode(DecodeFault::NoDetails) =>
                "Provided student profile did not have details of a student!"@,
            DiaryError::MissingPrerequisite(Prerequisite::ContractId) =>
                "Provided student profile did not have `contract_id`!"@,
            DiaryError::MissingPrerequisite(Prerequisite::PlanId(subject)) =>
                "Could not get plan ID for the lesson "@ + subject@ + "!"@,
            DiaryError::EmptyResult => "Expected one element, got an empty list!"@,
            DiaryError::SizeMismatch { copied, declared } =>
                "Could not download file, size of file downloaded is less than size of file provided by the attachments ("@
                + decimal_text(copied as nat) + " < "@ + decimal_text(declared as nat) + ")"@,
        }
    }

    /// What this failure says to a reader.
    pub fn message(&self) -> (r: String)
        ensures
            r@ == self.message_text(),
    {
        match self {
            DiaryError::Transport(what) => joined("Request failed: ", what.as_str()),
            DiaryError::Decode(DecodeFault::Malformed(what)) => joined(
                "Could not decode the response: ",
                what.as_str(),
            ),
            DiaryError::Decode(DecodeFault::UnknownActivity(tag)) => framed(
                "Unknown activity type `",
                tag.as_str(),
                "`!",
            ),
            DiaryError::Decode(DecodeFault::MissingField(field)) => framed(
                "Missing field `",
                field.wire_name(),
                "`!",
            ),
            DiaryError::Decode(DecodeFault::BadTimestamp { reason, text }) => {
                let mut out = framed("Parse error ", reason.as_str(), " for ");
                out.append(text.as_str());
                out
            },
            DiaryError::Decode(DecodeFault::NoDetails) => String::from_str(
                "Provided student profile did not have details of a student!",
            ),
            DiaryError::MissingPrerequisite(Prerequisite::ContractId) => String::from_str(
                "Provided student profile did not have `contract_id`!",
            ),
            DiaryError::MissingPrerequisite(Prerequisite::PlanId(subject)) => framed(
                "Could not get plan ID for the lesson ",
                subject.as_str(),
                "!",
            ),
            DiaryError::EmptyResult => String::from_str("Expected one element, got an empty list!"),
            DiaryError::SizeMismatch { copied, declared } => {
                let mut out = String::from_str(
                    "Could not download file, size of file downloaded is less than size of file provided by the attachments (",
                );
                push_decimal(&mut out, *copied);
                out.append(" < ");
                push_decimal(&mut out, *declared);
                out.append(")");
                out
            },
        }
    }
}

/// `middle` between `before` and `after`.
fn framed(before: &str, middle: &str, after: &str) -> (r: String)
    ensures
        r@ == before@ + middle@ + after@,
{
    let mut out = String::from_str(before);
    out.append(middle);
    out.append(after);
    out
}

/// `after` behind `before`.
fn joined(before: &str, after: &str) -> (r: String)
    ensures
        r@ == before@ + after@,
{
    let mut out = String::from_str(before);
    out.append(after);
    out
}

} // verus!
