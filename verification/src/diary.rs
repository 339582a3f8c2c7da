//! The diary itself: one operation per resource of the service. Each
//! operation is a step without I/O. It gives the request to send, or takes
//! what came back and gives the value to hand on, and says by its result
//! when nothing is to be sent at all.

use crate::calendar::Date;
use crate::endpoints::{
    academic_years_endpoint, attachment_text, attachment_url, endpoint_text,
    final_marks_prev_year_endpoint, lesson_plans_endpoint, lesson_schedule_item_endpoint,
    lesson_schedule_item_text, profile_endpoint, progress_endpoint, schedule_endpoint,
    sessions_endpoint, student_homeworks_endpoint, visits_endpoint, CORE_API, JERSEY_API, LMS_API,
    MOBILE_API, REPORTS_API,
};
use crate::error::{DiaryError, Prerequisite};
use crate::model::attendance::{Payload, StudentAttendance};
use crate::model::hw::HomeworkAttachment;
use crate::model::lessons::{AcademicYear, LessonInstance, LessonPlan, LessonScheduleItem};
use crate::model::StudentProfile;
use crate::request::{
    bare_request, headers_view, push_header, ClientSettings, ClientSettingsView, Header, Method,
    QueryValue, QueryValueView, Request, RequestView, StudentAuth,
};
use vstd::prelude::*;

verus! {

/// Seconds that an ordinary request may take.
pub const REQUEST_TIMEOUT_SECS: u64 = 10;

/// Seconds that the download of an attachment may take.
pub const DOWNLOAD_TIMEOUT_SECS: u64 = 15;

/// A diary that is ready for use: the token was accepted and the
/// student's id is known.
#[derive(Clone, Debug, PartialEq, Eq)]
pub struct Diary {
    auth_token: String,
    pub profile: StudentProfile,
    student_id: u64,
}

/// What every request of a client with this token carries: who asks, from
/// where, and the token twice, since the service looks for it now in one
/// header and now in the other.
pub open spec fn client_settings_view(token: Seq<char>, version: Seq<char>) -> ClientSettingsView {
    ClientSettingsView {
        default_headers: seq![
            ("User-Agent"@, "Dnevnik-Mos-Rust/"@ + version),
            ("Referer"@, "https://dnevnik.mos.ru/diary/"@),
            ("Auth-Token"@, token),
            ("Authorization"@, token),
        ],
        timeout_secs: REQUEST_TIMEOUT_SECS,
    }
}

/// The request that opens a session: the token goes out as the body.
pub open spec fn session_request(token: Seq<char>) -> RequestView {
    RequestView {
        body: Some(token),
        ..bare_request(Method::Post, endpoint_text(LMS_API@, "/sessions"@))
    }
}

/// The request for the schedule of `date`: the student and the day, the
/// day as `YYYY-MM-DD`.
pub open spec fn schedule_request(student_id: u64, date: Date) -> RequestView {
    RequestView {
        query: seq![
            ("student_id"@, QueryValueView::Number(student_id)),
            ("date"@, QueryValueView::Text(date.iso_text())),
        ],
        ..bare_request(Method::Get, endpoint_text(MOBILE_API@, "/schedule"@))
    }
}

/// The request for the final marks of a year: the student, the year, the
/// fixed flag for yearly marks, and the header that declares a student.
pub open spec fn final_marks_request(student_id: u64, year_id: u16) -> RequestView {
    RequestView {
        query: seq![
            ("student_profile_id"@, QueryValueView::Number(student_id)),
            ("academic_year_id"@, QueryValueView::Number(year_id as u64)),
            ("is_year_mark"@, QueryValueView::Flag(true)),
        ],
        headers: seq![("Profile-Type"@, "student"@)],
        ..bare_request(Method::Get, endpoint_text(CORE_API@, "/final_marks_prev_year"@))
    }
}

/// The request for the schedule item of a lesson.
pub open spec fn lesson_schedule_item_request(student_id: u64, lesson_id: u64) -> RequestView {
    RequestView {
        query: seq![
            ("student_id"@, QueryValueView::Number(student_id)),
            ("type"@, QueryValueView::Text("OO"@)),
        ],
        ..bare_request(Method::Get, lesson_schedule_item_text(lesson_id))
    }
}

/// The request for the plan with the id `plan_id`, with its modules and
/// their topics, as JSON.
pub open spec fn lesson_plan_request(plan_id: u64) -> RequestView {
    RequestView {
        query: seq![
            ("plan_id"@, QueryValueView::Number(plan_id)),
            ("ignore_owner"@, QueryValueView::Flag(true)),
            ("with_modules"@, QueryValueView::Flag(true)),
            ("with_topics"@, QueryValueView::Flag(true)),
            ("status"@, QueryValueView::Text("for_calendar_plan"@)),
        ],
        headers: seq![("Accept"@, "application/json"@)],
        ..bare_request(Method::Get, endpoint_text(JERSEY_API@, "/lesson_plans"@))
    }
}

/// The request for the homework of a range of days: both ends as
/// `DD.MM.YYYY`, then the student.
pub open spec fn homework_request(student_id: u64, from: Date, to: Date) -> RequestView {
    RequestView {
        query: seq![
            ("begin_prepared_date"@, QueryValueView::Text(from.dmy_text())),
            ("end_prepared_date"@, QueryValueView::Text(to.dmy_text())),
            ("student_profile_id"@, QueryValueView::Number(student_id)),
        ],
        ..bare_request(Method::Get, endpoint_text(CORE_API@, "/student_homeworks"@))
    }
}

/// The request for the file at `relative_path`, with the time limit of a
/// download.
pub open spec fn download_request(relative_path: Seq<char>) -> RequestView {
    RequestView {
        timeout_secs: Some(DOWNLOAD_TIMEOUT_SECS),
        ..bare_request(Method::Get, attachment_text(relative_path))
    }
}

/// The request for the progress report of a year.
pub open spec fn progress_request(student_id: u64, year_id: u16) -> RequestView {
    RequestView {
        query: seq![
            ("academic_year_id"@, QueryValueView::Number(year_id as u64)),
            ("student_profile_id"@, QueryValueView::Number(student_id)),
        ],
        ..bare_request(Method::Get, endpoint_text(REPORTS_API@, "/progress/json"@))
    }
}

/// The request for the attendance of a range of days: both ends as
/// `YYYY-MM-DD`, then the contract id.
pub open spec fn visits_request(contract_id: u32, from: Date, to: Date) -> RequestView {
    RequestView {
        query: seq![
            ("from"@, QueryValueView::Text(from.iso_text())),
            ("to"@, QueryValueView::Text(to.iso_text())),
            ("contract_id"@, QueryValueView::Number(contract_id as u64)),
        ],
        ..bare_request(Method::Get, endpoint_text(MOBILE_API@, "/visits"@))
    }
}

/// The outcome of a download of `copied` bytes where `declared` were
/// promised: it fails exactly when fewer came; more than promised pass.
pub open spec fn download_outcome(copied: u64, declared: u64) -> Result<(), DiaryError> {
    if copied < declared {
        Err(DiaryError::SizeMismatch { copied, declared })
    } else {
        Ok(())
    }
}

impl Diary {
    /// The token that the diary was made with.
    pub closed spec fn token_of(self) -> String {
        self.auth_token
    }

    /// The profile that the diary was made with.
    pub closed spec fn profile_of(self) -> StudentProfile {
        self.profile
    }

    /// The id under which the service knows the student.
    pub closed spec fn student_id_of(self) -> u64 {
        self.student_id
    }

    /// Whether the diary holds a whole profile, and the id of its
    /// account as the student's id.
    pub open spec fn wf(self) -> bool {
        self.profile_of().wf() && self.student_id_of() == self.profile_of().account_of().id
    }

    /// What a client that speaks for `token` sets on every request.
    /// `version` is that of the program, which the user agent names.
    pub fn client_settings(token: &str, version: &str) -> (r: ClientSettings)
        ensures
            r@ == client_settings_view(token@, version@),
    {
        let mut agent = String::from_str("Dnevnik-Mos-Rust/");
        agent.append(version);
        let mut headers: Vec<Header> = Vec::new();
        assert(headers_view(headers@) =~= Seq::empty());
        push_header(&mut headers, "User-Agent", agent.as_str());
        push_header(&mut headers, "Referer", "https://dnevnik.mos.ru/diary/");
        push_header(&mut headers, "Auth-Token", token);
        push_header(&mut headers, "Authorization", token);
        let r = ClientSettings { default_headers: headers, timeout_secs: REQUEST_TIMEOUT_SECS };
        assert(r@.default_headers =~= client_settings_view(token@, version@).default_headers);
        r
    }

    /// The request for the profile of the token's owner, with which a
    /// diary begins.
    pub fn profile_request() -> (r: Request)
        ensures
            r@ == bare_request(Method::Get, endpoint_text(MOBILE_API@, "/profile"@)),
    {
        Request::get(profile_endpoint())
    }

    /// The diary of the student whose profile the service returned for
    /// `token`. The id of the profile's account is the student's id in
    /// every later request.
    pub fn new(token: String, profile: StudentProfile) -> (r: Diary)
        requires
            profile.wf(),
        ensures
            r.wf(),
            r.token_of() == token,
            r.profile_of() == profile,
            r.student_id_of() == profile.account_of().id,
    {
        let student_id = profile.account().id;
        Diary { auth_token: token, profile, student_id }
    }

    /// Whether the diary is as `new` made it: `profile` is a public field,
    /// and whoever changed it may have broken what the operations rely
    /// on.
    pub fn is_ready(&self) -> (r: bool)
        ensures
            r == self.wf(),
    {
        self.profile.has_details() && self.student_id == self.profile.account().id
    }

    /// The profile of the student.
    pub fn profile(&self) -> (r: &StudentProfile)
        ensures
            *r == self.profile_of(),
    {
        &self.profile
    }

    /// The id under which the service knows the student.
    pub fn student_id(&self) -> (r: u64)
        ensures
            r == self.student_id_of(),
    {
        self.student_id
    }

    /// The request for the session of the token's owner: the token goes
    /// out as the body.
    pub fn session(&self) -> (r: Request)
        ensures
            r@ == session_request(self.token_of()@),
    {
        Request::post(sessions_endpoint()).json(StudentAuth { auth_token: self.auth_token.clone() })
    }

    /// The request for the academic years.
    pub fn academic_years(&self) -> (r: Request)
        ensures
            r@ == bare_request(Method::Get, endpoint_text(CORE_API@, "/academic_years"@)),
    {
        Request::get(academic_years_endpoint())
    }

    /// The request for the schedule of one day.
    pub fn schedule(&self, date: Date) -> (r: Request)
        requires
            date.wf(),
        ensures
            r@ == schedule_request(self.student_id_of(), date),
    {
        let r = Request::get(schedule_endpoint()).query(
            "student_id",
            QueryValue::Number(self.student_id),
        ).query("date", QueryValue::Text(date.to_iso_string()));
        assert(r@.query =~= schedule_request(self.student_id_of(), date).query);
        r
    }

    /// The request for the final marks of `year`.
    pub fn final_marks(&self, year: &AcademicYear) -> (r: Request)
        ensures
            r@ == final_marks_request(self.student_id_of(), year.id),
    {
        self.final_marks_id(year.id)
    }

    /// The request for the final marks of the year with the id `year_id`.
    /// The header tells the service to judge access as for a student.
    pub fn final_marks_id(&self, year_id: u16) -> (r: Request)
        ensures
            r@ == final_marks_request(self.student_id_of(), year_id),
    {
        let r = Request::get(final_marks_prev_year_endpoint()).query(
            "student_profile_id",
            QueryValue::Number(self.student_id),
        ).query("academic_year_id", QueryValue::Number(year_id as u64)).query(
            "is_year_mark",
            QueryValue::Flag(true),
        ).header("Profile-Type", "student");
        assert(r@.query =~= final_marks_request(self.student_id_of(), year_id).query);
        assert(r@.headers =~= final_marks_request(self.student_id_of(), year_id).headers);
        r
    }

    /// The request for the schedule item of one lesson, which says
    /// whether the lesson has a plan.
    pub fn lesson_schedule_item(&self, lesson_id: u64) -> (r: Request)
        ensures
            r@ == lesson_schedule_item_request(self.student_id_of(), lesson_id),
    {
        let r = Request::get(lesson_schedule_item_endpoint(lesson_id)).query(
            "student_id",
            QueryValue::Number(self.student_id),
        ).query("type", QueryValue::Text(String::from_str("OO")));
        assert(r@.query =~= lesson_schedule_item_request(self.student_id_of(), lesson_id).query);
        r
    }

    /// The first step on the way to the plan of `lesson`: the request for
    /// its schedule item, which is kept under the lesson's schedule id.
    pub fn lesson_plan_lookup(&self, lesson: &LessonInstance) -> (r: Request)
        ensures
            r@ == lesson_schedule_item_request(self.student_id_of(), lesson.schedule_id),
    {
        self.lesson_schedule_item(lesson.schedule_id)
    }

    /// The second step on the way to the plan of `lesson`, once its
    /// schedule item is there: the request for the plan that the item
    /// names. Where the item names none, nothing is to be sent, and the
    /// failure names the lesson's subject.
    pub fn lesson_plan(&self, lesson: &LessonInstance, schedule_item: &LessonScheduleItem) -> (r:
        Result<Request, DiaryError>)
        ensures
            match schedule_item.plan_id {
                Some(plan_id) => r matches Ok(request) && request@ == lesson_plan_request(plan_id),
                None => r == Err::<Request, DiaryError>(
                    DiaryError::MissingPrerequisite(Prerequisite::PlanId(lesson.subject_name)),
                ),
            },
    {
        match schedule_item.plan_id {
            Some(plan_id) => Ok(self.lesson_plan_wid(plan_id)),
            None => Err(
                DiaryError::MissingPrerequisite(Prerequisite::PlanId(lesson.subject_name.clone())),
            ),
        }
    }

    /// The request for the plan with the id `plan_id`, with its modules
    /// and their topics.
    pub fn lesson_plan_wid(&self, plan_id: u64) -> (r: Request)
        ensures
            r@ == lesson_plan_request(plan_id),
    {
        let r = Request::get(lesson_plans_endpoint()).query(
            "plan_id",
            QueryValue::Number(plan_id),
        ).query("ignore_owner", QueryValue::Flag(true)).query(
            "with_modules",
            QueryValue::Flag(true),
        ).query("with_topics", QueryValue::Flag(true)).query(
            "status",
            QueryValue::Text(String::from_str("for_calendar_plan")),
        ).header("Accept", "application/json");
        assert(r@.query =~= lesson_plan_request(plan_id).query);
        assert(r@.headers =~= lesson_plan_request(plan_id).headers);
        r
    }

    /// The plan out of the list that the service returned for one plan
    /// id: the first. An empty list is a failure.
    pub fn first_lesson_plan(plans: Vec<LessonPlan>) -> (r: Result<LessonPlan, DiaryError>)
        ensures
            plans@.len() == 0 ==> r == Err::<LessonPlan, DiaryError>(DiaryError::EmptyResult),
            plans@.len() > 0 ==> r == Ok::<LessonPlan, DiaryError>(plans@[0]),
    {
        let mut plans = plans;
        if plans.len() == 0 {
            Err(DiaryError::EmptyResult)
        } else {
            Ok(plans.swap_remove(0))
        }
    }

    /// The request for the homework that is due from `from` to `to`. This
    /// endpoint wants its dates as `DD.MM.YYYY`.
    pub fn homework(&self, from: Date, to: Date) -> (r: Request)
        requires
            from.wf(),
            to.wf(),
        ensures
            r@ == homework_request(self.student_id_of(), from, to),
    {
        let r = Request::get(student_homeworks_endpoint()).query(
            "begin_prepared_date",
            QueryValue::Text(from.to_dmy_string()),
        ).query("end_prepared_date", QueryValue::Text(to.to_dmy_string())).query(
            "student_profile_id",
            QueryValue::Number(self.student_id),
        );
        assert(r@.query =~= homework_request(self.student_id_of(), from, to).query);
        r
    }

    /// The request for the contents of `attachment`, with the longer
    /// time limit of a download.
    pub fn download_attachment(&self, attachment: &HomeworkAttachment) -> (r: Request)
        ensures
            r@ == download_request(attachment.relative_path@),
    {
        Request::get(attachment_url(attachment.relative_path.as_str())).timeout(
            DOWNLOAD_TIMEOUT_SECS,
        )
    }

    /// Judges a finished download of `attachment` by the number of bytes
    /// that were written.
    pub fn check_download(copied: u64, attachment: &HomeworkAttachment) -> (r: Result<
        (),
        DiaryError,
    >)
        ensures
            r == download_outcome(copied, attachment.file_size),
    {
        if copied < attachment.file_size {
            Err(DiaryError::SizeMismatch { copied, declared: attachment.file_size })
        } else {
            Ok(())
        }
    }

    /// The request for the progress report of the last of `years`, which
    /// the service lists oldest first. Where it listed none, nothing is
    /// to be sent.
    pub fn progress(&self, years: &Vec<AcademicYear>) -> (r: Result<Request, DiaryError>)
        ensures
            years@.len() == 0 ==> r == Err::<Request, DiaryError>(DiaryError::EmptyResult),
            years@.len() > 0 ==> (r matches Ok(request) && request@ == progress_request(
                self.student_id_of(),
                years@.last().id,
            )),
    {
        if years.len() == 0 {
            return Err(DiaryError::EmptyResult);
        }
        let year: u16 = years[years.len() - 1].id;
        let r = Request::get(progress_endpoint()).query(
            "academic_year_id",
            QueryValue::Number(year as u64),
        ).query("student_profile_id", QueryValue::Number(self.student_id));
        assert(r@.query =~= progress_request(self.student_id_of(), year).query);
        Ok(r)
    }

    /// The contract id of the student, which the attendance is kept
    /// under. The details of some profiles carry none.
    pub fn contract_id(&self) -> (r: Result<u32, DiaryError>)
        requires
            self.wf(),
        ensures
            match self.profile_of().all_details()[0].contract_id {
                Some(contract_id) => r == Ok::<u32, DiaryError>(contract_id),
                None => r == Err::<u32, DiaryError>(
                    DiaryError::MissingPrerequisite(Prerequisite::ContractId),
                ),
            },
    {
        match self.profile.details().contract_id {
            Some(contract_id) => Ok(contract_id),
            None => Err(DiaryError::MissingPrerequisite(Prerequisite::ContractId)),
        }
    }

    /// The request for the student's attendance from `from` to `to`.
    /// Without a contract id in the student's details nothing is to be
    /// sent.
    pub fn visits(&self, from: Date, to: Date) -> (r: Result<Request, DiaryError>)
        requires
            self.wf(),
            from.wf(),
            to.wf(),
        ensures
            match self.profile_of().all_details()[0].contract_id {
                Some(contract_id) => r matches Ok(request) && request@ == visits_request(
                    contract_id,
                    from,
                    to,
                ),
                None => r == Err::<Request, DiaryError>(
                    DiaryError::MissingPrerequisite(Prerequisite::ContractId),
                ),
            },
    {
        match self.contract_id() {
            Ok(contract_id) => {
                let r = Request::get(visits_endpoint()).query(
                    "from",
                    QueryValue::Text(from.to_iso_string()),
                ).query("to", QueryValue::Text(to.to_iso_string())).query(
                    "contract_id",
                    QueryValue::Number(contract_id as u64),
                );
                assert(r@.query =~= visits_request(contract_id, from, to).query);
                Ok(r)
            },
            Err(e) => Err(e),
        }
    }

    /// The attendance out of the envelope in which the service sends it.
    pub fn visits_payload(data: Payload<Vec<StudentAttendance>>) -> (r: Vec<StudentAttendance>)
        ensures
            r == data.payload,
    {
        data.into_inner()
    }
}

} // verus!
