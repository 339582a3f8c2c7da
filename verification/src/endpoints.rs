//! The addresses of the service: one host, a few API groups below it, and
//! one resource per operation.

use crate::digits::{decimal_text, push_decimal};
use vstd::prelude::*;

verus! {

/// The host of the service.
pub const GLOBAL_DMR_URL: &'static str = "https://dnevnik.mos.ru";

/// The API groups below the host.
pub const CORE_API: &'static str = "/core/api";

pub const MOBILE_API: &'static str = "/mobile/api";

pub const LMS_API: &'static str = "/lms/api";

pub const JERSEY_API: &'static str = "/jersey/api";

pub const REPORTS_API: &'static str = "/jersey/api";

/// The address of a resource: the host, the API group, the resource.
pub open spec fn endpoint_text(group: Seq<char>, resource: Seq<char>) -> Seq<char> {
    GLOBAL_DMR_URL@ + group + resource
}

/// The address of the schedule item of one lesson.
pub open spec fn lesson_schedule_item_text(lesson_id: u64) -> Seq<char> {
    endpoint_text(MOBILE_API@, "/lesson_schedule_items/"@) + decimal_text(lesson_id as nat)
}

/// The address of an attachment: its path, appended to the host.
pub open spec fn attachment_text(relative_path: Seq<char>) -> Seq<char> {
    GLOBAL_DMR_URL@ + relative_path
}

/// The address of `resource` in `group`.
fn endpoint(group: &str, resource: &str) -> (r: String)
    ensures
        r@ == endpoint_text(group@, resource@),
{
    let mut url = String::from_str(GLOBAL_DMR_URL);
    url.append(group);
    url.append(resource);
    url
}

/// The address of the profile.
pub fn profile_endpoint() -> (r: String)
    ensures
        r@ == endpoint_text(MOBILE_API@, "/profile"@),
{
    endpoint(MOBILE_API, "/profile")
}

/// The address of the sessions.
pub fn sessions_endpoint() -> (r: String)
    ensures
        r@ == endpoint_text(LMS_API@, "/sessions"@),
{
    endpoint(LMS_API, "/sessions")
}

/// The address of the academic years.
pub fn academic_years_endpoint() -> (r: String)
    ensures
        r@ == endpoint_text(CORE_API@, "/academic_years"@),
{
    endpoint(CORE_API, "/academic_years")
}

/// The address of the schedule.
pub fn schedule_endpoint() -> (r: String)
    ensures
        r@ == endpoint_text(MOBILE_API@, "/schedule"@),
{
    endpoint(MOBILE_API, "/schedule")
}

/// The address of the final marks.
pub fn final_marks_prev_year_endpoint() -> (r: String)
    ensures
        r@ == endpoint_text(CORE_API@, "/final_marks_prev_year"@),
{
    endpoint(CORE_API, "/final_marks_prev_year")
}

/// The address of the lesson plans.
pub fn lesson_plans_endpoint() -> (r: String)
    ensures
        r@ == endpoint_text(JERSEY_API@, "/lesson_plans"@),
{
    endpoint(JERSEY_API, "/lesson_plans")
}

/// The address of the student's homework.
pub fn student_homeworks_endpoint() -> (r: String)
    ensures
        r@ == endpoint_text(CORE_API@, "/student_homeworks"@),
{
    endpoint(CORE_API, "/student_homeworks")
}

/// The address of the progress report.
pub fn progress_endpoint() -> (r: String)
    ensures
        r@ == endpoint_text(REPORTS_API@, "/progress/json"@),
{
    endpoint(REPORTS_API, "/progress/json")
}

/// The address of the visits.
pub fn visits_endpoint() -> (r: String)
    ensures
        r@ == endpoint_text(MOBILE_API@, "/visits"@),
{
    endpoint(MOBILE_API, "/visits")
}

/// The address of the schedule item of the lesson `lesson_id`: the one
/// address that is made per call, with the id written into its path.
pub fn lesson_schedule_item_endpoint(lesson_id: u64) -> (r: String)
    ensures
        r@ == lesson_schedule_item_text(lesson_id),
{
    let mut url = endpoint(MOBILE_API, "/lesson_schedule_items/");
    push_decimal(&mut url, lesson_id);
    url
}

/// The address of the attachment at `relative_path`.
pub fn attachment_url(relative_path: &str) -> (r: String)
    ensures
        r@ == attachment_text(relative_path@),
{
    let mut url = String::from_str(GLOBAL_DMR_URL);
    url.append(relative_path);
    url
}

} // verus!
