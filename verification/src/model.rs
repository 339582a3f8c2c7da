//! The records of the diary: profile, schedule, marks, homework, attendance
//! and lesson plans, as plain values.

pub mod attendance;
pub mod hw;
pub mod lessons;
pub mod marks;

use crate::calendar::Date;
use crate::error::{DecodeFault, DiaryError};
use vstd::prelude::*;

verus! {

/// A single-precision number held by its IEEE 754 bit pattern, so that a
/// record can carry it unchanged.
#[derive(Clone, Copy, Debug, PartialEq, Eq, Structural)]
pub struct FloatBits {
    pub bits: u32,
}

/// The person who is logged in, as the session service knows them.
#[derive(Clone, Debug, PartialEq, Eq)]
pub struct StudentSession {
    /// Unique ID of this student
    pub id: u64,
    /// UUID of this student's session, as a 128-bit number
    pub person_id: u128,
    /// Last name or surname of the account's owner
    pub last_name: String,
    /// First name of the account's owner
    pub first_name: String,
    /// Middle name or the patronymic of the account's owner
    pub middle_name: String,
    /// Date of birth of the account's owner
    pub date_of_birth: Option<Date>,
    /// Gender of the account's owner
    pub gender: Option<String>,
    /// Phone number of the account's owner, without the regional prefix
    pub phone_number: String,
    /// Email address of the account's owner
    pub email: String,
    /// Individual insurance account number (SNILS) of the owner
    pub snils: String,
}

/// The person who is logged in, as the profile service knows them.
#[derive(Clone, Debug, PartialEq, Eq)]
pub struct StudentProfile {
    /// SHA256 hash of this student's profile
    pub hash: String,
    /// Account bound to this student
    pub account: Account,
    /// The details of this student: one element, never none
    details: Vec<StudentDetails>,
}

#[derive(Clone, Debug, PartialEq, Eq)]
pub struct Account {
    /// Last name or surname of the account's owner
    pub last_name: String,
    /// First name of the account's owner
    pub first_name: String,
    /// Middle name or the patronymic of the account's owner
    pub middle_name: String,
    /// Date of birth of the account's owner
    pub birth_date: Option<Date>,
    /// Gender of the account's owner
    pub gender: Option<String>,
    /// An internal ID of the profile, which no student operation uses
    pub user_id: Option<u32>,
    /// The ID of the account, which the student operations use
    pub id: u64,
    /// A second ID of the account, which only some profiles carry
    pub contract_id: Option<u32>,
    /// Phone number of the account's owner, without the regional prefix
    pub phone: String,
    /// Email address of the account's owner
    pub email: String,
    /// Individual insurance account number (SNILS) of the owner
    pub snils: String,
    /// `"student"`, `"teacher"`, or nothing for an external account
    pub profile_type: Option<String>,
}

#[derive(Clone, Debug, PartialEq, Eq)]
pub struct School {
    /// Unique ID of the school
    pub id: u32,
    /// Full name of the school
    pub full_name: String,
    /// Short name of the school
    pub short_name: String,
    /// County where this school is located
    pub county: String,
    /// Full name of the principal of this school
    pub principal: String,
    /// Contact phone of this school, without the regional prefix
    pub phone: String,
}

#[derive(Clone, Debug, PartialEq, Eq)]
pub struct SubjectGroup {
    /// Unique ID of this subject group
    pub id: u64,
    /// Name of this subject group
    pub name: String,
    /// ID of the subject this group belongs to; nothing for a section
    pub subject_id: Option<u64>,
    pub is_fake: bool,
}

#[derive(Clone, Debug, PartialEq, Eq)]
pub struct StudentDetails {
    /// Account that holds part of the information of this profile
    pub parent_account: Account,
    /// School to which this student belongs
    pub school: School,
    /// Name of the class this student belongs to
    pub class_name: String,
    /// Grade of this student
    pub grade: u8,
    /// Unit ID of the class this student belongs to
    pub class_id: u64,
    /// The subject groups this student belongs to, sections excluded
    pub subjects: Vec<SubjectGroup>,
    /// Representatives of this student
    pub representatives: Vec<Account>,
    /// The section groups this student belongs to
    pub sections: Vec<SubjectGroup>,
    /// Whether this student may be a legal representative
    pub is_legal_representative: bool,
    /// UUID bound to this student, as a 128-bit number
    pub uuid: u128,
    /// A second ID of this account, which only some profiles carry
    pub contract_id: Option<u32>,
}

impl StudentProfile {
    /// The hash that came with the profile.
    pub closed spec fn hash_of(self) -> String {
        self.hash
    }

    /// The account that came with the profile.
    pub closed spec fn account_of(self) -> Account {
        self.account
    }

    /// All the details that came with the profile.
    pub closed spec fn all_details(self) -> Seq<StudentDetails> {
        self.details@
    }

    /// Whether the profile holds the details of a student.
    pub open spec fn wf(self) -> bool {
        self.all_details().len() > 0
    }

    /// The profile of the three parts. A profile without details is not
    /// one that the service promises, and is refused.
    pub fn new(hash: String, account: Account, details: Vec<StudentDetails>) -> (r: Result<
        StudentProfile,
        DiaryError,
    >)
        ensures
            details@.len() == 0 ==> (r matches Err(DiaryError::Decode(DecodeFault::NoDetails))),
            details@.len() > 0 ==> (r matches Ok(p) && p.wf() && p.hash_of() == hash
                && p.account_of() == account && p.all_details() == details@),
    {
        if details.len() == 0 {
            return Err(DiaryError::Decode(DecodeFault::NoDetails));
        }
        Ok(StudentProfile { hash, account, details })
    }

    /// Whether the profile holds the details of a student.
    pub fn has_details(&self) -> (r: bool)
        ensures
            r == self.wf(),
    {
        self.details.len() > 0
    }

    /// The three parts of the profile.
    pub fn into_parts(self) -> (r: (String, Account, Vec<StudentDetails>))
        ensures
            r.0 == self.hash_of(),
            r.1 == self.account_of(),
            r.2@ == self.all_details(),
    {
        (self.hash, self.account, self.details)
    }

    /// The hash of this profile.
    pub fn hash(&self) -> (r: &String)
        ensures
            *r == self.hash_of(),
    {
        &self.hash
    }

    /// The account bound to this student.
    pub fn account(&self) -> (r: &Account)
        ensures
            *r == self.account_of(),
    {
        &self.account
    }

    /// The details of this student: the first that the profile holds.
    pub fn details(&self) -> (r: &StudentDetails)
        requires
            self.wf(),
        ensures
            *r == self.all_details()[0],
    {
        &self.details[0]
    }
}

} // verus!
