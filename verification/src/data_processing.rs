//! The records of the remote service, the report that is built from them, and
//! the steps that lead from one to the other.

pub mod api_client;
pub mod builder;
pub mod complete_user_info;
pub mod decimal;
pub mod paged_fetch;
pub mod resolver;
pub mod timestamp;

pub use crate::data_processing::complete_user_info::CompleteUserInfo;
use crate::data_processing::timestamp::Timestamp;
use std::collections::HashMap;
use vstd::prelude::*;

verus! {

/// The account a report is about.
#[derive(Debug, PartialEq)]
pub struct User {
    pub level: i32,
    pub username: String,
    pub started_at: Timestamp,
}

/// The paging block of a page: where the neighbouring pages are.
#[derive(Debug)]
pub struct PageData {
    pub per_page: i32,
    pub next_url: Option<String>,
    pub previous_url: Option<String>,
}

/// The running tally of right and wrong answers for one subject.
#[derive(Debug)]
pub struct ReviewStatistic {
    pub created_at: Timestamp,
    pub meaning_correct: i32,
    pub meaning_current_streak: i32,
    pub meaning_incorrect: i32,
    pub meaning_max_streak: i32,
    pub percentage_correct: i32,
    pub reading_correct: i32,
    pub reading_current_streak: i32,
    pub reading_incorrect: i32,
    pub reading_max_streak: i32,
    pub subject_id: i32,
    pub subject_type: String,
}

/// One meaning of a subject.
#[derive(Debug, Clone)]
pub struct Meanings {
    pub meaning: Option<String>,
    pub primary: bool,
}

/// A learnable item of the content catalogue. Its identifier is not part of
/// the record: it travels beside it, in the envelope.
#[derive(Debug, Clone)]
pub struct Subject {
    pub characters: Option<String>,
    pub level: i32,
    pub spaced_repetition_system_id: i32,
    pub meanings: Vec<Meanings>,
}

/// The learner's progress on one subject. The subject counts as passed
/// exactly when `passed_at` is present.
#[derive(Debug)]
pub struct Assignment {
    pub created_at: Option<Timestamp>,
    pub passed_at: Option<Timestamp>,
    pub srs_stage: i32,
    pub subject_id: i32,
}

/// An event that took the account back to an earlier level.
#[derive(Debug)]
pub struct Reset {
    pub created_at: Timestamp,
    pub confirmed_at: Timestamp,
    pub original_level: i32,
    pub target_level: i32,
}

/// One page of a paginated resource.
#[derive(Debug)]
pub struct PagedData<T> {
    pub pages: Option<PageData>,
    pub total_count: i32,
    pub data: Vec<Response<T>>,
}

/// The envelope around every record: an identifier where the resource has
/// one, the discriminator of the record's kind, and the record.
#[derive(Debug)]
pub struct Response<T> {
    pub id: Option<i32>,
    pub object: String,
    pub data: T,
}

/// Collects what a report is built from.
#[derive(Debug, Clone)]
pub struct CompleteUserInfoBuilder {
    pub user: User,
    pub review_stats: Vec<ReviewStatistic>,
    pub assignments: Vec<Assignment>,
    pub resets: Vec<Reset>,
    pub id_to_subjects: HashMap<i32, SubjectWithType>,
}

/// The four kinds of subjects. Totals and counts are kept per kind.
#[derive(Debug, PartialEq, Eq, Clone, Copy, Structural)]
pub enum SubjectType {
    KanaVocabulary,
    Kanji,
    Radical,
    Vocabulary,
}

/// A review statistic or an assignment refers to a subject that was not
/// resolved.
#[derive(Debug)]
pub struct MissingSubjectError;

/// A resolved record carries a discriminator that names no subject type.
#[derive(Debug)]
pub struct UnknownSubjectTypeError;

/// The totals of right and wrong answers over the subjects of one type. They
/// are kept in 128 bits: no number of records can overflow them.
#[derive(Debug)]
pub struct SubjectTypeStats {
    pub subject_type: SubjectType,
    pub num_of_meaning_correct: i128,
    pub num_of_meaning_incorrect: i128,
    pub num_of_reading_correct: i128,
    pub num_of_reading_incorrect: i128,
}

/// A subject together with the type that its discriminator named.
#[derive(Debug, Clone)]
pub struct SubjectWithType {
    pub subject: Subject,
    pub subject_type: SubjectType,
}

impl Clone for User {
    fn clone(&self) -> (copy: Self)
        ensures
            copy == *self,
    {
        User {
            level: self.level,
            username: self.username.clone(),
            started_at: self.started_at,
        }
    }
}

impl Clone for ReviewStatistic {
    fn clone(&self) -> (copy: Self)
        ensures
            copy == *self,
    {
        ReviewStatistic {
            created_at: self.created_at,
            meaning_correct: self.meaning_correct,
            meaning_current_streak: self.meaning_current_streak,
            meaning_incorrect: self.meaning_incorrect,
            meaning_max_streak: self.meaning_max_streak,
            percentage_correct: self.percentage_correct,
            reading_correct: self.reading_correct,
            reading_current_streak: self.reading_current_streak,
            reading_incorrect: self.reading_incorrect,
            reading_max_streak: self.reading_max_streak,
            subject_id: self.subject_id,
            subject_type: self.subject_type.clone(),
        }
    }
}

impl Clone for Assignment {
    fn clone(&self) -> (copy: Self)
        ensures
            copy == *self,
    {
        Assignment {
            created_at: self.created_at,
            passed_at: self.passed_at,
            srs_stage: self.srs_stage,
            subject_id: self.subject_id,
        }
    }
}

impl Clone for Reset {
    fn clone(&self) -> (copy: Self)
        ensures
            copy == *self,
    {
        Reset {
            created_at: self.created_at,
            confirmed_at: self.confirmed_at,
            original_level: self.original_level,
            target_level: self.target_level,
        }
    }
}

impl Clone for SubjectTypeStats {
    fn clone(&self) -> (copy: Self)
        ensures
            copy == *self,
    {
        SubjectTypeStats {
            subject_type: self.subject_type,
            num_of_meaning_correct: self.num_of_meaning_correct,
            num_of_meaning_incorrect: self.num_of_meaning_incorrect,
            num_of_reading_correct: self.num_of_reading_correct,
            num_of_reading_incorrect: self.num_of_reading_incorrect,
        }
    }
}

impl UnknownSubjectTypeError {
    /// The text this error is reported with.
    pub fn message(&self) -> (text: String)
        ensures
            text@ == "Unknown Subject Type"@,
    {
        String::from_str("Unknown Subject Type")
    }
}

impl MissingSubjectError {
    /// The text this error is reported with.
    pub fn message(&self) -> (text: String)
        ensures
            text@ == "Missing Subject"@,
    {
        String::from_str("Missing Subject")
    }
}

} // verus!
