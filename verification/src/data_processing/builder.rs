//! Joining review statistics and assignments against the resolved subjects:
//! per subject type, the totals of right and wrong answers and the number of
//! subjects passed.

use crate::data_processing::complete_user_info::ReportView;
use crate::data_processing::{
    Assignment, CompleteUserInfo, CompleteUserInfoBuilder, MissingSubjectError, Reset,
    ReviewStatistic, SubjectType, SubjectTypeStats, SubjectWithType, User,
};
use std::collections::HashMap;
use vstd::prelude::*;

verus! {

/// Four running totals: right and wrong answers, for meaning and for reading.
pub struct Tally {
    pub meaning_correct: int,
    pub meaning_incorrect: int,
    pub reading_correct: int,
    pub reading_incorrect: int,
}

impl Tally {
    /// No answers yet.
    pub open spec fn zero() -> Tally {
        Tally { meaning_correct: 0, meaning_incorrect: 0, reading_correct: 0, reading_incorrect: 0 }
    }

    /// These totals with the counts of one more review statistic added.
    pub open spec fn plus(self, stat: ReviewStatistic) -> Tally {
        Tally {
            meaning_correct: self.meaning_correct + stat.meaning_correct,
            meaning_incorrect: self.meaning_incorrect + stat.meaning_incorrect,
            reading_correct: self.reading_correct + stat.reading_correct,
            reading_incorrect: self.reading_incorrect + stat.reading_incorrect,
        }
    }

    /// Whether each of the four totals lies within `bound` of zero.
    pub open spec fn within(self, bound: int) -> bool {
        &&& -bound <= self.meaning_correct <= bound
        &&& -bound <= self.meaning_incorrect <= bound
        &&& -bound <= self.reading_correct <= bound
        &&& -bound <= self.reading_incorrect <= bound
    }
}

impl SubjectTypeStats {
    /// Whether these are the totals `tally`, recorded for the type `subject`.
    pub open spec fn holds(self, subject: SubjectType, tally: Tally) -> bool {
        &&& self.subject_type == subject
        &&& self.num_of_meaning_correct == tally.meaning_correct
        &&& self.num_of_meaning_incorrect == tally.meaning_incorrect
        &&& self.num_of_reading_correct == tally.reading_correct
        &&& self.num_of_reading_incorrect == tally.reading_incorrect
    }
}

/// The type of the subject `id`, if `subjects` resolves it.
pub open spec fn type_of(subjects: Map<i32, SubjectWithType>, id: i32) -> Option<SubjectType> {
    if subjects.contains_key(id) {
        Some(subjects[id].subject_type)
    } else {
        None
    }
}

/// Whether every review statistic refers to a resolved subject.
pub open spec fn reviews_resolved(
    stats: Seq<ReviewStatistic>,
    subjects: Map<i32, SubjectWithType>,
) -> bool {
    forall|i: int| 0 <= i < stats.len() ==> subjects.contains_key(#[trigger] stats[i].subject_id)
}

/// Whether every assignment refers to a resolved subject.
pub open spec fn assignments_resolved(
    assignments: Seq<Assignment>,
    subjects: Map<i32, SubjectWithType>,
) -> bool {
    forall|i: int|
        0 <= i < assignments.len() ==> subjects.contains_key(#[trigger] assignments[i].subject_id)
}

/// The totals over those review statistics whose subject is of type
/// `subject`. Statistics of other types, and of unresolved subjects, add
/// nothing.
pub open spec fn review_tally(
    stats: Seq<ReviewStatistic>,
    subjects: Map<i32, SubjectWithType>,
    subject: SubjectType,
) -> Tally
    decreases stats.len(),
{
    if stats.len() == 0 {
        Tally::zero()
    } else {
        let rest = review_tally(stats.drop_last(), subjects, subject);
        if type_of(subjects, stats.last().subject_id) == Some(subject) {
            rest.plus(stats.last())
        } else {
            rest
        }
    }
}

/// Whether `assignment` is a passed subject of type `subject`.
pub open spec fn counts_as_passed(
    assignment: Assignment,
    subjects: Map<i32, SubjectWithType>,
    subject: SubjectType,
) -> bool {
    type_of(subjects, assignment.subject_id) == Some(subject) && assignment.passed_at is Some
}

/// The number of assignments that are passed subjects of type `subject`.
pub open spec fn passed_count(
    assignments: Seq<Assignment>,
    subjects: Map<i32, SubjectWithType>,
    subject: SubjectType,
) -> nat
    decreases assignments.len(),
{
    if assignments.len() == 0 {
        0
    } else {
        let rest = passed_count(assignments.drop_last(), subjects, subject);
        if counts_as_passed(assignments.last(), subjects, subject) {
            rest + 1
        } else {
            rest
        }
    }
}

/// Each total of a tally over `n` review statistics is within `n` times
/// 2^31 of zero.
pub proof fn lemma_review_tally_bounded(
    stats: Seq<ReviewStatistic>,
    subjects: Map<i32, SubjectWithType>,
    subject: SubjectType,
)
    ensures
        review_tally(stats, subjects, subject).within(0x8000_0000 * (stats.len() as int)),
    decreases stats.len(),
{
    if stats.len() > 0 {
        lemma_review_tally_bounded(stats.drop_last(), subjects, subject);
    }
}

/// Where no review statistic is about a subject of type `subject`, the
/// totals of that type are all zero.
pub proof fn lemma_review_tally_unreviewed(
    stats: Seq<ReviewStatistic>,
    subjects: Map<i32, SubjectWithType>,
    subject: SubjectType,
)
    requires
        forall|i: int|
            0 <= i < stats.len() ==> type_of(subjects, #[trigger] stats[i].subject_id) != Some(
                subject,
            ),
    ensures
        review_tally(stats, subjects, subject) == Tally::zero(),
    decreases stats.len(),
{
    if stats.len() > 0 {
        let front = stats.drop_last();
        assert forall|i: int| 0 <= i < front.len() implies type_of(
            subjects,
            #[trigger] front[i].subject_id,
        ) != Some(subject) by {
            assert(front[i] == stats[i]);
        }
        lemma_review_tally_unreviewed(front, subjects, subject);
        assert(type_of(subjects, stats[stats.len() - 1].subject_id) != Some(subject));
    }
}

/// Two different subject types never count the same assignment: together
/// their passed counts are at most the number of assignments.
pub proof fn lemma_passed_counts_disjoint(
    assignments: Seq<Assignment>,
    subjects: Map<i32, SubjectWithType>,
    first: SubjectType,
    second: SubjectType,
)
    requires
        first != second,
    ensures
        passed_count(assignments, subjects, first) + passed_count(assignments, subjects, second)
            <= assignments.len(),
    decreases assignments.len(),
{
    if assignments.len() > 0 {
        lemma_passed_counts_disjoint(assignments.drop_last(), subjects, first, second);
    }
}

/// Adding one assignment raises the passed count of a type by one if the
/// assignment is passed and its subject is of that type, and leaves it as it
/// was otherwise: an assignment that is not passed counts for no type, and a
/// passed one counts for the type of its own subject only.
pub proof fn lemma_passed_count_push(
    assignments: Seq<Assignment>,
    added: Assignment,
    subjects: Map<i32, SubjectWithType>,
    subject: SubjectType,
)
    ensures
        passed_count(assignments.push(added), subjects, subject) == passed_count(
            assignments,
            subjects,
            subject,
        ) + (if added.passed_at is Some && type_of(subjects, added.subject_id) == Some(subject) {
            1nat
        } else {
            0nat
        }),
        added.passed_at is None ==> passed_count(assignments.push(added), subjects, subject)
            == passed_count(assignments, subjects, subject),
        type_of(subjects, added.subject_id) != Some(subject) ==> passed_count(
            assignments.push(added),
            subjects,
            subject,
        ) == passed_count(assignments, subjects, subject),
{
    assert(assignments.push(added).drop_last() =~= assignments);
}

/// Adding one review statistic adds its four counts to the totals of the
/// type of its subject and to those of no other type.
pub proof fn lemma_review_tally_push(
    stats: Seq<ReviewStatistic>,
    added: ReviewStatistic,
    subjects: Map<i32, SubjectWithType>,
    subject: SubjectType,
)
    ensures
        review_tally(stats.push(added), subjects, subject) == (if type_of(
            subjects,
            added.subject_id,
        ) == Some(subject) {
            review_tally(stats, subjects, subject).plus(added)
        } else {
            review_tally(stats, subjects, subject)
        }),
{
    assert(stats.push(added).drop_last() =~= stats);
}

impl CompleteUserInfoBuilder {
    /// Whether every review statistic and every assignment refers to a
    /// resolved subject.
    pub open spec fn resolved(self) -> bool {
        &&& reviews_resolved(self.review_stats@, self.id_to_subjects@)
        &&& assignments_resolved(self.assignments@, self.id_to_subjects@)
    }

    /// The report that these records give.
    pub open spec fn report(self) -> ReportView {
        ReportView {
            user: self.user,
            review_stats: self.review_stats@,
            assignments: self.assignments@,
            resets: self.resets@,
            subjects: self.id_to_subjects@,
        }
    }

    /// A builder that holds these records.
    pub fn new(
        user: User,
        review_stats: Vec<ReviewStatistic>,
        assignments: Vec<Assignment>,
        resets: Vec<Reset>,
        id_to_subjects: HashMap<i32, SubjectWithType>,
    ) -> (builder: CompleteUserInfoBuilder)
        ensures
            builder.user == user,
            builder.review_stats == review_stats,
            builder.assignments == assignments,
            builder.resets == resets,
            builder.id_to_subjects == id_to_subjects,
    {
        CompleteUserInfoBuilder { user, review_stats, assignments, resets, id_to_subjects }
    }

    /// Builds the report, or fails if a review statistic or an assignment
    /// refers to a subject that is not resolved. There is no partial report.
    pub fn build(self) -> (built: Result<CompleteUserInfo, MissingSubjectError>)
        ensures
            match built {
                Ok(info) => self.resolved() && info@ == self.report(),
                Err(_) => !self.resolved(),
            },
    {
        let kanji_stats = self.get_subject_type_stats(&SubjectType::Kanji)?;
        let vocab_stats = self.get_subject_type_stats(&SubjectType::Vocabulary)?;
        let kana_stats = self.get_subject_type_stats(&SubjectType::KanaVocabulary)?;
        let radical_stats = self.get_subject_type_stats(&SubjectType::Radical)?;
        let kanji_learned = self.get_num_of_passed(SubjectType::Kanji)?;
        let radicals_learned = self.get_num_of_passed(SubjectType::Radical)?;
        let vocab_learned = self.get_num_of_passed(SubjectType::Vocabulary)?;
        let kana_learned = self.get_num_of_passed(SubjectType::KanaVocabulary)?;

        Ok(
            CompleteUserInfo::assemble(
                self,
                kanji_stats,
                radical_stats,
                vocab_stats,
                kana_stats,
                kanji_learned,
                radicals_learned,
                vocab_learned,
                kana_learned,
            ),
        )
    }

    /// The number of assignments that are passed subjects of type `subject`,
    /// or the error if an assignment refers to a subject that is not
    /// resolved.
    pub fn get_num_of_passed(&self, subject: SubjectType) -> (passed: Result<
        usize,
        MissingSubjectError,
    >)
        ensures
            match passed {
                Ok(n) => assignments_resolved(self.assignments@, self.id_to_subjects@) && n
                    == passed_count(self.assignments@, self.id_to_subjects@, subject),
                Err(_) => !assignments_resolved(self.assignments@, self.id_to_subjects@),
            },
    {
        let mut result: usize = 0;
        let mut i: usize = 0;

        while i < self.assignments.len()
            invariant
                i <= self.assignments@.len(),
                result <= i,
                result == passed_count(
                    self.assignments@.take(i as int),
                    self.id_to_subjects@,
                    subject,
                ),
                assignments_resolved(self.assignments@.take(i as int), self.id_to_subjects@),
            decreases self.assignments@.len() - i,
        {
            let assignment = &self.assignments[i];
            let subject_obj = self.id_to_subjects.get(&assignment.subject_id);
            proof {
                assert(self.assignments@.take(i + 1).drop_last() =~= self.assignments@.take(
                    i as int,
                ));
            }

            match subject_obj {
                None => {
                    return Err(MissingSubjectError);
                },
                Some(resolved) => {
                    if resolved.subject_type == subject && assignment.passed_at.is_some() {
                        result += 1;
                    }
                },
            }
            i += 1;
        }

        proof {
            assert(self.assignments@.take(i as int) =~= self.assignments@);
        }
        Ok(result)
    }

    /// The totals over the review statistics whose subject is of type
    /// `subject`, or the error if a review statistic refers to a subject that
    /// is not resolved.
    pub fn get_subject_type_stats(&self, subject: &SubjectType) -> (stats: Result<
        SubjectTypeStats,
        MissingSubjectError,
    >)
        ensures
            match stats {
                Ok(s) => reviews_resolved(self.review_stats@, self.id_to_subjects@) && s.holds(
                    *subject,
                    review_tally(self.review_stats@, self.id_to_subjects@, *subject),
                ),
                Err(_) => !reviews_resolved(self.review_stats@, self.id_to_subjects@),
            },
    {
        let mut meaning_correct: i128 = 0;
        let mut meaning_incorrect: i128 = 0;
        let mut reading_correct: i128 = 0;
        let mut reading_incorrect: i128 = 0;
        let mut i: usize = 0;

        while i < self.review_stats.len()
            invariant
                i <= self.review_stats@.len(),
                reviews_resolved(self.review_stats@.take(i as int), self.id_to_subjects@),
                review_tally(self.review_stats@.take(i as int), self.id_to_subjects@, *subject)
                    == (Tally {
                    meaning_correct: meaning_correct as int,
                    meaning_incorrect: meaning_incorrect as int,
                    reading_correct: reading_correct as int,
                    reading_incorrect: reading_incorrect as int,
                }),
            decreases self.review_stats@.len() - i,
        {
            let review_stat = &self.review_stats[i];
            let subject_obj = self.id_to_subjects.get(&review_stat.subject_id);
            proof {
                assert(self.review_stats@.take(i + 1).drop_last() =~= self.review_stats@.take(
                    i as int,
                ));
                lemma_review_tally_bounded(
                    self.review_stats@.take(i as int),
                    self.id_to_subjects@,
                    *subject,
                );
            }

            match subject_obj {
                None => {
                    return Err(MissingSubjectError);
                },
                Some(resolved) => {
                    if resolved.subject_type == *subject {
                        meaning_correct += review_stat.meaning_correct as i128;
                        meaning_incorrect += review_stat.meaning_incorrect as i128;
                        reading_correct += review_stat.reading_correct as i128;
                        reading_incorrect += review_stat.reading_incorrect as i128;
                    }
                },
            }
            i += 1;
        }

        proof {
            assert(self.review_stats@.take(i as int) =~= self.review_stats@);
        }
        Ok(
            SubjectTypeStats {
                subject_type: *subject,
                num_of_meaning_correct: meaning_correct,
                num_of_meaning_incorrect: meaning_incorrect,
                num_of_reading_correct: reading_correct,
                num_of_reading_incorrect: reading_incorrect,
            },
        )
    }
}

} // verus!
