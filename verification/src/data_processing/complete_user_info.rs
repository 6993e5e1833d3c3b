//! The report and what can be read off it: the account, the numbers of
//! subjects passed, and the totals and accuracies of the answers given.

use crate::data_processing::builder::{
    assignments_resolved, lemma_passed_counts_disjoint, lemma_review_tally_bounded,
    lemma_review_tally_unreviewed, passed_count, review_tally, reviews_resolved, type_of, Tally,
};
use crate::data_processing::timestamp::Timestamp;
use crate::data_processing::{
    Assignment, CompleteUserInfoBuilder, Reset, ReviewStatistic, SubjectType, SubjectTypeStats,
    SubjectWithType, User,
};
use std::collections::HashMap;
use vstd::prelude::*;

verus! {

/// A share of right answers: `correct` out of `total`, where `total` is not
/// zero. As a percentage it is `100 * correct / total`.
#[derive(Debug, Clone, Copy, PartialEq, Eq, Structural)]
pub struct Ratio {
    pub correct: i128,
    pub total: i128,
}

/// Whether `accuracy` is the share `correct` out of `total`: undefined when
/// `total` is zero, and that very pair when it is not.
pub open spec fn is_share(accuracy: Option<Ratio>, correct: int, total: int) -> bool {
    match accuracy {
        None => total == 0,
        Some(ratio) => total != 0 && ratio.correct == correct && ratio.total == total,
    }
}

/// The consolidated report: the records it was built from, the totals of
/// right and wrong answers per subject type and the number of subjects passed
/// per subject type. A value of this type is always consistent: its totals
/// and counts are those of its records.
#[derive(Debug)]
pub struct CompleteUserInfo {
    user: User,
    review_stats: Vec<ReviewStatistic>,
    assignments: Vec<Assignment>,
    resets: Vec<Reset>,
    id_to_subjects: HashMap<i32, SubjectWithType>,
    kanji_learned: usize,
    radicals_learned: usize,
    vocab_learned: usize,
    kana_learned: usize,
    kanji_stats: SubjectTypeStats,
    radical_stats: SubjectTypeStats,
    vocab_stats: SubjectTypeStats,
    kana_stats: SubjectTypeStats,
}

/// What a report holds: the records it was built from. Its counts and totals
/// are those of the records.
pub struct ReportView {
    pub user: User,
    pub review_stats: Seq<ReviewStatistic>,
    pub assignments: Seq<Assignment>,
    pub resets: Seq<Reset>,
    pub subjects: Map<i32, SubjectWithType>,
}

impl ReportView {
    /// Whether every review statistic and every assignment refers to a
    /// resolved subject.
    pub open spec fn resolved(self) -> bool {
        &&& reviews_resolved(self.review_stats, self.subjects)
        &&& assignments_resolved(self.assignments, self.subjects)
    }

    /// The number of passed subjects of type `subject`.
    pub open spec fn learned(self, subject: SubjectType) -> nat {
        passed_count(self.assignments, self.subjects, subject)
    }

    /// The totals of right and wrong answers over the subjects of type
    /// `subject`.
    pub open spec fn stats(self, subject: SubjectType) -> Tally {
        review_tally(self.review_stats, self.subjects, subject)
    }

    /// Whether no review statistic is about a subject of type `subject`.
    pub open spec fn unreviewed(self, subject: SubjectType) -> bool {
        forall|i: int|
            0 <= i < self.review_stats.len() ==> type_of(
                self.subjects,
                #[trigger] self.review_stats[i].subject_id,
            ) != Some(subject)
    }

    /// The number of words passed. Words are kept as two subject types and
    /// shown as one.
    pub open spec fn words_learned(self) -> nat {
        self.learned(SubjectType::KanaVocabulary) + self.learned(SubjectType::Vocabulary)
    }

    /// The right readings. Radicals have no reading: kanji and words only.
    pub open spec fn total_correct_reading(self) -> int {
        self.stats(SubjectType::Kanji).reading_correct + self.stats(
            SubjectType::Vocabulary,
        ).reading_correct + self.stats(SubjectType::KanaVocabulary).reading_correct
    }

    /// The right meanings, over all four types.
    pub open spec fn total_correct_meaning(self) -> int {
        self.stats(SubjectType::Kanji).meaning_correct + self.stats(
            SubjectType::Vocabulary,
        ).meaning_correct + self.stats(SubjectType::KanaVocabulary).meaning_correct + self.stats(
            SubjectType::Radical,
        ).meaning_correct
    }

    /// The wrong readings of kanji and words.
    pub open spec fn total_incorrect_reading(self) -> int {
        self.stats(SubjectType::Kanji).reading_incorrect + self.stats(
            SubjectType::Vocabulary,
        ).reading_incorrect + self.stats(SubjectType::KanaVocabulary).reading_incorrect
    }

    /// The wrong meanings, over all four types.
    pub open spec fn total_incorrect_meaning(self) -> int {
        self.stats(SubjectType::Kanji).meaning_incorrect + self.stats(
            SubjectType::Vocabulary,
        ).meaning_incorrect + self.stats(SubjectType::KanaVocabulary).meaning_incorrect
            + self.stats(SubjectType::Radical).meaning_incorrect
    }

    /// All readings, right and wrong.
    pub open spec fn total_reading(self) -> int {
        self.total_correct_reading() + self.total_incorrect_reading()
    }

    /// All meanings, right and wrong.
    pub open spec fn total_meaning(self) -> int {
        self.total_correct_meaning() + self.total_incorrect_meaning()
    }

    /// All right answers.
    pub open spec fn total_correct(self) -> int {
        self.total_correct_meaning() + self.total_correct_reading()
    }

    /// All wrong answers.
    pub open spec fn total_incorrect(self) -> int {
        self.total_incorrect_meaning() + self.total_incorrect_reading()
    }

    /// All answers.
    pub open spec fn total(self) -> int {
        self.total_reading() + self.total_meaning()
    }

    /// The meanings of radicals, right and wrong.
    pub open spec fn radical_meaning(self) -> int {
        self.stats(SubjectType::Radical).meaning_correct + self.stats(
            SubjectType::Radical,
        ).meaning_incorrect
    }

    /// The readings of kanji, right and wrong.
    pub open spec fn kanji_reading(self) -> int {
        self.stats(SubjectType::Kanji).reading_correct + self.stats(
            SubjectType::Kanji,
        ).reading_incorrect
    }

    /// The meanings of kanji, right and wrong.
    pub open spec fn kanji_meaning(self) -> int {
        self.stats(SubjectType::Kanji).meaning_correct + self.stats(
            SubjectType::Kanji,
        ).meaning_incorrect
    }

    /// The right answers on kanji, meanings and readings.
    pub open spec fn kanji_correct(self) -> int {
        self.stats(SubjectType::Kanji).meaning_correct + self.stats(
            SubjectType::Kanji,
        ).reading_correct
    }

    /// The right readings of words of both types.
    pub open spec fn words_reading_correct(self) -> int {
        self.stats(SubjectType::Vocabulary).reading_correct + self.stats(
            SubjectType::KanaVocabulary,
        ).reading_correct
    }

    /// The readings of words of both types, right and wrong.
    pub open spec fn words_reading(self) -> int {
        self.stats(SubjectType::Vocabulary).reading_correct + self.stats(
            SubjectType::Vocabulary,
        ).reading_incorrect + self.stats(SubjectType::KanaVocabulary).reading_correct
            + self.stats(SubjectType::KanaVocabulary).reading_incorrect
    }

    /// The right meanings of words of both types.
    pub open spec fn words_meaning_correct(self) -> int {
        self.stats(SubjectType::Vocabulary).meaning_correct + self.stats(
            SubjectType::KanaVocabulary,
        ).meaning_correct
    }

    /// The meanings of words of both types, right and wrong.
    pub open spec fn words_meaning(self) -> int {
        self.stats(SubjectType::Vocabulary).meaning_correct + self.stats(
            SubjectType::Vocabulary,
        ).meaning_incorrect + self.stats(SubjectType::KanaVocabulary).meaning_correct
            + self.stats(SubjectType::KanaVocabulary).meaning_incorrect
    }

    /// The numbers of a report stay far inside the machine integers they are
    /// kept in: a count is at most the number of assignments, the two counts
    /// of words together too, and a total is within 2^31 times the number of
    /// review statistics of zero.
    pub proof fn lemma_bounded(self)
        ensures
            forall|subject: SubjectType| #[trigger]
                self.learned(subject) <= self.assignments.len(),
            self.words_learned() <= self.assignments.len(),
            forall|subject: SubjectType| #[trigger]
                self.stats(subject).within(0x8000_0000 * (self.review_stats.len() as int)),
    {
        lemma_passed_counts_disjoint(
            self.assignments,
            self.subjects,
            SubjectType::KanaVocabulary,
            SubjectType::Vocabulary,
        );
        assert forall|subject: SubjectType| #[trigger]
            self.learned(subject) <= self.assignments.len() by {
            let other = if subject == SubjectType::Kanji {
                SubjectType::Radical
            } else {
                SubjectType::Kanji
            };
            lemma_passed_counts_disjoint(self.assignments, self.subjects, subject, other);
        }
        assert forall|subject: SubjectType| #[trigger]
            self.stats(subject).within(0x8000_0000 * (self.review_stats.len() as int)) by {
            lemma_review_tally_bounded(self.review_stats, self.subjects, subject);
        }
    }
}

/// Whether `latest` is the latest confirmation among `resets`: none when
/// there is no reset, and otherwise the confirmation of one of them that none
/// of the others comes after.
pub open spec fn is_latest_confirmation(resets: Seq<Reset>, latest: Option<Timestamp>) -> bool {
    match latest {
        None => resets.len() == 0,
        Some(t) => {
            &&& exists|i: int| 0 <= i < resets.len() && #[trigger] resets[i].confirmed_at == t
            &&& forall|i: int|
                0 <= i < resets.len() ==> (#[trigger] resets[i]).confirmed_at.not_after(t)
        },
    }
}

/// A subject type without a single review has no accuracy: whatever the
/// share of right answers of such a type is asked for, of its readings, of
/// its meanings or of both, it is undefined, not zero. Words are of two types
/// and have no accuracy where neither type has a review; the report as a
/// whole has none where no type has one.
pub proof fn lemma_unreviewed_has_no_accuracy(report: ReportView, accuracy: Option<Ratio>)
    ensures
        report.unreviewed(SubjectType::Kanji) && (is_share(
            accuracy,
            report.stats(SubjectType::Kanji).reading_correct,
            report.kanji_reading(),
        ) || is_share(
            accuracy,
            report.stats(SubjectType::Kanji).meaning_correct,
            report.kanji_meaning(),
        ) || is_share(
            accuracy,
            report.kanji_correct(),
            report.kanji_meaning() + report.kanji_reading(),
        )) ==> accuracy is None,
        report.unreviewed(SubjectType::Radical) && is_share(
            accuracy,
            report.stats(SubjectType::Radical).meaning_correct,
            report.radical_meaning(),
        ) ==> accuracy is None,
        report.unreviewed(SubjectType::Vocabulary) && report.unreviewed(
            SubjectType::KanaVocabulary,
        ) && (is_share(accuracy, report.words_reading_correct(), report.words_reading())
            || is_share(accuracy, report.words_meaning_correct(), report.words_meaning())
            || is_share(
            accuracy,
            report.words_meaning_correct() + report.words_reading_correct(),
            report.words_meaning() + report.words_reading(),
        )) ==> accuracy is None,
        report.unreviewed(SubjectType::Kanji) && report.unreviewed(SubjectType::Radical)
            && report.unreviewed(SubjectType::Vocabulary) && report.unreviewed(
            SubjectType::KanaVocabulary,
        ) && (is_share(accuracy, report.total_correct(), report.total()) || is_share(
            accuracy,
            report.total_correct_reading(),
            report.total_reading(),
        ) || is_share(accuracy, report.total_correct_meaning(), report.total_meaning()))
            ==> accuracy is None,
{
    if report.unreviewed(SubjectType::Kanji) {
        lemma_review_tally_unreviewed(report.review_stats, report.subjects, SubjectType::Kanji);
    }
    if report.unreviewed(SubjectType::Radical) {
        lemma_review_tally_unreviewed(report.review_stats, report.subjects, SubjectType::Radical);
    }
    if report.unreviewed(SubjectType::Vocabulary) {
        lemma_review_tally_unreviewed(
            report.review_stats,
            report.subjects,
            SubjectType::Vocabulary,
        );
    }
    if report.unreviewed(SubjectType::KanaVocabulary) {
        lemma_review_tally_unreviewed(
            report.review_stats,
            report.subjects,
            SubjectType::KanaVocabulary,
        );
    }
}

/// The share `correct` out of `total`, which is undefined when `total` is
/// zero.
fn share(correct: i128, total: i128) -> (accuracy: Option<Ratio>)
    ensures
        is_share(accuracy, correct as int, total as int),
{
    if total == 0 {
        None
    } else {
        Some(Ratio { correct, total })
    }
}

impl View for CompleteUserInfo {
    type V = ReportView;

    closed spec fn view(&self) -> ReportView {
        ReportView {
            user: self.user,
            review_stats: self.review_stats@,
            assignments: self.assignments@,
            resets: self.resets@,
            subjects: self.id_to_subjects@,
        }
    }
}

impl Clone for CompleteUserInfo {
    /// A copy holds what the report holds.
    fn clone(&self) -> (copy: Self)
        ensures
            copy@ == self@,
    {
        proof {
            use_type_invariant(self);
        }
        let review_stats = self.review_stats.clone();
        let assignments = self.assignments.clone();
        let resets = self.resets.clone();
        assert(review_stats@ =~= self.review_stats@);
        assert(assignments@ =~= self.assignments@);
        assert(resets@ =~= self.resets@);
        CompleteUserInfo {
            user: self.user.clone(),
            review_stats,
            assignments,
            resets,
            id_to_subjects: self.id_to_subjects.clone(),
            kanji_learned: self.kanji_learned,
            radicals_learned: self.radicals_learned,
            vocab_learned: self.vocab_learned,
            kana_learned: self.kana_learned,
            kanji_stats: self.kanji_stats.clone(),
            radical_stats: self.radical_stats.clone(),
            vocab_stats: self.vocab_stats.clone(),
            kana_stats: self.kana_stats.clone(),
        }
    }
}

impl CompleteUserInfo {
    /// The counts and totals kept in the fields are those of the records,
    /// and every record refers to a resolved subject.
    #[verifier::type_invariant]
    closed spec fn well_formed(&self) -> bool {
        &&& self@.resolved()
        &&& self.kanji_learned == self@.learned(SubjectType::Kanji)
        &&& self.radicals_learned == self@.learned(SubjectType::Radical)
        &&& self.vocab_learned == self@.learned(SubjectType::Vocabulary)
        &&& self.kana_learned == self@.learned(SubjectType::KanaVocabulary)
        &&& self.kanji_stats.holds(SubjectType::Kanji, self@.stats(SubjectType::Kanji))
        &&& self.radical_stats.holds(SubjectType::Radical, self@.stats(SubjectType::Radical))
        &&& self.vocab_stats.holds(SubjectType::Vocabulary, self@.stats(SubjectType::Vocabulary))
        &&& self.kana_stats.holds(
            SubjectType::KanaVocabulary,
            self@.stats(SubjectType::KanaVocabulary),
        )
    }

    /// What the invariant gives for the fields: the counts and totals are
    /// those of the view, and sums of a few of them cannot overflow.
    proof fn lemma_fields_bounded(&self)
        requires
            self.well_formed(),
        ensures
            self.kana_learned + self.vocab_learned == self@.words_learned(),
            self.kana_learned + self.vocab_learned <= usize::MAX,
            self.kanji_stats.holds(SubjectType::Kanji, self@.stats(SubjectType::Kanji)),
            self.radical_stats.holds(SubjectType::Radical, self@.stats(SubjectType::Radical)),
            self.vocab_stats.holds(SubjectType::Vocabulary, self@.stats(SubjectType::Vocabulary)),
            self.kana_stats.holds(
                SubjectType::KanaVocabulary,
                self@.stats(SubjectType::KanaVocabulary),
            ),
            self@.stats(SubjectType::Kanji).within(0x8000_0000_0000_0000_0000_0000),
            self@.stats(SubjectType::Radical).within(0x8000_0000_0000_0000_0000_0000),
            self@.stats(SubjectType::Vocabulary).within(0x8000_0000_0000_0000_0000_0000),
            self@.stats(SubjectType::KanaVocabulary).within(0x8000_0000_0000_0000_0000_0000),
    {
        let records = self@.review_stats.len() as int;
        self@.lemma_bounded();
        assert(self@.review_stats.len() == self.review_stats.len());
        assert(self@.assignments.len() == self.assignments.len());
        assert(self@.stats(SubjectType::Kanji).within(0x8000_0000 * records));
        assert(self@.stats(SubjectType::Radical).within(0x8000_0000 * records));
        assert(self@.stats(SubjectType::Vocabulary).within(0x8000_0000 * records));
        assert(self@.stats(SubjectType::KanaVocabulary).within(0x8000_0000 * records));
    }

    /// Puts a report together from records and from the counts and totals
    /// computed over them.
    pub(crate) fn assemble(
        records: CompleteUserInfoBuilder,
        kanji_stats: SubjectTypeStats,
        radical_stats: SubjectTypeStats,
        vocab_stats: SubjectTypeStats,
        kana_stats: SubjectTypeStats,
        kanji_learned: usize,
        radicals_learned: usize,
        vocab_learned: usize,
        kana_learned: usize,
    ) -> (info: CompleteUserInfo)
        requires
            records.resolved(),
            kanji_stats.holds(SubjectType::Kanji, records.report().stats(SubjectType::Kanji)),
            radical_stats.holds(SubjectType::Radical, records.report().stats(SubjectType::Radical)),
            vocab_stats.holds(
                SubjectType::Vocabulary,
                records.report().stats(SubjectType::Vocabulary),
            ),
            kana_stats.holds(
                SubjectType::KanaVocabulary,
                records.report().stats(SubjectType::KanaVocabulary),
            ),
            kanji_learned == records.report().learned(SubjectType::Kanji),
            radicals_learned == records.report().learned(SubjectType::Radical),
            vocab_learned == records.report().learned(SubjectType::Vocabulary),
            kana_learned == records.report().learned(SubjectType::KanaVocabulary),
        ensures
            info@ == records.report(),
    {
        CompleteUserInfo {
            user: records.user,
            review_stats: records.review_stats,
            assignments: records.assignments,
            resets: records.resets,
            id_to_subjects: records.id_to_subjects,
            kana_stats,
            kanji_stats,
            radical_stats,
            vocab_stats,
            kana_learned,
            kanji_learned,
            radicals_learned,
            vocab_learned,
        }
    }

    /// The name of the account.
    pub fn get_user_name(&self) -> (name: &str)
        ensures
            name@ == self@.user.username@,
    {
        self.user.username.as_str()
    }

    /// The level the account has reached.
    pub fn get_level(&self) -> (level: i32)
        ensures
            level == self@.user.level,
    {
        self.user.level
    }

    /// How often the account was reset.
    pub fn get_num_of_resets(&self) -> (n: usize)
        ensures
            n == self@.resets.len(),
    {
        self.resets.len()
    }

    /// The confirmation of the latest reset, if the account was ever reset.
    pub fn get_date_of_most_recent_reset(&self) -> (latest: Option<&Timestamp>)
        ensures
            is_latest_confirmation(
                self@.resets,
                match latest {
                    Some(t) => Some(*t),
                    None => None,
                },
            ),
    {
        if self.resets.len() == 0 {
            return None;
        }
        let mut best: usize = 0;
        let mut i: usize = 1;
        while i < self.resets.len()
            invariant
                best < i <= self.resets@.len(),
                forall|j: int|
                    0 <= j < i ==> (#[trigger] self.resets@[j]).confirmed_at.not_after(
                        self.resets@[best as int].confirmed_at,
                    ),
            decreases self.resets@.len() - i,
        {
            if self.resets[best].confirmed_at.is_not_after(&self.resets[i].confirmed_at) {
                best = i;
            }
            i += 1;
        }
        Some(&self.resets[best].confirmed_at)
    }

    /// When the account was started.
    pub fn get_started_at(&self) -> (started: &Timestamp)
        ensures
            *started == self@.user.started_at,
    {
        &self.user.started_at
    }

    /// The number of kanji passed.
    pub fn get_kanji_learned(&self) -> (n: usize)
        ensures
            n == self@.learned(SubjectType::Kanji),
    {
        proof {
            use_type_invariant(self);
        }
        self.kanji_learned
    }

    /// The number of radicals passed.
    pub fn get_radicals_learned(&self) -> (n: usize)
        ensures
            n == self@.learned(SubjectType::Radical),
    {
        proof {
            use_type_invariant(self);
        }
        self.radicals_learned
    }

    /// The number of words passed, of both types together.
    pub fn get_vocab_learned(&self) -> (n: usize)
        ensures
            n == self@.words_learned(),
    {
        proof {
            use_type_invariant(self);
            self.lemma_fields_bounded();
        }
        self.kana_learned + self.vocab_learned
    }

    /// The right readings, of kanji and words.
    pub fn get_total_correct_reading_count(&self) -> (n: i128)
        ensures
            n == self@.total_correct_reading(),
    {
        proof {
            use_type_invariant(self);
            self.lemma_fields_bounded();
        }
        self.kanji_stats.num_of_reading_correct + self.vocab_stats.num_of_reading_correct
            + self.kana_stats.num_of_reading_correct
    }

    /// The right meanings, of all four types.
    pub fn get_total_correct_meaning_count(&self) -> (n: i128)
        ensures
            n == self@.total_correct_meaning(),
    {
        proof {
            use_type_invariant(self);
            self.lemma_fields_bounded();
        }
        self.kanji_stats.num_of_meaning_correct + self.vocab_stats.num_of_meaning_correct
            + self.kana_stats.num_of_meaning_correct + self.radical_stats.num_of_meaning_correct
    }

    /// The wrong readings, of kanji and words.
    pub fn get_total_incorrect_reading_count(&self) -> (n: i128)
        ensures
            n == self@.total_incorrect_reading(),
    {
        proof {
            use_type_invariant(self);
            self.lemma_fields_bounded();
        }
        self.kanji_stats.num_of_reading_incorrect + self.vocab_stats.num_of_reading_incorrect
            + self.kana_stats.num_of_reading_incorrect
    }

    /// The wrong meanings, of all four types.
    pub fn get_total_incorrect_meaning_count(&self) -> (n: i128)
        ensures
            n == self@.total_incorrect_meaning(),
    {
        proof {
            use_type_invariant(self);
            self.lemma_fields_bounded();
        }
        self.kanji_stats.num_of_meaning_incorrect + self.vocab_stats.num_of_meaning_incorrect
            + self.kana_stats.num_of_meaning_incorrect
            + self.radical_stats.num_of_meaning_incorrect
    }

    /// All readings, right and wrong.
    pub fn get_total_reading_count(&self) -> (n: i128)
        ensures
            n == self@.total_reading(),
    {
        proof {
            use_type_invariant(self);
            self.lemma_fields_bounded();
        }
        self.get_total_correct_reading_count() + self.get_total_incorrect_reading_count()
    }

    /// All meanings, right and wrong.
    pub fn get_total_meaning_count(&self) -> (n: i128)
        ensures
            n == self@.total_meaning(),
    {
        proof {
            use_type_invariant(self);
            self.lemma_fields_bounded();
        }
        self.get_total_correct_meaning_count() + self.get_total_incorrect_meaning_count()
    }

    /// All right answers.
    pub fn get_total_correct_count(&self) -> (n: i128)
        ensures
            n == self@.total_correct(),
    {
        proof {
            use_type_invariant(self);
            self.lemma_fields_bounded();
        }
        self.get_total_correct_meaning_count() + self.get_total_correct_reading_count()
    }

    /// All wrong answers.
    pub fn get_total_incorrect_count(&self) -> (n: i128)
        ensures
            n == self@.total_incorrect(),
    {
        proof {
            use_type_invariant(self);
            self.lemma_fields_bounded();
        }
        self.get_total_incorrect_meaning_count() + self.get_total_incorrect_reading_count()
    }

    /// All answers.
    pub fn get_total_count(&self) -> (n: i128)
        ensures
            n == self@.total(),
    {
        proof {
            use_type_invariant(self);
            self.lemma_fields_bounded();
        }
        self.get_total_reading_count() + self.get_total_meaning_count()
    }

    /// The share of right answers among all answers.
    pub fn get_total_accuracy(&self) -> (accuracy: Option<Ratio>)
        ensures
            is_share(accuracy, self@.total_correct(), self@.total()),
    {
        proof {
            use_type_invariant(self);
            self.lemma_fields_bounded();
        }
        let total_correct = self.get_total_correct_meaning_count()
            + self.get_total_correct_reading_count();

        share(total_correct, self.get_total_count())
    }

    /// The share of right readings among all readings.
    pub fn get_total_reading_accuracy(&self) -> (accuracy: Option<Ratio>)
        ensures
            is_share(accuracy, self@.total_correct_reading(), self@.total_reading()),
    {
        share(self.get_total_correct_reading_count(), self.get_total_reading_count())
    }

    /// The share of right meanings among all meanings.
    pub fn get_total_meaning_accuracy(&self) -> (accuracy: Option<Ratio>)
        ensures
            is_share(accuracy, self@.total_correct_meaning(), self@.total_meaning()),
    {
        share(self.get_total_correct_meaning_count(), self.get_total_meaning_count())
    }

    /// The share of right meanings among the meanings of radicals.
    pub fn get_radical_meaning_accuracy(&self) -> (accuracy: Option<Ratio>)
        ensures
            is_share(accuracy, self@.stats(SubjectType::Radical).meaning_correct, self@.radical_meaning()),
    {
        proof {
            use_type_invariant(self);
            self.lemma_fields_bounded();
        }
        let radical_count = self.radical_stats.num_of_meaning_correct
            + self.radical_stats.num_of_meaning_incorrect;

        share(self.radical_stats.num_of_meaning_correct, radical_count)
    }

    /// The share of right readings among the readings of kanji.
    pub fn get_kanji_reading_accuracy(&self) -> (accuracy: Option<Ratio>)
        ensures
            is_share(accuracy, self@.stats(SubjectType::Kanji).reading_correct, self@.kanji_reading()),
    {
        proof {
            use_type_invariant(self);
            self.lemma_fields_bounded();
        }
        let kanji_count = self.kanji_stats.num_of_reading_correct
            + self.kanji_stats.num_of_reading_incorrect;

        share(self.kanji_stats.num_of_reading_correct, kanji_count)
    }

    /// The share of right meanings among the meanings of kanji.
    pub fn get_kanji_meaning_accuracy(&self) -> (accuracy: Option<Ratio>)
        ensures
            is_share(accuracy, self@.stats(SubjectType::Kanji).meaning_correct, self@.kanji_meaning()),
    {
        proof {
            use_type_invariant(self);
            self.lemma_fields_bounded();
        }
        let kanji_count = self.kanji_stats.num_of_meaning_correct
            + self.kanji_stats.num_of_meaning_incorrect;

        share(self.kanji_stats.num_of_meaning_correct, kanji_count)
    }

    /// The share of right readings among the readings of words of both types.
    pub fn get_vocab_reading_accuracy(&self) -> (accuracy: Option<Ratio>)
        ensures
            is_share(accuracy, self@.words_reading_correct(), self@.words_reading()),
    {
        proof {
            use_type_invariant(self);
            self.lemma_fields_bounded();
        }
        let vocab_count = self.vocab_stats.num_of_reading_correct
            + self.vocab_stats.num_of_reading_incorrect + self.kana_stats.num_of_reading_correct
            + self.kana_stats.num_of_reading_incorrect;
        let vocab_correct = self.vocab_stats.num_of_reading_correct
            + self.kana_stats.num_of_reading_correct;

        share(vocab_correct, vocab_count)
    }

    /// The share of right meanings among the meanings of words of both types.
    pub fn get_vocab_meaning_accuracy(&self) -> (accuracy: Option<Ratio>)
        ensures
            is_share(accuracy, self@.words_meaning_correct(), self@.words_meaning()),
    {
        proof {
            use_type_invariant(self);
            self.lemma_fields_bounded();
        }
        let vocab_count = self.vocab_stats.num_of_meaning_correct
            + self.vocab_stats.num_of_meaning_incorrect + self.kana_stats.num_of_meaning_correct
            + self.kana_stats.num_of_meaning_incorrect;
        let vocab_correct = self.vocab_stats.num_of_meaning_correct
            + self.kana_stats.num_of_meaning_correct;

        share(vocab_correct, vocab_count)
    }

    /// The share of right answers among all answers on kanji.
    pub fn get_kanji_total_accuracy(&self) -> (accuracy: Option<Ratio>)
        ensures
            is_share(
                accuracy,
                self@.kanji_correct(),
                self@.kanji_meaning() + self@.kanji_reading(),
            ),
    {
        proof {
            use_type_invariant(self);
            self.lemma_fields_bounded();
        }
        let kanji_count = self.kanji_stats.num_of_meaning_correct
            + self.kanji_stats.num_of_meaning_incorrect + self.kanji_stats.num_of_reading_correct
            + self.kanji_stats.num_of_reading_incorrect;
        let kanji_correct = self.kanji_stats.num_of_meaning_correct
            + self.kanji_stats.num_of_reading_correct;

        share(kanji_correct, kanji_count)
    }

    /// The share of right answers among all answers on words of both types.
    pub fn get_vocab_total_accuracy(&self) -> (accuracy: Option<Ratio>)
        ensures
            is_share(
                accuracy,
                self@.words_meaning_correct() + self@.words_reading_correct(),
                self@.words_meaning() + self@.words_reading(),
            ),
    {
        proof {
            use_type_invariant(self);
            self.lemma_fields_bounded();
        }
        let vocab_count = self.vocab_stats.num_of_meaning_correct
            + self.vocab_stats.num_of_meaning_incorrect + self.vocab_stats.num_of_reading_correct
            + self.vocab_stats.num_of_reading_incorrect + self.kana_stats.num_of_meaning_correct
            + self.kana_stats.num_of_meaning_incorrect + self.kana_stats.num_of_reading_correct
            + self.kana_stats.num_of_reading_incorrect;
        let vocab_correct = self.vocab_stats.num_of_meaning_correct
            + self.vocab_stats.num_of_reading_correct + self.kana_stats.num_of_meaning_correct
            + self.kana_stats.num_of_reading_correct;

        share(vocab_correct, vocab_count)
    }
}

} // verus!
