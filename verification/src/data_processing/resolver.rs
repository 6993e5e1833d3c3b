//! From the fetched records to the resolved subjects: which subjects have to
//! be asked for, how the request names them, and what the answer is turned
//! into.

use crate::data_processing::decimal::{append_decimal, decimal};
use crate::data_processing::{
    Assignment, Response, ReviewStatistic, Subject, SubjectType, SubjectWithType,
    UnknownSubjectTypeError,
};
use std::collections::HashMap;
use std::collections::HashSet;
use vstd::prelude::*;

verus! {

/// Whether a review statistic or an assignment refers to the subject `id`.
pub open spec fn is_referenced(
    review_stats: Seq<Response<ReviewStatistic>>,
    assignments: Seq<Response<Assignment>>,
    id: i32,
) -> bool {
    ||| exists|i: int|
        0 <= i < review_stats.len() && (#[trigger] review_stats[i]).data.subject_id == id
    ||| exists|j: int|
        0 <= j < assignments.len() && (#[trigger] assignments[j]).data.subject_id == id
}

/// One more review statistic refers to its own subject, and to no other.
proof fn lemma_referenced_by_one_more_review(
    review_stats: Seq<Response<ReviewStatistic>>,
    assignments: Seq<Response<Assignment>>,
    id: i32,
)
    requires
        review_stats.len() > 0,
    ensures
        is_referenced(review_stats, assignments, id) <==> is_referenced(
            review_stats.drop_last(),
            assignments,
            id,
        ) || review_stats.last().data.subject_id == id,
{
    let front = review_stats.drop_last();
    if exists|i: int| 0 <= i < review_stats.len() && (#[trigger] review_stats[i]).data.subject_id
        == id {
        let i = choose|i: int|
            0 <= i < review_stats.len() && (#[trigger] review_stats[i]).data.subject_id == id;
        if i < front.len() {
            assert(front[i].data.subject_id == id);
        }
    }
    if exists|i: int| 0 <= i < front.len() && (#[trigger] front[i]).data.subject_id == id {
        let i = choose|i: int| 0 <= i < front.len() && (#[trigger] front[i]).data.subject_id == id;
        assert(review_stats[i].data.subject_id == id);
    }
    if review_stats.last().data.subject_id == id {
        assert(review_stats[review_stats.len() - 1].data.subject_id == id);
    }
}

/// One more assignment refers to its own subject, and to no other.
proof fn lemma_referenced_by_one_more_assignment(
    review_stats: Seq<Response<ReviewStatistic>>,
    assignments: Seq<Response<Assignment>>,
    id: i32,
)
    requires
        assignments.len() > 0,
    ensures
        is_referenced(review_stats, assignments, id) <==> is_referenced(
            review_stats,
            assignments.drop_last(),
            id,
        ) || assignments.last().data.subject_id == id,
{
    let front = assignments.drop_last();
    if exists|j: int| 0 <= j < assignments.len() && (#[trigger] assignments[j]).data.subject_id
        == id {
        let j = choose|j: int|
            0 <= j < assignments.len() && (#[trigger] assignments[j]).data.subject_id == id;
        if j < front.len() {
            assert(front[j].data.subject_id == id);
        }
    }
    if exists|j: int| 0 <= j < front.len() && (#[trigger] front[j]).data.subject_id == id {
        let j = choose|j: int| 0 <= j < front.len() && (#[trigger] front[j]).data.subject_id == id;
        assert(assignments[j].data.subject_id == id);
    }
    if assignments.last().data.subject_id == id {
        assert(assignments[assignments.len() - 1].data.subject_id == id);
    }
}

/// Appends `id` to `ids` unless `ids` holds it already. `seen` holds the
/// identifiers of `ids`, before and after.
fn add_once(seen: &mut HashSet<i32>, ids: &mut Vec<i32>, id: i32)
    requires
        old(ids)@.no_duplicates(),
        forall|other: i32| old(seen)@.contains(other) <==> old(ids)@.contains(other),
    ensures
        final(ids)@.no_duplicates(),
        forall|other: i32| final(seen)@.contains(other) <==> final(ids)@.contains(other),
        forall|other: i32|
            final(ids)@.contains(other) <==> old(ids)@.contains(other) || other == id,
{
    if seen.insert(id) {
        ids.push(id);
        proof {
            assert(ids@.last() == id);
            assert forall|other: i32| ids@.contains(other) <==> old(ids)@.contains(other) || other
                == id by {
                if old(ids)@.contains(other) {
                    let at = choose|at: int| 0 <= at < old(ids)@.len() && old(ids)@[at] == other;
                    assert(ids@[at] == other);
                }
                if ids@.contains(other) && other != id {
                    let at = choose|at: int| 0 <= at < ids@.len() && ids@[at] == other;
                    assert(old(ids)@[at] == other);
                }
            }
        }
    }
}

/// The subjects to resolve: each subject that a review statistic or an
/// assignment refers to, once, however many records refer to it.
pub fn get_list_of_subjects_to_request(
    review_stats: &Vec<Response<ReviewStatistic>>,
    assignment_stats: &Vec<Response<Assignment>>,
) -> (ids: Vec<i32>)
    ensures
        ids@.no_duplicates(),
        forall|id: i32| ids@.contains(id) <==> is_referenced(review_stats@, assignment_stats@, id),
{
    let mut seen: HashSet<i32> = HashSet::new();
    let mut result: Vec<i32> = Vec::new();
    let ghost none = Seq::<Response<Assignment>>::empty();

    let mut i: usize = 0;
    while i < review_stats.len()
        invariant
            i <= review_stats@.len(),
            none.len() == 0,
            result@.no_duplicates(),
            forall|id: i32| seen@.contains(id) <==> result@.contains(id),
            forall|id: i32|
                result@.contains(id) <==> is_referenced(review_stats@.take(i as int), none, id),
        decreases review_stats@.len() - i,
    {
        add_once(&mut seen, &mut result, review_stats[i].data.subject_id);
        proof {
            assert(review_stats@.take(i + 1).drop_last() =~= review_stats@.take(i as int));
            assert forall|id: i32|
                result@.contains(id) <==> is_referenced(review_stats@.take(i + 1), none, id) by {
                lemma_referenced_by_one_more_review(review_stats@.take(i + 1), none, id);
            }
        }
        i += 1;
    }
    proof {
        assert(review_stats@.take(i as int) =~= review_stats@);
        assert(assignment_stats@.take(0) =~= none);
    }

    let mut j: usize = 0;
    while j < assignment_stats.len()
        invariant
            j <= assignment_stats@.len(),
            result@.no_duplicates(),
            forall|id: i32| seen@.contains(id) <==> result@.contains(id),
            forall|id: i32|
                result@.contains(id) <==> is_referenced(
                    review_stats@,
                    assignment_stats@.take(j as int),
                    id,
                ),
        decreases assignment_stats@.len() - j,
    {
        add_once(&mut seen, &mut result, assignment_stats[j].data.subject_id);
        proof {
            assert(assignment_stats@.take(j + 1).drop_last() =~= assignment_stats@.take(j as int));
            assert forall|id: i32|
                result@.contains(id) <==> is_referenced(
                    review_stats@,
                    assignment_stats@.take(j + 1),
                    id,
                ) by {
                lemma_referenced_by_one_more_assignment(
                    review_stats@,
                    assignment_stats@.take(j + 1),
                    id,
                );
            }
        }
        j += 1;
    }
    proof {
        assert(assignment_stats@.take(j as int) =~= assignment_stats@);
    }

    result
}

/// The identifiers in decimal, in their order, with a comma between each two.
pub open spec fn comma_joined(ids: Seq<i32>) -> Seq<char>
    decreases ids.len(),
{
    if ids.len() == 0 {
        Seq::empty()
    } else if ids.len() == 1 {
        decimal(ids[0] as int)
    } else {
        comma_joined(ids.drop_last()) + seq![','] + decimal(ids.last() as int)
    }
}

/// The value of the parameter that names the subjects to resolve.
pub fn subject_ids_parameter(subject_list: &[i32]) -> (value: String)
    ensures
        value@ == comma_joined(subject_list@),
{
    let mut value = String::new();
    let mut i: usize = 0;
    while i < subject_list.len()
        invariant
            i <= subject_list@.len(),
            value@ == comma_joined(subject_list@.take(i as int)),
        decreases subject_list@.len() - i,
    {
        proof {
            reveal_strlit(",");
            assert(subject_list@.take(i + 1).drop_last() =~= subject_list@.take(i as int));
        }
        if i > 0 {
            value.append(",");
        }
        append_decimal(&mut value, subject_list[i]);
        i += 1;
    }
    proof {
        assert(subject_list@.take(i as int) =~= subject_list@);
    }
    value
}

impl SubjectType {
    /// The subject type that the discriminator `object` names, if it names
    /// one.
    pub open spec fn of_discriminator(object: Seq<char>) -> Option<SubjectType> {
        if object == "radical"@ {
            Some(SubjectType::Radical)
        } else if object == "kanji"@ {
            Some(SubjectType::Kanji)
        } else if object == "vocabulary"@ {
            Some(SubjectType::Vocabulary)
        } else if object == "kana_vocabulary"@ {
            Some(SubjectType::KanaVocabulary)
        } else {
            None
        }
    }

    /// Exec counterpart of [`SubjectType::of_discriminator`].
    pub fn from_discriminator(object: &str) -> (subject_type: Option<SubjectType>)
        ensures
            subject_type == SubjectType::of_discriminator(object@),
    {
        let object = String::from_str(object);
        if object == String::from_str("radical") {
            Some(SubjectType::Radical)
        } else if object == String::from_str("kanji") {
            Some(SubjectType::Kanji)
        } else if object == String::from_str("vocabulary") {
            Some(SubjectType::Vocabulary)
        } else if object == String::from_str("kana_vocabulary") {
            Some(SubjectType::KanaVocabulary)
        } else {
            None
        }
    }
}

impl SubjectWithType {
    /// Pairs a subject with its type.
    pub fn new(subject: Subject, subject_type: SubjectType) -> (paired: Self)
        ensures
            paired.subject == subject,
            paired.subject_type == subject_type,
    {
        SubjectWithType { subject, subject_type }
    }
}

/// Whether every record carries an identifier.
pub open spec fn all_identified(records: Seq<Response<Subject>>) -> bool {
    forall|i: int| 0 <= i < records.len() ==> (#[trigger] records[i]).id is Some
}

/// Whether the discriminator of every record names a subject type.
pub open spec fn all_types_known(records: Seq<Response<Subject>>) -> bool {
    forall|i: int|
        0 <= i < records.len() ==> SubjectType::of_discriminator((#[trigger] records[i]).object@)
            is Some
}

/// What a resolved record says: the subject with the type that its
/// discriminator names.
pub open spec fn typed(record: Response<Subject>) -> SubjectWithType {
    SubjectWithType {
        subject: record.data,
        subject_type: SubjectType::of_discriminator(record.object@).unwrap(),
    }
}

/// The subjects by identifier. Where two records carry one identifier, the
/// later record stands.
pub open spec fn subject_index(records: Seq<Response<Subject>>) -> Map<i32, SubjectWithType>
    decreases records.len(),
{
    if records.len() == 0 {
        Map::empty()
    } else {
        subject_index(records.drop_last()).insert(
            records.last().id.unwrap(),
            typed(records.last()),
        )
    }
}

/// The index holds exactly the identifiers of the records.
pub proof fn lemma_subject_index_domain(records: Seq<Response<Subject>>, id: i32)
    ensures
        subject_index(records).contains_key(id) <==> exists|i: int|
            0 <= i < records.len() && (#[trigger] records[i]).id.unwrap() == id,
    decreases records.len(),
{
    if records.len() > 0 {
        let front = records.drop_last();
        lemma_subject_index_domain(front, id);
        if subject_index(records).contains_key(id) {
            if records.last().id.unwrap() == id {
                assert(records[records.len() - 1].id.unwrap() == id);
            } else {
                let i = choose|i: int|
                    0 <= i < front.len() && (#[trigger] front[i]).id.unwrap() == id;
                assert(records[i] == front[i]);
            }
        }
        if exists|i: int| 0 <= i < records.len() && (#[trigger] records[i]).id.unwrap() == id {
            let i = choose|i: int|
                0 <= i < records.len() && (#[trigger] records[i]).id.unwrap() == id;
            if i < front.len() {
                assert(front[i] == records[i]);
            }
        }
    }
}

/// Under an identifier the index holds what the last record with that
/// identifier says.
pub proof fn lemma_subject_index_lookup(records: Seq<Response<Subject>>, i: int)
    requires
        all_identified(records),
        0 <= i < records.len(),
        forall|j: int| i < j < records.len() ==> (#[trigger] records[j]).id != records[i].id,
    ensures
        subject_index(records).contains_key(records[i].id.unwrap()),
        subject_index(records)[records[i].id.unwrap()] == typed(records[i]),
    decreases records.len(),
{
    if i < records.len() - 1 {
        let front = records.drop_last();
        assert(front[i] == records[i]);
        assert forall|j: int| 0 <= j < front.len() implies (#[trigger] front[j]).id is Some by {
            assert(front[j] == records[j]);
        }
        assert forall|j: int| i < j < front.len() implies (#[trigger] front[j]).id
            != front[i].id by {
            assert(front[j] == records[j]);
        }
        lemma_subject_index_lookup(front, i);
        assert(records[records.len() - 1].id != records[i].id);
    }
}

/// Turns the resolved records into the subjects by identifier, or fails if
/// the discriminator of a record names no subject type. Every record has to
/// carry its identifier.
pub fn construct_id_to_subject_hash(all_subjects: Vec<Response<Subject>>) -> (indexed: Result<
    HashMap<i32, SubjectWithType>,
    UnknownSubjectTypeError,
>)
    requires
        all_identified(all_subjects@),
    ensures
        match indexed {
            Ok(subjects) => all_types_known(all_subjects@) && subjects@ == subject_index(
                all_subjects@,
            ),
            Err(_) => !all_types_known(all_subjects@),
        },
{
    let mut result: HashMap<i32, SubjectWithType> = HashMap::new();
    let ghost records = all_subjects@;

    for response in it: all_subjects
        invariant
            it.seq() == records,
            all_identified(records),
            all_types_known(records.take(it.index() as int)),
            result@ == subject_index(records.take(it.index() as int)),
    {
        let ghost done = it.index() as int;
        proof {
            assert(records.take(done + 1).drop_last() =~= records.take(done));
            assert(records.take(done + 1).last() == records[done]);
            assert(records[done].id is Some);
        }
        let subject_type = match SubjectType::from_discriminator(response.object.as_str()) {
            Some(subject_type) => subject_type,
            None => {
                return Err(UnknownSubjectTypeError);
            },
        };
        result.insert(response.id.unwrap(), SubjectWithType::new(response.data, subject_type));
        proof {
            assert forall|k: int| 0 <= k < done + 1 implies SubjectType::of_discriminator(
                (#[trigger] records.take(done + 1)[k]).object@,
            ) is Some by {
                if k < done {
                    assert(records.take(done)[k] == records.take(done + 1)[k]);
                }
            }
            assert(result@ =~= subject_index(records.take(done + 1)));
        }
    }
    proof {
        assert(records.take(records.len() as int) =~= records);
    }
    Ok(result)
}

/// The records without their envelopes, in their order.
pub open spec fn unwrapped<T>(responses: Seq<Response<T>>) -> Seq<T> {
    Seq::new(responses.len(), |i: int| responses[i].data)
}

/// Takes the records out of their envelopes.
pub fn unwrap_records<T>(responses: Vec<Response<T>>) -> (records: Vec<T>)
    ensures
        records@ == unwrapped(responses@),
{
    let mut records: Vec<T> = Vec::new();
    let ghost all = responses@;
    for response in it: responses
        invariant
            it.seq() == all,
            records@ == unwrapped(all.take(it.index() as int)),
    {
        records.push(response.data);
        assert(records@ =~= unwrapped(all.take(it.index() + 1)));
    }
    proof {
        assert(all.take(all.len() as int) =~= all);
    }
    records
}

} // verus!
