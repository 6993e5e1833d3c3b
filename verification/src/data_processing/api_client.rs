//! The way from a credential to a report, one request at a time.
//!
//! The account comes first, then the review statistics, the assignments and
//! the resets, each page by page. Only then are the subjects known that the
//! records refer to: they are resolved in one batch, and the report is built
//! from all of it. Each stage names the request to send and takes its
//! outcome; the outcome decides whether the stage goes on, the next one
//! begins, or a failure ends it all.

use crate::data_processing::complete_user_info::ReportView;
use crate::data_processing::paged_fetch::{
    next_url, params_view, FetchError, FetchView, PagedFetch, Progress, QueryParam, Request,
    RequestView,
};
use crate::data_processing::resolver::{
    all_identified, all_types_known, comma_joined, construct_id_to_subject_hash,
    get_list_of_subjects_to_request, is_referenced, lemma_subject_index_domain,
    subject_ids_parameter, subject_index, unwrap_records, unwrapped,
};
use crate::data_processing::{
    Assignment, CompleteUserInfo, CompleteUserInfoBuilder, MissingSubjectError, PagedData, Reset,
    Response, ReviewStatistic, Subject, UnknownSubjectTypeError, User,
};
use vstd::prelude::*;

verus! {

/// Where the account is asked for.
pub const USER_URL: &'static str = "https://api.wanikani.com/v2/user";

/// Where the resets are fetched.
pub const RESETS_URL: &'static str = "https://api.wanikani.com/v2/resets";

/// Where the review statistics are fetched.
pub const REVIEW_STATS_URL: &'static str = "https://api.wanikani.com/v2/review_statistics";

/// Where the subjects are resolved.
pub const SUBJECT_URL: &'static str = "https://api.wanikani.com/v2/subjects";

/// Where the assignments are fetched.
pub const ASSIGNMENT_URL: &'static str = "https://api.wanikani.com/v2/assignments";

/// The name of the parameter that carries the subjects to resolve.
pub const IDS_PARAMETER: &'static str = "ids";

/// The bearer token of one account.
#[derive(Debug, Clone, PartialEq, Eq, Hash)]
pub struct Credential {
    pub token: String,
}

impl Credential {
    /// The credential with the bearer token `token`.
    pub fn new(token: String) -> (credential: Credential)
        ensures
            credential.token == token,
    {
        Credential { token }
    }

    /// The value of the authorization header that every request carries.
    pub fn authorization(&self) -> (value: String)
        ensures
            value@ == "Bearer "@ + self.token@,
    {
        let mut value = String::from_str("Bearer ");
        value.append(self.token.as_str());
        value
    }
}

/// Why no report could be built from the records that were fetched.
#[derive(Debug, Clone, Copy, PartialEq, Eq, Structural)]
pub enum BuildError {
    /// A resolved record carries a discriminator that names no subject type.
    UnknownSubjectType,
    /// A review statistic or an assignment refers to a subject that was not
    /// resolved.
    MissingSubject,
}

impl BuildError {
    /// The text this error is reported with.
    pub fn message(&self) -> (text: String)
        ensures
            text@ == (match *self {
                BuildError::UnknownSubjectType => "Unknown Subject Type"@,
                BuildError::MissingSubject => "Missing Subject"@,
            }),
    {
        match self {
            BuildError::UnknownSubjectType => UnknownSubjectTypeError.message(),
            BuildError::MissingSubject => MissingSubjectError.message(),
        }
    }
}

/// What the outcome of a request does to a stage: the stage goes on with a
/// further page, the next stage begins, or the failure ends it all. After a
/// failure nothing is left to go on with: no request is named, and what was
/// fetched is given up.
#[derive(Debug)]
pub enum Step<S, N> {
    Again(S),
    Next(N),
    Failed(FetchError),
}

/// The first stage: the account is asked for.
#[derive(Debug)]
pub struct ProfileStage;

/// The review statistics are being fetched.
#[derive(Debug)]
pub struct ReviewStatisticsStage {
    pub user: User,
    pub fetch: PagedFetch<ReviewStatistic>,
}

/// The assignments are being fetched.
#[derive(Debug)]
pub struct AssignmentsStage {
    pub user: User,
    pub review_stats: Vec<Response<ReviewStatistic>>,
    pub fetch: PagedFetch<Assignment>,
}

/// The resets are being fetched.
#[derive(Debug)]
pub struct ResetsStage {
    pub user: User,
    pub review_stats: Vec<Response<ReviewStatistic>>,
    pub assignments: Vec<Response<Assignment>>,
    pub fetch: PagedFetch<Reset>,
}

/// The subjects that the review statistics and the assignments refer to are
/// being resolved.
#[derive(Debug)]
pub struct SubjectsStage {
    pub user: User,
    pub review_stats: Vec<Response<ReviewStatistic>>,
    pub assignments: Vec<Response<Assignment>>,
    pub resets: Vec<Response<Reset>>,
    pub subject_ids: Vec<i32>,
    pub fetch: PagedFetch<Subject>,
}

/// Everything has been fetched.
#[derive(Debug)]
pub struct Collected {
    pub user: User,
    pub review_stats: Vec<Response<ReviewStatistic>>,
    pub assignments: Vec<Response<Assignment>>,
    pub resets: Vec<Response<Reset>>,
    pub subjects: Vec<Response<Subject>>,
}

/// No query parameters.
fn no_params() -> (params: Vec<QueryParam>)
    ensures
        params_view(params@) == Seq::<(Seq<char>, Seq<char>)>::empty(),
{
    let params: Vec<QueryParam> = Vec::new();
    assert(params_view(params@) =~= Seq::empty());
    params
}

impl ProfileStage {
    /// Where every build begins.
    pub fn new() -> ProfileStage {
        ProfileStage
    }

    /// The request for the account. It is answered by a single record, not
    /// by a page, and like every request it costs one permit of the budget
    /// that all requests share.
    pub fn request(&self) -> (request: Request)
        ensures
            request@ == (RequestView { url: USER_URL@, params: Seq::empty(), permits: 1 }),
    {
        Request { url: String::from_str(USER_URL), params: no_params(), permits: 1 }
    }

    /// Takes the outcome of the request for the account. With the account
    /// the fetch of the review statistics begins; a failure ends it all.
    pub fn on_profile(self, outcome: Result<Response<User>, FetchError>) -> (stage: Result<
        ReviewStatisticsStage,
        FetchError,
    >)
        ensures
            match outcome {
                Ok(profile) => {
                    &&& stage is Ok
                    &&& stage->Ok_0.user == profile.data
                    &&& stage->Ok_0.fetch@ == FetchView::<ReviewStatistic>::start(
                        REVIEW_STATS_URL@,
                        Seq::empty(),
                    )
                },
                Err(error) => stage is Err && stage->Err_0 == error,
            },
    {
        match outcome {
            Ok(profile) => Ok(
                ReviewStatisticsStage {
                    user: profile.data,
                    fetch: PagedFetch::new(String::from_str(REVIEW_STATS_URL), no_params()),
                },
            ),
            Err(error) => Err(error),
        }
    }
}

impl ReviewStatisticsStage {
    /// The request for the next page of review statistics.
    pub fn request(&self) -> (request: &Request)
        ensures
            self.fetch@.pending == Some(request@),
    {
        self.fetch.request()
    }

    /// Takes the outcome of the request for a page of review statistics.
    /// After the last page the fetch of the assignments begins.
    pub fn on_page(self, outcome: Result<PagedData<ReviewStatistic>, FetchError>) -> (step: Step<
        ReviewStatisticsStage,
        AssignmentsStage,
    >)
        ensures
            match step {
                Step::Again(stage) => {
                    &&& outcome matches Ok(page)
                    &&& next_url(page) is Some
                    &&& stage.user == self.user
                    &&& stage.fetch@ == self.fetch@.absorb(page)
                },
                Step::Next(stage) => {
                    &&& outcome matches Ok(page)
                    &&& next_url(page) is None
                    &&& stage.user == self.user
                    &&& stage.review_stats@ == self.fetch@.absorb(page).records
                    &&& stage.fetch@ == FetchView::<Assignment>::start(
                        ASSIGNMENT_URL@,
                        Seq::empty(),
                    )
                },
                Step::Failed(error) => outcome == Err::<PagedData<ReviewStatistic>, _>(error),
            },
    {
        match self.fetch.on_outcome(outcome) {
            Progress::Pending(fetch) => Step::Again(
                ReviewStatisticsStage { user: self.user, fetch },
            ),
            Progress::Complete(review_stats) => Step::Next(
                AssignmentsStage {
                    user: self.user,
                    review_stats,
                    fetch: PagedFetch::new(String::from_str(ASSIGNMENT_URL), no_params()),
                },
            ),
            Progress::Failed(error) => Step::Failed(error),
        }
    }
}

impl AssignmentsStage {
    /// The request for the next page of assignments.
    pub fn request(&self) -> (request: &Request)
        ensures
            self.fetch@.pending == Some(request@),
    {
        self.fetch.request()
    }

    /// Takes the outcome of the request for a page of assignments. After the
    /// last page the fetch of the resets begins.
    pub fn on_page(self, outcome: Result<PagedData<Assignment>, FetchError>) -> (step: Step<
        AssignmentsStage,
        ResetsStage,
    >)
        ensures
            match step {
                Step::Again(stage) => {
                    &&& outcome matches Ok(page)
                    &&& next_url(page) is Some
                    &&& stage.user == self.user
                    &&& stage.review_stats == self.review_stats
                    &&& stage.fetch@ == self.fetch@.absorb(page)
                },
                Step::Next(stage) => {
                    &&& outcome matches Ok(page)
                    &&& next_url(page) is None
                    &&& stage.user == self.user
                    &&& stage.review_stats == self.review_stats
                    &&& stage.assignments@ == self.fetch@.absorb(page).records
                    &&& stage.fetch@ == FetchView::<Reset>::start(RESETS_URL@, Seq::empty())
                },
                Step::Failed(error) => outcome == Err::<PagedData<Assignment>, _>(error),
            },
    {
        match self.fetch.on_outcome(outcome) {
            Progress::Pending(fetch) => Step::Again(
                AssignmentsStage { user: self.user, review_stats: self.review_stats, fetch },
            ),
            Progress::Complete(assignments) => Step::Next(
                ResetsStage {
                    user: self.user,
                    review_stats: self.review_stats,
                    assignments,
                    fetch: PagedFetch::new(String::from_str(RESETS_URL), no_params()),
                },
            ),
            Progress::Failed(error) => Step::Failed(error),
        }
    }
}

impl ResetsStage {
    /// The request for the next page of resets.
    pub fn request(&self) -> (request: &Request)
        ensures
            self.fetch@.pending == Some(request@),
    {
        self.fetch.request()
    }

    /// Takes the outcome of the request for a page of resets. After the last
    /// page the subjects to resolve are known: each subject that a review
    /// statistic or an assignment refers to, once. They are asked for in one
    /// batch, named by one parameter.
    pub fn on_page(self, outcome: Result<PagedData<Reset>, FetchError>) -> (step: Step<
        ResetsStage,
        SubjectsStage,
    >)
        ensures
            match step {
                Step::Again(stage) => {
                    &&& outcome matches Ok(page)
                    &&& next_url(page) is Some
                    &&& stage.user == self.user
                    &&& stage.review_stats == self.review_stats
                    &&& stage.assignments == self.assignments
                    &&& stage.fetch@ == self.fetch@.absorb(page)
                },
                Step::Next(stage) => {
                    &&& outcome matches Ok(page)
                    &&& next_url(page) is None
                    &&& stage.user == self.user
                    &&& stage.review_stats == self.review_stats
                    &&& stage.assignments == self.assignments
                    &&& stage.resets@ == self.fetch@.absorb(page).records
                    &&& stage.subject_ids@.no_duplicates()
                    &&& forall|id: i32|
                        stage.subject_ids@.contains(id) <==> is_referenced(
                            self.review_stats@,
                            self.assignments@,
                            id,
                        )
                    &&& stage.fetch@ == FetchView::<Subject>::start(
                        SUBJECT_URL@,
                        seq![(IDS_PARAMETER@, comma_joined(stage.subject_ids@))],
                    )
                },
                Step::Failed(error) => outcome == Err::<PagedData<Reset>, _>(error),
            },
    {
        match self.fetch.on_outcome(outcome) {
            Progress::Pending(fetch) => Step::Again(
                ResetsStage {
                    user: self.user,
                    review_stats: self.review_stats,
                    assignments: self.assignments,
                    fetch,
                },
            ),
            Progress::Complete(resets) => {
                let subject_ids = get_list_of_subjects_to_request(
                    &self.review_stats,
                    &self.assignments,
                );
                let mut params: Vec<QueryParam> = Vec::new();
                params.push(
                    QueryParam {
                        name: String::from_str(IDS_PARAMETER),
                        value: subject_ids_parameter(subject_ids.as_slice()),
                    },
                );
                assert(params_view(params@) =~= seq![
                    (IDS_PARAMETER@, comma_joined(subject_ids@)),
                ]);
                Step::Next(
                    SubjectsStage {
                        user: self.user,
                        review_stats: self.review_stats,
                        assignments: self.assignments,
                        resets,
                        subject_ids,
                        fetch: PagedFetch::new(String::from_str(SUBJECT_URL), params),
                    },
                )
            },
            Progress::Failed(error) => Step::Failed(error),
        }
    }
}

impl SubjectsStage {
    /// The request for the next page of subjects.
    pub fn request(&self) -> (request: &Request)
        ensures
            self.fetch@.pending == Some(request@),
    {
        self.fetch.request()
    }

    /// Takes the outcome of the request for a page of subjects. After the
    /// last page everything is there.
    pub fn on_page(self, outcome: Result<PagedData<Subject>, FetchError>) -> (step: Step<
        SubjectsStage,
        Collected,
    >)
        ensures
            match step {
                Step::Again(stage) => {
                    &&& outcome matches Ok(page)
                    &&& next_url(page) is Some
                    &&& stage.user == self.user
                    &&& stage.review_stats == self.review_stats
                    &&& stage.assignments == self.assignments
                    &&& stage.resets == self.resets
                    &&& stage.subject_ids == self.subject_ids
                    &&& stage.fetch@ == self.fetch@.absorb(page)
                },
                Step::Next(collected) => {
                    &&& outcome matches Ok(page)
                    &&& next_url(page) is None
                    &&& collected.user == self.user
                    &&& collected.review_stats == self.review_stats
                    &&& collected.assignments == self.assignments
                    &&& collected.resets == self.resets
                    &&& collected.subjects@ == self.fetch@.absorb(page).records
                },
                Step::Failed(error) => outcome == Err::<PagedData<Subject>, _>(error),
            },
    {
        match self.fetch.on_outcome(outcome) {
            Progress::Pending(fetch) => Step::Again(
                SubjectsStage {
                    user: self.user,
                    review_stats: self.review_stats,
                    assignments: self.assignments,
                    resets: self.resets,
                    subject_ids: self.subject_ids,
                    fetch,
                },
            ),
            Progress::Complete(subjects) => Step::Next(
                Collected {
                    user: self.user,
                    review_stats: self.review_stats,
                    assignments: self.assignments,
                    resets: self.resets,
                    subjects,
                },
            ),
            Progress::Failed(error) => Step::Failed(error),
        }
    }
}

/// Where the answer holds a record for every subject that a review statistic
/// or an assignment refers to, every record of the report refers to a
/// resolved subject: no subject will be missing when the report is built.
pub proof fn lemma_resolved_when_all_answered(collected: Collected)
    requires
        forall|id: i32|
            is_referenced(collected.review_stats@, collected.assignments@, id) ==> exists|k: int|
                0 <= k < collected.subjects@.len() && (#[trigger] collected.subjects@[k]).id
                    == Some(id),
    ensures
        collected.report().resolved(),
{
    let report = collected.report();
    assert forall|i: int| 0 <= i < report.review_stats.len() implies report.subjects.contains_key(
        #[trigger] report.review_stats[i].subject_id,
    ) by {
        let id = report.review_stats[i].subject_id;
        assert(collected.review_stats@[i].data.subject_id == id);
        assert(is_referenced(collected.review_stats@, collected.assignments@, id));
        let k = choose|k: int|
            0 <= k < collected.subjects@.len() && (#[trigger] collected.subjects@[k]).id == Some(
                id,
            );
        assert(collected.subjects@[k].id.unwrap() == id);
        lemma_subject_index_domain(collected.subjects@, id);
    }
    assert forall|j: int| 0 <= j < report.assignments.len() implies report.subjects.contains_key(
        #[trigger] report.assignments[j].subject_id,
    ) by {
        let id = report.assignments[j].subject_id;
        assert(collected.assignments@[j].data.subject_id == id);
        assert(is_referenced(collected.review_stats@, collected.assignments@, id));
        let k = choose|k: int|
            0 <= k < collected.subjects@.len() && (#[trigger] collected.subjects@[k]).id == Some(
                id,
            );
        assert(collected.subjects@[k].id.unwrap() == id);
        lemma_subject_index_domain(collected.subjects@, id);
    }
}

impl Collected {
    /// The report that the fetched records give: the records without their
    /// envelopes, and the resolved subjects by identifier.
    pub open spec fn report(self) -> ReportView {
        ReportView {
            user: self.user,
            review_stats: unwrapped(self.review_stats@),
            assignments: unwrapped(self.assignments@),
            resets: unwrapped(self.resets@),
            subjects: subject_index(self.subjects@),
        }
    }

    /// Builds the report. It fails if the discriminator of a resolved record
    /// names no subject type, and if a review statistic or an assignment
    /// refers to a subject that was not resolved. Every resolved record has
    /// to carry its identifier.
    pub fn build_complete_user_info(self) -> (built: Result<CompleteUserInfo, BuildError>)
        requires
            all_identified(self.subjects@),
        ensures
            match built {
                Ok(info) => {
                    &&& all_types_known(self.subjects@)
                    &&& self.report().resolved()
                    &&& info@ == self.report()
                },
                Err(BuildError::UnknownSubjectType) => !all_types_known(self.subjects@),
                Err(BuildError::MissingSubject) => {
                    &&& all_types_known(self.subjects@)
                    &&& !self.report().resolved()
                },
            },
    {
        let hashy = match construct_id_to_subject_hash(self.subjects) {
            Ok(hashy) => hashy,
            Err(_) => {
                return Err(BuildError::UnknownSubjectType);
            },
        };

        let builder = CompleteUserInfoBuilder::new(
            self.user,
            unwrap_records(self.review_stats),
            unwrap_records(self.assignments),
            unwrap_records(self.resets),
            hashy,
        );

        match builder.build() {
            Ok(info) => Ok(info),
            Err(_) => Err(BuildError::MissingSubject),
        }
    }
}

} // verus!
