use std::collections::HashMap;
use wanikani_stats::data_processing::api_client::{
    BuildError, Collected, Credential, ProfileStage, Step, ASSIGNMENT_URL, RESETS_URL,
    REVIEW_STATS_URL, SUBJECT_URL, USER_URL,
};
use wanikani_stats::data_processing::complete_user_info::Ratio;
use wanikani_stats::data_processing::paged_fetch::{FetchError, PagedFetch, Progress, QueryParam};
use wanikani_stats::data_processing::resolver::{
    construct_id_to_subject_hash, get_list_of_subjects_to_request, subject_ids_parameter,
    unwrap_records,
};
use wanikani_stats::data_processing::timestamp::Timestamp;
use wanikani_stats::data_processing::{
    Assignment, Meanings, PageData, PagedData, Reset, Response, ReviewStatistic, Subject,
    SubjectType, SubjectWithType, User,
};

fn page_of<T>(records: Vec<(Option<i32>, &str, T)>, next_url: Option<&str>) -> PagedData<T> {
    PagedData {
        pages: Some(PageData {
            per_page: 500,
            next_url: next_url.map(|url| url.to_string()),
            previous_url: None,
        }),
        total_count: 0,
        data: records
            .into_iter()
            .map(|(id, object, data)| Response {
                id,
                object: object.to_string(),
                data,
            })
            .collect(),
    }
}

fn review(subject_id: i32) -> ReviewStatistic {
    ReviewStatistic {
        created_at: Timestamp::new(1_696_161_600, 0),
        meaning_correct: 50,
        meaning_current_streak: 5,
        meaning_incorrect: 10,
        meaning_max_streak: 10,
        percentage_correct: 80,
        reading_correct: 40,
        reading_current_streak: 3,
        reading_incorrect: 5,
        reading_max_streak: 8,
        subject_id,
        subject_type: String::new(),
    }
}

fn assignment(subject_id: i32, passed: bool) -> Assignment {
    Assignment {
        created_at: None,
        passed_at: if passed {
            Some(Timestamp::new(1_696_248_000, 0))
        } else {
            None
        },
        srs_stage: 5,
        subject_id,
    }
}

fn reset(confirmed_at: i64) -> Reset {
    Reset {
        created_at: Timestamp::new(confirmed_at - 60, 0),
        confirmed_at: Timestamp::new(confirmed_at, 0),
        original_level: 10,
        target_level: 5,
    }
}

fn subject(characters: &str) -> Subject {
    Subject {
        characters: Some(characters.to_string()),
        level: 5,
        spaced_repetition_system_id: 1,
        meanings: vec![Meanings {
            meaning: Some("one".to_string()),
            primary: true,
        }],
    }
}

fn reviews_of(ids: &[i32]) -> Vec<Response<ReviewStatistic>> {
    ids.iter()
        .map(|id| Response {
            id: Some(1000 + id),
            object: "review_statistic".to_string(),
            data: review(*id),
        })
        .collect()
}

fn assignments_of(ids: &[i32]) -> Vec<Response<Assignment>> {
    ids.iter()
        .map(|id| Response {
            id: Some(2000 + id),
            object: "assignment".to_string(),
            data: assignment(*id, true),
        })
        .collect()
}

fn subject_record(id: i32, object: &str, characters: &str) -> Response<Subject> {
    Response {
        id: Some(id),
        object: object.to_string(),
        data: subject(characters),
    }
}

fn params_of(params: &[QueryParam]) -> Vec<(String, String)> {
    params
        .iter()
        .map(|param| (param.name.clone(), param.value.clone()))
        .collect()
}

#[test]
fn test_three_pages_are_three_requests_and_three_permits() {
    let fetch: PagedFetch<i32> = PagedFetch::new(
        "https://example.org/numbers".to_string(),
        vec![QueryParam {
            name: "ids".to_string(),
            value: "1,2".to_string(),
        }],
    );
    let mut permits = 0;

    assert_eq!(fetch.request().url, "https://example.org/numbers");
    assert_eq!(
        params_of(&fetch.request().params),
        vec![("ids".to_string(), "1,2".to_string())]
    );
    permits += fetch.request().permits;
    let progress = fetch.on_page(page_of(
        vec![(Some(1), "number", 10), (Some(2), "number", 20)],
        Some("https://example.org/numbers?page_after_id=2&ids=1,2"),
    ));

    let fetch = match progress {
        Progress::Pending(fetch) => fetch,
        _ => panic!("the first page names a next page"),
    };
    assert_eq!(
        fetch.request().url,
        "https://example.org/numbers?page_after_id=2&ids=1,2"
    );
    assert!(fetch.request().params.is_empty());
    permits += fetch.request().permits;
    let progress = fetch.on_page(page_of(
        vec![],
        Some("https://example.org/numbers?page_after_id=3"),
    ));

    let fetch = match progress {
        Progress::Pending(fetch) => fetch,
        _ => panic!("the second page names a next page"),
    };
    assert_eq!(
        fetch.request().url,
        "https://example.org/numbers?page_after_id=3"
    );
    assert!(fetch.request().params.is_empty());
    permits += fetch.request().permits;
    let progress = fetch.on_page(page_of(vec![(None, "number", 30)], None));

    let records = match progress {
        Progress::Complete(records) => records,
        _ => panic!("the third page names no next page"),
    };
    assert_eq!(permits, 3);
    assert_eq!(
        records
            .iter()
            .map(|record| (record.id, record.object.as_str(), record.data))
            .collect::<Vec<_>>(),
        vec![
            (Some(1), "number", 10),
            (Some(2), "number", 20),
            (None, "number", 30)
        ]
    );
}

#[test]
fn test_single_page_completes_at_once() {
    let fetch: PagedFetch<i32> = PagedFetch::new("https://example.org/one".to_string(), vec![]);

    assert_eq!(fetch.request().permits, 1);
    assert!(fetch.request().params.is_empty());
    match fetch.on_page(page_of(vec![(Some(7), "number", 70)], None)) {
        Progress::Complete(records) => {
            assert_eq!(records.len(), 1);
            assert_eq!(records[0].data, 70);
        }
        _ => panic!("the page names no next page"),
    }
}

#[test]
fn test_page_without_paging_block_is_the_last() {
    let fetch: PagedFetch<i32> = PagedFetch::new("https://example.org/one".to_string(), vec![]);
    let page = PagedData {
        pages: None,
        total_count: 1,
        data: vec![Response {
            id: None,
            object: "number".to_string(),
            data: 5,
        }],
    };

    assert!(matches!(fetch.on_page(page), Progress::Complete(records) if records.len() == 1));
}

#[test]
fn test_previous_url_is_not_followed() {
    let fetch: PagedFetch<i32> = PagedFetch::new("https://example.org/one".to_string(), vec![]);
    let page = PagedData {
        pages: Some(PageData {
            per_page: 1,
            next_url: None,
            previous_url: Some("https://example.org/one?page_before_id=1".to_string()),
        }),
        total_count: 1,
        data: vec![],
    };

    assert!(matches!(fetch.on_page(page), Progress::Complete(records) if records.is_empty()));
}

#[test]
fn test_subjects_to_request_are_deduplicated() {
    let review_stats = reviews_of(&[1, 2, 3]);
    let assignments = assignments_of(&[2, 3, 4]);

    let mut ids = get_list_of_subjects_to_request(&review_stats, &assignments);
    ids.sort();

    assert_eq!(ids, vec![1, 2, 3, 4]);
}

#[test]
fn test_subjects_referenced_many_times_are_requested_once() {
    let review_stats = reviews_of(&[3, 3, 1, 3, 1]);
    let assignments = assignments_of(&[1, 4, 4, 3, -2, 4]);

    let mut ids = get_list_of_subjects_to_request(&review_stats, &assignments);
    ids.sort();

    assert_eq!(ids, vec![-2, 1, 3, 4]);
}

#[test]
fn test_no_records_no_subjects_to_request() {
    assert_eq!(
        get_list_of_subjects_to_request(&vec![], &vec![]),
        Vec::<i32>::new()
    );
    assert_eq!(
        get_list_of_subjects_to_request(&reviews_of(&[5, 5]), &vec![]),
        vec![5]
    );
    assert_eq!(
        get_list_of_subjects_to_request(&vec![], &assignments_of(&[6, 6])),
        vec![6]
    );
}

#[test]
fn test_subject_ids_parameter() {
    assert_eq!(subject_ids_parameter(&[1, 2, 3]), "1,2,3");
    assert_eq!(subject_ids_parameter(&[440]), "440");
    assert_eq!(subject_ids_parameter(&[]), "");
    assert_eq!(subject_ids_parameter(&[0, 10, 909, 1000]), "0,10,909,1000");
    assert_eq!(
        subject_ids_parameter(&[-1, i32::MAX, i32::MIN, -120]),
        "-1,2147483647,-2147483648,-120"
    );
}

#[test]
fn test_subject_ids_parameter_is_what_to_string_gives() {
    for id in [0, 7, 9, 10, 11, 99, 100, 101, 65_536, -1, -10, -99, 1_234_567_890, i32::MAX, i32::MIN]
    {
        assert_eq!(subject_ids_parameter(&[id]), id.to_string());
        assert_eq!(
            subject_ids_parameter(&[id, id]),
            [id.to_string(), id.to_string()].join(",")
        );
    }
}

#[test]
fn test_discriminators() {
    assert_eq!(
        SubjectType::from_discriminator("radical"),
        Some(SubjectType::Radical)
    );
    assert_eq!(
        SubjectType::from_discriminator("kanji"),
        Some(SubjectType::Kanji)
    );
    assert_eq!(
        SubjectType::from_discriminator("vocabulary"),
        Some(SubjectType::Vocabulary)
    );
    assert_eq!(
        SubjectType::from_discriminator("kana_vocabulary"),
        Some(SubjectType::KanaVocabulary)
    );
    assert_eq!(SubjectType::from_discriminator("Kanji"), None);
    assert_eq!(SubjectType::from_discriminator("kanji "), None);
    assert_eq!(SubjectType::from_discriminator(""), None);
    assert_eq!(SubjectType::from_discriminator("kana"), None);
}

#[test]
fn test_subject_with_type_new() {
    let paired = SubjectWithType::new(subject("日"), SubjectType::Kanji);

    assert_eq!(paired.subject_type, SubjectType::Kanji);
    assert_eq!(paired.subject.characters, Some("日".to_string()));
    assert_eq!(paired.subject.level, 5);
}

#[test]
fn test_subjects_by_identifier() {
    let subjects = construct_id_to_subject_hash(vec![
        subject_record(1, "radical", "一"),
        subject_record(2, "kanji", "日"),
        subject_record(3, "vocabulary", "食べる"),
        subject_record(4, "kana_vocabulary", "たべる"),
    ])
    .unwrap();

    let types: HashMap<i32, SubjectType> = subjects
        .iter()
        .map(|(id, subject)| (*id, subject.subject_type))
        .collect();
    assert_eq!(
        types,
        HashMap::from([
            (1, SubjectType::Radical),
            (2, SubjectType::Kanji),
            (3, SubjectType::Vocabulary),
            (4, SubjectType::KanaVocabulary),
        ])
    );
    assert_eq!(subjects[&3].subject.characters, Some("食べる".to_string()));
}

#[test]
fn test_later_record_stands_for_an_identifier() {
    let subjects = construct_id_to_subject_hash(vec![
        subject_record(1, "radical", "一"),
        subject_record(2, "kanji", "日"),
        subject_record(1, "kanji", "二"),
    ])
    .unwrap();

    assert_eq!(subjects.len(), 2);
    assert_eq!(subjects[&1].subject_type, SubjectType::Kanji);
    assert_eq!(subjects[&1].subject.characters, Some("二".to_string()));
}

#[test]
fn test_unknown_discriminator_fails() {
    let indexed = construct_id_to_subject_hash(vec![
        subject_record(1, "radical", "一"),
        subject_record(2, "hiragana", "あ"),
        subject_record(3, "kanji", "日"),
    ]);

    assert!(indexed.is_err());
    assert!(construct_id_to_subject_hash(vec![]).unwrap().is_empty());
}

#[test]
fn test_unwrap_records() {
    let records = unwrap_records(vec![
        Response {
            id: Some(1),
            object: "number".to_string(),
            data: 10,
        },
        Response {
            id: None,
            object: "number".to_string(),
            data: 30,
        },
        Response {
            id: Some(2),
            object: "number".to_string(),
            data: 20,
        },
    ]);

    assert_eq!(records, vec![10, 30, 20]);
    assert_eq!(unwrap_records(Vec::<Response<i32>>::new()), Vec::<i32>::new());
}

#[test]
fn test_authorization_header() {
    assert_eq!(
        Credential::new("abc-123".to_string()).authorization(),
        "Bearer abc-123"
    );
    assert_eq!(Credential::new(String::new()).authorization(), "Bearer ");
    assert_eq!(
        Credential::new("a".to_string()),
        Credential {
            token: "a".to_string()
        }
    );
}

fn profile() -> Response<User> {
    Response {
        id: None,
        object: "user".to_string(),
        data: User {
            level: 12,
            username: "learner".to_string(),
            started_at: Timestamp::new(1_500_000_000, 0),
        },
    }
}

fn collected(subjects: Vec<Response<Subject>>) -> Collected {
    Collected {
        user: profile().data,
        review_stats: reviews_of(&[1, 2, 1]),
        assignments: vec![
            Response {
                id: Some(1),
                object: "assignment".to_string(),
                data: assignment(1, true),
            },
            Response {
                id: Some(2),
                object: "assignment".to_string(),
                data: assignment(3, false),
            },
        ],
        resets: vec![],
        subjects,
    }
}

#[test]
fn test_stages_from_profile_to_report() {
    let stage = ProfileStage::new();
    let request = stage.request();
    assert_eq!(request.url, USER_URL);
    assert_eq!(request.url, "https://api.wanikani.com/v2/user");
    assert!(request.params.is_empty());
    assert_eq!(request.permits, 1);

    let stage = stage.on_profile(Ok(profile())).unwrap();
    assert_eq!(stage.request().url, REVIEW_STATS_URL);
    assert_eq!(
        stage.request().url,
        "https://api.wanikani.com/v2/review_statistics"
    );
    assert!(stage.request().params.is_empty());
    assert_eq!(stage.request().permits, 1);

    let stage = match stage.on_page(Ok(page_of(
        vec![(Some(11), "review_statistic", review(1))],
        Some("https://api.wanikani.com/v2/review_statistics?page_after_id=11"),
    ))) {
        Step::Again(stage) => stage,
        _ => panic!("a further page of review statistics is named"),
    };
    assert_eq!(
        stage.request().url,
        "https://api.wanikani.com/v2/review_statistics?page_after_id=11"
    );
    assert_eq!(stage.request().permits, 1);

    let stage = match stage.on_page(Ok(page_of(
        vec![
            (Some(12), "review_statistic", review(2)),
            (Some(13), "review_statistic", review(1)),
        ],
        None,
    ))) {
        Step::Next(stage) => stage,
        _ => panic!("no further page of review statistics is named"),
    };
    assert_eq!(stage.request().url, ASSIGNMENT_URL);
    assert_eq!(stage.request().url, "https://api.wanikani.com/v2/assignments");
    assert!(stage.request().params.is_empty());
    assert_eq!(stage.request().permits, 1);
    assert_eq!(stage.review_stats.len(), 3);

    let stage = match stage.on_page(Ok(page_of(
        vec![
            (Some(21), "assignment", assignment(2, true)),
            (Some(22), "assignment", assignment(3, false)),
            (Some(23), "assignment", assignment(1, true)),
        ],
        None,
    ))) {
        Step::Next(stage) => stage,
        _ => panic!("no further page of assignments is named"),
    };
    assert_eq!(stage.request().url, RESETS_URL);
    assert_eq!(stage.request().url, "https://api.wanikani.com/v2/resets");
    assert!(stage.request().params.is_empty());
    assert_eq!(stage.request().permits, 1);

    let stage = match stage.on_page(Ok(page_of(
        vec![(Some(31), "reset", reset(1_600_000_000))],
        Some("https://api.wanikani.com/v2/resets?page_after_id=31"),
    ))) {
        Step::Again(stage) => stage,
        _ => panic!("a further page of resets is named"),
    };
    assert_eq!(
        stage.request().url,
        "https://api.wanikani.com/v2/resets?page_after_id=31"
    );

    let stage = match stage.on_page(Ok(page_of(
        vec![(Some(32), "reset", reset(1_650_000_000))],
        None,
    ))) {
        Step::Next(stage) => stage,
        _ => panic!("no further page of resets is named"),
    };
    assert_eq!(stage.request().url, SUBJECT_URL);
    assert_eq!(stage.request().url, "https://api.wanikani.com/v2/subjects");
    assert_eq!(stage.request().permits, 1);
    let mut ids = stage.subject_ids.clone();
    ids.sort();
    assert_eq!(ids, vec![1, 2, 3]);
    let params = params_of(&stage.request().params);
    assert_eq!(params.len(), 1);
    assert_eq!(params[0].0, "ids");
    assert_eq!(
        params[0].1,
        stage
            .subject_ids
            .iter()
            .map(|id| id.to_string())
            .collect::<Vec<_>>()
            .join(",")
    );

    let stage = match stage.on_page(Ok(page_of(
        vec![(Some(1), "kanji", subject("日"))],
        Some("https://api.wanikani.com/v2/subjects?ids=1,2,3&page_after_id=1"),
    ))) {
        Step::Again(stage) => stage,
        _ => panic!("a further page of subjects is named"),
    };
    assert_eq!(
        stage.request().url,
        "https://api.wanikani.com/v2/subjects?ids=1,2,3&page_after_id=1"
    );
    assert!(stage.request().params.is_empty());

    let collected = match stage.on_page(Ok(page_of(
        vec![
            (Some(2), "radical", subject("一")),
            (Some(3), "kana_vocabulary", subject("たべる")),
        ],
        None,
    ))) {
        Step::Next(collected) => collected,
        _ => panic!("no further page of subjects is named"),
    };
    assert_eq!(collected.subjects.len(), 3);

    let user_info = collected.build_complete_user_info().unwrap();
    assert_eq!(user_info.get_user_name(), "learner");
    assert_eq!(user_info.get_level(), 12);
    assert_eq!(user_info.get_started_at(), &Timestamp::new(1_500_000_000, 0));
    assert_eq!(user_info.get_num_of_resets(), 2);
    assert_eq!(
        user_info.get_date_of_most_recent_reset(),
        Some(&Timestamp::new(1_650_000_000, 0))
    );
    assert_eq!(user_info.get_kanji_learned(), 1);
    assert_eq!(user_info.get_radicals_learned(), 1);
    assert_eq!(user_info.get_vocab_learned(), 0);
    assert_eq!(user_info.get_total_correct_meaning_count(), 150);
    assert_eq!(user_info.get_total_correct_reading_count(), 80);
    assert_eq!(
        user_info.get_kanji_reading_accuracy(),
        Some(Ratio {
            correct: 80,
            total: 90
        })
    );
    assert_eq!(
        user_info.get_radical_meaning_accuracy(),
        Some(Ratio {
            correct: 50,
            total: 60
        })
    );
    assert_eq!(user_info.get_vocab_total_accuracy(), None);
}

#[test]
fn test_build_fails_on_unresolved_subject() {
    let built = collected(vec![
        subject_record(1, "kanji", "日"),
        subject_record(2, "radical", "一"),
    ])
    .build_complete_user_info();

    assert_eq!(built.err(), Some(BuildError::MissingSubject));
}

#[test]
fn test_build_fails_on_unknown_discriminator() {
    let built = collected(vec![
        subject_record(1, "kanji", "日"),
        subject_record(2, "radical", "一"),
        subject_record(3, "word", "たべる"),
    ])
    .build_complete_user_info();

    assert_eq!(built.err(), Some(BuildError::UnknownSubjectType));
}

#[test]
fn test_unknown_discriminator_comes_before_unresolved_subject() {
    let built = collected(vec![subject_record(1, "word", "日")]).build_complete_user_info();

    assert_eq!(built.err(), Some(BuildError::UnknownSubjectType));
}

#[test]
fn test_build_from_collected_records() {
    let user_info = collected(vec![
        subject_record(3, "vocabulary", "食べる"),
        subject_record(2, "radical", "一"),
        subject_record(1, "kanji", "日"),
    ])
    .build_complete_user_info()
    .unwrap();

    assert_eq!(user_info.get_kanji_learned(), 1);
    assert_eq!(user_info.get_radicals_learned(), 0);
    assert_eq!(user_info.get_vocab_learned(), 0);
    assert_eq!(user_info.get_num_of_resets(), 0);
    assert_eq!(user_info.get_date_of_most_recent_reset(), None);
    assert_eq!(user_info.get_total_count(), 3 * 105 - 45);
}

#[test]
fn test_failure_ends_a_fetch() {
    let fetch: PagedFetch<i32> = PagedFetch::new("https://example.org/numbers".to_string(), vec![]);
    let fetch = match fetch.on_outcome(Ok(page_of(
        vec![(Some(1), "number", 10)],
        Some("https://example.org/numbers?page_after_id=1"),
    ))) {
        Progress::Pending(fetch) => fetch,
        _ => panic!("the first page names a next page"),
    };

    assert!(matches!(
        fetch.on_outcome(Err(FetchError::Transport)),
        Progress::Failed(FetchError::Transport)
    ));
}

#[test]
fn test_failure_of_either_kind_is_handed_on() {
    let fetch: PagedFetch<i32> = PagedFetch::new("https://example.org/numbers".to_string(), vec![]);
    assert!(matches!(
        fetch.on_failure(FetchError::Deserialization),
        Progress::Failed(FetchError::Deserialization)
    ));

    let fetch: PagedFetch<i32> = PagedFetch::new("https://example.org/numbers".to_string(), vec![]);
    assert!(matches!(
        fetch.on_failure(FetchError::Transport),
        Progress::Failed(FetchError::Transport)
    ));

    assert_eq!(FetchError::Transport.message(), "Transport Error");
    assert_eq!(FetchError::Deserialization.message(), "Deserialization Error");
}

#[test]
fn test_outcome_with_a_page_is_the_page() {
    let fetch: PagedFetch<i32> = PagedFetch::new("https://example.org/numbers".to_string(), vec![]);

    match fetch.on_outcome(Ok(page_of(vec![(Some(1), "number", 10)], None))) {
        Progress::Complete(records) => assert_eq!(records[0].data, 10),
        _ => panic!("the page names no next page"),
    }
}

#[test]
fn test_failure_at_any_stage_ends_it_all() {
    assert_eq!(
        ProfileStage::new()
            .on_profile(Err(FetchError::Transport))
            .err(),
        Some(FetchError::Transport)
    );

    let stage = ProfileStage::new().on_profile(Ok(profile())).unwrap();
    assert!(matches!(
        stage.on_page(Err(FetchError::Deserialization)),
        Step::Failed(FetchError::Deserialization)
    ));

    let stage = ProfileStage::new().on_profile(Ok(profile())).unwrap();
    let stage = match stage.on_page(Ok(page_of(
        vec![(Some(11), "review_statistic", review(1))],
        None,
    ))) {
        Step::Next(stage) => stage,
        _ => panic!("no further page of review statistics is named"),
    };
    let stage = match stage.on_page(Ok(page_of(
        vec![(Some(21), "assignment", assignment(1, true))],
        Some("https://api.wanikani.com/v2/assignments?page_after_id=21"),
    ))) {
        Step::Again(stage) => stage,
        _ => panic!("a further page of assignments is named"),
    };
    assert!(matches!(
        stage.on_page(Err(FetchError::Transport)),
        Step::Failed(FetchError::Transport)
    ));
}

#[test]
fn test_failure_while_resets_or_subjects_are_fetched() {
    let stage = ProfileStage::new().on_profile(Ok(profile())).unwrap();
    let stage = match stage.on_page(Ok(page_of(vec![], None))) {
        Step::Next(stage) => stage,
        _ => panic!("no further page of review statistics is named"),
    };
    let stage = match stage.on_page(Ok(page_of(vec![], None))) {
        Step::Next(stage) => stage,
        _ => panic!("no further page of assignments is named"),
    };
    assert!(matches!(
        stage.on_page(Err(FetchError::Transport)),
        Step::Failed(FetchError::Transport)
    ));

    let stage = ProfileStage::new().on_profile(Ok(profile())).unwrap();
    let stage = match stage.on_page(Ok(page_of(vec![], None))) {
        Step::Next(stage) => stage,
        _ => panic!("no further page of review statistics is named"),
    };
    let stage = match stage.on_page(Ok(page_of(vec![], None))) {
        Step::Next(stage) => stage,
        _ => panic!("no further page of assignments is named"),
    };
    let stage = match stage.on_page(Ok(page_of(vec![], None))) {
        Step::Next(stage) => stage,
        _ => panic!("no further page of resets is named"),
    };
    assert!(stage.subject_ids.is_empty());
    assert_eq!(params_of(&stage.request().params), vec![("ids".to_string(), String::new())]);
    assert!(matches!(
        stage.on_page(Err(FetchError::Deserialization)),
        Step::Failed(FetchError::Deserialization)
    ));
}

#[test]
fn test_every_request_of_a_build_draws_one_permit() {
    let mut permits = 0;

    let stage = ProfileStage::new();
    permits += stage.request().permits;
    let stage = stage.on_profile(Ok(profile())).unwrap();

    permits += stage.request().permits;
    let stage = match stage.on_page(Ok(page_of(
        vec![(Some(11), "review_statistic", review(1))],
        Some("https://api.wanikani.com/v2/review_statistics?page_after_id=11"),
    ))) {
        Step::Again(stage) => stage,
        _ => panic!("a further page of review statistics is named"),
    };
    permits += stage.request().permits;
    let stage = match stage.on_page(Ok(page_of(vec![], None))) {
        Step::Next(stage) => stage,
        _ => panic!("no further page of review statistics is named"),
    };

    permits += stage.request().permits;
    let stage = match stage.on_page(Ok(page_of(vec![], None))) {
        Step::Next(stage) => stage,
        _ => panic!("no further page of assignments is named"),
    };

    permits += stage.request().permits;
    let stage = match stage.on_page(Ok(page_of(vec![], None))) {
        Step::Next(stage) => stage,
        _ => panic!("no further page of resets is named"),
    };

    permits += stage.request().permits;
    assert!(matches!(
        stage.on_page(Ok(page_of(vec![(Some(1), "kanji", subject("日"))], None))),
        Step::Next(_)
    ));

    assert_eq!(permits, 6);
}
