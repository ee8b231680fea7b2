use build_monitor::aggregate::aggregate;
use build_monitor::poller::RateLimitHint;
use build_monitor::source::{
    absorb, absorb_item, absorb_items, check_url, enabled_jobs, first_hint, job_item,
    latest_status, status_error, FetchError, Poll, HTTP_OK,
};
use build_monitor::status::{BuildRecord, BuildStatus, VisualState};

#[test]
fn only_ok_is_no_error() {
    assert_eq!(HTTP_OK, 200);
    assert_eq!(status_error(200), None);
    assert_eq!(status_error(201), Some(FetchError::HttpStatus(201)));
    assert_eq!(status_error(404), Some(FetchError::HttpStatus(404)));
    assert_eq!(status_error(500), Some(FetchError::HttpStatus(500)));
    assert_eq!(status_error(0), Some(FetchError::HttpStatus(0)));
}

#[test]
fn building_job_has_no_result_yet() {
    assert_eq!(job_item(true, None), Ok(BuildStatus::Building));
    assert_eq!(job_item(true, Some(BuildStatus::Failure)), Ok(BuildStatus::Building));
    assert_eq!(job_item(false, Some(BuildStatus::Failure)), Ok(BuildStatus::Failure));
    assert_eq!(job_item(false, Some(BuildStatus::Success)), Ok(BuildStatus::Success));
}

#[test]
fn job_without_a_result_is_an_indeterminate_record() {
    assert_eq!(job_item(false, None), Err(FetchError::Parse));
    let record = absorb_item(job_item(false, None));
    assert_eq!(record, BuildRecord { status: BuildStatus::Unknown, retrieved: false });
    let items = [job_item(false, Some(BuildStatus::Success)), job_item(false, None)];
    let (state, summary) = aggregate(&absorb_items(&items));
    assert_eq!(state, VisualState::Degraded);
    assert_eq!(summary.indeterminate, 1);
}

#[test]
fn disabled_jobs_are_left_out() {
    assert_eq!(enabled_jobs(&[]), Vec::<usize>::new());
    assert_eq!(enabled_jobs(&[false]), vec![0]);
    assert_eq!(enabled_jobs(&[true]), Vec::<usize>::new());
    assert_eq!(enabled_jobs(&[true, true, true]), Vec::<usize>::new());
    assert_eq!(enabled_jobs(&[false, false, false]), vec![0, 1, 2]);
    assert_eq!(enabled_jobs(&[true, false, false, true, false, true]), vec![1, 2, 4]);
}

#[test]
fn hint_comes_from_the_first_retrieved_answer() {
    let hint = |remaining, reset_at| Some(RateLimitHint { remaining, reset_at });
    assert_eq!(first_hint(&[]), None);
    assert_eq!(first_hint(&[None, None]), None);
    assert_eq!(first_hint(&[Some((Some(7), Some(9)))]), hint(7, 9));
    assert_eq!(first_hint(&[None, Some((Some(7), Some(9)))]), hint(7, 9));
    assert_eq!(first_hint(&[Some((Some(1), Some(2))), Some((Some(7), Some(9)))]), hint(1, 2));
    assert_eq!(first_hint(&[Some((Some(1), None)), Some((Some(7), Some(9)))]), None);
    assert_eq!(first_hint(&[Some((None, Some(2))), Some((Some(7), Some(9)))]), None);
    assert_eq!(first_hint(&[Some((None, None))]), None);
    assert_eq!(first_hint(&[None, Some((None, Some(2))), Some((Some(7), Some(9)))]), None);
}

#[test]
fn latest_build_is_the_first() {
    assert_eq!(latest_status(&[]), Err(FetchError::Parse));
    assert_eq!(latest_status(&[BuildStatus::Failure]), Ok(BuildStatus::Failure));
    assert_eq!(
        latest_status(&[BuildStatus::Success, BuildStatus::Failure]),
        Ok(BuildStatus::Success)
    );
}

#[test]
fn failed_item_becomes_an_unretrieved_record() {
    assert_eq!(
        absorb_item(Ok(BuildStatus::Failure)),
        BuildRecord { status: BuildStatus::Failure, retrieved: true }
    );
    for error in [FetchError::Network, FetchError::Parse, FetchError::HttpStatus(503)] {
        assert_eq!(
            absorb_item(Err(error)),
            BuildRecord { status: BuildStatus::Unknown, retrieved: false }
        );
    }
}

#[test]
fn items_become_records_in_order() {
    let items = [
        Ok(BuildStatus::Success),
        Err(FetchError::Network),
        Ok(BuildStatus::Building),
        Err(FetchError::HttpStatus(404)),
        Ok(BuildStatus::Failure),
    ];
    let records = absorb_items(&items);
    assert_eq!(
        records,
        vec![
            BuildRecord { status: BuildStatus::Success, retrieved: true },
            BuildRecord { status: BuildStatus::Unknown, retrieved: false },
            BuildRecord { status: BuildStatus::Building, retrieved: true },
            BuildRecord { status: BuildStatus::Unknown, retrieved: false },
            BuildRecord { status: BuildStatus::Failure, retrieved: true },
        ]
    );
    assert_eq!(absorb_items(&[]), Vec::new());
    let (state, summary) = aggregate(&records);
    assert_eq!(state, VisualState::Unhealthy);
    assert_eq!(summary.indeterminate, 3);
}

#[test]
fn failed_items_only_are_unreachable() {
    let items = [Err(FetchError::Network), Err(FetchError::Parse)];
    assert_eq!(aggregate(&absorb_items(&items)).0, VisualState::Unreachable);
}

#[test]
fn failed_fetch_is_an_empty_result() {
    for error in [FetchError::Network, FetchError::Parse, FetchError::HttpStatus(401)] {
        let poll = absorb(Err(error));
        assert!(poll.records.is_empty());
        assert_eq!(poll.hint, None);
        assert_eq!(aggregate(&poll.records).0, VisualState::Unreachable);
    }
}

#[test]
fn successful_fetch_is_kept() {
    let hint = Some(RateLimitHint { remaining: 3, reset_at: 99 });
    let records = vec![BuildRecord::fetched(BuildStatus::Success), BuildRecord::unretrieved()];
    let poll = absorb(Ok(Poll { records: records.clone(), hint }));
    assert_eq!(poll.records, records);
    assert_eq!(poll.hint, hint);
}

#[test]
fn only_a_url_can_be_asked() {
    assert_eq!(check_url("https://ci.example.org/api/json"), Ok(()));
    assert_eq!(check_url("http://127.0.0.1:8080/job/a%20b/lastBuild/api/json"), Ok(()));
    assert_eq!(check_url(""), Err(FetchError::Parse));
    assert_eq!(check_url("not a url"), Err(FetchError::Parse));
    assert_eq!(check_url("/api/json"), Err(FetchError::Parse));
    assert_eq!(check_url("http://"), Err(FetchError::Parse));
}
