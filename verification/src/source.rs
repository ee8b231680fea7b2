//! What a source client hands over after one fetch, and how its failures are
//! absorbed: a failed item becomes an unretrieved record, a failed fetch an
//! empty result. Neither ever reaches the supervisor.

use vstd::prelude::*;
use crate::aggregate::{count_unretrieved, state_of};
use crate::poller::RateLimitHint;
use crate::status::{BuildRecord, BuildStatus, VisualState};

verus! {

/// Why a fetch, or the fetch of one item, failed.
#[derive(Clone, Copy, Debug, PartialEq, Eq, Structural)]
pub enum FetchError {
    /// The provider could not be reached.
    Network,
    /// The provider answered with something that could not be read.
    Parse,
    /// The provider answered with this HTTP status instead of success.
    HttpStatus(u16),
}

/// The HTTP status that a provider answers a successful request with.
pub const HTTP_OK: u16 = 200;

/// The result of one successful fetch: the records of the provider's builds,
/// and its rate-limit hint if it sent one.
#[derive(Debug)]
pub struct Poll {
    pub records: Vec<BuildRecord>,
    pub hint: Option<RateLimitHint>,
}

/// The record that stands for the fetch of one item.
pub open spec fn record_for(item: Result<BuildStatus, FetchError>) -> BuildRecord {
    match item {
        Ok(status) => BuildRecord { status, retrieved: true },
        Err(_) => BuildRecord { status: BuildStatus::Unknown, retrieved: false },
    }
}

/// The records that a fetch stands for: none where it failed.
pub open spec fn polled_records(outcome: Result<Poll, FetchError>) -> Seq<BuildRecord> {
    match outcome {
        Ok(poll) => poll.records@,
        Err(_) => Seq::empty(),
    }
}

/// The hint that came with a fetch: none where it failed.
pub open spec fn polled_hint(outcome: Result<Poll, FetchError>) -> Option<RateLimitHint> {
    match outcome {
        Ok(poll) => poll.hint,
        Err(_) => None,
    }
}

/// Whether `text` is a URL: what `reqwest::Url::parse` makes of it.
pub uninterp spec fn is_url(text: Seq<char>) -> bool;

/// Parses `text` with `reqwest::Url::parse` and tells whether that gave a
/// URL. The parser's verdict is taken as it is, under the name [`is_url`].
#[verifier::external_body]
fn url_parses(text: &str) -> (ok: bool)
    ensures
        ok == is_url(text@),
{
    reqwest::Url::parse(text).is_ok()
}

/// Checks the address of a request before it is sent: what is no URL cannot
/// be asked, and counts as unreadable.
pub fn check_url(text: &str) -> (checked: Result<(), FetchError>)
    ensures
        checked == if is_url(text@) {
            Ok::<(), FetchError>(())
        } else {
            Err::<(), FetchError>(FetchError::Parse)
        },
{
    if url_parses(text) {
        Ok(())
    } else {
        Err(FetchError::Parse)
    }
}

/// The error that an HTTP status stands for: none for success, and for any
/// other status the error that carries it.
pub fn status_error(code: u16) -> (error: Option<FetchError>)
    ensures
        error == if code == HTTP_OK {
            None
        } else {
            Some(FetchError::HttpStatus(code))
        },
{
    if code == HTTP_OK {
        None
    } else {
        Some(FetchError::HttpStatus(code))
    }
}

/// The item that a job's latest build stands for: `Building` while it is
/// building, else the result of the build; a job that is neither building nor
/// has a result was answered with nothing that can be read.
pub fn job_item(building: bool, result: Option<BuildStatus>) -> (item: Result<BuildStatus, FetchError>)
    ensures
        item == if building {
            Ok::<BuildStatus, FetchError>(BuildStatus::Building)
        } else {
            match result {
                Some(status) => Ok::<BuildStatus, FetchError>(status),
                None => Err::<BuildStatus, FetchError>(FetchError::Parse),
            }
        },
{
    if building {
        Ok(BuildStatus::Building)
    } else {
        match result {
            Some(status) => Ok(status),
            None => Err(FetchError::Parse),
        }
    }
}

/// The jobs that are polled: the positions of those that are not disabled,
/// each once and in their order.
pub fn enabled_jobs(disabled: &[bool]) -> (kept: Vec<usize>)
    ensures
        forall|k: int|
            0 <= k < kept@.len() ==> kept@[k] < disabled@.len() && !disabled@[kept@[k] as int],
        forall|j: int, k: int| 0 <= j < k < kept@.len() ==> kept@[j] < kept@[k],
        forall|i: int| 0 <= i < disabled@.len() && !disabled@[i] ==> kept@.contains(i as usize),
{
    let mut kept: Vec<usize> = Vec::new();
    let mut i: usize = 0;
    while i < disabled.len()
        invariant
            i <= disabled.len(),
            forall|k: int|
                0 <= k < kept@.len() ==> kept@[k] < i && !disabled@[kept@[k] as int],
            forall|j: int, k: int| 0 <= j < k < kept@.len() ==> kept@[j] < kept@[k],
            forall|n: int| 0 <= n < i && !disabled@[n] ==> kept@.contains(n as usize),
        decreases disabled.len() - i,
    {
        if !disabled[i] {
            let ghost before = kept@;
            kept.push(i);
            proof {
                assert(kept@[before.len() as int] == i);
                assert forall|n: int| 0 <= n < i + 1 && !disabled@[n] implies kept@.contains(
                    n as usize,
                ) by {
                    if n < i {
                        let k = choose|k: int| 0 <= k < before.len() && before[k] == n as usize;
                        assert(kept@[k] == n as usize);
                    }
                }
            }
        }
        i = i + 1;
    }
    kept
}

/// The hint of the first answer that was retrieved: its two header values
/// make the hint, if both are there. Later answers are not looked at.
pub open spec fn first_hint_of(
    answers: Seq<Option<(Option<u64>, Option<u64>)>>,
) -> Option<RateLimitHint>
    decreases answers.len(),
{
    if answers.len() == 0 {
        None
    } else {
        match answers[0] {
            Some((Some(remaining), Some(reset_at))) => Some(RateLimitHint { remaining, reset_at }),
            Some(_) => None,
            None => first_hint_of(answers.skip(1)),
        }
    }
}

/// Picks the rate-limit hint of a poll cycle from the answers to its
/// requests, each `None` where the request failed and else the two header
/// values of the answer.
pub fn first_hint(answers: &[Option<(Option<u64>, Option<u64>)>]) -> (hint: Option<RateLimitHint>)
    ensures
        hint == first_hint_of(answers@),
{
    let mut i: usize = 0;
    assert(answers@.skip(0) =~= answers@);
    while i < answers.len()
        invariant
            i <= answers.len(),
            first_hint_of(answers@) == first_hint_of(answers@.skip(i as int)),
        decreases answers.len() - i,
    {
        proof {
            assert(answers@.skip(i as int)[0] == answers@[i as int]);
            assert(answers@.skip(i as int).skip(1) =~= answers@.skip(i + 1));
        }
        match answers[i] {
            Some((remaining, reset_at)) => {
                return RateLimitHint::from_parts(remaining, reset_at);
            },
            None => {},
        }
        i = i + 1;
    }
    None
}

/// The status of the latest build of a target, given its builds from the
/// latest on; an error where the provider returned no build.
pub fn latest_status(builds: &[BuildStatus]) -> (status: Result<BuildStatus, FetchError>)
    ensures
        status == if builds@.len() == 0 {
            Err::<BuildStatus, FetchError>(FetchError::Parse)
        } else {
            Ok::<BuildStatus, FetchError>(builds@[0])
        },
{
    if builds.len() == 0 {
        Err(FetchError::Parse)
    } else {
        Ok(builds[0])
    }
}

/// Turns the fetch of one item into its record.
pub fn absorb_item(item: Result<BuildStatus, FetchError>) -> (record: BuildRecord)
    ensures
        record == record_for(item),
        item is Err ==> record.is_indeterminate(),
{
    match item {
        Ok(status) => BuildRecord::fetched(status),
        Err(_) => BuildRecord::unretrieved(),
    }
}

/// Turns the fetches of the items of one poll cycle into records, one for
/// each item and in the same order.
pub fn absorb_items(items: &[Result<BuildStatus, FetchError>]) -> (records: Vec<BuildRecord>)
    ensures
        records@ == items@.map_values(|item: Result<BuildStatus, FetchError>| record_for(item)),
{
    let mut records: Vec<BuildRecord> = Vec::new();
    let mut i: usize = 0;
    while i < items.len()
        invariant
            i <= items.len(),
            records@ == items@.take(i as int).map_values(
                |item: Result<BuildStatus, FetchError>| record_for(item),
            ),
        decreases items.len() - i,
    {
        let record = absorb_item(items[i]);
        proof {
            let f = |item: Result<BuildStatus, FetchError>| record_for(item);
            assert(items@.take(i + 1).map_values(f) =~= items@.take(i as int).map_values(f).push(
                record,
            ));
        }
        records.push(record);
        i = i + 1;
    }
    assert(items@.take(i as int) =~= items@);
    records
}

/// Absorbs a failed fetch: what was fetched where the fetch worked, and an
/// empty result without a hint where it did not.
pub fn absorb(outcome: Result<Poll, FetchError>) -> (poll: Poll)
    ensures
        poll.records@ == polled_records(outcome),
        poll.hint == polled_hint(outcome),
{
    match outcome {
        Ok(poll) => poll,
        Err(_) => Poll { records: Vec::new(), hint: None },
    }
}

/// A fetch that failed as a whole shows as `Unreachable`.
pub proof fn failed_fetch_is_unreachable(error: FetchError)
    ensures
        state_of(polled_records(Err(error))) == VisualState::Unreachable,
{
}

/// A poll cycle in which no item could be fetched shows as `Unreachable`.
pub proof fn failed_items_are_unreachable(items: Seq<Result<BuildStatus, FetchError>>)
    requires
        forall|i: int| 0 <= i < items.len() ==> items[i] is Err,
    ensures
        state_of(items.map_values(|item: Result<BuildStatus, FetchError>| record_for(item)))
            == VisualState::Unreachable,
{
    let f = |item: Result<BuildStatus, FetchError>| record_for(item);
    let records = items.map_values(f);
    none_retrieved(records);
}

/// Where no record was retrieved, all of them count as unretrieved.
proof fn none_retrieved(records: Seq<BuildRecord>)
    requires
        forall|i: int| 0 <= i < records.len() ==> !records[i].retrieved,
    ensures
        count_unretrieved(records) == records.len(),
    decreases records.len(),
{
    reveal(Seq::filter);
    if records.len() > 0 {
        none_retrieved(records.drop_last());
    }
}

} // verus!
