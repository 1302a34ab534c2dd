//! The three commands that the presentation layer invokes: fetch the status,
//! set the poll interval, read the poll interval.
//!
//! The commands are independent of each other. Only `set_interval` changes the
//! state; `fetch_status` does not even see it.

use vstd::prelude::*;
use crate::fetch::{displays_as, fetch, json_parse, reports_exchange, Exchange, FetchError};
use crate::interval::{IntervalStore, DEFAULT_INTERVAL_MS};

verus! {

/// The state that the commands share: the poll interval.
pub struct AppState {
    interval: IntervalStore,
}

impl View for AppState {
    type V = u64;

    /// The poll interval in milliseconds.
    closed spec fn view(&self) -> u64 {
        self.interval@
    }
}

impl AppState {
    /// The state at the start of the process: the default interval.
    pub fn new() -> (state: Self)
        ensures
            state@ == DEFAULT_INTERVAL_MS,
    {
        AppState { interval: IntervalStore::new() }
    }
}

impl Default for AppState {
    fn default() -> (state: Self)
        ensures
            state@ == DEFAULT_INTERVAL_MS,
    {
        AppState::new()
    }
}

/// One invocation of a command.
pub enum Call {
    FetchStatus,
    SetInterval(u64),
    GetInterval,
}

/// The interval after `call`, where `interval` was held before it.
pub open spec fn interval_after(interval: u64, call: Call) -> u64 {
    match call {
        Call::SetInterval(ms) => ms,
        Call::FetchStatus => interval,
        Call::GetInterval => interval,
    }
}

/// The interval after `calls`, made in this order, where `interval` was held
/// before them.
pub open spec fn interval_after_all(interval: u64, calls: Seq<Call>) -> u64
    decreases calls.len(),
{
    if calls.len() == 0 {
        interval
    } else {
        interval_after(interval_after_all(interval, calls.drop_last()), calls.last())
    }
}

/// True when `reply` is what the caller of `fetch_status` sees after a round
/// trip that ended as `exchange`: the parsed document, or the message of the
/// failure and nothing else of it.
pub open spec fn replies_exchange(exchange: Exchange, reply: Result<serde_json::Value, String>) -> bool {
    match exchange {
        Exchange::Unreachable(message) => reply == Err::<serde_json::Value, String>(message),
        Exchange::Undecodable(message) => reply == Err::<serde_json::Value, String>(message),
        Exchange::Body(body) => match json_parse(body@) {
            Ok(document) => reply == Ok::<serde_json::Value, String>(document),
            Err(error) => reply matches Err(message) && displays_as(error, message),
        },
    }
}

/// What the caller of `fetch_status` sees of `report`: the document, or the
/// message of the error without its kind.
pub open spec fn reply_of(report: Result<serde_json::Value, FetchError>) -> Result<
    serde_json::Value,
    String,
> {
    match report {
        Ok(document) => Ok(document),
        Err(error) => Err(error.text()),
    }
}

/// Concludes one status fetch from the way its round trip ended. The report
/// goes to the caller by value; a failure reaches the caller as its message.
pub fn fetch_status(exchange: Exchange) -> (reply: Result<serde_json::Value, String>)
    ensures
        replies_exchange(exchange, reply),
{
    match fetch(exchange) {
        Ok(report) => Ok(report),
        Err(error) => Err(error.into_message()),
    }
}

/// Sets the poll interval to `ms` milliseconds. Every value is accepted.
pub fn set_interval(state: &mut AppState, ms: u64)
    ensures
        final(state)@ == ms,
        final(state)@ == interval_after(old(state)@, Call::SetInterval(ms)),
{
    state.interval.set(ms);
}

/// The poll interval in milliseconds.
pub fn get_interval(state: &AppState) -> (ms: u64)
    ensures
        ms == state@,
{
    state.interval.get()
}

/// The three kinds of failure reach the caller alike: the reply to a round
/// trip is the fetch's report, with an error replaced by its message.
pub proof fn lemma_reply_is_report_or_message(
    exchange: Exchange,
    report: Result<serde_json::Value, FetchError>,
)
    requires
        reports_exchange(exchange, report),
    ensures
        replies_exchange(exchange, reply_of(report)),
{
}

/// True when none of `calls` sets the interval.
pub open spec fn sets_nothing(calls: Seq<Call>) -> bool {
    forall|i: int| 0 <= i < calls.len() ==> !(#[trigger] calls[i] is SetInterval)
}

/// Setting the interval and reading it back gives the value that was set,
/// whatever was held before.
pub proof fn lemma_set_then_get(interval: u64, ms: u64)
    ensures
        interval_after(interval, Call::SetInterval(ms)) == ms,
{
}

/// Calls that do not set the interval leave it as it was: reading it again and
/// again gives the same value, however many fetches come in between.
pub proof fn lemma_reads_and_fetches_keep_interval(interval: u64, calls: Seq<Call>)
    requires
        sets_nothing(calls),
    ensures
        interval_after_all(interval, calls) == interval,
    decreases calls.len(),
{
    if calls.len() > 0 {
        let earlier = calls.drop_last();
        assert forall|i: int| 0 <= i < earlier.len() implies !(#[trigger] earlier[i] is SetInterval) by {
            assert(earlier[i] == calls[i]);
        }
        lemma_reads_and_fetches_keep_interval(interval, earlier);
        assert(!(calls[calls.len() - 1] is SetInterval));
    }
}

/// The last value that was set is the one that is held: after any calls, then
/// a set to `ms`, then any calls that set nothing, the interval is `ms`.
pub proof fn lemma_last_set_wins(interval: u64, before: Seq<Call>, ms: u64, after: Seq<Call>)
    requires
        sets_nothing(after),
    ensures
        interval_after_all(interval, before.push(Call::SetInterval(ms)) + after) == ms,
    decreases after.len(),
{
    let set = before.push(Call::SetInterval(ms));
    if after.len() == 0 {
        assert(set + after =~= set);
        assert(set.drop_last() =~= before);
    } else {
        let earlier = after.drop_last();
        assert forall|i: int| 0 <= i < earlier.len() implies !(#[trigger] earlier[i] is SetInterval) by {
            assert(earlier[i] == after[i]);
        }
        lemma_last_set_wins(interval, before, ms, earlier);
        assert((set + after).drop_last() =~= set + earlier);
        assert((set + after).last() == after[after.len() - 1]);
        assert(!(after[after.len() - 1] is SetInterval));
    }
}

} // verus!
