//! The archive fetch as a state machine.
//!
//! The caller owns the connection and the destination file. It performs the
//! [`Action`] that the current [`State`] asks for, reports what happened as an
//! [`Event`], and shows the [`Progress`] that [`step`] hands back. A fetch ends
//! in `State::Finished` with its [`Outcome`]; from there nothing more is
//! emitted, so a finished or failed fetch never restarts by itself.

use vstd::prelude::*;
use vstd::arithmetic::div_mod::lemma_div_is_ordered;
use crate::text::{parse_decimal, spec_parse_decimal};

verus! {

/// How many bytes are asked of the response body at a time.
pub const CHUNK_SIZE: usize = 1024;

/// What the caller shows while a fetch runs.
#[derive(Debug, Clone, Copy, PartialEq, Eq, Structural)]
pub enum Progress {
    Started,
    /// Whole percent of the announced length that have arrived.
    Advanced(u128),
    Finished,
    Errored,
}

/// How a fetch ended.
#[derive(Debug, Clone, Copy, PartialEq, Eq, Structural)]
pub enum Outcome {
    /// The body ended after `bytes` bytes; the server had announced `total`.
    Completed { bytes: u64, total: u64 },
    Failed,
}

#[derive(Debug, Clone, PartialEq, Eq)]
pub enum State {
    /// Nothing sent yet: the address to fetch and the file to write.
    Ready(String, String),
    Downloading { total: u64, downloaded: u64 },
    Finished(Outcome),
}

/// What the caller saw happen after performing the last action.
#[derive(Debug, Clone, PartialEq, Eq)]
pub enum Event {
    /// The response's headers arrived, with the text of its length header.
    Connected(Option<String>),
    RequestFailed,
    /// A read returned this many bytes, which were appended to the file.
    /// Zero is the end of the body.
    Chunk(usize),
    ReadFailed,
}

/// What the caller has to do next.
#[derive(Debug, Clone, PartialEq, Eq)]
pub enum Action {
    Request { url: String, path: String },
    /// Read at most this many bytes of the body.
    Read(usize),
    /// The fetch is over; its outcome is in the state.
    Stop,
}

/// Whole percent of `total` that `done` amounts to.
pub open spec fn percentage(done: nat, total: nat) -> nat {
    if total == 0 {
        0
    } else {
        100 * done / total
    }
}

/// The length that a response announces: its header must be there and
/// spell a decimal number.
pub open spec fn announced_length(header: Option<String>) -> Option<u64> {
    match header {
        Some(text) => spec_parse_decimal(text@),
        None => None,
    }
}

pub open spec fn failed() -> (Option<Progress>, State) {
    (Some(Progress::Errored), State::Finished(Outcome::Failed))
}

/// The transition relation of a fetch. The bytes that arrived are counted in
/// 64 bits; a chunk that takes the count past them fails the fetch.
pub open spec fn spec_step(state: State, event: Event) -> (Option<Progress>, State) {
    match state {
        State::Ready(_, _) => match event {
            Event::Connected(header) => match announced_length(header) {
                Some(total) => if total == 0 {
                    failed()
                } else {
                    (Some(Progress::Started), State::Downloading { total, downloaded: 0 })
                },
                None => failed(),
            },
            _ => failed(),
        },
        State::Downloading { total, downloaded } => match event {
            Event::Chunk(n) => if n == 0 {
                (
                    Some(Progress::Finished),
                    State::Finished(Outcome::Completed { bytes: downloaded, total }),
                )
            } else if downloaded + n > u64::MAX {
                failed()
            } else {
                (
                    Some(
                        Progress::Advanced(
                            percentage((downloaded + n) as nat, total as nat) as u128,
                        ),
                    ),
                    State::Downloading { total, downloaded: (downloaded + n) as u64 },
                )
            },
            _ => failed(),
        },
        State::Finished(outcome) => (None, State::Finished(outcome)),
    }
}

pub open spec fn spec_next_action(state: State) -> Action {
    match state {
        State::Ready(url, path) => Action::Request { url, path },
        State::Downloading { .. } => Action::Read(CHUNK_SIZE),
        State::Finished(_) => Action::Stop,
    }
}

/// Whole percent of `total` that `done` amounts to.
pub fn percent(done: u64, total: u64) -> (p: u128)
    ensures
        p == percentage(done as nat, total as nat),
{
    if total == 0 {
        0
    } else {
        100 * (done as u128) / (total as u128)
    }
}

/// Reads the length that a response announces.
pub fn content_length(header: &Option<String>) -> (length: Option<u64>)
    ensures
        length == announced_length(*header),
{
    match header {
        Some(text) => parse_decimal(text.as_str()),
        None => None,
    }
}

/// Advances a fetch by one event: the progress to show, if any, and the
/// state to go on from.
pub fn step(state: State, event: Event) -> (r: (Option<Progress>, State))
    ensures
        r == spec_step(state, event),
{
    match state {
        State::Ready(_, _) => match event {
            Event::Connected(header) => match content_length(&header) {
                Some(total) => {
                    if total == 0 {
                        (Some(Progress::Errored), State::Finished(Outcome::Failed))
                    } else {
                        (Some(Progress::Started), State::Downloading { total, downloaded: 0 })
                    }
                },
                None => (Some(Progress::Errored), State::Finished(Outcome::Failed)),
            },
            _ => (Some(Progress::Errored), State::Finished(Outcome::Failed)),
        },
        State::Downloading { total, downloaded } => match event {
            Event::Chunk(n) => {
                if n == 0 {
                    (
                        Some(Progress::Finished),
                        State::Finished(Outcome::Completed { bytes: downloaded, total }),
                    )
                } else if n as u64 > u64::MAX - downloaded {
                    (Some(Progress::Errored), State::Finished(Outcome::Failed))
                } else {
                    let now: u64 = downloaded + n as u64;
                    (
                        Some(Progress::Advanced(percent(now, total))),
                        State::Downloading { total, downloaded: now },
                    )
                }
            },
            _ => (Some(Progress::Errored), State::Finished(Outcome::Failed)),
        },
        State::Finished(outcome) => (None, State::Finished(outcome)),
    }
}

/// What the caller has to do in `state`.
pub fn next_action(state: &State) -> (action: Action)
    ensures
        action == spec_next_action(*state),
{
    match state {
        State::Ready(url, path) => Action::Request { url: url.clone(), path: path.clone() },
        State::Downloading { .. } => Action::Read(CHUNK_SIZE),
        State::Finished(_) => Action::Stop,
    }
}

impl State {
    /// The one result of a fetch: there once it is over, and not before.
    pub fn outcome(&self) -> (outcome: Option<Outcome>)
        ensures
            outcome == match *self {
                State::Finished(o) => Some(o),
                _ => None,
            },
    {
        match self {
            State::Finished(o) => Some(*o),
            _ => None,
        }
    }
}

/// What one step adds to the list of progress shown.
pub open spec fn emitted(progress: Option<Progress>) -> Seq<Progress> {
    match progress {
        Some(p) => seq![p],
        None => seq![],
    }
}

/// Everything that is shown when `events` reach a fetch in `state`, in order.
pub open spec fn trace(state: State, events: Seq<Event>) -> Seq<Progress>
    decreases events.len(),
{
    if events.len() == 0 {
        seq![]
    } else {
        let (progress, next) = spec_step(state, events.first());
        emitted(progress) + trace(next, events.drop_first())
    }
}

/// No percentage in `shown` is lower than one shown before it.
pub open spec fn percentages_ascend(shown: Seq<Progress>) -> bool {
    forall|i: int, j: int|
        0 <= i < j < shown.len() && shown[i] is Advanced && shown[j] is Advanced
            ==> shown[i]->Advanced_0 <= shown[j]->Advanced_0
}

/// The percentage that a fetch in `state` has reached.
pub open spec fn reached(state: State) -> nat {
    match state {
        State::Downloading { total, downloaded } => percentage(downloaded as nat, total as nat),
        _ => 0,
    }
}

/// More bytes never make a lower percentage.
pub proof fn lemma_percentage_monotonic(fewer: nat, more: nat, total: nat)
    requires
        fewer <= more,
    ensures
        percentage(fewer, total) <= percentage(more, total),
{
    if total != 0 {
        lemma_div_is_ordered(100 * fewer as int, 100 * more as int, total as int);
    }
}

/// While no more has arrived than was announced the percentage is at most
/// 100, and it is 100 exactly when everything has arrived.
pub proof fn lemma_percentage_complete(done: nat, total: nat)
    requires
        0 < total,
        done <= total,
    ensures
        percentage(done, total) <= 100,
        percentage(done, total) == 100 <==> done == total,
{
    assert(100 * done / total <= 100 && (100 * done / total == 100 <==> done == total))
        by (nonlinear_arith)
        requires
            0 < total,
            done <= total,
    ;
}

/// A fetch that is over shows nothing more, whatever is reported to it.
pub proof fn lemma_finished_is_silent(outcome: Outcome, events: Seq<Event>)
    ensures
        trace(State::Finished(outcome), events) == Seq::<Progress>::empty(),
    decreases events.len(),
{
    if events.len() > 0 {
        lemma_finished_is_silent(outcome, events.drop_first());
    }
}

proof fn lemma_trace_ascends_from(state: State, events: Seq<Event>)
    ensures
        percentages_ascend(trace(state, events)),
        forall|i: int|
            0 <= i < trace(state, events).len() && (#[trigger] trace(state, events)[i]) is Advanced
                ==> reached(state) <= trace(state, events)[i]->Advanced_0,
    decreases events.len(),
{
    if events.len() > 0 {
        let (progress, next) = spec_step(state, events.first());
        let rest = trace(next, events.drop_first());
        let shown = trace(state, events);
        lemma_trace_ascends_from(next, events.drop_first());
        assert(shown == emitted(progress) + rest);
        match state {
            State::Downloading { total, downloaded } => {
                if let Event::Chunk(n) = events.first() {
                    lemma_percentage_monotonic(
                        downloaded as nat,
                        (downloaded + n) as nat,
                        total as nat,
                    );
                    if total != 0 && downloaded + n <= u64::MAX {
                        assert(100 * (downloaded + n) / (total as int) <= 100 * (downloaded + n))
                            by (nonlinear_arith)
                            requires
                                0 < total,
                                0 <= downloaded + n,
                        ;
                    }
                }
            },
            _ => {},
        }
        assert(reached(state) <= reached(next) || !(next is Downloading));
        assert forall|i: int| 0 <= i < shown.len() && (#[trigger] shown[i]) is Advanced implies reached(
            state,
        ) <= shown[i]->Advanced_0 by {
            if i >= emitted(progress).len() {
                assert(shown[i] == rest[i - emitted(progress).len()]);
                assert(rest.len() > 0);
                if !(next is Downloading) {
                    lemma_finished_is_silent(next->Finished_0, events.drop_first());
                }
            }
        }
        assert forall|i: int, j: int|
            0 <= i < j < shown.len() && shown[i] is Advanced && shown[j] is Advanced implies shown[i]->Advanced_0
            <= shown[j]->Advanced_0 by {
            let k = emitted(progress).len();
            assert(shown[j] == rest[j - k]);
            if i >= k {
                assert(shown[i] == rest[i - k]);
            }
        }
    }
}

/// Within one fetch the percentages shown never fall, whatever the server
/// and the connection do.
pub proof fn lemma_percentages_never_fall(state: State, events: Seq<Event>)
    ensures
        percentages_ascend(trace(state, events)),
{
    lemma_trace_ascends_from(state, events);
}

/// A response that announces no length, or a length of zero, fails the
/// fetch at once: no percentage is ever shown for it.
pub proof fn lemma_no_length_no_percentage(
    url: String,
    path: String,
    header: Option<String>,
    later: Seq<Event>,
)
    requires
        announced_length(header) is None || announced_length(header) == Some(0u64),
    ensures
        trace(State::Ready(url, path), seq![Event::Connected(header)] + later) == seq![
            Progress::Errored,
        ],
{
    let events = seq![Event::Connected(header)] + later;
    assert(events.first() == Event::Connected(header));
    assert(events.drop_first() =~= later);
    lemma_finished_is_silent(Outcome::Failed, later);
    assert(trace(State::Ready(url, path), events) =~= seq![Progress::Errored]);
}

/// The percentage is 100 or more exactly when everything that was announced
/// has arrived.
pub proof fn lemma_percentage_full(done: nat, total: nat)
    requires
        0 < total,
    ensures
        percentage(done, total) >= 100 <==> done >= total,
{
    assert(100 * done / total >= 100 <==> done >= total) by (nonlinear_arith)
        requires
            0 < total,
    ;
}

/// A chunk is answered with a percentage of 100 or more exactly when it
/// brings the last of the announced bytes, or more than were announced: no
/// fetch shows 100 while bytes are still missing.
pub proof fn lemma_full_percentage_means_complete(total: u64, downloaded: u64, n: usize)
    requires
        0 < n,
        0 < total,
        downloaded + n <= u64::MAX,
    ensures
        spec_step(State::Downloading { total, downloaded }, Event::Chunk(n)).0 is Some,
        spec_step(State::Downloading { total, downloaded }, Event::Chunk(n)).0->Some_0
            is Advanced,
        spec_step(
            State::Downloading { total, downloaded },
            Event::Chunk(n),
        ).0->Some_0->Advanced_0 >= 100 <==> downloaded + n >= total,
{
    lemma_percentage_full((downloaded + n) as nat, total as nat);
    assert(100 * (downloaded + n) / (total as int) <= 100 * (downloaded + n)) by (nonlinear_arith)
        requires
            0 < total,
            0 <= downloaded + n,
    ;
}

/// A chunk that brings no more than was announced is answered with the
/// whole percent that have arrived by then, which is no lower than the
/// percentage before it, and the fetch goes on with the new byte count.
pub proof fn lemma_chunk_advances(total: u64, downloaded: u64, n: usize)
    requires
        0 < n,
        0 < total,
        downloaded + n <= total,
    ensures
        spec_step(State::Downloading { total, downloaded }, Event::Chunk(n)) == (
            Some(Progress::Advanced((100 * (downloaded + n) / (total as int)) as u128)),
            State::Downloading { total, downloaded: (downloaded + n) as u64 },
        ),
        100 * downloaded / (total as int) <= 100 * (downloaded + n) / (total as int) <= 100,
{
    lemma_percentage_monotonic(downloaded as nat, (downloaded + n) as nat, total as nat);
    lemma_percentage_complete((downloaded + n) as nat, total as nat);
}

/// One fetch that was asked for: who asked, what to fetch and where to
/// write it.
#[derive(Debug, Hash, Clone)]
pub struct Download<I> {
    id: I,
    url: String,
    path: String,
}

impl<I> Download<I> {
    pub closed spec fn spec_id(&self) -> I {
        self.id
    }

    pub closed spec fn spec_url(&self) -> String {
        self.url
    }

    pub closed spec fn spec_path(&self) -> String {
        self.path
    }

    pub fn new(id: I, url: String, path: String) -> (download: Self)
        ensures
            download.spec_id() == id,
            download.spec_url() == url,
            download.spec_path() == path,
    {
        Download { id, url, path }
    }

    pub fn id(&self) -> (id: &I)
        ensures
            *id == self.spec_id(),
    {
        &self.id
    }

    pub fn url(&self) -> (url: &String)
        ensures
            *url == self.spec_url(),
    {
        &self.url
    }

    pub fn path(&self) -> (path: &String)
        ensures
            *path == self.spec_path(),
    {
        &self.path
    }

    /// The state that the fetch starts in.
    pub fn start(&self) -> (state: State)
        ensures
            state == State::Ready(self.spec_url(), self.spec_path()),
    {
        State::Ready(self.url.clone(), self.path.clone())
    }
}

/// The fetch of `url` on behalf of `id`. The file it writes is named as the
/// address is.
pub fn file<I>(id: I, url: &str) -> (download: Download<I>)
    ensures
        download.spec_id() == id,
        download.spec_url()@ == url@,
        download.spec_path()@ == url@,
{
    Download::new(id, String::from_str(url), String::from_str(url))
}

} // verus!
