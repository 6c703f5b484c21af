//! Watching: run the checks again and again, each round reported as an
//! event, until the watch's time is up, the user interrupts it, or nobody
//! listens any more.

use std::sync::Arc;
use std::time::Duration;
use vstd::prelude::*;
use crate::check::{CheckError, CheckOutcome};
use crate::target::Target;

verus! {

/// How many nanoseconds a duration holds, as `Duration::as_nanos` gives it.
pub uninterp spec fn nanos_of(d: Duration) -> nat;

/// `Duration::as_nanos`: the whole length of a duration in nanoseconds.
#[verifier::external_body]
fn as_nanos(d: &Duration) -> (r: u128)
    ensures
        r == nanos_of(*d),
{
    d.as_nanos()
}

/// `Duration::from_secs`: a duration of `secs` whole seconds, which holds
/// `secs` times 10^9 nanoseconds.
#[verifier::external_body]
fn from_secs(secs: u64) -> (r: Duration)
    ensures
        nanos_of(r) == secs * 1_000_000_000,
{
    Duration::from_secs(secs)
}

/// One round of a watch: the results of the checks and the time since the
/// watch began.
pub struct WatchEvent {
    pub outcomes: Vec<Result<CheckOutcome, CheckError>>,
    pub elapsed: Duration,
}

/// What happened last in a watch.
#[derive(PartialEq, Eq, Structural, Debug, Clone, Copy)]
pub enum WatchSignal {
    /// The watch has just begun.
    Began,
    /// No HTTP client could be built.
    ClientFailed,
    /// A round's event was handed to the listener.
    Sent,
    /// A round's event could not be handed on: nobody listens.
    SendFailed,
    /// The user interrupted the watch.
    Interrupted,
    /// The listener went away while the watch waited.
    Closed,
    /// The wait between rounds is over.
    Woke,
}

/// What a watch does next.
#[derive(PartialEq, Eq, Structural, Debug, Clone, Copy)]
pub enum WatchAction {
    /// Run the checks and send the round's event.
    RunChecks,
    /// Wait for the interval, an interrupt or the listener leaving.
    Wait,
    /// End the watch.
    Stop,
}

/// The longest a watch without a set duration runs: `u64::MAX` seconds.
pub open spec fn forever_nanos() -> nat {
    (u64::MAX as nat) * 1_000_000_000
}

/// How long a watch may run, in nanoseconds.
pub open spec fn limit_nanos(duration: Option<Duration>) -> nat {
    match duration {
        Some(d) => nanos_of(d),
        None => forever_nanos(),
    }
}

/// The watch's decision: at the start and after each wait, run a round while
/// the time since the start is below the limit, else stop; after a round was
/// sent, wait; on a failed client, a failed send, an interrupt or a closed
/// channel, stop.
pub open spec fn watch_step(signal: WatchSignal, elapsed: nat, limit: nat) -> WatchAction {
    match signal {
        WatchSignal::Began | WatchSignal::Woke => if elapsed < limit {
            WatchAction::RunChecks
        } else {
            WatchAction::Stop
        },
        WatchSignal::Sent => WatchAction::Wait,
        _ => WatchAction::Stop,
    }
}

/// The watch's decision on plain numbers: `elapsed` nanoseconds since the
/// start, a limit of `limit` nanoseconds.
pub fn step(signal: WatchSignal, elapsed: u128, limit: u128) -> (r: WatchAction)
    ensures
        r == watch_step(signal, elapsed as nat, limit as nat),
{
    match signal {
        WatchSignal::Began | WatchSignal::Woke => {
            if elapsed < limit {
                WatchAction::RunChecks
            } else {
                WatchAction::Stop
            }
        },
        WatchSignal::Sent => WatchAction::Wait,
        _ => WatchAction::Stop,
    }
}

/// Watches a set of targets.
pub struct Watcher {
    targets: Arc<Vec<Target>>,
    interval: Duration,
    duration: Option<Duration>,
}

impl Watcher {
    /// A watch of `targets`, a round every `interval`, for `duration` (or
    /// without end).
    pub fn new(targets: Vec<Target>, interval: Duration, duration: Option<Duration>) -> (r: Watcher)
        ensures
            r.targets_spec() == targets@,
            r.interval_spec() == interval,
            r.duration_spec() == duration,
    {
        Watcher { targets: Arc::new(targets), interval, duration }
    }

    /// The targets it watches.
    pub closed spec fn targets_spec(&self) -> Seq<Target> {
        (*self.targets)@
    }

    /// The wait between rounds.
    pub closed spec fn interval_spec(&self) -> Duration {
        self.interval
    }

    /// How long it runs, if that is set.
    pub closed spec fn duration_spec(&self) -> Option<Duration> {
        self.duration
    }

    /// The targets it watches.
    pub fn targets(&self) -> (r: &Vec<Target>)
        ensures
            r@ == self.targets_spec(),
    {
        &*self.targets
    }

    /// The wait between rounds.
    pub fn interval(&self) -> (r: Duration)
        ensures
            r == self.interval_spec(),
    {
        self.interval
    }

    /// How long it runs: the set duration, or `u64::MAX` seconds.
    pub fn deadline(&self) -> (r: Duration)
        ensures
            nanos_of(r) == limit_nanos(self.duration_spec()),
    {
        match self.duration {
            Some(d) => d,
            None => from_secs(u64::MAX),
        }
    }

    /// What the watch does next, `elapsed` after it began, once `signal`
    /// happened.
    pub fn next_action(&self, signal: WatchSignal, elapsed: &Duration) -> (r: WatchAction)
        ensures
            r == watch_step(signal, nanos_of(*elapsed), limit_nanos(self.duration_spec())),
    {
        let deadline = self.deadline();
        step(signal, as_nanos(elapsed), as_nanos(&deadline))
    }
}

/// A watch never starts a round at or past its limit, waits only after a
/// round was sent, and ends for good on a failed client, a failed send, an
/// interrupt or a closed channel.
pub proof fn lemma_watch_bounded(signal: WatchSignal, elapsed: nat, limit: nat)
    ensures
        watch_step(signal, elapsed, limit) == WatchAction::RunChecks ==> elapsed < limit,
        (signal == WatchSignal::Began || signal == WatchSignal::Woke) ==> (watch_step(signal, elapsed, limit)
            == WatchAction::RunChecks <==> elapsed < limit),
        (signal == WatchSignal::Began || signal == WatchSignal::Woke) && elapsed >= limit ==> watch_step(
            signal,
            elapsed,
            limit,
        ) == WatchAction::Stop,
        watch_step(signal, elapsed, limit) == WatchAction::Wait <==> signal == WatchSignal::Sent,
        (signal == WatchSignal::ClientFailed || signal == WatchSignal::SendFailed
            || signal == WatchSignal::Interrupted || signal == WatchSignal::Closed)
            ==> watch_step(signal, elapsed, limit) == WatchAction::Stop,
{
}

} // verus!
