use vstd::prelude::*;

use crate::fault::FaultKind;
use crate::throughput::{speed_milli_mbps, speed_spec};

verus! {

/// The most attempts a download makes before its fault is final.
pub const MAX_DOWNLOAD_ATTEMPTS: u32 = 3;

/// How one download attempt ended.
#[derive(Clone, Copy, Debug, PartialEq, Eq, Structural)]
pub enum DownloadEvent {
    /// The request failed before a response arrived.
    RequestFailed(FaultKind),
    /// A response arrived but reading its body failed.
    BodyFailed(FaultKind),
    /// The whole body was read: `bytes` of it, in `elapsed_ns` nanoseconds
    /// timed over this attempt alone.
    Completed { bytes: u64, elapsed_ns: u64 },
}

/// What to do after an attempt.
#[derive(Clone, Copy, Debug, PartialEq, Eq, Structural)]
pub enum DownloadAction {
    /// The request failed transiently after attempt `attempt`: send it again.
    RetryRequest { attempt: u32 },
    /// The body broke off transiently after attempt `attempt`: abandon the
    /// progress display and send the request again.
    RetryBody { attempt: u32 },
    /// Give up with `fault`; `exhausted` tells a transient fault that ran out
    /// of attempts from one that is never retried.
    Fail { fault: FaultKind, exhausted: bool },
    /// The download finished at this speed.
    Done { speed_milli_mbps: u64 },
}

/// The result of running the retry policy over a list of attempt outcomes.
#[derive(Clone, Copy, Debug, PartialEq, Eq, Structural)]
pub enum DownloadOutcome {
    Succeeded { speed_milli_mbps: u64, attempts: u32 },
    Failed { fault: FaultKind, attempts: u32 },
    /// The outcomes ran out while the policy still wanted another attempt.
    Unfinished { attempts: u32 },
}

/// The action owed after attempt number `attempt` (counted from one) ended
/// with `event`.
pub open spec fn download_action_spec(attempt: nat, event: DownloadEvent) -> DownloadAction {
    match event {
        DownloadEvent::RequestFailed(f) => if !f.retried_on_request_spec() {
            DownloadAction::Fail { fault: f, exhausted: false }
        } else if attempt < MAX_DOWNLOAD_ATTEMPTS {
            DownloadAction::RetryRequest { attempt: attempt as u32 }
        } else {
            DownloadAction::Fail { fault: f, exhausted: true }
        },
        DownloadEvent::BodyFailed(f) => if !f.retried_mid_stream_spec() {
            DownloadAction::Fail { fault: f, exhausted: false }
        } else if attempt < MAX_DOWNLOAD_ATTEMPTS {
            DownloadAction::RetryBody { attempt: attempt as u32 }
        } else {
            DownloadAction::Fail { fault: f, exhausted: true }
        },
        DownloadEvent::Completed { bytes, elapsed_ns } => DownloadAction::Done {
            speed_milli_mbps: speed_spec(bytes as nat, elapsed_ns as nat) as u64,
        },
    }
}

/// Where the retry policy ends when `done` attempts have been made and the
/// next ones end as `events` says, one event per attempt.
pub open spec fn replay_spec(events: Seq<DownloadEvent>, done: nat) -> DownloadOutcome
    decreases events.len(),
{
    if events.len() == 0 {
        DownloadOutcome::Unfinished { attempts: done as u32 }
    } else {
        match download_action_spec(done + 1, events[0]) {
            DownloadAction::Done { speed_milli_mbps } => DownloadOutcome::Succeeded {
                speed_milli_mbps,
                attempts: (done + 1) as u32,
            },
            DownloadAction::Fail { fault, exhausted } => DownloadOutcome::Failed {
                fault,
                attempts: (done + 1) as u32,
            },
            _ => replay_spec(events.drop_first(), done + 1),
        }
    }
}

/// The retry bound, from any number of attempts already made below the
/// bound: the policy never ends past the last allowed attempt, and a success
/// reports the speed of the attempt that completed, timed over that attempt
/// alone.
proof fn lemma_replay_from_bounded(events: Seq<DownloadEvent>, done: nat)
    requires
        done < MAX_DOWNLOAD_ATTEMPTS,
    ensures
        match replay_spec(events, done) {
            DownloadOutcome::Succeeded { speed_milli_mbps, attempts } => {
                &&& done < attempts <= MAX_DOWNLOAD_ATTEMPTS
                &&& attempts - done <= events.len()
                &&& match events[attempts - done - 1] {
                    DownloadEvent::Completed { bytes, elapsed_ns } => speed_milli_mbps as nat
                        == speed_spec(bytes as nat, elapsed_ns as nat),
                    _ => false,
                }
            },
            DownloadOutcome::Failed { fault, attempts } => done < attempts <= MAX_DOWNLOAD_ATTEMPTS
                && attempts - done <= events.len(),
            DownloadOutcome::Unfinished { attempts } => attempts <= MAX_DOWNLOAD_ATTEMPTS,
        },
    decreases events.len(),
{
    if events.len() > 0 {
        match download_action_spec(done + 1, events[0]) {
            DownloadAction::RetryRequest { attempt } => {
                lemma_replay_from_bounded(events.drop_first(), done + 1);
            },
            DownloadAction::RetryBody { attempt } => {
                lemma_replay_from_bounded(events.drop_first(), done + 1);
            },
            _ => {},
        }
        match replay_spec(events, done) {
            DownloadOutcome::Succeeded { speed_milli_mbps, attempts } => {
                if attempts > done + 1 {
                    assert(events.drop_first()[attempts - (done + 1) - 1] == events[attempts
                        - done - 1]);
                }
            },
            _ => {},
        }
    }
}

/// The retry bound of a download: at most three attempts are ever made, and
/// a download that succeeds after failed attempts reports the speed of the
/// successful attempt alone, never time summed over the failed ones.
pub proof fn lemma_download_retry_bound(events: Seq<DownloadEvent>)
    ensures
        match replay_spec(events, 0) {
            DownloadOutcome::Succeeded { speed_milli_mbps, attempts } => {
                &&& 1 <= attempts <= MAX_DOWNLOAD_ATTEMPTS
                &&& attempts <= events.len()
                &&& match events[attempts - 1] {
                    DownloadEvent::Completed { bytes, elapsed_ns } => speed_milli_mbps as nat
                        == speed_spec(bytes as nat, elapsed_ns as nat),
                    _ => false,
                }
            },
            DownloadOutcome::Failed { fault, attempts } => 1 <= attempts <= MAX_DOWNLOAD_ATTEMPTS,
            DownloadOutcome::Unfinished { attempts } => attempts <= MAX_DOWNLOAD_ATTEMPTS,
        },
{
    lemma_replay_from_bounded(events, 0);
}

/// The attempt counter of one download.
pub struct DownloadRetry {
    pub attempts: u32,
}

impl DownloadRetry {
    pub open spec fn wf(&self) -> bool {
        self.attempts <= MAX_DOWNLOAD_ATTEMPTS
    }

    pub fn new() -> (r: DownloadRetry)
        ensures
            r.attempts == 0,
            r.wf(),
    {
        DownloadRetry { attempts: 0 }
    }

    /// Whether another attempt may start.
    pub fn can_attempt(&self) -> (r: bool)
        ensures
            r == (self.attempts < MAX_DOWNLOAD_ATTEMPTS),
    {
        self.attempts < MAX_DOWNLOAD_ATTEMPTS
    }

    /// Counts the start of an attempt and returns its number.
    pub fn begin_attempt(&mut self) -> (attempt: u32)
        requires
            old(self).attempts < MAX_DOWNLOAD_ATTEMPTS,
        ensures
            final(self).attempts == old(self).attempts + 1,
            attempt == final(self).attempts,
            final(self).wf(),
    {
        self.attempts = self.attempts + 1;
        self.attempts
    }

    /// Decides what follows the current attempt. A retry is only ever
    /// returned while another attempt may start, and a speed only from the
    /// timing of the attempt that completed.
    pub fn on_event(&self, event: DownloadEvent) -> (r: DownloadAction)
        requires
            1 <= self.attempts <= MAX_DOWNLOAD_ATTEMPTS,
        ensures
            r == download_action_spec(self.attempts as nat, event),
    {
        match event {
            DownloadEvent::RequestFailed(f) => {
                if !f.retried_on_request() {
                    DownloadAction::Fail { fault: f, exhausted: false }
                } else if self.attempts < MAX_DOWNLOAD_ATTEMPTS {
                    DownloadAction::RetryRequest { attempt: self.attempts }
                } else {
                    DownloadAction::Fail { fault: f, exhausted: true }
                }
            },
            DownloadEvent::BodyFailed(f) => {
                if !f.retried_mid_stream() {
                    DownloadAction::Fail { fault: f, exhausted: false }
                } else if self.attempts < MAX_DOWNLOAD_ATTEMPTS {
                    DownloadAction::RetryBody { attempt: self.attempts }
                } else {
                    DownloadAction::Fail { fault: f, exhausted: true }
                }
            },
            DownloadEvent::Completed { bytes, elapsed_ns } => {
                DownloadAction::Done { speed_milli_mbps: speed_milli_mbps(bytes, elapsed_ns) }
            },
        }
    }
}

/// Runs the download retry policy over the outcomes of successive attempts,
/// one event per attempt, and reports where it ends.
pub fn replay_download(events: &Vec<DownloadEvent>) -> (r: DownloadOutcome)
    ensures
        r == replay_spec(events@, 0),
{
    let mut retry = DownloadRetry::new();
    let mut i: usize = 0;
    assert(events@.skip(0) =~= events@);
    while i < events.len()
        invariant
            i <= events.len(),
            retry.attempts == i,
            i < MAX_DOWNLOAD_ATTEMPTS,
            replay_spec(events@, 0) == replay_spec(events@.skip(i as int), i as nat),
        decreases events.len() - i,
    {
        let attempt = retry.begin_attempt();
        let event = events[i];
        assert(events@.skip(i as int)[0] == event);
        assert(events@.skip(i as int).drop_first() =~= events@.skip(i + 1));
        match retry.on_event(event) {
            DownloadAction::Done { speed_milli_mbps } => {
                return DownloadOutcome::Succeeded { speed_milli_mbps, attempts: attempt };
            },
            DownloadAction::Fail { fault, exhausted } => {
                return DownloadOutcome::Failed { fault, attempts: attempt };
            },
            _ => {},
        }
        i = i + 1;
    }
    assert(events@.skip(i as int) =~= Seq::<DownloadEvent>::empty());
    DownloadOutcome::Unfinished { attempts: retry.attempts }
}

} // verus!
