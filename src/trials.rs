use vstd::prelude::*;

verus! {

/// Average download speed, in thousandths of a megabit per second, above
/// which a run is excellent.
pub const EXCELLENT_ABOVE_MILLI_MBPS: u64 = 25000;

/// Average download speed above which a run is good.
pub const GOOD_ABOVE_MILLI_MBPS: u64 = 10000;

/// The measurements of one completed trial.
#[derive(Clone, Copy, Debug, PartialEq, Eq, Structural)]
pub struct TrialResult {
    pub ping_ms: u32,
    pub download_milli_mbps: u64,
    pub upload_milli_mbps: u64,
}

/// The qualitative judgement of a run, by its average download speed.
#[derive(Clone, Copy, Debug, PartialEq, Eq, Structural)]
pub enum Verdict {
    Excellent,
    Good,
    Poor,
}

/// The verdict for a mean download speed of `total / count`, compared
/// exactly, without rounding the mean.
pub open spec fn verdict_of_total_spec(total: nat, count: nat) -> Verdict {
    if total > EXCELLENT_ABOVE_MILLI_MBPS * count {
        Verdict::Excellent
    } else if total > GOOD_ABOVE_MILLI_MBPS * count {
        Verdict::Good
    } else {
        Verdict::Poor
    }
}

impl Verdict {
    /// Classifies an average download speed: above 25 Mbps excellent, above
    /// 10 Mbps good, otherwise poor.
    pub fn from_average(average_milli_mbps: u64) -> (r: Verdict)
        ensures
            r == verdict_of_total_spec(average_milli_mbps as nat, 1),
            average_milli_mbps > 25000 ==> r == Verdict::Excellent,
            10000 < average_milli_mbps <= 25000 ==> r == Verdict::Good,
            average_milli_mbps <= 10000 ==> r == Verdict::Poor,
    {
        if average_milli_mbps > EXCELLENT_ABOVE_MILLI_MBPS {
            Verdict::Excellent
        } else if average_milli_mbps > GOOD_ABOVE_MILLI_MBPS {
            Verdict::Good
        } else {
            Verdict::Poor
        }
    }

    /// The verdict's name.
    pub fn name(&self) -> (r: &'static str)
        ensures
            *self == Verdict::Excellent ==> r@ == "Excellent"@,
            *self == Verdict::Good ==> r@ == "Good"@,
            *self == Verdict::Poor ==> r@ == "Poor"@,
    {
        match self {
            Verdict::Excellent => "Excellent",
            Verdict::Good => "Good",
            Verdict::Poor => "Poor",
        }
    }
}

/// The averages of a run over all its trials, with its verdict. The average
/// ping is in microseconds, the average speeds in thousandths of a megabit
/// per second, each rounded down.
#[derive(Clone, Copy, Debug, PartialEq, Eq, Structural)]
pub struct RunSummary {
    pub trials: u32,
    pub average_ping_us: u64,
    pub average_download_milli_mbps: u64,
    pub average_upload_milli_mbps: u64,
    pub verdict: Verdict,
}

pub open spec fn total_ping(s: Seq<TrialResult>) -> nat
    decreases s.len(),
{
    if s.len() == 0 {
        0
    } else {
        total_ping(s.drop_last()) + s.last().ping_ms as nat
    }
}

pub open spec fn total_download(s: Seq<TrialResult>) -> nat
    decreases s.len(),
{
    if s.len() == 0 {
        0
    } else {
        total_download(s.drop_last()) + s.last().download_milli_mbps as nat
    }
}

pub open spec fn total_upload(s: Seq<TrialResult>) -> nat
    decreases s.len(),
{
    if s.len() == 0 {
        0
    } else {
        total_upload(s.drop_last()) + s.last().upload_milli_mbps as nat
    }
}

/// The summary of a non-empty list of trials: the arithmetic mean of each
/// measurement over every trial, and the verdict of the exact mean download
/// speed.
pub open spec fn summarize_spec(s: Seq<TrialResult>) -> RunSummary {
    RunSummary {
        trials: s.len() as u32,
        average_ping_us: (total_ping(s) * 1000 / s.len()) as u64,
        average_download_milli_mbps: (total_download(s) / s.len()) as u64,
        average_upload_milli_mbps: (total_upload(s) / s.len()) as u64,
        verdict: verdict_of_total_spec(total_download(s), s.len()),
    }
}

proof fn lemma_quotient_bounded(x: nat, n: nat, m: nat)
    requires
        n > 0,
        x <= n * m,
    ensures
        x / n <= m,
{
    vstd::arithmetic::div_mod::lemma_div_is_ordered(x as int, (n * m) as int, n as int);
    vstd::arithmetic::mul::lemma_mul_is_commutative(n as int, m as int);
    vstd::arithmetic::div_mod::lemma_div_multiples_vanish(m as int, n as int);
}

/// Averages a non-empty list of trial results.
pub fn summarize(results: &Vec<TrialResult>) -> (r: RunSummary)
    requires
        1 <= results.len() <= 0xffff_ffff,
    ensures
        r == summarize_spec(results@),
{
    let n: usize = results.len();
    let mut ping: u128 = 0;
    let mut down: u128 = 0;
    let mut up: u128 = 0;
    let mut i: usize = 0;
    while i < n
        invariant
            n == results.len() <= 0xffff_ffff,
            i <= n,
            ping == total_ping(results@.take(i as int)),
            down == total_download(results@.take(i as int)),
            up == total_upload(results@.take(i as int)),
            ping <= i * 0xffff_ffff,
            down <= i * 0xffff_ffff_ffff_ffff,
            up <= i * 0xffff_ffff_ffff_ffff,
        decreases n - i,
    {
        let t = results[i];
        assert(results@.take(i + 1).drop_last() =~= results@.take(i as int));
        assert(results@.take(i + 1).last() == t);
        assert(ping + t.ping_ms <= (i + 1) * 0xffff_ffff) by (nonlinear_arith)
            requires ping <= i * 0xffff_ffff, t.ping_ms <= 0xffff_ffff;
        assert(down + t.download_milli_mbps <= (i + 1) * 0xffff_ffff_ffff_ffff) by (nonlinear_arith)
            requires down <= i * 0xffff_ffff_ffff_ffff, t.download_milli_mbps <= 0xffff_ffff_ffff_ffff;
        assert(up + t.upload_milli_mbps <= (i + 1) * 0xffff_ffff_ffff_ffff) by (nonlinear_arith)
            requires up <= i * 0xffff_ffff_ffff_ffff, t.upload_milli_mbps <= 0xffff_ffff_ffff_ffff;
        assert((i + 1) * 0xffff_ffff_ffff_ffff <= 0xffff_ffff * 0xffff_ffff_ffff_ffff) by (nonlinear_arith)
            requires i + 1 <= 0xffff_ffff;
        ping = ping + t.ping_ms as u128;
        down = down + t.download_milli_mbps as u128;
        up = up + t.upload_milli_mbps as u128;
        i = i + 1;
    }
    assert(results@.take(n as int) =~= results@);
    let count = n as u128;
    assert(ping * 1000 <= n * (0xffff_ffff * 1000)) by (nonlinear_arith)
        requires ping <= n * 0xffff_ffff;
    proof {
        lemma_quotient_bounded((ping * 1000) as nat, n as nat, 0xffff_ffff * 1000);
        lemma_quotient_bounded(down as nat, n as nat, 0xffff_ffff_ffff_ffff);
        lemma_quotient_bounded(up as nat, n as nat, 0xffff_ffff_ffff_ffff);
    }
    let verdict = if down > (EXCELLENT_ABOVE_MILLI_MBPS as u128) * count {
        Verdict::Excellent
    } else if down > (GOOD_ABOVE_MILLI_MBPS as u128) * count {
        Verdict::Good
    } else {
        Verdict::Poor
    };
    RunSummary {
        trials: n as u32,
        average_ping_us: (ping * 1000 / count) as u64,
        average_download_milli_mbps: (down / count) as u64,
        average_upload_milli_mbps: (up / count) as u64,
        verdict,
    }
}

/// The next measurement a run asks for.
#[derive(Clone, Copy, Debug, PartialEq, Eq, Structural)]
pub enum TrialStep {
    Ping,
    Download,
    Upload,
    Finished,
}

/// A run of trials in progress: the trials completed so far, and the
/// measurements of the current trial taken so far.
pub struct TrialRun {
    iterations: u32,
    results: Vec<TrialResult>,
    ping_ms: Option<u32>,
    download_milli_mbps: Option<u64>,
}

pub struct TrialRunView {
    pub iterations: nat,
    pub results: Seq<TrialResult>,
    pub ping_ms: Option<u32>,
    pub download_milli_mbps: Option<u64>,
}

impl View for TrialRun {
    type V = TrialRunView;

    closed spec fn view(&self) -> TrialRunView {
        TrialRunView {
            iterations: self.iterations as nat,
            results: self.results@,
            ping_ms: self.ping_ms,
            download_milli_mbps: self.download_milli_mbps,
        }
    }
}

impl TrialRunView {
    /// At least one trial is planned; no more trials complete than planned;
    /// a download is only measured after the ping of the same trial, and no
    /// trial is under way once all are complete.
    pub open spec fn wf(self) -> bool {
        &&& 1 <= self.iterations <= 0xffff_ffff
        &&& self.results.len() <= self.iterations
        &&& self.download_milli_mbps is Some ==> self.ping_ms is Some
        &&& self.results.len() == self.iterations ==> self.ping_ms is None
    }

    pub open spec fn next_step(self) -> TrialStep {
        if self.results.len() >= self.iterations {
            TrialStep::Finished
        } else if self.ping_ms is None {
            TrialStep::Ping
        } else if self.download_milli_mbps is None {
            TrialStep::Download
        } else {
            TrialStep::Upload
        }
    }

    /// A summary exists exactly when every planned trial completed.
    pub open spec fn summary(self) -> Option<RunSummary> {
        if self.results.len() == self.iterations {
            Some(summarize_spec(self.results))
        } else {
            None
        }
    }
}

impl TrialRun {
    /// Starts a run of `iterations` trials.
    pub fn new(iterations: u32) -> (r: TrialRun)
        requires
            iterations >= 1,
        ensures
            r@.wf(),
            r@.iterations == iterations,
            r@.results.len() == 0,
            r@.ping_ms is None,
            r@.download_milli_mbps is None,
    {
        TrialRun { iterations, results: Vec::new(), ping_ms: None, download_milli_mbps: None }
    }

    pub fn iterations(&self) -> (r: u32)
        ensures
            r == self@.iterations,
    {
        self.iterations
    }

    /// The number, counted from one, of the trial under way.
    pub fn current_trial(&self) -> (r: u32)
        requires
            self@.wf(),
            self@.next_step() != TrialStep::Finished,
        ensures
            r == self@.results.len() + 1,
    {
        (self.results.len() + 1) as u32
    }

    pub fn results(&self) -> (r: &Vec<TrialResult>)
        ensures
            r@ == self@.results,
    {
        &self.results
    }

    /// Which measurement comes next: ping, download and upload in turn for
    /// each trial, then the end of the run.
    pub fn next_step(&self) -> (r: TrialStep)
        ensures
            r == self@.next_step(),
    {
        if self.results.len() >= self.iterations as usize {
            TrialStep::Finished
        } else if self.ping_ms.is_none() {
            TrialStep::Ping
        } else if self.download_milli_mbps.is_none() {
            TrialStep::Download
        } else {
            TrialStep::Upload
        }
    }

    pub fn record_ping(&mut self, ping_ms: u32)
        requires
            old(self)@.wf(),
            old(self)@.next_step() == TrialStep::Ping,
        ensures
            final(self)@ == (TrialRunView { ping_ms: Some(ping_ms), ..old(self)@ }),
            final(self)@.wf(),
    {
        self.ping_ms = Some(ping_ms);
    }

    pub fn record_download(&mut self, speed_milli_mbps: u64)
        requires
            old(self)@.wf(),
            old(self)@.next_step() == TrialStep::Download,
        ensures
            final(self)@ == (TrialRunView {
                download_milli_mbps: Some(speed_milli_mbps),
                ..old(self)@
            }),
            final(self)@.wf(),
    {
        self.download_milli_mbps = Some(speed_milli_mbps);
    }

    /// Completes the current trial with its upload speed; the trial's three
    /// measurements are recorded together.
    pub fn record_upload(&mut self, speed_milli_mbps: u64)
        requires
            old(self)@.wf(),
            old(self)@.next_step() == TrialStep::Upload,
        ensures
            final(self)@.iterations == old(self)@.iterations,
            final(self)@.results == old(self)@.results.push(
                TrialResult {
                    ping_ms: old(self)@.ping_ms->Some_0,
                    download_milli_mbps: old(self)@.download_milli_mbps->Some_0,
                    upload_milli_mbps: speed_milli_mbps,
                },
            ),
            final(self)@.ping_ms is None,
            final(self)@.download_milli_mbps is None,
            final(self)@.wf(),
    {
        let ping_ms = self.ping_ms.unwrap();
        let download_milli_mbps = self.download_milli_mbps.unwrap();
        self.results.push(
            TrialResult { ping_ms, download_milli_mbps, upload_milli_mbps: speed_milli_mbps },
        );
        self.ping_ms = None;
        self.download_milli_mbps = None;
    }

    /// The summary of the run, present only once every planned trial has
    /// completed.
    pub fn summary(&self) -> (r: Option<RunSummary>)
        requires
            self@.wf(),
        ensures
            r == self@.summary(),
    {
        if self.results.len() == self.iterations as usize {
            Some(summarize(&self.results))
        } else {
            None
        }
    }
}

/// A run never summarizes fewer trials than it planned: whenever a summary
/// exists, it averages exactly the planned number of completed trials.
pub proof fn lemma_summary_covers_every_trial(run: TrialRunView)
    requires
        run.wf(),
    ensures
        run.summary() is Some <==> run.next_step() == TrialStep::Finished,
        run.summary() is Some ==> {
            &&& run.results.len() == run.iterations
            &&& run.summary()->Some_0 == summarize_spec(run.results)
            &&& run.summary()->Some_0.trials == run.iterations
        },
{
}

} // verus!
