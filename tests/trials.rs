use speedrust::{summarize, RunConfig, RunSummary, TrialResult, TrialRun, TrialStep, Verdict};

fn trial(ping_ms: u32, download_milli_mbps: u64, upload_milli_mbps: u64) -> TrialResult {
    TrialResult { ping_ms, download_milli_mbps, upload_milli_mbps }
}

#[test]
fn verdict_thresholds() {
    assert_eq!(Verdict::from_average(25_001), Verdict::Excellent);
    assert_eq!(Verdict::from_average(25_000), Verdict::Good);
    assert_eq!(Verdict::from_average(10_001), Verdict::Good);
    assert_eq!(Verdict::from_average(10_000), Verdict::Poor);
    assert_eq!(Verdict::from_average(0), Verdict::Poor);
    assert_eq!(Verdict::from_average(u64::MAX), Verdict::Excellent);
    assert_eq!(Verdict::Good.name(), "Good");
    assert_eq!(Verdict::Excellent.name(), "Excellent");
    assert_eq!(Verdict::Poor.name(), "Poor");
}

#[test]
fn three_trials_average_60_mbps_is_excellent() {
    let results = vec![trial(20, 50_000, 5_000), trial(30, 60_000, 6_000), trial(41, 70_000, 8_000)];
    assert_eq!(
        summarize(&results),
        RunSummary {
            trials: 3,
            average_ping_us: 30_333,
            average_download_milli_mbps: 60_000,
            average_upload_milli_mbps: 6_333,
            verdict: Verdict::Excellent,
        }
    );
}

#[test]
fn verdict_uses_the_exact_mean() {
    // mean 25000.5: above the threshold though it rounds down to it
    let results = vec![trial(1, 25_000, 0), trial(1, 25_001, 0)];
    let s = summarize(&results);
    assert_eq!(s.average_download_milli_mbps, 25_000);
    assert_eq!(s.verdict, Verdict::Excellent);
    let s = summarize(&vec![trial(1, 10_000, 0)]);
    assert_eq!(s.verdict, Verdict::Poor);
    let s = summarize(&vec![trial(1, 12_000, 0)]);
    assert_eq!(s.verdict, Verdict::Good);
}

#[test]
fn large_speeds_average_without_overflow() {
    let results = vec![trial(u32::MAX, u64::MAX, u64::MAX), trial(u32::MAX, u64::MAX, 1)];
    let s = summarize(&results);
    assert_eq!(s.average_download_milli_mbps, u64::MAX);
    assert_eq!(s.average_upload_milli_mbps, u64::MAX / 2 + 1);
    assert_eq!(s.average_ping_us, u32::MAX as u64 * 1000);
}

#[test]
fn run_summarizes_only_after_every_trial() {
    let mut run = TrialRun::new(2);
    assert_eq!(run.iterations(), 2);
    for n in 1..=2u32 {
        assert_eq!(run.summary(), None);
        assert_eq!(run.current_trial(), n);
        assert_eq!(run.next_step(), TrialStep::Ping);
        run.record_ping(10 * n);
        assert_eq!(run.next_step(), TrialStep::Download);
        run.record_download(20_000 * n as u64);
        assert_eq!(run.next_step(), TrialStep::Upload);
        assert_eq!(run.summary(), None);
        run.record_upload(5_000);
    }
    assert_eq!(run.next_step(), TrialStep::Finished);
    assert_eq!(run.results().len(), 2);
    assert_eq!(run.results()[1], trial(20, 40_000, 5_000));
    let s = run.summary().unwrap();
    assert_eq!(s.trials, 2);
    assert_eq!(s.average_ping_us, 15_000);
    assert_eq!(s.average_download_milli_mbps, 30_000);
    assert_eq!(s.verdict, Verdict::Excellent);
}

#[test]
fn config_defaults_and_override() {
    assert!(RunConfig::new(0, None).is_none());
    let c = RunConfig::new(3, None).unwrap();
    assert_eq!(c.iterations, 3);
    assert_eq!(c.download_url, "http://speedtest.tele2.net/100MB.zip");
    assert_eq!(c.upload_url, "https://file.io");
    assert_eq!(c.request_timeout_secs, 300);
    assert_eq!(c.connect_timeout_secs, 30);
    let c = RunConfig::new(1, Some("http://example.org/f".to_string())).unwrap();
    assert_eq!(c.download_url, "http://example.org/f");
}
