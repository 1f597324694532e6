//! Measurement engine of a network speed test: throughput arithmetic, the
//! download retry policy, progress counters, the simulated upload progress and
//! the aggregation of repeated trials into a verdict.
//!
//! Speeds are carried as whole thousandths of a megabit per second, where a
//! megabit is 1,048,576 bytes times eight bits, and durations as nanoseconds.
//! The network calls themselves, their timing and all rendering are left to
//! the caller, which hands the outcomes of each operation to this library and
//! acts on what it decides.
mod config;
mod download;
mod fault;
mod progress;
mod throughput;
mod trials;
mod upload;

pub use config::{
    ping_ms_from_nanos, RunConfig, CONNECT_TIMEOUT_SECS, DEFAULT_DOWNLOAD_URL,
    DEFAULT_ITERATIONS, DEFAULT_UPLOAD_URL, REQUEST_TIMEOUT_SECS,
};
pub use download::{
    download_action_spec, lemma_download_retry_bound, replay_download, replay_spec,
    DownloadAction, DownloadEvent, DownloadOutcome, DownloadRetry, MAX_DOWNLOAD_ATTEMPTS,
};
pub use fault::FaultKind;
pub use progress::{
    advanced, after_advances, counter_cap, lemma_progress_monotonic, ProgressPhase,
    ProgressState, ProgressView,
};
pub use throughput::{
    lemma_speed_scale_invariant, speed_milli_mbps, speed_spec, BYTES_PER_MEGABYTE,
    MAX_SPEED_MILLI_MBPS, NANOS_PER_SECOND,
};
pub use trials::{
    lemma_summary_covers_every_trial, summarize, summarize_spec, total_download, total_ping,
    total_upload, verdict_of_total_spec, RunSummary, TrialResult, TrialRun, TrialRunView,
    TrialStep, Verdict, EXCELLENT_ABOVE_MILLI_MBPS, GOOD_ABOVE_MILLI_MBPS,
};
pub use upload::{
    simulation_step, simulation_step_spec, upload_payload, UploadSimulator, SIMULATED_STEPS,
    SIMULATION_TICK_MS, UPLOAD_PAYLOAD_BYTES,
};
