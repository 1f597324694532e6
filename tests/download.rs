use speedrust::{
    replay_download, DownloadAction, DownloadEvent, DownloadOutcome, DownloadRetry, FaultKind,
    MAX_DOWNLOAD_ATTEMPTS,
};

#[test]
fn connect_failures_then_success_count_only_the_last_attempt() {
    let events = vec![
        DownloadEvent::RequestFailed(FaultKind::ConnectFailure),
        DownloadEvent::RequestFailed(FaultKind::ConnectFailure),
        DownloadEvent::Completed { bytes: 104_857_600, elapsed_ns: 8_000_000_000 },
    ];
    assert_eq!(
        replay_download(&events),
        DownloadOutcome::Succeeded { speed_milli_mbps: 100_000, attempts: 3 }
    );
}

#[test]
fn three_timeouts_fail_without_a_fourth_attempt() {
    let events = vec![
        DownloadEvent::RequestFailed(FaultKind::Timeout),
        DownloadEvent::BodyFailed(FaultKind::ResetOrMidStream),
        DownloadEvent::RequestFailed(FaultKind::Timeout),
        DownloadEvent::Completed { bytes: 1, elapsed_ns: 1 },
    ];
    assert_eq!(
        replay_download(&events),
        DownloadOutcome::Failed { fault: FaultKind::Timeout, attempts: 3 }
    );
}

#[test]
fn other_fault_is_never_retried() {
    let events = vec![
        DownloadEvent::RequestFailed(FaultKind::Other),
        DownloadEvent::Completed { bytes: 1, elapsed_ns: 1 },
    ];
    assert_eq!(
        replay_download(&events),
        DownloadOutcome::Failed { fault: FaultKind::Other, attempts: 1 }
    );
}

#[test]
fn reset_on_request_is_not_retried() {
    let events = vec![DownloadEvent::RequestFailed(FaultKind::ResetOrMidStream)];
    assert_eq!(
        replay_download(&events),
        DownloadOutcome::Failed { fault: FaultKind::ResetOrMidStream, attempts: 1 }
    );
}

#[test]
fn connect_failure_mid_stream_is_not_retried() {
    let events = vec![DownloadEvent::BodyFailed(FaultKind::ConnectFailure)];
    assert_eq!(
        replay_download(&events),
        DownloadOutcome::Failed { fault: FaultKind::ConnectFailure, attempts: 1 }
    );
}

#[test]
fn outcomes_running_out_leave_the_download_unfinished() {
    assert_eq!(replay_download(&vec![]), DownloadOutcome::Unfinished { attempts: 0 });
    let events = vec![DownloadEvent::BodyFailed(FaultKind::Timeout)];
    assert_eq!(replay_download(&events), DownloadOutcome::Unfinished { attempts: 1 });
}

#[test]
fn policy_steps_through_attempts() {
    let mut retry = DownloadRetry::new();
    assert!(retry.can_attempt());
    assert_eq!(retry.begin_attempt(), 1);
    assert_eq!(
        retry.on_event(DownloadEvent::RequestFailed(FaultKind::Timeout)),
        DownloadAction::RetryRequest { attempt: 1 }
    );
    assert_eq!(retry.begin_attempt(), 2);
    assert_eq!(
        retry.on_event(DownloadEvent::BodyFailed(FaultKind::ResetOrMidStream)),
        DownloadAction::RetryBody { attempt: 2 }
    );
    assert_eq!(retry.begin_attempt(), MAX_DOWNLOAD_ATTEMPTS);
    assert!(!retry.can_attempt());
    assert_eq!(
        retry.on_event(DownloadEvent::BodyFailed(FaultKind::ResetOrMidStream)),
        DownloadAction::Fail { fault: FaultKind::ResetOrMidStream, exhausted: true }
    );
    assert_eq!(
        retry.on_event(DownloadEvent::RequestFailed(FaultKind::Other)),
        DownloadAction::Fail { fault: FaultKind::Other, exhausted: false }
    );
    assert_eq!(
        retry.on_event(DownloadEvent::Completed { bytes: 10_485_760, elapsed_ns: 4_000_000_000 }),
        DownloadAction::Done { speed_milli_mbps: 20_000 }
    );
}
