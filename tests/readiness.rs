use tsw_io::config::{BackendConfig, RetryPolicy, StatusBands, MAX_RETRIES, RETRY_DELAY_MS};
use tsw_io::controller::{ControllerAction, ControllerState, LaunchOutcome, Pause, ReadinessController};
use tsw_io::probe::{classify_response, is_success_status, ProbeResult};
use tsw_io::status::{band_for_attempt, status_message, status_script, failure_script, StatusBand};

struct Run {
    outcome: LaunchOutcome,
    probes: u32,
    statuses: Vec<(u32, &'static str)>,
    waited_ms: u64,
}

fn drive(policy: RetryPolicy, mut probe: impl FnMut(u32) -> ProbeResult) -> Run {
    let mut ctl = ReadinessController::new(policy);
    let mut probes = 0u32;
    let mut statuses = Vec::new();
    let mut waited_ms = 0u64;
    loop {
        match ctl.next_action() {
            ControllerAction::Probe { attempt } => {
                probes += 1;
                let result = probe(attempt);
                if let Some(pause) = ctl.on_probe_result(&result) {
                    statuses.push((attempt, pause.status.text()));
                    waited_ms += pause.delay_ms;
                }
            }
            ControllerAction::Finish(outcome) => {
                return Run { outcome, probes, statuses, waited_ms };
            }
        }
    }
}

fn http(code: u16) -> ProbeResult {
    classify_response(Ok(code))
}

#[test]
fn ready_on_first_probe() {
    let run = drive(RetryPolicy::standard(), |_| http(200));
    assert_eq!(run.outcome, LaunchOutcome::BackendReady);
    assert_eq!(run.probes, 1);
    assert!(run.statuses.is_empty());
    assert_eq!(run.waited_ms, 0);
}

#[test]
fn ready_on_thirtieth_probe_after_unavailable() {
    let run = drive(RetryPolicy::standard(), |a| if a < 30 { http(503) } else { http(200) });
    assert_eq!(run.outcome, LaunchOutcome::BackendReady);
    assert_eq!(run.probes, 30);
    assert_eq!(run.statuses.len(), 29);
    for (attempt, text) in &run.statuses {
        if *attempt >= 10 {
            assert_eq!(*text, "Running database migrations...");
        } else {
            assert_eq!(*text, "Starting server...");
        }
    }
    assert_eq!(run.waited_ms, 29 * RETRY_DELAY_MS);
}

#[test]
fn transport_errors_exhaust_retries() {
    let run = drive(RetryPolicy::standard(), |_| classify_response(Err("connection refused".to_string())));
    assert_eq!(run.outcome, LaunchOutcome::BackendFailed);
    assert_eq!(run.probes, MAX_RETRIES);
    assert_eq!(run.statuses.len(), MAX_RETRIES as usize);
    assert_eq!(run.statuses.last().unwrap().1, "Almost ready...");
    assert_eq!(run.waited_ms, MAX_RETRIES as u64 * RETRY_DELAY_MS);
}

#[test]
fn exhausted_controller_ignores_later_results() {
    let policy = RetryPolicy { max_retries: 2, retry_delay_ms: 7, bands: StatusBands { starting_below: 10, migrating_below: 30 } };
    let mut ctl = ReadinessController::new(policy);
    assert_eq!(ctl.on_probe_result(&ProbeResult::NotReady), Some(Pause { status: StatusBand::Starting, delay_ms: 7 }));
    assert_eq!(ctl.state, ControllerState::Probing { attempt: 2 });
    assert!(ctl.on_probe_result(&ProbeResult::NotReady).is_some());
    assert_eq!(ctl.state, ControllerState::Exhausted);
    assert_eq!(ctl.on_probe_result(&ProbeResult::Ready), None);
    assert_eq!(ctl.state, ControllerState::Exhausted);
    assert_eq!(ctl.next_action(), ControllerAction::Finish(LaunchOutcome::BackendFailed));
}

#[test]
fn ready_controller_stays_ready() {
    let mut ctl = ReadinessController::new(RetryPolicy::standard());
    assert_eq!(ctl.next_action(), ControllerAction::Probe { attempt: 1 });
    assert_eq!(ctl.on_probe_result(&ProbeResult::Ready), None);
    assert_eq!(ctl.on_probe_result(&ProbeResult::NotReady), None);
    assert_eq!(ctl.next_action(), ControllerAction::Finish(LaunchOutcome::BackendReady));
}

#[test]
fn zero_retries_fails_without_probing() {
    let policy = RetryPolicy { max_retries: 0, retry_delay_ms: 500, bands: StatusBands { starting_below: 10, migrating_below: 30 } };
    let run = drive(policy, |_| http(200));
    assert_eq!(run.outcome, LaunchOutcome::BackendFailed);
    assert_eq!(run.probes, 0);
}

#[test]
fn loop_is_bounded_for_mixed_failures() {
    let run = drive(RetryPolicy::standard(), |a| if a % 2 == 0 { http(500) } else { classify_response(Err("timeout".to_string())) });
    assert_eq!(run.outcome, LaunchOutcome::BackendFailed);
    assert_eq!(run.probes, MAX_RETRIES);
    assert!(run.waited_ms <= MAX_RETRIES as u64 * RETRY_DELAY_MS);
}

#[test]
fn status_bands_of_standard_policy() {
    let bands = RetryPolicy::standard().bands;
    assert_eq!(status_message(&bands, 1), "Starting server...");
    assert_eq!(status_message(&bands, 9), "Starting server...");
    assert_eq!(status_message(&bands, 10), "Running database migrations...");
    assert_eq!(status_message(&bands, 29), "Running database migrations...");
    assert_eq!(status_message(&bands, 30), "Almost ready...");
    assert_eq!(status_message(&bands, MAX_RETRIES), "Almost ready...");
    assert_eq!(band_for_attempt(&bands, 15), StatusBand::Migrating);
    for a in 1..=MAX_RETRIES {
        let t = status_message(&bands, a);
        assert!(t == "Starting server..." || t == "Running database migrations..." || t == "Almost ready...");
        assert_eq!(t, status_message(&bands, a));
    }
}

#[test]
fn status_and_failure_scripts() {
    assert_eq!(
        status_script("Almost ready..."),
        "document.getElementById('status').textContent = 'Almost ready...'"
    );
    assert!(failure_script().contains("Failed to start. Please restart the app."));
    assert!(failure_script().contains("#ef4444"));
}

#[test]
fn success_class_of_status_codes() {
    assert!(!is_success_status(199));
    assert!(is_success_status(200));
    assert!(is_success_status(204));
    assert!(is_success_status(299));
    assert!(!is_success_status(300));
    assert!(!is_success_status(503));
    assert!(matches!(http(200), ProbeResult::Ready));
    assert!(matches!(http(404), ProbeResult::NotReady));
    match classify_response(Err("refused".to_string())) {
        ProbeResult::TransportError(d) => assert_eq!(d, "refused"),
        _ => panic!("expected a transport error"),
    }
}

#[test]
fn backend_urls() {
    let config = BackendConfig::standard();
    assert_eq!(config.base_url(), "http://localhost:4000");
    assert_eq!(config.health_url(), "http://localhost:4000/api/health");
    assert_eq!(BackendConfig { port: 7 }.base_url(), "http://localhost:7");
}
