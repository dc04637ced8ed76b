use wan2gp_client::client::bridge_online;
use wan2gp_client::client::http_error;
use wan2gp_client::client::is_generate_accepted;
use wan2gp_client::client::is_success_status;
use wan2gp_client::client::Wan2gpClient;
use wan2gp_client::client::WaitAction;
use wan2gp_client::client::WaitEvent;
use wan2gp_client::client::DEFAULT_MAX_GENERATION_TIME_NANOS;
use wan2gp_client::client::DEFAULT_POLL_INTERVAL_NANOS;
use wan2gp_client::error::Wan2gpError;
use wan2gp_client::types::BridgeStatus;
use wan2gp_client::types::TaskStatusResponse;

fn task(status: &str, error: Option<&str>) -> TaskStatusResponse {
    TaskStatusResponse {
        id: "t1".to_string(),
        status: status.to_string(),
        progress_bits: 0.5f64.to_bits(),
        progress_message: None,
        error: error.map(|e| e.to_string()),
        result_type: None,
        result_path: None,
        download_url: None,
        created_at_bits: None,
        started_at_bits: None,
        completed_at_bits: None,
    }
}

fn bridge_status(online: bool) -> BridgeStatus {
    BridgeStatus {
        online,
        version: "1.0".to_string(),
        engine: "wan2gp".to_string(),
        gpu: "RTX".to_string(),
        gpu_vram_gb_bits: 24.0f64.to_bits(),
        api_base: "/artcraft/api".to_string(),
        active_tasks: 0,
    }
}

#[test]
fn new_client_uses_default_bridge() {
    let c = Wan2gpClient::new();
    assert_eq!(c.base_url(), "http://localhost:7861");
    assert_eq!(c.poll_interval_nanos(), DEFAULT_POLL_INTERVAL_NANOS);
    assert_eq!(c.poll_interval_nanos(), 2_000_000_000);
    assert_eq!(c.max_generation_time_nanos(), DEFAULT_MAX_GENERATION_TIME_NANOS);
    assert_eq!(c.max_generation_time_nanos(), 600_000_000_000);
    let d = Wan2gpClient::default();
    assert_eq!(d.base_url(), "http://localhost:7861");
}

#[test]
fn base_url_drops_trailing_slashes() {
    assert_eq!(Wan2gpClient::with_base_url("http://host:1/").base_url(), "http://host:1");
    assert_eq!(Wan2gpClient::with_base_url("http://host:1///").base_url(), "http://host:1");
    assert_eq!(Wan2gpClient::with_base_url("http://host:1").base_url(), "http://host:1");
    assert_eq!(Wan2gpClient::with_base_url("///").base_url(), "");
    assert_eq!(Wan2gpClient::with_base_url("").base_url(), "");
}

#[test]
fn base_url_normalization_is_idempotent() {
    let once = Wan2gpClient::with_base_url("http://a/b//");
    let twice = Wan2gpClient::with_base_url(once.base_url());
    assert_eq!(once.base_url(), twice.base_url());
    assert!(!once.base_url().ends_with('/'));
}

#[test]
fn builders_set_timings() {
    let c = Wan2gpClient::with_base_url("http://x").with_poll_interval(250_000_001).with_max_generation_time(9_000_000_000);
    assert_eq!(c.poll_interval_nanos(), 250_000_001);
    assert_eq!(c.max_generation_time_nanos(), 9_000_000_000);
    assert_eq!(c.base_url(), "http://x");
}

#[test]
fn endpoint_urls() {
    let c = Wan2gpClient::with_base_url("http://localhost:7861/");
    assert_eq!(c.status_url(), "http://localhost:7861/artcraft/api/status");
    assert_eq!(c.models_url(), "http://localhost:7861/artcraft/api/models");
    assert_eq!(c.profiles_url("i2v_2_2"), "http://localhost:7861/artcraft/api/models/profiles/i2v_2_2");
    assert_eq!(c.generate_url(), "http://localhost:7861/artcraft/api/generate");
    assert_eq!(c.task_url("abc"), "http://localhost:7861/artcraft/api/tasks/abc");
    assert_eq!(c.download_url("abc"), "http://localhost:7861/artcraft/api/tasks/abc/download");
    assert_eq!(c.cancel_url("abc"), "http://localhost:7861/artcraft/api/tasks/abc/cancel");
}

#[test]
fn timeout_only_after_the_limit() {
    let c = Wan2gpClient::new().with_max_generation_time(1_000);
    assert!(!c.timed_out(0));
    assert!(!c.timed_out(1_000));
    assert!(c.timed_out(1_001));
}

#[test]
fn wait_outcome_complete_ends_with_status() {
    let s = task("complete", None);
    assert_eq!(Wan2gpClient::wait_outcome(s.clone()), Some(Ok(s)));
}

#[test]
fn wait_outcome_failed_uses_error_or_unknown() {
    assert_eq!(
        Wan2gpClient::wait_outcome(task("failed", Some("out of memory"))),
        Some(Err(Wan2gpError::GenerationFailed("out of memory".to_string())))
    );
    assert_eq!(
        Wan2gpClient::wait_outcome(task("failed", None)),
        Some(Err(Wan2gpError::GenerationFailed("Unknown error".to_string())))
    );
}

#[test]
fn wait_outcome_cancelled_and_running() {
    assert_eq!(Wan2gpClient::wait_outcome(task("cancelled", None)), Some(Err(Wan2gpError::Cancelled)));
    assert_eq!(Wan2gpClient::wait_outcome(task("running", None)), None);
    assert_eq!(Wan2gpClient::wait_outcome(task("queued", None)), None);
    // "error" is not one of the client's terminal states
    assert_eq!(Wan2gpClient::wait_outcome(task("error", Some("x"))), None);
}

#[test]
fn success_status_codes() {
    assert!(is_success_status(200));
    assert!(is_success_status(202));
    assert!(is_success_status(299));
    assert!(!is_success_status(199));
    assert!(!is_success_status(300));
    assert!(!is_success_status(404));
    assert!(!is_success_status(500));
}

#[test]
fn generate_accepts_exactly_success() {
    assert!(is_generate_accepted(202));
    assert!(is_generate_accepted(200));
    assert!(!is_generate_accepted(400));
    for code in 0..=u16::MAX {
        assert_eq!(is_generate_accepted(code), is_success_status(code));
    }
}

#[test]
fn http_error_keeps_status_and_body() {
    assert_eq!(
        http_error(503, "busy".to_string()),
        Wan2gpError::HttpError { status: 503, message: "busy".to_string() }
    );
}

#[test]
fn online_only_when_status_says_so() {
    assert!(bridge_online(&Ok(bridge_status(true))));
    assert!(!bridge_online(&Ok(bridge_status(false))));
    assert!(!bridge_online(&Err(Wan2gpError::Timeout)));
}

#[test]
fn wait_step_checks_time_then_polls() {
    let c = Wan2gpClient::new().with_max_generation_time(1_000).with_poll_interval(7);
    assert_eq!(c.wait_step(WaitEvent::Tick { elapsed_nanos: 0 }), WaitAction::Poll);
    assert_eq!(c.wait_step(WaitEvent::Tick { elapsed_nanos: 1_000 }), WaitAction::Poll);
    assert_eq!(
        c.wait_step(WaitEvent::Tick { elapsed_nanos: 1_001 }),
        WaitAction::Finish(Err(Wan2gpError::Timeout))
    );
}

#[test]
fn wait_step_after_poll() {
    let c = Wan2gpClient::new().with_poll_interval(7);
    assert_eq!(c.wait_step(WaitEvent::Polled(Ok(task("running", None)))), WaitAction::Sleep { nanos: 7 });
    let done = task("complete", None);
    assert_eq!(c.wait_step(WaitEvent::Polled(Ok(done.clone()))), WaitAction::Finish(Ok(done)));
    assert_eq!(
        c.wait_step(WaitEvent::Polled(Ok(task("failed", Some("oom"))))),
        WaitAction::Finish(Err(Wan2gpError::GenerationFailed("oom".to_string())))
    );
    assert_eq!(
        c.wait_step(WaitEvent::Polled(Ok(task("cancelled", None)))),
        WaitAction::Finish(Err(Wan2gpError::Cancelled))
    );
    let failed = Wan2gpError::Other("request timed out".to_string());
    assert_eq!(c.wait_step(WaitEvent::Polled(Err(failed.clone()))), WaitAction::Finish(Err(failed)));
}
