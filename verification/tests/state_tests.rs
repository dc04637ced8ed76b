use wan2gp_client::commands::apply_settings_update;
use wan2gp_client::commands::wan2gp_get_settings_command;
use wan2gp_client::commands::wan2gp_update_settings_command;
use wan2gp_client::commands::UpdateWan2gpSettingsRequest;
use wan2gp_client::settings::Wan2gpSettings;
use wan2gp_client::settings::Wan2gpSettingsData;
use wan2gp_client::types::TaskStatusResponse;

fn status(s: &str) -> TaskStatusResponse {
    TaskStatusResponse {
        id: "x".to_string(),
        status: s.to_string(),
        progress_bits: 0,
        progress_message: None,
        error: None,
        result_type: None,
        result_path: None,
        download_url: None,
        created_at_bits: None,
        started_at_bits: None,
        completed_at_bits: None,
    }
}

fn empty_request() -> UpdateWan2gpSettingsRequest {
    UpdateWan2gpSettingsRequest {
        bridge_url: None,
        selected_model: None,
        resolution: None,
        seed: None,
        num_inference_steps: None,
        guidance_scale_bits: None,
        video_length: None,
        profile_params: None,
    }
}

fn sample_data() -> Wan2gpSettingsData {
    Wan2gpSettingsData {
        bridge_url: "http://gpu:7861".to_string(),
        selected_model: Some("i2v_2_2".to_string()),
        resolution: Some("1280x720".to_string()),
        seed: Some(42),
        num_inference_steps: Some(30),
        guidance_scale_bits: Some(5.0f64.to_bits()),
        video_length: Some(81),
        profile_params: Some("{\"steps\":4}".to_string()),
    }
}

#[test]
fn task_status_predicates() {
    assert!(status("complete").is_complete());
    assert!(status("failed").is_failed());
    assert!(status("cancelled").is_cancelled());
    assert!(status("complete").is_terminal());
    assert!(status("failed").is_terminal());
    assert!(status("cancelled").is_terminal());
    assert!(!status("running").is_terminal());
    assert!(!status("error").is_terminal());
    assert!(!status("Complete").is_complete());
    assert!(!status("complete").is_failed());
}

#[test]
fn terminal_states_exclusive_on_examples() {
    for s in ["complete", "failed", "cancelled", "running", "queued", "pending", "error", ""] {
        let t = status(s);
        let n = [t.is_complete(), t.is_failed(), t.is_cancelled()].iter().filter(|b| **b).count();
        assert!(n <= 1);
        assert_eq!(t.is_terminal(), n == 1);
    }
}

#[test]
fn default_settings() {
    let d = Wan2gpSettingsData::default();
    assert_eq!(d.bridge_url, "http://localhost:7861");
    assert_eq!(d.selected_model, None);
    assert_eq!(d.resolution, Some("832x480".to_string()));
    assert_eq!(d.seed, Some(-1));
    assert_eq!(d.num_inference_steps, None);
    assert_eq!(d.guidance_scale_bits, None);
    assert_eq!(d.video_length, None);
    assert_eq!(d.profile_params, None);
    assert_eq!(Wan2gpSettings::new().snapshot(), d);
    assert_eq!(Wan2gpSettings::default().snapshot(), d);
}

#[test]
fn settings_read_back_what_was_written() {
    let mut s = Wan2gpSettings::new();
    s.update(sample_data());
    assert_eq!(s.snapshot(), sample_data());
    assert_eq!(s.bridge_url(), "http://gpu:7861");
    assert_eq!(s.selected_model(), Some("i2v_2_2".to_string()));
    assert_eq!(s.resolution(), Some("1280x720".to_string()));
    assert_eq!(s.seed(), Some(42));
    assert_eq!(s.num_inference_steps(), Some(30));
    assert_eq!(s.guidance_scale().map(f64::from_bits), Some(5.0));
    assert_eq!(s.video_length(), Some(81));
    assert_eq!(s.profile_params(), Some("{\"steps\":4}".to_string()));
    assert_eq!(Wan2gpSettings::from_data(sample_data()).snapshot(), sample_data());
}

#[test]
fn settings_data_clone_is_equal() {
    assert_eq!(sample_data().clone(), sample_data());
}

#[test]
fn update_replaces_only_given_fields() {
    let mut req = empty_request();
    req.bridge_url = Some("http://other:1".to_string());
    req.seed = Some(7);
    req.profile_params = Some("{}".to_string());
    let next = apply_settings_update(sample_data(), req);
    let mut expected = sample_data();
    expected.bridge_url = "http://other:1".to_string();
    expected.seed = Some(7);
    expected.profile_params = Some("{}".to_string());
    assert_eq!(next, expected);
}

#[test]
fn empty_update_keeps_settings() {
    assert_eq!(apply_settings_update(sample_data(), empty_request()), sample_data());
}

#[test]
fn update_twice_is_update_once() {
    let mut req = empty_request();
    req.selected_model = Some("t2i".to_string());
    req.video_length = Some(33);
    let once = apply_settings_update(sample_data(), req.clone());
    let twice = apply_settings_update(once.clone(), req);
    assert_eq!(once, twice);
}

#[test]
fn update_command_merges_into_store() {
    let mut store = Wan2gpSettings::new();
    let mut req = empty_request();
    req.num_inference_steps = Some(12);
    req.guidance_scale_bits = Some(3.5f64.to_bits());
    assert_eq!(wan2gp_update_settings_command(req, &mut store), Ok(()));
    let mut expected = Wan2gpSettingsData::default();
    expected.num_inference_steps = Some(12);
    expected.guidance_scale_bits = Some(3.5f64.to_bits());
    assert_eq!(store.snapshot(), expected);
}

#[test]
fn get_settings_command_reports_current_settings() {
    let store = Wan2gpSettings::from_data(sample_data());
    let resp = wan2gp_get_settings_command(&store).unwrap();
    assert_eq!(resp.bridge_url, "http://gpu:7861");
    assert_eq!(resp.selected_model, Some("i2v_2_2".to_string()));
    assert_eq!(resp.resolution, Some("1280x720".to_string()));
    assert_eq!(resp.seed, Some(42));
    assert_eq!(resp.num_inference_steps, Some(30));
    assert_eq!(resp.guidance_scale_bits, Some(5.0f64.to_bits()));
    assert_eq!(resp.video_length, Some(81));
}
