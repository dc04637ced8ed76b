use wan2gp_client::enqueue::aspect_ratio_resolution;
use wan2gp_client::enqueue::bridge_unreachable_error;
use wan2gp_client::enqueue::build_image_request;
use wan2gp_client::enqueue::build_video_request;
use wan2gp_client::enqueue::enqueue_success;
use wan2gp_client::enqueue::image_resolution;
use wan2gp_client::enqueue::select_model;
use wan2gp_client::enqueue::submission_failed_error;
use wan2gp_client::enqueue::CommonAspectRatio;
use wan2gp_client::enqueue::GenerateError;
use wan2gp_client::error::Wan2gpError;
use wan2gp_client::polling::TaskType;
use wan2gp_client::settings::Wan2gpSettings;
use wan2gp_client::settings::Wan2gpSettingsData;
use wan2gp_client::types::GenerateResponse;

fn settings() -> Wan2gpSettings {
    Wan2gpSettings::from_data(Wan2gpSettingsData {
        bridge_url: "http://localhost:7861".to_string(),
        selected_model: Some("settings_model".to_string()),
        resolution: Some("832x480".to_string()),
        seed: Some(-1),
        num_inference_steps: Some(20),
        guidance_scale_bits: Some(6.0f64.to_bits()),
        video_length: Some(49),
        profile_params: Some("{\"a\":1}".to_string()),
    })
}

#[test]
fn model_choice_prefers_request() {
    assert_eq!(select_model(Some("req".to_string()), &settings()), Ok("req".to_string()));
    assert_eq!(select_model(None, &settings()), Ok("settings_model".to_string()));
    assert_eq!(
        select_model(None, &Wan2gpSettings::new()),
        Err(GenerateError::Message(
            "No Wan2GP model selected. Pick a model from the Local mode selector or configure one in Wan2GP settings."
                .to_string()
        ))
    );
}

#[test]
fn aspect_ratio_sizes() {
    let cases = [
        (CommonAspectRatio::WideSixteenByNine, "1280x720"),
        (CommonAspectRatio::WideFourByThree, "960x720"),
        (CommonAspectRatio::WideThreeByTwo, "960x640"),
        (CommonAspectRatio::WideFiveByFour, "896x720"),
        (CommonAspectRatio::Wide, "1280x720"),
        (CommonAspectRatio::TallNineBySixteen, "720x1280"),
        (CommonAspectRatio::TallThreeByFour, "720x960"),
        (CommonAspectRatio::TallTwoByThree, "640x960"),
        (CommonAspectRatio::TallFourByFive, "720x896"),
        (CommonAspectRatio::Tall, "720x1280"),
        (CommonAspectRatio::Square, "1024x1024"),
        (CommonAspectRatio::SquareHd, "1024x1024"),
        (CommonAspectRatio::Other, "1024x1024"),
    ];
    for (ar, size) in cases {
        assert_eq!(aspect_ratio_resolution(ar), size);
    }
}

#[test]
fn tall_sizes_are_wide_sizes_turned() {
    let pairs = [
        (CommonAspectRatio::WideSixteenByNine, CommonAspectRatio::TallNineBySixteen),
        (CommonAspectRatio::WideFourByThree, CommonAspectRatio::TallThreeByFour),
        (CommonAspectRatio::WideThreeByTwo, CommonAspectRatio::TallTwoByThree),
        (CommonAspectRatio::WideFiveByFour, CommonAspectRatio::TallFourByFive),
        (CommonAspectRatio::Wide, CommonAspectRatio::Tall),
    ];
    for (w, t) in pairs {
        let wide = aspect_ratio_resolution(w);
        let (a, b) = wide.split_once('x').unwrap();
        assert_eq!(aspect_ratio_resolution(t), format!("{}x{}", b, a));
    }
}

#[test]
fn image_resolution_falls_back_to_settings() {
    assert_eq!(image_resolution(Some(CommonAspectRatio::Tall), &settings()), Some("720x1280".to_string()));
    assert_eq!(image_resolution(None, &settings()), Some("832x480".to_string()));
}

#[test]
fn video_request_from_settings_and_media() {
    let r = build_video_request(
        &settings(),
        "i2v".to_string(),
        Some("a cat".to_string()),
        &Some(vec![1, 2, 3]),
        &None,
        &Some(vec![b"hello".to_vec()]),
    );
    assert_eq!(r.model, "i2v");
    assert_eq!(r.prompt, Some("a cat".to_string()));
    assert_eq!(r.output_type, Some("video".to_string()));
    assert_eq!(r.resolution, Some("832x480".to_string()));
    assert_eq!(r.seed, Some(-1));
    assert_eq!(r.num_inference_steps, Some(20));
    assert_eq!(r.guidance_scale_bits, Some(6.0f64.to_bits()));
    assert_eq!(r.video_length, Some(49));
    assert_eq!(r.image_start, Some("AQID".to_string()));
    assert_eq!(r.image_end, None);
    assert_eq!(r.image_refs, Some(vec!["aGVsbG8=".to_string()]));
    assert_eq!(r.profile_params, Some("{\"a\":1}".to_string()));
    assert_eq!(r.extra_params, None);
}

#[test]
fn image_request_from_settings_and_refs() {
    let r = build_image_request(
        &settings(),
        "t2i".to_string(),
        None,
        Some(CommonAspectRatio::WideSixteenByNine),
        &Some(vec![vec![1, 2, 3], vec![]]),
    );
    assert_eq!(r.model, "t2i");
    assert_eq!(r.prompt, None);
    assert_eq!(r.output_type, Some("image".to_string()));
    assert_eq!(r.resolution, Some("1280x720".to_string()));
    assert_eq!(r.video_length, None);
    assert_eq!(r.image_start, None);
    assert_eq!(r.image_end, None);
    assert_eq!(r.image_refs, Some(vec!["AQID".to_string(), String::new()]));
    assert_eq!(r.seed, Some(-1));
    assert_eq!(r.profile_params, Some("{\"a\":1}".to_string()));
}

#[test]
fn image_request_without_refs() {
    let empty = build_image_request(&settings(), "t2i".to_string(), None, None, &Some(vec![]));
    assert_eq!(empty.image_refs, None);
    assert_eq!(empty.resolution, Some("832x480".to_string()));
    let none = build_image_request(&settings(), "t2i".to_string(), None, None, &None);
    assert_eq!(none.image_refs, None);
}

#[test]
fn enqueue_error_messages() {
    assert_eq!(
        bridge_unreachable_error(&Wan2gpError::Timeout),
        GenerateError::Message(
            "Cannot connect to Wan2GP. Make sure Wan2GP is running with the ArtCraft Bridge plugin enabled. Error: Wan2GP generation timed out"
                .to_string()
        )
    );
    assert_eq!(
        submission_failed_error(&Wan2gpError::Cancelled, false),
        GenerateError::Message("Wan2GP generation failed: Wan2GP generation was cancelled".to_string())
    );
    assert_eq!(
        submission_failed_error(&Wan2gpError::Other("x".to_string()), true),
        GenerateError::Message("Wan2GP image generation failed: Wan2GP error: x".to_string())
    );
}

#[test]
fn enqueue_success_records_task() {
    let r = enqueue_success(
        GenerateResponse {
            task_id: "abc".to_string(),
            status: "queued".to_string(),
            poll_url: "/artcraft/api/tasks/abc".to_string(),
        },
        TaskType::VideoGeneration,
    );
    assert_eq!(r.provider_job_id, Some("abc".to_string()));
    assert_eq!(r.task_type, TaskType::VideoGeneration);
}
