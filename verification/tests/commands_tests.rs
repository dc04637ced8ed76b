use wan2gp_client::commands::cancel_response;
use wan2gp_client::commands::convert_model;
use wan2gp_client::commands::models_response;
use wan2gp_client::commands::profiles_response;
use wan2gp_client::commands::status_response;
use wan2gp_client::commands::Wan2gpModelInfo;
use wan2gp_client::commands::Wan2gpProfileInfo;
use wan2gp_client::error::Wan2gpError;
use wan2gp_client::types::BridgeStatus;
use wan2gp_client::types::CancelResponse;
use wan2gp_client::types::ModelInfo;
use wan2gp_client::types::ModelList;
use wan2gp_client::types::SpeedProfile;

fn model(id: &str, kind: &str, i2v: bool) -> ModelInfo {
    ModelInfo {
        id: id.to_string(),
        name: format!("Model {}", id),
        architecture: "wan".to_string(),
        source: "local".to_string(),
        model_type: kind.to_string(),
        is_i2v: i2v,
        description: String::new(),
    }
}

#[test]
fn convert_model_keeps_all_but_source() {
    let m = model("i2v_2_2", "video", true);
    assert_eq!(
        convert_model(&m),
        Wan2gpModelInfo {
            id: "i2v_2_2".to_string(),
            name: "Model i2v_2_2".to_string(),
            architecture: "wan".to_string(),
            model_type: "video".to_string(),
            is_i2v: true,
            description: String::new(),
        }
    );
}

#[test]
fn models_response_lists_models_in_order() {
    let list = ModelList {
        video: vec![model("a", "video", true), model("b", "video", false)],
        image: vec![model("c", "image", false)],
    };
    let r = models_response(Ok(list));
    assert_eq!(r.error, None);
    assert_eq!(r.video.iter().map(|m| m.id.as_str()).collect::<Vec<_>>(), vec!["a", "b"]);
    assert_eq!(r.image.len(), 1);
    assert_eq!(r.image[0], convert_model(&model("c", "image", false)));
}

#[test]
fn models_response_on_error() {
    let r = models_response(Err(Wan2gpError::Timeout));
    assert!(r.video.is_empty());
    assert!(r.image.is_empty());
    assert_eq!(r.error, Some("Wan2GP generation timed out".to_string()));
}

#[test]
fn profiles_response_lists_profiles() {
    let r = profiles_response(Ok(vec![
        SpeedProfile { name: "fast".to_string(), params: "{\"steps\":4}".to_string() },
        SpeedProfile { name: "slow".to_string(), params: "{}".to_string() },
    ]));
    assert_eq!(r.error, None);
    assert_eq!(
        r.profiles,
        vec![
            Wan2gpProfileInfo { name: "fast".to_string(), params: "{\"steps\":4}".to_string() },
            Wan2gpProfileInfo { name: "slow".to_string(), params: "{}".to_string() },
        ]
    );
    let e = profiles_response(Err(Wan2gpError::ParseError("x".to_string())));
    assert!(e.profiles.is_empty());
    assert_eq!(e.error, Some("Wan2GP response parse error: x".to_string()));
}

#[test]
fn status_response_on_success_and_error() {
    let st = BridgeStatus {
        online: true,
        version: "1".to_string(),
        engine: "wan2gp".to_string(),
        gpu: "RTX 4090".to_string(),
        gpu_vram_gb_bits: 24.0f64.to_bits(),
        api_base: "/artcraft/api".to_string(),
        active_tasks: 3,
    };
    let r = status_response(Ok(st));
    assert!(r.online);
    assert_eq!(r.engine, Some("wan2gp".to_string()));
    assert_eq!(r.gpu, Some("RTX 4090".to_string()));
    assert_eq!(r.gpu_vram_gb_bits.map(f64::from_bits), Some(24.0));
    assert_eq!(r.active_tasks, Some(3));
    assert_eq!(r.error, None);
    let e = status_response(Err(Wan2gpError::ConnectionFailed("refused".to_string())));
    assert!(!e.online);
    assert_eq!(e.engine, None);
    assert_eq!(e.gpu, None);
    assert_eq!(e.gpu_vram_gb_bits, None);
    assert_eq!(e.active_tasks, None);
    assert_eq!(e.error, Some("Wan2GP bridge connection failed: refused".to_string()));
}

#[test]
fn cancel_response_messages() {
    let ok = cancel_response(Ok(CancelResponse { id: "t9".to_string(), status: "cancelled".to_string() }));
    assert!(ok.success);
    assert_eq!(ok.message, Some("Task t9 status: cancelled".to_string()));
    let err = cancel_response(Err(Wan2gpError::HttpError { status: 404, message: "no task".to_string() }));
    assert!(!err.success);
    assert_eq!(err.message, Some("Failed to cancel: Wan2GP HTTP error 404: no task".to_string()));
}
