//! What the desktop commands of the Wan2GP integration hand back to the
//! frontend, built from what the bridge replied, and how they change the
//! settings.

use vstd::prelude::*;
use vstd::string::StringExecFns;
use crate::error::Wan2gpError;
use crate::error::error_text;
use crate::settings::Wan2gpSettings;
use crate::settings::Wan2gpSettingsData;
use crate::settings::copy_opt_string;
use crate::types::BridgeStatus;
use crate::types::CancelResponse;
use crate::types::ModelInfo;
use crate::types::ModelList;
use crate::types::SpeedProfile;
use crate::text::holds_text;

verus! {

/// Reply of the cancel command.
#[derive(Debug, Clone, PartialEq, Eq)]
pub struct Wan2gpCancelResponse {
    pub success: bool,
    pub message: Option<String>,
}

/// A model as the frontend lists it.
#[derive(Debug, Clone, PartialEq, Eq)]
pub struct Wan2gpModelInfo {
    pub id: String,
    pub name: String,
    pub architecture: String,
    pub model_type: String,
    pub is_i2v: bool,
    pub description: String,
}

/// Reply of the models command.
#[derive(Debug, Clone, PartialEq, Eq)]
pub struct Wan2gpModelsResponse {
    pub video: Vec<Wan2gpModelInfo>,
    pub image: Vec<Wan2gpModelInfo>,
    pub error: Option<String>,
}

/// A speed profile as the frontend lists it.
#[derive(Debug, Clone, PartialEq, Eq)]
pub struct Wan2gpProfileInfo {
    pub name: String,
    /// The profile's parameters, as JSON text.
    pub params: String,
}

/// Reply of the profiles command.
#[derive(Debug, Clone, PartialEq, Eq)]
pub struct Wan2gpProfilesResponse {
    pub profiles: Vec<Wan2gpProfileInfo>,
    pub error: Option<String>,
}

/// Reply of the settings command.
#[derive(Debug, Clone, PartialEq, Eq)]
pub struct Wan2gpSettingsResponse {
    pub bridge_url: String,
    pub selected_model: Option<String>,
    pub resolution: Option<String>,
    pub seed: Option<i64>,
    pub num_inference_steps: Option<u32>,
    /// Bit pattern of the guidance scale.
    pub guidance_scale_bits: Option<u64>,
    pub video_length: Option<u32>,
}

/// Reply of the status command.
#[derive(Debug, Clone, PartialEq, Eq)]
pub struct Wan2gpStatusResponse {
    pub online: bool,
    pub engine: Option<String>,
    pub gpu: Option<String>,
    /// Bit pattern of the GPU memory in gigabytes.
    pub gpu_vram_gb_bits: Option<u64>,
    pub active_tasks: Option<u32>,
    pub error: Option<String>,
}

/// A request to change some of the settings; each field that is present
/// replaces the current one.
#[derive(Debug, Clone, PartialEq, Eq)]
pub struct UpdateWan2gpSettingsRequest {
    pub bridge_url: Option<String>,
    pub selected_model: Option<String>,
    pub resolution: Option<String>,
    pub seed: Option<i64>,
    pub num_inference_steps: Option<u32>,
    /// Bit pattern of the guidance scale.
    pub guidance_scale_bits: Option<u64>,
    pub video_length: Option<u32>,
    /// Speed profile parameters, as JSON text.
    pub profile_params: Option<String>,
}

/// The field that results from an optional replacement.
pub open spec fn replaced<T>(current: T, replacement: Option<T>) -> T {
    match replacement {
        Some(v) => v,
        None => current,
    }
}

/// The settings after a settings update: each field present in the request
/// replaces the current one, each absent field is kept.
pub open spec fn merged_settings(
    current: Wan2gpSettingsData,
    request: UpdateWan2gpSettingsRequest,
) -> Wan2gpSettingsData {
    Wan2gpSettingsData {
        bridge_url: replaced(current.bridge_url, request.bridge_url),
        selected_model: if request.selected_model is Some {
            request.selected_model
        } else {
            current.selected_model
        },
        resolution: if request.resolution is Some {
            request.resolution
        } else {
            current.resolution
        },
        seed: if request.seed is Some {
            request.seed
        } else {
            current.seed
        },
        num_inference_steps: if request.num_inference_steps is Some {
            request.num_inference_steps
        } else {
            current.num_inference_steps
        },
        guidance_scale_bits: if request.guidance_scale_bits is Some {
            request.guidance_scale_bits
        } else {
            current.guidance_scale_bits
        },
        video_length: if request.video_length is Some {
            request.video_length
        } else {
            current.video_length
        },
        profile_params: if request.profile_params is Some {
            request.profile_params
        } else {
            current.profile_params
        },
    }
}

/// A request that changes nothing.
pub open spec fn is_empty_request(request: UpdateWan2gpSettingsRequest) -> bool {
    &&& request.bridge_url is None
    &&& request.selected_model is None
    &&& request.resolution is None
    &&& request.seed is None
    &&& request.num_inference_steps is None
    &&& request.guidance_scale_bits is None
    &&& request.video_length is None
    &&& request.profile_params is None
}

/// The frontend's summary of a model.
pub open spec fn model_summary(m: ModelInfo) -> Wan2gpModelInfo {
    Wan2gpModelInfo {
        id: m.id,
        name: m.name,
        architecture: m.architecture,
        model_type: m.model_type,
        is_i2v: m.is_i2v,
        description: m.description,
    }
}

/// `out` lists the summaries of `models`, in order.
pub open spec fn summarises(out: Seq<Wan2gpModelInfo>, models: Seq<ModelInfo>) -> bool {
    &&& out.len() == models.len()
    &&& forall|i: int| 0 <= i < models.len() ==> #[trigger] out[i] == model_summary(models[i])
}

/// `out` lists the profiles of `profiles` by name and parameters, in order.
pub open spec fn lists_profiles(out: Seq<Wan2gpProfileInfo>, profiles: Seq<SpeedProfile>) -> bool {
    &&& out.len() == profiles.len()
    &&& forall|i: int|
        0 <= i < profiles.len() ==> #[trigger] out[i] == (Wan2gpProfileInfo {
            name: profiles[i].name,
            params: profiles[i].params,
        })
}

/// The frontend's summary of a model: every field but the source.
pub fn convert_model(m: &ModelInfo) -> (r: Wan2gpModelInfo)
    ensures
        r == model_summary(*m),
{
    Wan2gpModelInfo {
        id: m.id.clone(),
        name: m.name.clone(),
        architecture: m.architecture.clone(),
        model_type: m.model_type.clone(),
        is_i2v: m.is_i2v,
        description: m.description.clone(),
    }
}

fn convert_models(models: &Vec<ModelInfo>) -> (r: Vec<Wan2gpModelInfo>)
    ensures
        summarises(r@, models@),
{
    let mut out: Vec<Wan2gpModelInfo> = Vec::new();
    let mut i: usize = 0;
    while i < models.len()
        invariant
            i <= models@.len(),
            out@.len() == i,
            forall|j: int| 0 <= j < i ==> #[trigger] out@[j] == model_summary(models@[j]),
        decreases models@.len() - i,
    {
        out.push(convert_model(&models[i]));
        i = i + 1;
    }
    out
}

/// Reply of the models command: the bridge's video and image models, or no
/// models and the error's text.
pub fn models_response(result: Result<ModelList, Wan2gpError>) -> (r: Wan2gpModelsResponse)
    ensures
        match result {
            Ok(models) => summarises(r.video@, models.video@) && summarises(r.image@, models.image@)
                && r.error is None,
            Err(e) => r.video@.len() == 0 && r.image@.len() == 0 && holds_text(r.error, error_text(e)),
        },
{
    match result {
        Ok(models) => Wan2gpModelsResponse {
            video: convert_models(&models.video),
            image: convert_models(&models.image),
            error: None,
        },
        Err(e) => Wan2gpModelsResponse {
            video: Vec::new(),
            image: Vec::new(),
            error: Some(e.to_string()),
        },
    }
}

/// Reply of the profiles command: the bridge's profiles by name and
/// parameters, or none and the error's text.
pub fn profiles_response(result: Result<Vec<SpeedProfile>, Wan2gpError>) -> (r:
    Wan2gpProfilesResponse)
    ensures
        match result {
            Ok(profiles) => lists_profiles(r.profiles@, profiles@) && r.error is None,
            Err(e) => r.profiles@.len() == 0 && holds_text(r.error, error_text(e)),
        },
{
    match result {
        Ok(profiles) => {
            let mut out: Vec<Wan2gpProfileInfo> = Vec::new();
            let mut i: usize = 0;
            while i < profiles.len()
                invariant
                    i <= profiles@.len(),
                    out@.len() == i,
                    forall|j: int|
                        0 <= j < i ==> #[trigger] out@[j] == (Wan2gpProfileInfo {
                            name: profiles@[j].name,
                            params: profiles@[j].params,
                        }),
                decreases profiles@.len() - i,
            {
                out.push(
                    Wan2gpProfileInfo {
                        name: profiles[i].name.clone(),
                        params: profiles[i].params.clone(),
                    },
                );
                i = i + 1;
            }
            Wan2gpProfilesResponse { profiles: out, error: None }
        },
        Err(e) => Wan2gpProfilesResponse { profiles: Vec::new(), error: Some(e.to_string()) },
    }
}

/// Reply of the status command: what the bridge reports, or offline with the
/// error's text.
pub fn status_response(result: Result<BridgeStatus, Wan2gpError>) -> (r: Wan2gpStatusResponse)
    ensures
        match result {
            Ok(status) => r == (Wan2gpStatusResponse {
                online: status.online,
                engine: Some(status.engine),
                gpu: Some(status.gpu),
                gpu_vram_gb_bits: Some(status.gpu_vram_gb_bits),
                active_tasks: Some(status.active_tasks),
                error: None,
            }),
            Err(e) => !r.online && r.engine is None && r.gpu is None && r.gpu_vram_gb_bits is None
                && r.active_tasks is None && holds_text(r.error, error_text(e)),
        },
{
    match result {
        Ok(status) => Wan2gpStatusResponse {
            online: status.online,
            engine: Some(status.engine),
            gpu: Some(status.gpu),
            gpu_vram_gb_bits: Some(status.gpu_vram_gb_bits),
            active_tasks: Some(status.active_tasks),
            error: None,
        },
        Err(e) => Wan2gpStatusResponse {
            online: false,
            engine: None,
            gpu: None,
            gpu_vram_gb_bits: None,
            active_tasks: None,
            error: Some(e.to_string()),
        },
    }
}

/// Reply of the cancel command: success with the task's reported status, or
/// failure with the error's text.
pub fn cancel_response(result: Result<CancelResponse, Wan2gpError>) -> (r: Wan2gpCancelResponse)
    ensures
        match result {
            Ok(resp) => r.success && holds_text(
                r.message,
                "Task "@ + resp.id@ + " status: "@ + resp.status@,
            ),
            Err(e) => !r.success && holds_text(
                r.message,
                "Failed to cancel: "@ + error_text(e),
            ),
        },
{
    match result {
        Ok(resp) => {
            let mut m = String::from_str("Task ");
            m.append(resp.id.as_str());
            m.append(" status: ");
            m.append(resp.status.as_str());
            Wan2gpCancelResponse { success: true, message: Some(m) }
        },
        Err(e) => {
            let mut m = String::from_str("Failed to cancel: ");
            let text = e.to_string();
            m.append(text.as_str());
            Wan2gpCancelResponse { success: false, message: Some(m) }
        },
    }
}

/// Reply of the settings command: the current settings but the profile
/// parameters.
pub fn wan2gp_get_settings_command(wan2gp_settings: &Wan2gpSettings) -> (r: Result<
    Wan2gpSettingsResponse,
    String,
>)
    ensures
        r matches Ok(resp) && resp == (Wan2gpSettingsResponse {
            bridge_url: wan2gp_settings@.bridge_url,
            selected_model: wan2gp_settings@.selected_model,
            resolution: wan2gp_settings@.resolution,
            seed: wan2gp_settings@.seed,
            num_inference_steps: wan2gp_settings@.num_inference_steps,
            guidance_scale_bits: wan2gp_settings@.guidance_scale_bits,
            video_length: wan2gp_settings@.video_length,
        }),
{
    let snapshot = wan2gp_settings.snapshot();
    Ok(
        Wan2gpSettingsResponse {
            bridge_url: snapshot.bridge_url,
            selected_model: snapshot.selected_model,
            resolution: snapshot.resolution,
            seed: snapshot.seed,
            num_inference_steps: snapshot.num_inference_steps,
            guidance_scale_bits: snapshot.guidance_scale_bits,
            video_length: snapshot.video_length,
        },
    )
}

/// The settings after applying an update request to `current`.
pub fn apply_settings_update(current: Wan2gpSettingsData, request: UpdateWan2gpSettingsRequest) -> (r:
    Wan2gpSettingsData)
    ensures
        r == merged_settings(current, request),
{
    let mut next = current;
    if let Some(url) = request.bridge_url {
        next.bridge_url = url;
    }
    if request.selected_model.is_some() {
        next.selected_model = request.selected_model;
    }
    if request.resolution.is_some() {
        next.resolution = request.resolution;
    }
    if let Some(seed) = request.seed {
        next.seed = Some(seed);
    }
    if let Some(steps) = request.num_inference_steps {
        next.num_inference_steps = Some(steps);
    }
    if let Some(scale) = request.guidance_scale_bits {
        next.guidance_scale_bits = Some(scale);
    }
    if let Some(length) = request.video_length {
        next.video_length = Some(length);
    }
    if request.profile_params.is_some() {
        next.profile_params = request.profile_params;
    }
    next
}

/// The settings command: merges the request into the current settings.
pub fn wan2gp_update_settings_command(
    request: UpdateWan2gpSettingsRequest,
    wan2gp_settings: &mut Wan2gpSettings,
) -> (r: Result<(), String>)
    ensures
        r is Ok,
        final(wan2gp_settings)@ == merged_settings(old(wan2gp_settings)@, request),
{
    let current = wan2gp_settings.snapshot();
    let next = apply_settings_update(current, request);
    wan2gp_settings.update(next);
    Ok(())
}

/// The frontend's summary of a model keeps every field of the model but its
/// source, unchanged.
pub proof fn lemma_model_summary_fields(m: ModelInfo)
    ensures
        model_summary(m).id == m.id,
        model_summary(m).name == m.name,
        model_summary(m).architecture == m.architecture,
        model_summary(m).model_type == m.model_type,
        model_summary(m).is_i2v == m.is_i2v,
        model_summary(m).description == m.description,
{
}

/// A listing of models has one summary per model, in the models' order;
/// a listing of profiles has one entry per profile, by its name and
/// parameters, in order.
pub proof fn lemma_listings_keep_order(
    out: Seq<Wan2gpModelInfo>,
    models: Seq<ModelInfo>,
    listed: Seq<Wan2gpProfileInfo>,
    profiles: Seq<SpeedProfile>,
)
    ensures
        summarises(out, models) ==> out.len() == models.len() && forall|i: int|
            0 <= i < models.len() ==> #[trigger] out[i].id == models[i].id && out[i].name
                == models[i].name && out[i].model_type == models[i].model_type,
        lists_profiles(listed, profiles) ==> listed.len() == profiles.len() && forall|i: int|
            0 <= i < profiles.len() ==> #[trigger] listed[i].name == profiles[i].name
                && listed[i].params == profiles[i].params,
{
    if summarises(out, models) {
        assert forall|i: int| 0 <= i < models.len() implies #[trigger] out[i].id == models[i].id
            && out[i].name == models[i].name && out[i].model_type == models[i].model_type by {
            assert(out[i] == model_summary(models[i]));
        }
    }
    if lists_profiles(listed, profiles) {
        assert forall|i: int| 0 <= i < profiles.len() implies #[trigger] listed[i].name
            == profiles[i].name && listed[i].params == profiles[i].params by {
            assert(listed[i] == (Wan2gpProfileInfo {
                name: profiles[i].name,
                params: profiles[i].params,
            }));
        }
    }
}

/// Each field absent from an update is kept from the current settings,
/// whatever other fields the update gives, and each field it gives is what
/// the settings then hold.
pub proof fn lemma_update_keeps_absent_fields(
    current: Wan2gpSettingsData,
    request: UpdateWan2gpSettingsRequest,
)
    ensures
        request.bridge_url is None ==> merged_settings(current, request).bridge_url
            == current.bridge_url,
        request.bridge_url is Some ==> merged_settings(current, request).bridge_url
            == request.bridge_url->0,
        request.selected_model is None ==> merged_settings(current, request).selected_model
            == current.selected_model,
        request.selected_model is Some ==> merged_settings(current, request).selected_model
            == request.selected_model,
        request.resolution is None ==> merged_settings(current, request).resolution
            == current.resolution,
        request.resolution is Some ==> merged_settings(current, request).resolution
            == request.resolution,
        request.seed is None ==> merged_settings(current, request).seed == current.seed,
        request.seed is Some ==> merged_settings(current, request).seed == request.seed,
        request.num_inference_steps is None ==> merged_settings(current, request).num_inference_steps
            == current.num_inference_steps,
        request.num_inference_steps is Some ==> merged_settings(current, request).num_inference_steps
            == request.num_inference_steps,
        request.guidance_scale_bits is None ==> merged_settings(current, request).guidance_scale_bits
            == current.guidance_scale_bits,
        request.guidance_scale_bits is Some ==> merged_settings(current, request).guidance_scale_bits
            == request.guidance_scale_bits,
        request.video_length is None ==> merged_settings(current, request).video_length
            == current.video_length,
        request.video_length is Some ==> merged_settings(current, request).video_length
            == request.video_length,
        request.profile_params is None ==> merged_settings(current, request).profile_params
            == current.profile_params,
        request.profile_params is Some ==> merged_settings(current, request).profile_params
            == request.profile_params,
{
}

/// Applying the same update twice changes nothing more than applying it once.
pub proof fn lemma_update_idempotent(
    current: Wan2gpSettingsData,
    request: UpdateWan2gpSettingsRequest,
)
    ensures
        merged_settings(merged_settings(current, request), request) == merged_settings(
            current,
            request,
        ),
{
}

/// An update that names no field leaves the settings as they were.
pub proof fn lemma_empty_update_keeps_settings(
    current: Wan2gpSettingsData,
    request: UpdateWan2gpSettingsRequest,
)
    requires
        is_empty_request(request),
    ensures
        merged_settings(current, request) == current,
{
}

/// Each field that an update names is what the settings then hold, whatever
/// they held before.
pub proof fn lemma_update_overrides(
    current: Wan2gpSettingsData,
    request: UpdateWan2gpSettingsRequest,
)
    ensures
        request.bridge_url matches Some(u) ==> merged_settings(current, request).bridge_url == u,
        request.selected_model is Some ==> merged_settings(current, request).selected_model
            == request.selected_model,
        request.resolution is Some ==> merged_settings(current, request).resolution
            == request.resolution,
        request.seed is Some ==> merged_settings(current, request).seed == request.seed,
        request.num_inference_steps is Some ==> merged_settings(current, request).num_inference_steps
            == request.num_inference_steps,
        request.guidance_scale_bits is Some ==> merged_settings(current, request).guidance_scale_bits
            == request.guidance_scale_bits,
        request.video_length is Some ==> merged_settings(current, request).video_length
            == request.video_length,
        request.profile_params is Some ==> merged_settings(current, request).profile_params
            == request.profile_params,
{
}

} // verus!
