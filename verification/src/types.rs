//! Data types of the Wan2GP Bridge API JSON contract.
//!
//! Numbers that the bridge sends as floating point are held here by their
//! IEEE-754 bit pattern (`f64::to_bits`), which stands for them exactly; JSON
//! values that the client only passes along are held as JSON text.

use vstd::prelude::*;
use crate::text::str_eq;

verus! {

/// Response from `GET /artcraft/api/status`.
#[derive(Debug, Clone, PartialEq, Eq)]
pub struct BridgeStatus {
    pub online: bool,
    pub version: String,
    pub engine: String,
    pub gpu: String,
    /// Bit pattern of the GPU memory in gigabytes.
    pub gpu_vram_gb_bits: u64,
    pub api_base: String,
    pub active_tasks: u32,
}

/// Response from `GET /artcraft/api/models`.
#[derive(Debug, Clone, PartialEq, Eq)]
pub struct ModelList {
    pub video: Vec<ModelInfo>,
    pub image: Vec<ModelInfo>,
}

/// A single model discovered by Wan2GP.
#[derive(Debug, Clone, PartialEq, Eq)]
pub struct ModelInfo {
    pub id: String,
    pub name: String,
    pub architecture: String,
    pub source: String,
    /// "video" or "image".
    pub model_type: String,
    /// Whether this is an Image-to-Video model (only for video models).
    pub is_i2v: bool,
    pub description: String,
}

/// A speed profile for a model.
#[derive(Debug, Clone, PartialEq, Eq)]
pub struct SpeedProfile {
    pub name: String,
    /// The profile's parameters, as JSON text.
    pub params: String,
}

/// Request body for `POST /artcraft/api/generate`.
#[derive(Debug, Clone, PartialEq, Eq)]
pub struct GenerateRequest {
    pub model: String,
    pub prompt: Option<String>,
    /// "video" or "image".
    pub output_type: Option<String>,
    pub resolution: Option<String>,
    pub seed: Option<i64>,
    pub num_inference_steps: Option<u32>,
    /// Bit pattern of the CFG / guidance scale.
    pub guidance_scale_bits: Option<u64>,
    pub video_length: Option<u32>,
    /// Base64-encoded start image (for I2V models).
    pub image_start: Option<String>,
    /// Base64-encoded end image.
    pub image_end: Option<String>,
    /// Base64-encoded reference images.
    pub image_refs: Option<Vec<String>>,
    /// Speed profile parameters to apply, as JSON text.
    pub profile_params: Option<String>,
    /// Additional override parameters, as JSON text.
    pub extra_params: Option<String>,
}

/// Response from `POST /artcraft/api/generate`.
#[derive(Debug, Clone, PartialEq, Eq)]
pub struct GenerateResponse {
    pub task_id: String,
    pub status: String,
    pub poll_url: String,
}

/// Response from `GET /artcraft/api/tasks/<id>`.
#[derive(Debug, Clone, PartialEq, Eq)]
pub struct TaskStatusResponse {
    pub id: String,
    pub status: String,
    /// Bit pattern of the progress fraction.
    pub progress_bits: u64,
    pub progress_message: Option<String>,
    pub error: Option<String>,
    pub result_type: Option<String>,
    pub result_path: Option<String>,
    pub download_url: Option<String>,
    /// Bit patterns of the bridge's timestamps.
    pub created_at_bits: Option<u64>,
    pub started_at_bits: Option<u64>,
    pub completed_at_bits: Option<u64>,
}

/// Response from `POST /artcraft/api/tasks/<id>/cancel`.
#[derive(Debug, Clone, PartialEq, Eq)]
pub struct CancelResponse {
    pub id: String,
    pub status: String,
}

/// Generic error response from the bridge API.
#[derive(Debug, Clone, PartialEq, Eq)]
pub struct ErrorResponse {
    pub error: String,
}

/// The bridge reports a finished task as "complete".
pub open spec fn status_is_complete(status: Seq<char>) -> bool {
    status == "complete"@
}

/// The bridge reports a task that broke down as "failed".
pub open spec fn status_is_failed(status: Seq<char>) -> bool {
    status == "failed"@
}

/// The bridge reports a cancelled task as "cancelled".
pub open spec fn status_is_cancelled(status: Seq<char>) -> bool {
    status == "cancelled"@
}

/// A task in a terminal state will not change any more.
pub open spec fn status_is_terminal(status: Seq<char>) -> bool {
    status_is_complete(status) || status_is_failed(status) || status_is_cancelled(status)
}

impl TaskStatusResponse {
    pub fn is_complete(&self) -> (r: bool)
        ensures
            r == status_is_complete(self.status@),
    {
        str_eq(self.status.as_str(), "complete")
    }

    pub fn is_failed(&self) -> (r: bool)
        ensures
            r == status_is_failed(self.status@),
    {
        str_eq(self.status.as_str(), "failed")
    }

    pub fn is_cancelled(&self) -> (r: bool)
        ensures
            r == status_is_cancelled(self.status@),
    {
        str_eq(self.status.as_str(), "cancelled")
    }

    pub fn is_terminal(&self) -> (r: bool)
        ensures
            r == status_is_terminal(self.status@),
    {
        self.is_complete() || self.is_failed() || self.is_cancelled()
    }
}

/// The three terminal states exclude one another, and a task is terminal
/// exactly when it is in one of them.
pub proof fn lemma_terminal_states_exclusive(status: Seq<char>)
    ensures
        !(status_is_complete(status) && status_is_failed(status)),
        !(status_is_complete(status) && status_is_cancelled(status)),
        !(status_is_failed(status) && status_is_cancelled(status)),
        status_is_terminal(status) <==> (status_is_complete(status) || status_is_failed(status)
            || status_is_cancelled(status)),
        status_is_complete(status) <==> status == "complete"@,
        status_is_failed(status) <==> status == "failed"@,
        status_is_cancelled(status) <==> status == "cancelled"@,
        status_is_terminal(status) <==> (status == "complete"@ || status == "failed"@ || status
            == "cancelled"@),
{
    reveal_strlit("complete");
    reveal_strlit("failed");
    reveal_strlit("cancelled");
    assert("complete"@.len() == 8);
    assert("failed"@.len() == 6);
    assert("cancelled"@.len() == 9);
}

} // verus!
