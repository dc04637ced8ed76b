//! Runtime settings of the Wan2GP bridge integration.

use vstd::prelude::*;
use vstd::string::StringExecFns;

verus! {

/// Runtime settings for the Wan2GP bridge integration.
#[derive(Debug, PartialEq, Eq)]
pub struct Wan2gpSettingsData {
    /// URL of the Wan2GP bridge API (default: http://localhost:7861).
    pub bridge_url: String,
    /// Currently selected model ID (e.g., "i2v_2_2").
    pub selected_model: Option<String>,
    /// Resolution string (e.g., "832x480").
    pub resolution: Option<String>,
    /// Random seed (-1 for random).
    pub seed: Option<i64>,
    /// Number of inference steps.
    pub num_inference_steps: Option<u32>,
    /// Bit pattern of the CFG / guidance scale.
    pub guidance_scale_bits: Option<u64>,
    /// Video length in frames.
    pub video_length: Option<u32>,
    /// Speed profile parameters (from the profiles endpoint), as JSON text.
    pub profile_params: Option<String>,
}

/// The settings that a fresh installation starts with.
pub open spec fn is_default_settings(d: Wan2gpSettingsData) -> bool {
    &&& d.bridge_url@ == "http://localhost:7861"@
    &&& d.selected_model is None
    &&& d.resolution matches Some(r) && r@ == "832x480"@
    &&& d.seed == Some(-1i64)
    &&& d.num_inference_steps is None
    &&& d.guidance_scale_bits is None
    &&& d.video_length is None
    &&& d.profile_params is None
}

/// Fresh settings point at the bridge that a fresh client talks to
/// (`http://localhost:7861`), ask for 832x480 and a random seed (-1), and
/// leave everything else unset.
pub proof fn lemma_default_settings(d: Wan2gpSettingsData)
    requires
        is_default_settings(d),
    ensures
        d.bridge_url@ == crate::client::DEFAULT_BASE_URL@,
        crate::client::client_for(d.bridge_url@) == crate::client::client_for(
            crate::client::DEFAULT_BASE_URL@,
        ),
        d.bridge_url@ == "http://localhost:7861"@,
        d.resolution is Some && d.resolution->0@ == "832x480"@,
        d.seed == Some(-1i64),
        d.selected_model is None && d.num_inference_steps is None && d.guidance_scale_bits is None
            && d.video_length is None && d.profile_params is None,
{
}

/// A copy of an optional string.
pub fn copy_opt_string(o: &Option<String>) -> (r: Option<String>)
    ensures
        r == *o,
{
    match o {
        Some(s) => Some(s.clone()),
        None => None,
    }
}

impl Clone for Wan2gpSettingsData {
    fn clone(&self) -> (r: Self)
        ensures
            r == *self,
    {
        Wan2gpSettingsData {
            bridge_url: self.bridge_url.clone(),
            selected_model: copy_opt_string(&self.selected_model),
            resolution: copy_opt_string(&self.resolution),
            seed: self.seed,
            num_inference_steps: self.num_inference_steps,
            guidance_scale_bits: self.guidance_scale_bits,
            video_length: self.video_length,
            profile_params: copy_opt_string(&self.profile_params),
        }
    }
}

impl Default for Wan2gpSettingsData {
    fn default() -> (d: Self)
        ensures
            is_default_settings(d),
    {
        Wan2gpSettingsData {
            bridge_url: String::from_str("http://localhost:7861"),
            selected_model: None,
            resolution: Some(String::from_str("832x480")),
            seed: Some(-1),
            num_inference_steps: None,
            guidance_scale_bits: None,
            video_length: None,
            profile_params: None,
        }
    }
}

/// The settings store of the bridge integration: a current set of settings
/// that is read field by field, replaced as a whole, and copied out.
pub struct Wan2gpSettings {
    data: Wan2gpSettingsData,
}

impl View for Wan2gpSettings {
    type V = Wan2gpSettingsData;

    closed spec fn view(&self) -> Wan2gpSettingsData {
        self.data
    }
}

impl Wan2gpSettings {
    /// A store holding the default settings.
    pub fn new() -> (s: Self)
        ensures
            is_default_settings(s@),
    {
        Wan2gpSettings { data: Wan2gpSettingsData::default() }
    }

    /// A store holding `data`.
    pub fn from_data(data: Wan2gpSettingsData) -> (s: Self)
        ensures
            s@ == data,
    {
        Wan2gpSettings { data }
    }

    pub fn bridge_url(&self) -> (r: String)
        ensures
            r == self@.bridge_url,
    {
        self.data.bridge_url.clone()
    }

    pub fn selected_model(&self) -> (r: Option<String>)
        ensures
            r == self@.selected_model,
    {
        copy_opt_string(&self.data.selected_model)
    }

    pub fn resolution(&self) -> (r: Option<String>)
        ensures
            r == self@.resolution,
    {
        copy_opt_string(&self.data.resolution)
    }

    pub fn seed(&self) -> (r: Option<i64>)
        ensures
            r == self@.seed,
    {
        self.data.seed
    }

    pub fn num_inference_steps(&self) -> (r: Option<u32>)
        ensures
            r == self@.num_inference_steps,
    {
        self.data.num_inference_steps
    }

    /// The bit pattern of the guidance scale.
    pub fn guidance_scale(&self) -> (r: Option<u64>)
        ensures
            r == self@.guidance_scale_bits,
    {
        self.data.guidance_scale_bits
    }

    pub fn video_length(&self) -> (r: Option<u32>)
        ensures
            r == self@.video_length,
    {
        self.data.video_length
    }

    /// The speed profile parameters, as JSON text.
    pub fn profile_params(&self) -> (r: Option<String>)
        ensures
            r == self@.profile_params,
    {
        copy_opt_string(&self.data.profile_params)
    }

    /// Update all settings at once.
    pub fn update(&mut self, new_data: Wan2gpSettingsData)
        ensures
            final(self)@ == new_data,
    {
        self.data = new_data;
    }

    /// A copy of the current settings.
    pub fn snapshot(&self) -> (r: Wan2gpSettingsData)
        ensures
            r == self@,
    {
        self.data.clone()
    }
}

impl Default for Wan2gpSettings {
    fn default() -> (s: Self)
        ensures
            is_default_settings(s@),
    {
        Self::new()
    }
}

} // verus!
