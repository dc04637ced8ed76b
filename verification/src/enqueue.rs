//! The decisions of enqueueing a generation with the local Wan2GP bridge:
//! which model to use, which resolution, and the generation request that is
//! submitted, built from the settings and the media of the request.

use vstd::prelude::*;
use vstd::string::StringExecFns;
use crate::encoding::all_encodable;
use crate::encoding::base64_encodable;
use crate::encoding::encode_all;
use crate::encoding::encode_optional;
use crate::encoding::encodes_all;
use crate::encoding::encodes_opt;
use crate::error::Wan2gpError;
use crate::error::error_text;
use crate::polling::TaskType;
use crate::settings::Wan2gpSettings;
use crate::text::holds_text;
use crate::types::GenerateRequest;
use crate::types::GenerateResponse;

verus! {

/// Why enqueueing a generation failed, by its message.
#[derive(Debug, Clone, PartialEq, Eq)]
pub enum GenerateError {
    /// The bridge could not be used, or no model was chosen.
    Message(String),
    /// A media file could not be read.
    Io(String),
}

/// The aspect ratios that a text-to-image request may ask for.
#[derive(Debug, Clone, Copy, PartialEq, Eq)]
pub enum CommonAspectRatio {
    WideSixteenByNine,
    WideFourByThree,
    WideThreeByTwo,
    WideFiveByFour,
    Wide,
    TallNineBySixteen,
    TallThreeByFour,
    TallTwoByThree,
    TallFourByFive,
    Tall,
    Square,
    SquareHd,
    /// Any other ratio; images get the square default.
    Other,
}

/// A task that the bridge accepted.
#[derive(Debug, Clone, PartialEq, Eq)]
pub struct TaskEnqueueSuccess {
    /// The bridge's task identifier.
    pub provider_job_id: Option<String>,
    pub task_type: TaskType,
}

/// The image size for an aspect ratio.
pub open spec fn aspect_ratio_size(ar: CommonAspectRatio) -> Seq<char> {
    match ar {
        CommonAspectRatio::WideSixteenByNine => "1280x720"@,
        CommonAspectRatio::WideFourByThree => "960x720"@,
        CommonAspectRatio::WideThreeByTwo => "960x640"@,
        CommonAspectRatio::WideFiveByFour => "896x720"@,
        CommonAspectRatio::Wide => "1280x720"@,
        CommonAspectRatio::TallNineBySixteen => "720x1280"@,
        CommonAspectRatio::TallThreeByFour => "720x960"@,
        CommonAspectRatio::TallTwoByThree => "640x960"@,
        CommonAspectRatio::TallFourByFive => "720x896"@,
        CommonAspectRatio::Tall => "720x1280"@,
        CommonAspectRatio::Square => "1024x1024"@,
        CommonAspectRatio::SquareHd => "1024x1024"@,
        CommonAspectRatio::Other => "1024x1024"@,
    }
}

/// The message when the bridge does not answer.
pub open spec fn bridge_unreachable_text(e: Wan2gpError) -> Seq<char> {
    "Cannot connect to Wan2GP. Make sure Wan2GP is running with the ArtCraft Bridge plugin enabled. Error: "@
        + error_text(e)
}

/// The message when neither the request nor the settings name a model.
pub open spec fn no_model_text() -> Seq<char> {
    "No Wan2GP model selected. Pick a model from the Local mode selector or configure one in Wan2GP settings."@
}

/// The message when the bridge refuses a generation.
pub open spec fn submission_failed_text(e: Wan2gpError, is_image: bool) -> Seq<char> {
    if is_image {
        "Wan2GP image generation failed: "@ + error_text(e)
    } else {
        "Wan2GP generation failed: "@ + error_text(e)
    }
}

/// `e` is a `Message` error with text `t`.
pub open spec fn is_message(e: GenerateError, t: Seq<char>) -> bool {
    e matches GenerateError::Message(m) && m@ == t
}

/// The fields that every generation request takes from the settings.
pub open spec fn takes_settings(r: GenerateRequest, settings: Wan2gpSettings) -> bool {
    &&& r.seed == settings@.seed
    &&& r.num_inference_steps == settings@.num_inference_steps
    &&& r.guidance_scale_bits == settings@.guidance_scale_bits
    &&& r.profile_params == settings@.profile_params
    &&& r.extra_params is None
}

/// The encodings of optional reference images.
pub open spec fn encodes_refs(out: Option<Vec<String>>, refs: Option<Vec<Vec<u8>>>) -> bool {
    match refs {
        Some(v) => out matches Some(w) && encodes_all(w@, v@),
        None => out is None,
    }
}

/// Every optional reference image can be encoded.
pub open spec fn refs_encodable(refs: Option<Vec<Vec<u8>>>) -> bool {
    refs matches Some(v) ==> all_encodable(v@)
}

/// The image size of every aspect ratio: 16:9 and "wide" are 1280x720,
/// 4:3 is 960x720, 3:2 is 960x640, 5:4 is 896x720, their tall counterparts
/// are the same turned on their side, and square and any other ratio are
/// 1024x1024.
pub proof fn lemma_aspect_ratio_sizes(ar: CommonAspectRatio)
    ensures
        ar == CommonAspectRatio::WideSixteenByNine || ar == CommonAspectRatio::Wide ==> aspect_ratio_size(ar)
            == "1280x720"@,
        ar == CommonAspectRatio::WideFourByThree ==> aspect_ratio_size(ar) == "960x720"@,
        ar == CommonAspectRatio::WideThreeByTwo ==> aspect_ratio_size(ar) == "960x640"@,
        ar == CommonAspectRatio::WideFiveByFour ==> aspect_ratio_size(ar) == "896x720"@,
        ar == CommonAspectRatio::TallNineBySixteen || ar == CommonAspectRatio::Tall ==> aspect_ratio_size(ar)
            == "720x1280"@,
        ar == CommonAspectRatio::TallThreeByFour ==> aspect_ratio_size(ar) == "720x960"@,
        ar == CommonAspectRatio::TallTwoByThree ==> aspect_ratio_size(ar) == "640x960"@,
        ar == CommonAspectRatio::TallFourByFive ==> aspect_ratio_size(ar) == "720x896"@,
        ar == CommonAspectRatio::Square || ar == CommonAspectRatio::SquareHd || ar
            == CommonAspectRatio::Other ==> aspect_ratio_size(ar) == "1024x1024"@,
{
}

/// A generation request takes the seed, the number of steps, the guidance
/// scale and the profile parameters from the settings, and no extra
/// parameters; optional reference images are encoded one by one, in order,
/// exactly when there are some.
pub proof fn lemma_request_follows_settings(
    r: GenerateRequest,
    settings: Wan2gpSettings,
    out: Option<Vec<String>>,
    refs: Option<Vec<Vec<u8>>>,
)
    ensures
        takes_settings(r, settings) ==> r.seed == settings@.seed && r.num_inference_steps
            == settings@.num_inference_steps && r.guidance_scale_bits == settings@.guidance_scale_bits
            && r.profile_params == settings@.profile_params && r.extra_params is None,
        encodes_refs(out, refs) ==> (out is Some <==> refs is Some),
        encodes_refs(out, refs) && refs is Some ==> out->0@.len() == refs->0@.len() && forall|i: int|
            0 <= i < refs->0@.len() ==> #[trigger] out->0@[i]@ == crate::encoding::base64_standard(
                refs->0@[i]@,
            ),
{
}

/// The messages of a failed enqueue: the bridge being unreachable, no model
/// being chosen, and the bridge refusing the generation (worded for images
/// or videos), each followed by the error's text where there is one.
pub proof fn lemma_enqueue_messages(e: Wan2gpError, is_image: bool)
    ensures
        bridge_unreachable_text(e)
            == "Cannot connect to Wan2GP. Make sure Wan2GP is running with the ArtCraft Bridge plugin enabled. Error: "@
            + error_text(e),
        no_model_text()
            == "No Wan2GP model selected. Pick a model from the Local mode selector or configure one in Wan2GP settings."@,
        is_image ==> submission_failed_text(e, is_image) == "Wan2GP image generation failed: "@
            + error_text(e),
        !is_image ==> submission_failed_text(e, is_image) == "Wan2GP generation failed: "@
            + error_text(e),
{
}

/// The error when the bridge does not answer its status request.
pub fn bridge_unreachable_error(e: &Wan2gpError) -> (r: GenerateError)
    ensures
        is_message(r, bridge_unreachable_text(*e)),
{
    let mut m = String::from_str(
        "Cannot connect to Wan2GP. Make sure Wan2GP is running with the ArtCraft Bridge plugin enabled. Error: ",
    );
    let text = e.to_string();
    m.append(text.as_str());
    GenerateError::Message(m)
}

/// The error when the bridge refuses a generation.
pub fn submission_failed_error(e: &Wan2gpError, is_image: bool) -> (r: GenerateError)
    ensures
        is_message(r, submission_failed_text(*e, is_image)),
{
    let mut m = if is_image {
        String::from_str("Wan2GP image generation failed: ")
    } else {
        String::from_str("Wan2GP generation failed: ")
    };
    let text = e.to_string();
    m.append(text.as_str());
    GenerateError::Message(m)
}

/// The model to generate with: the request's model if it names one, else the
/// model selected in the settings, else an error.
pub fn select_model(request_model: Option<String>, settings: &Wan2gpSettings) -> (r: Result<
    String,
    GenerateError,
>)
    ensures
        match request_model {
            Some(m) => r == Ok::<String, GenerateError>(m),
            None => match settings@.selected_model {
                Some(m) => r == Ok::<String, GenerateError>(m),
                None => r matches Err(e) && is_message(e, no_model_text()),
            },
        },
{
    match request_model {
        Some(m) => Ok(m),
        None => match settings.selected_model() {
            Some(m) => Ok(m),
            None => Err(
                GenerateError::Message(
                    String::from_str(
                        "No Wan2GP model selected. Pick a model from the Local mode selector or configure one in Wan2GP settings.",
                    ),
                ),
            ),
        },
    }
}

/// The image size for an aspect ratio.
pub fn aspect_ratio_resolution(ar: CommonAspectRatio) -> (r: String)
    ensures
        r@ == aspect_ratio_size(ar),
{
    let size = match ar {
        CommonAspectRatio::WideSixteenByNine => "1280x720",
        CommonAspectRatio::WideFourByThree => "960x720",
        CommonAspectRatio::WideThreeByTwo => "960x640",
        CommonAspectRatio::WideFiveByFour => "896x720",
        CommonAspectRatio::Wide => "1280x720",
        CommonAspectRatio::TallNineBySixteen => "720x1280",
        CommonAspectRatio::TallThreeByFour => "720x960",
        CommonAspectRatio::TallTwoByThree => "640x960",
        CommonAspectRatio::TallFourByFive => "720x896",
        CommonAspectRatio::Tall => "720x1280",
        CommonAspectRatio::Square => "1024x1024",
        CommonAspectRatio::SquareHd => "1024x1024",
        CommonAspectRatio::Other => "1024x1024",
    };
    String::from_str(size)
}

/// The resolution of an image request: the size of its aspect ratio if it
/// names one, else the resolution in the settings.
pub fn image_resolution(ar: Option<CommonAspectRatio>, settings: &Wan2gpSettings) -> (r: Option<
    String,
>)
    ensures
        match ar {
            Some(a) => holds_text(r, aspect_ratio_size(a)),
            None => r == settings@.resolution,
        },
{
    match ar {
        Some(a) => Some(aspect_ratio_resolution(a)),
        None => settings.resolution(),
    }
}

/// The video generation request: the model and prompt, the output type
/// "video", the resolution and video length of the settings, the other
/// settings, and the encoded start, end and reference images.
pub fn build_video_request(
    settings: &Wan2gpSettings,
    model: String,
    prompt: Option<String>,
    image_start: &Option<Vec<u8>>,
    image_end: &Option<Vec<u8>>,
    image_refs: &Option<Vec<Vec<u8>>>,
) -> (r: GenerateRequest)
    requires
        image_start matches Some(b) ==> base64_encodable(b@.len()),
        image_end matches Some(b) ==> base64_encodable(b@.len()),
        refs_encodable(*image_refs),
    ensures
        r.model == model,
        r.prompt == prompt,
        holds_text(r.output_type, "video"@),
        r.resolution == settings@.resolution,
        r.video_length == settings@.video_length,
        takes_settings(r, *settings),
        encodes_opt(r.image_start, *image_start),
        encodes_opt(r.image_end, *image_end),
        encodes_refs(r.image_refs, *image_refs),
{
    let refs = match image_refs {
        Some(v) => Some(encode_all(v)),
        None => None,
    };
    GenerateRequest {
        model,
        prompt,
        output_type: Some(String::from_str("video")),
        resolution: settings.resolution(),
        seed: settings.seed(),
        num_inference_steps: settings.num_inference_steps(),
        guidance_scale_bits: settings.guidance_scale(),
        video_length: settings.video_length(),
        image_start: encode_optional(image_start),
        image_end: encode_optional(image_end),
        image_refs: refs,
        profile_params: settings.profile_params(),
        extra_params: None,
    }
}

/// The image generation request: the model and prompt, the output type
/// "image", the resolution of the aspect ratio (or of the settings), no
/// video length, no start or end image, the other settings, and the encoded
/// reference images, left out when the request gives none or an empty list.
pub fn build_image_request(
    settings: &Wan2gpSettings,
    model: String,
    prompt: Option<String>,
    aspect_ratio: Option<CommonAspectRatio>,
    image_refs: &Option<Vec<Vec<u8>>>,
) -> (r: GenerateRequest)
    requires
        refs_encodable(*image_refs),
    ensures
        r.model == model,
        r.prompt == prompt,
        holds_text(r.output_type, "image"@),
        match aspect_ratio {
            Some(a) => holds_text(r.resolution, aspect_ratio_size(a)),
            None => r.resolution == settings@.resolution,
        },
        r.video_length is None,
        r.image_start is None,
        r.image_end is None,
        takes_settings(r, *settings),
        match *image_refs {
            Some(v) => if v@.len() == 0 {
                r.image_refs is None
            } else {
                encodes_refs(r.image_refs, *image_refs)
            },
            None => r.image_refs is None,
        },
{
    let refs = match image_refs {
        Some(v) => {
            if v.len() == 0 {
                None
            } else {
                Some(encode_all(v))
            }
        },
        None => None,
    };
    GenerateRequest {
        model,
        prompt,
        output_type: Some(String::from_str("image")),
        resolution: image_resolution(aspect_ratio, settings),
        seed: settings.seed(),
        num_inference_steps: settings.num_inference_steps(),
        guidance_scale_bits: settings.guidance_scale(),
        video_length: None,
        image_start: None,
        image_end: None,
        image_refs: refs,
        profile_params: settings.profile_params(),
        extra_params: None,
    }
}

/// What a submission that the bridge accepted records.
pub fn enqueue_success(response: GenerateResponse, task_type: TaskType) -> (r: TaskEnqueueSuccess)
    ensures
        r.provider_job_id == Some(response.task_id),
        r.task_type == task_type,
{
    TaskEnqueueSuccess { provider_job_id: Some(response.task_id), task_type }
}

/// `tall` is the size `wide` turned on its side: "WxH" becomes "HxW".
pub open spec fn turned_on_side(wide: Seq<char>, tall: Seq<char>) -> bool {
    exists|w: Seq<char>, h: Seq<char>|
        #![trigger w + seq!['x'] + h, h + seq!['x'] + w]
        wide == w + seq!['x'] + h && tall == h + seq!['x'] + w
}

proof fn lemma_turned(wide: Seq<char>, tall: Seq<char>, w: Seq<char>, h: Seq<char>)
    requires
        wide =~= w + seq!['x'] + h,
        tall =~= h + seq!['x'] + w,
    ensures
        turned_on_side(wide, tall),
{
    assert(wide == w + seq!['x'] + h && tall == h + seq!['x'] + w);
}

/// Each tall aspect ratio has the size of its wide counterpart turned on its
/// side.
pub proof fn lemma_tall_sizes_mirror_wide()
    ensures
        turned_on_side(
            aspect_ratio_size(CommonAspectRatio::WideSixteenByNine),
            aspect_ratio_size(CommonAspectRatio::TallNineBySixteen),
        ),
        turned_on_side(
            aspect_ratio_size(CommonAspectRatio::WideFourByThree),
            aspect_ratio_size(CommonAspectRatio::TallThreeByFour),
        ),
        turned_on_side(
            aspect_ratio_size(CommonAspectRatio::WideThreeByTwo),
            aspect_ratio_size(CommonAspectRatio::TallTwoByThree),
        ),
        turned_on_side(
            aspect_ratio_size(CommonAspectRatio::WideFiveByFour),
            aspect_ratio_size(CommonAspectRatio::TallFourByFive),
        ),
        turned_on_side(
            aspect_ratio_size(CommonAspectRatio::Wide),
            aspect_ratio_size(CommonAspectRatio::Tall),
        ),
{
    reveal_strlit("1280x720");
    reveal_strlit("720x1280");
    reveal_strlit("960x720");
    reveal_strlit("720x960");
    reveal_strlit("960x640");
    reveal_strlit("640x960");
    reveal_strlit("896x720");
    reveal_strlit("720x896");
    reveal_strlit("1280");
    reveal_strlit("720");
    reveal_strlit("960");
    reveal_strlit("640");
    reveal_strlit("896");
    lemma_turned("1280x720"@, "720x1280"@, "1280"@, "720"@);
    lemma_turned("960x720"@, "720x960"@, "960"@, "720"@);
    lemma_turned("960x640"@, "640x960"@, "960"@, "640"@);
    lemma_turned("896x720"@, "720x896"@, "896"@, "720"@);
}

} // verus!
