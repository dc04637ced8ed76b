//! The decisions of the background loop that polls the bridge for the tasks
//! that the app has handed to Wan2GP: whether to poll a task, what its
//! reported status means, and what a completed task is recorded as.

use vstd::prelude::*;
use vstd::string::StringExecFns;
use crate::encoding::base64_encodable;
use crate::encoding::base64_standard;
use crate::encoding::encode_base64;
use crate::text::forward_slashes;
use crate::text::holds_text;
use crate::text::replace_backslashes;
use crate::text::str_eq;
use crate::types::TaskStatusResponse;

verus! {

/// The kinds of generation task that the polling decisions tell apart.
#[derive(Debug, Clone, Copy, PartialEq, Eq)]
pub enum TaskType {
    ImageGeneration,
    ImageInpaintEdit,
    VideoGeneration,
    /// Any other kind of task.
    Other,
}

/// The class of media file that a completed task produced.
#[derive(Debug, Clone, Copy, PartialEq, Eq)]
pub enum TaskMediaFileClass {
    Image,
    Video,
}

/// The action that a completion event reports to the frontend.
#[derive(Debug, Clone, Copy, PartialEq, Eq)]
pub enum GenerationAction {
    GenerateImage,
    GenerateVideo,
}

/// The states that the polling loop records for a task that did not succeed.
#[derive(Debug, Clone, Copy, PartialEq, Eq)]
pub enum TaskStatus {
    CompleteFailure,
    CancelledByProvider,
}

/// A task that the app's task database holds as pending with Wan2GP.
#[derive(Debug, Clone, PartialEq, Eq)]
pub struct PendingTask {
    /// The task's identifier in the app's database.
    pub id: String,
    pub task_type: TaskType,
    /// The bridge's task identifier, once the bridge accepted the task.
    pub provider_job_id: Option<String>,
}

/// What the polling loop does with a task after polling it.
#[derive(Debug, Clone, PartialEq, Eq)]
pub enum PollDecision {
    /// The task is done: fetch its result and record it.
    Complete { is_image: bool },
    /// The task failed: record `CompleteFailure`, with this message.
    Failed { message: String },
    /// The bridge cancelled the task: record `CancelledByProvider`.
    Cancelled,
    /// The task is still running or queued.
    InProgress,
    /// The bridge reported a status that the loop does not know.
    Unrecognized,
}

/// What the app records for a completed task.
#[derive(Debug, Clone, PartialEq, Eq)]
pub struct CompletionRecord {
    /// Synthetic media file token for the local result.
    pub media_file_token: String,
    pub media_class: TaskMediaFileClass,
    /// A URL under which the frontend can display the result, when there is one.
    pub cdn_url: Option<String>,
    /// The action that the completion event reports.
    pub action: GenerationAction,
}

/// Whether the result of a completed task is an image: image tasks, and
/// tasks whose result the bridge reports as "image".
pub open spec fn result_is_image(task_type: TaskType, result_type: Option<String>) -> bool {
    task_type == TaskType::ImageGeneration || task_type == TaskType::ImageInpaintEdit
        || holds_text(result_type, "image"@)
}

/// The bridge reports a task that broke down as "failed" or "error".
pub open spec fn reports_failure(status: Seq<char>) -> bool {
    status == "failed"@ || status == "error"@
}

/// The bridge reports a task that is still under way as "running", "queued"
/// or "pending".
pub open spec fn reports_progress(status: Seq<char>) -> bool {
    status == "running"@ || status == "queued"@ || status == "pending"@
}

/// The decision that the loop takes on a polled status.
pub open spec fn poll_decision_holds(
    task_type: TaskType,
    status: TaskStatusResponse,
    d: PollDecision,
) -> bool {
    if status.status@ == "complete"@ {
        d == PollDecision::Complete { is_image: result_is_image(task_type, status.result_type) }
    } else if reports_failure(status.status@) {
        d matches PollDecision::Failed { message } && message@ == crate::client::failure_message(
            status.error,
        )
    } else if status.status@ == "cancelled"@ {
        d == PollDecision::Cancelled
    } else if reports_progress(status.status@) {
        d == PollDecision::InProgress
    } else {
        d == PollDecision::Unrecognized
    }
}

/// The name of the local file that holds a result.
pub open spec fn result_file_name_text(job_id: Seq<char>, is_image: bool) -> Seq<char> {
    "wan2gp_"@ + job_id + (if is_image { ".png"@ } else { ".mp4"@ })
}

/// A `data:` URL holding a PNG image.
pub open spec fn image_data_url_text(bytes: Seq<u8>) -> Seq<char> {
    "data:image/png;base64,"@ + base64_standard(bytes)
}

/// A `file:` URL for a local path, with backslashes turned into slashes.
pub open spec fn file_url_text(path: Seq<char>) -> Seq<char> {
    "file:///"@ + forward_slashes(path)
}

/// The record of a completed task.
pub open spec fn completion_record_holds(
    job_id: Seq<char>,
    is_image: bool,
    result_bytes: Option<Vec<u8>>,
    result_path: Option<String>,
    r: CompletionRecord,
) -> bool {
    &&& r.media_file_token@ == "wan2gp_"@ + job_id
    &&& r.media_class == (if is_image {
        TaskMediaFileClass::Image
    } else {
        TaskMediaFileClass::Video
    })
    &&& r.action == (if is_image {
        GenerationAction::GenerateImage
    } else {
        GenerationAction::GenerateVideo
    })
    &&& if is_image {
        match result_bytes {
            Some(b) => holds_text(r.cdn_url, image_data_url_text(b@)),
            None => r.cdn_url is None,
        }
    } else {
        match result_path {
            Some(p) => holds_text(r.cdn_url, file_url_text(p@)),
            None => r.cdn_url is None,
        }
    }
}

/// The bridge task to poll for a pending task; tasks that the bridge never
/// accepted are skipped (`None`).
pub fn job_to_poll(task: &PendingTask) -> (r: Option<String>)
    ensures
        r == task.provider_job_id,
{
    crate::settings::copy_opt_string(&task.provider_job_id)
}

/// Whether the result of a completed task is an image.
pub fn is_image_result(task_type: TaskType, result_type: &Option<String>) -> (r: bool)
    ensures
        r == result_is_image(task_type, *result_type),
{
    let by_type = match task_type {
        TaskType::ImageGeneration => true,
        TaskType::ImageInpaintEdit => true,
        _ => false,
    };
    if by_type {
        return true;
    }
    match result_type {
        Some(t) => str_eq(t.as_str(), "image"),
        None => false,
    }
}

/// The decision on a polled status of a task of the given type.
pub fn decide_poll(task_type: TaskType, status: &TaskStatusResponse) -> (d: PollDecision)
    ensures
        poll_decision_holds(task_type, *status, d),
{
    let s = status.status.as_str();
    if str_eq(s, "complete") {
        PollDecision::Complete { is_image: is_image_result(task_type, &status.result_type) }
    } else if str_eq(s, "failed") || str_eq(s, "error") {
        let message = match &status.error {
            Some(e) => e.clone(),
            None => String::from_str("Unknown error"),
        };
        PollDecision::Failed { message }
    } else if str_eq(s, "cancelled") {
        PollDecision::Cancelled
    } else if str_eq(s, "running") || str_eq(s, "queued") || str_eq(s, "pending") {
        PollDecision::InProgress
    } else {
        PollDecision::Unrecognized
    }
}

impl PollDecision {
    /// The state to record for a task that did not succeed; `None` when
    /// there is none to record now.
    pub fn recorded_status(&self) -> (r: Option<TaskStatus>)
        ensures
            r == match *self {
                PollDecision::Failed { .. } => Some(TaskStatus::CompleteFailure),
                PollDecision::Cancelled => Some(TaskStatus::CancelledByProvider),
                _ => None::<TaskStatus>,
            },
    {
        match self {
            PollDecision::Failed { .. } => Some(TaskStatus::CompleteFailure),
            PollDecision::Cancelled => Some(TaskStatus::CancelledByProvider),
            _ => None,
        }
    }
}

/// The name of the local file that holds a result: `wan2gp_<job>.png` for
/// images, `wan2gp_<job>.mp4` for videos.
pub fn result_file_name(job_id: &str, is_image: bool) -> (r: String)
    ensures
        r@ == result_file_name_text(job_id@, is_image),
{
    let mut name = String::from_str("wan2gp_");
    name.append(job_id);
    if is_image {
        name.append(".png");
    } else {
        name.append(".mp4");
    }
    name
}

/// A `data:` URL that displays a PNG image anywhere.
pub fn image_data_url(bytes: &[u8]) -> (r: String)
    requires
        base64_encodable(bytes@.len()),
    ensures
        r@ == image_data_url_text(bytes@),
{
    let mut url = String::from_str("data:image/png;base64,");
    let encoded = encode_base64(bytes);
    url.append(encoded.as_str());
    url
}

/// A `file:` URL for a local path.
pub fn file_url(path: &str) -> (r: String)
    ensures
        r@ == file_url_text(path@),
{
    let mut url = String::from_str("file:///");
    let p = replace_backslashes(path);
    url.append(p.as_str());
    url
}

/// The record of a completed task, given the downloaded result (if the
/// download succeeded) and the path it was written to (if the write
/// succeeded). Images are shown through a `data:` URL of their bytes, videos
/// through a `file:` URL of their path.
pub fn completion_record(
    job_id: &str,
    is_image: bool,
    result_bytes: &Option<Vec<u8>>,
    result_path: &Option<String>,
) -> (r: CompletionRecord)
    requires
        is_image ==> (result_bytes matches Some(b) ==> base64_encodable(b@.len())),
    ensures
        completion_record_holds(job_id@, is_image, *result_bytes, *result_path, r),
{
    let cdn_url = if is_image {
        match result_bytes {
            Some(b) => Some(image_data_url(b.as_slice())),
            None => None,
        }
    } else {
        match result_path {
            Some(p) => Some(file_url(p.as_str())),
            None => None,
        }
    };
    let mut token = String::from_str("wan2gp_");
    token.append(job_id);
    CompletionRecord {
        media_file_token: token,
        media_class: if is_image {
            TaskMediaFileClass::Image
        } else {
            TaskMediaFileClass::Video
        },
        cdn_url,
        action: if is_image {
            GenerationAction::GenerateImage
        } else {
            GenerationAction::GenerateVideo
        },
    }
}

/// Pause between the handling of one task and the next, after a task was
/// polled (500 ms).
pub const TASK_PAUSE_NANOS: u128 = 500_000_000;

/// Pause between two polling cycles (5 s).
pub const CYCLE_PAUSE_NANOS: u128 = 5_000_000_000;

/// Where the handling of one pending task stands.
#[derive(Debug, PartialEq, Eq)]
pub enum TaskPollState {
    Start,
    /// The bridge was asked for the status of this job.
    AwaitingStatus { job_id: String },
    /// The result of this completed job is being fetched and written.
    AwaitingResult { job_id: String, is_image: bool },
    /// The success is being recorded; this event follows if a row changed.
    AwaitingSuccessRecord { action: GenerationAction },
    /// A failure or cancellation is being recorded.
    AwaitingStatusRecord,
    /// The frontend is being notified.
    AwaitingNotification,
    /// The task is handled.
    Finished,
    /// The polling cycle stops here.
    CycleAborted,
}

/// What happened since the last step of handling a task.
#[derive(Debug, PartialEq, Eq)]
pub enum TaskPollEvent {
    /// The last action is done, or the handling begins.
    Proceed,
    /// Asking the bridge for the status failed.
    PollFailed,
    /// The bridge reported this status.
    Polled(TaskStatusResponse),
    /// The result was fetched (if the download succeeded) and written to
    /// this path (if the write succeeded).
    ResultFetched { bytes: Option<Vec<u8>>, path: Option<String> },
    /// The database recorded the success; whether a row changed.
    SuccessRecorded { updated: bool },
    /// The database failed.
    RecordFailed,
}

/// What the polling loop does next for a task.
#[derive(Debug, PartialEq, Eq)]
pub enum TaskPollAction {
    /// Ask the bridge for the status of the job.
    PollStatus { job_id: String },
    /// Download the job's result and write it to a file of this name.
    FetchResult { job_id: String, file_name: String },
    /// Record the task as successful.
    RecordSuccess { record: CompletionRecord },
    /// Record the task's new status; a failure to do so is ignored.
    RecordStatus { status: TaskStatus },
    /// Tell the frontend that a generation completed; a failure is ignored.
    Notify { action: GenerationAction },
    /// Go on with the next task after pausing this long.
    NextTask { pause_nanos: u128 },
    /// Stop this polling cycle with the database's error.
    AbortCycle,
}

/// The end of a task's handling, with the given pause before the next one.
pub open spec fn ends_task(next: TaskPollState, action: TaskPollAction, pause_nanos: u128) -> bool {
    next == TaskPollState::Finished && action == (TaskPollAction::NextTask { pause_nanos })
}

/// The step after the bridge reported a status for a job.
pub open spec fn polled_step_holds(
    task_type: TaskType,
    job_id: String,
    status: TaskStatusResponse,
    next: TaskPollState,
    action: TaskPollAction,
) -> bool {
    if status.status@ == "complete"@ {
        let is_image = result_is_image(task_type, status.result_type);
        &&& action matches TaskPollAction::FetchResult { job_id: j, file_name } && j == job_id
            && file_name@ == result_file_name_text(job_id@, is_image)
        &&& next == (TaskPollState::AwaitingResult { job_id, is_image })
    } else if reports_failure(status.status@) {
        next == TaskPollState::AwaitingStatusRecord && action == (TaskPollAction::RecordStatus {
            status: TaskStatus::CompleteFailure,
        })
    } else if status.status@ == "cancelled"@ {
        next == TaskPollState::AwaitingStatusRecord && action == (TaskPollAction::RecordStatus {
            status: TaskStatus::CancelledByProvider,
        })
    } else {
        ends_task(next, action, TASK_PAUSE_NANOS)
    }
}

/// One step of handling a pending task. A task without a bridge job is
/// skipped, and so is one whose poll failed (no pause); a completed job's
/// result is fetched and recorded, and the frontend is told only if the
/// record changed a row; a failed or cancelled job's status is recorded; a
/// job still under way, or in a state the loop does not know, is left for
/// the next cycle. A failure to record a success stops the cycle; every
/// other handled task ends with the pause between tasks. An event that does
/// not fit the state ends the task's handling.
pub open spec fn poll_step_holds(
    task: PendingTask,
    state: TaskPollState,
    event: TaskPollEvent,
    next: TaskPollState,
    action: TaskPollAction,
) -> bool {
    match state {
        TaskPollState::Start => match task.provider_job_id {
            Some(j) => next == (TaskPollState::AwaitingStatus { job_id: j }) && action
                == (TaskPollAction::PollStatus { job_id: j }),
            None => ends_task(next, action, 0),
        },
        TaskPollState::AwaitingStatus { job_id } => match event {
            TaskPollEvent::Polled(s) => polled_step_holds(task.task_type, job_id, s, next, action),
            _ => ends_task(next, action, 0),
        },
        TaskPollState::AwaitingResult { job_id, is_image } => match event {
            TaskPollEvent::ResultFetched { bytes, path } => {
                &&& action matches TaskPollAction::RecordSuccess { record }
                    && completion_record_holds(job_id@, is_image, bytes, path, record)
                    && next == (TaskPollState::AwaitingSuccessRecord { action: record.action })
            },
            _ => ends_task(next, action, TASK_PAUSE_NANOS),
        },
        TaskPollState::AwaitingSuccessRecord { action: a } => match event {
            TaskPollEvent::SuccessRecorded { updated } => if updated {
                next == TaskPollState::AwaitingNotification && action == (TaskPollAction::Notify {
                    action: a,
                })
            } else {
                ends_task(next, action, TASK_PAUSE_NANOS)
            },
            TaskPollEvent::RecordFailed => next == TaskPollState::CycleAborted && action
                == TaskPollAction::AbortCycle,
            _ => ends_task(next, action, TASK_PAUSE_NANOS),
        },
        TaskPollState::AwaitingStatusRecord => ends_task(next, action, TASK_PAUSE_NANOS),
        TaskPollState::AwaitingNotification => ends_task(next, action, TASK_PAUSE_NANOS),
        TaskPollState::Finished => ends_task(next, action, 0),
        TaskPollState::CycleAborted => next == TaskPollState::CycleAborted && action
            == TaskPollAction::AbortCycle,
    }
}

/// Whether the bytes of a fetched image result can be encoded.
pub open spec fn fetched_encodable(state: TaskPollState, event: TaskPollEvent) -> bool {
    match state {
        TaskPollState::AwaitingResult { is_image: true, .. } => match event {
            TaskPollEvent::ResultFetched { bytes: Some(b), .. } => base64_encodable(b@.len()),
            _ => true,
        },
        _ => true,
    }
}

/// The next step of handling a task, given where it stands and what just
/// happened.
pub fn poll_task_step(task: &PendingTask, state: TaskPollState, event: TaskPollEvent) -> (r: (
    TaskPollState,
    TaskPollAction,
))
    requires
        fetched_encodable(state, event),
    ensures
        poll_step_holds(*task, state, event, r.0, r.1),
{
    match state {
        TaskPollState::Start => match job_to_poll(task) {
            Some(j) => {
                let j2 = j.clone();
                (TaskPollState::AwaitingStatus { job_id: j }, TaskPollAction::PollStatus { job_id: j2 })
            },
            None => (TaskPollState::Finished, TaskPollAction::NextTask { pause_nanos: 0 }),
        },
        TaskPollState::AwaitingStatus { job_id } => match event {
            TaskPollEvent::Polled(s) => {
                let d = decide_poll(task.task_type, &s);
                match d {
                    PollDecision::Complete { is_image } => {
                        let file_name = result_file_name(job_id.as_str(), is_image);
                        let j2 = job_id.clone();
                        (
                            TaskPollState::AwaitingResult { job_id, is_image },
                            TaskPollAction::FetchResult { job_id: j2, file_name },
                        )
                    },
                    PollDecision::Failed { .. } => (
                        TaskPollState::AwaitingStatusRecord,
                        TaskPollAction::RecordStatus { status: TaskStatus::CompleteFailure },
                    ),
                    PollDecision::Cancelled => (
                        TaskPollState::AwaitingStatusRecord,
                        TaskPollAction::RecordStatus { status: TaskStatus::CancelledByProvider },
                    ),
                    _ => (TaskPollState::Finished, TaskPollAction::NextTask { pause_nanos: TASK_PAUSE_NANOS }),
                }
            },
            _ => (TaskPollState::Finished, TaskPollAction::NextTask { pause_nanos: 0 }),
        },
        TaskPollState::AwaitingResult { job_id, is_image } => match event {
            TaskPollEvent::ResultFetched { bytes, path } => {
                let record = completion_record(job_id.as_str(), is_image, &bytes, &path);
                let a = record.action;
                (TaskPollState::AwaitingSuccessRecord { action: a }, TaskPollAction::RecordSuccess { record })
            },
            _ => (TaskPollState::Finished, TaskPollAction::NextTask { pause_nanos: TASK_PAUSE_NANOS }),
        },
        TaskPollState::AwaitingSuccessRecord { action } => match event {
            TaskPollEvent::SuccessRecorded { updated } => {
                if updated {
                    (TaskPollState::AwaitingNotification, TaskPollAction::Notify { action })
                } else {
                    (TaskPollState::Finished, TaskPollAction::NextTask { pause_nanos: TASK_PAUSE_NANOS })
                }
            },
            TaskPollEvent::RecordFailed => (TaskPollState::CycleAborted, TaskPollAction::AbortCycle),
            _ => (TaskPollState::Finished, TaskPollAction::NextTask { pause_nanos: TASK_PAUSE_NANOS }),
        },
        TaskPollState::AwaitingStatusRecord => (
            TaskPollState::Finished,
            TaskPollAction::NextTask { pause_nanos: TASK_PAUSE_NANOS },
        ),
        TaskPollState::AwaitingNotification => (
            TaskPollState::Finished,
            TaskPollAction::NextTask { pause_nanos: TASK_PAUSE_NANOS },
        ),
        TaskPollState::Finished => (TaskPollState::Finished, TaskPollAction::NextTask { pause_nanos: 0 }),
        TaskPollState::CycleAborted => (TaskPollState::CycleAborted, TaskPollAction::AbortCycle),
    }
}

proof fn lemma_poll_status_literals()
    ensures
        "complete"@ != "failed"@,
        "complete"@ != "error"@,
        "complete"@ != "cancelled"@,
        "complete"@ != "running"@,
        "complete"@ != "queued"@,
        "complete"@ != "pending"@,
        "failed"@ != "cancelled"@,
        "error"@ != "cancelled"@,
        "failed"@ != "running"@,
        "failed"@ != "queued"@,
        "failed"@ != "pending"@,
        "error"@ != "running"@,
        "error"@ != "queued"@,
        "error"@ != "pending"@,
        "cancelled"@ != "running"@,
        "cancelled"@ != "queued"@,
        "cancelled"@ != "pending"@,
{
    reveal_strlit("complete");
    reveal_strlit("failed");
    reveal_strlit("error");
    reveal_strlit("cancelled");
    reveal_strlit("running");
    reveal_strlit("queued");
    reveal_strlit("pending");
    assert("complete"@.len() == 8);
    assert("failed"@.len() == 6);
    assert("error"@.len() == 5);
    assert("cancelled"@.len() == 9);
    assert("running"@.len() == 7);
    assert("queued"@.len() == 6);
    assert("pending"@.len() == 7);
    assert("failed"@[0] != "queued"@[0]);
}

/// The decision on a polled status, by what the bridge reports: "complete"
/// is done, with an image result exactly for image tasks or results the
/// bridge calls "image"; "failed" and "error" are failures carrying the
/// bridge's error (or "Unknown error"); "cancelled" is a cancellation;
/// "running", "queued" and "pending" are still under way; anything else is
/// not recognised.
pub proof fn lemma_decision_by_status(task_type: TaskType, status: TaskStatusResponse, d: PollDecision)
    requires
        poll_decision_holds(task_type, status, d),
    ensures
        status.status@ == "complete"@ ==> d is Complete && (d->is_image <==> (task_type
            == TaskType::ImageGeneration || task_type == TaskType::ImageInpaintEdit || (
        status.result_type is Some && status.result_type->0@ == "image"@))),
        status.status@ == "failed"@ || status.status@ == "error"@ ==> d is Failed,
        (status.status@ == "failed"@ || status.status@ == "error"@) && status.error is Some ==> d->message@
            == status.error->0@,
        (status.status@ == "failed"@ || status.status@ == "error"@) && status.error is None ==> d->message@
            == "Unknown error"@,
        status.status@ == "cancelled"@ ==> d == PollDecision::Cancelled,
        status.status@ == "running"@ || status.status@ == "queued"@ || status.status@ == "pending"@
            ==> d == PollDecision::InProgress,
        d == PollDecision::Unrecognized <==> !(status.status@ == "complete"@ || status.status@
            == "failed"@ || status.status@ == "error"@ || status.status@ == "cancelled"@
            || status.status@ == "running"@ || status.status@ == "queued"@ || status.status@
            == "pending"@),
{
    lemma_poll_status_literals();
}

/// After the bridge reported a status for a job, the next step settles the
/// task as the bridge reports it: a failed or errored job is recorded as
/// `CompleteFailure`, a cancelled one as `CancelledByProvider`, a job still
/// under way is left for the next cycle after the 500 ms pause, and a
/// complete job's result is fetched into `wan2gp_<job>.png` when it is an
/// image and `wan2gp_<job>.mp4` otherwise. The step agrees with the poll
/// decision on the same status.
pub proof fn lemma_polled_step_settles_task(
    task: PendingTask,
    job_id: String,
    status: TaskStatusResponse,
    next: TaskPollState,
    action: TaskPollAction,
    d: PollDecision,
)
    requires
        poll_step_holds(
            task,
            TaskPollState::AwaitingStatus { job_id },
            TaskPollEvent::Polled(status),
            next,
            action,
        ),
        poll_decision_holds(task.task_type, status, d),
    ensures
        status.status@ == "failed"@ || status.status@ == "error"@ ==> next
            == TaskPollState::AwaitingStatusRecord && action == (TaskPollAction::RecordStatus {
            status: TaskStatus::CompleteFailure,
        }),
        status.status@ == "cancelled"@ ==> next == TaskPollState::AwaitingStatusRecord && action
            == (TaskPollAction::RecordStatus { status: TaskStatus::CancelledByProvider }),
        status.status@ == "running"@ || status.status@ == "queued"@ || status.status@ == "pending"@
            ==> next == TaskPollState::Finished && action == (TaskPollAction::NextTask {
            pause_nanos: 500_000_000,
        }),
        status.status@ == "complete"@ ==> next is AwaitingResult && action is FetchResult
            && next->AwaitingResult_job_id == job_id && action->FetchResult_job_id == job_id
            && action->file_name@ == "wan2gp_"@ + job_id@ + (if next->is_image {
            ".png"@
        } else {
            ".mp4"@
        }) && (next->is_image <==> (task.task_type == TaskType::ImageGeneration || task.task_type
            == TaskType::ImageInpaintEdit || (status.result_type is Some
            && status.result_type->0@ == "image"@))),
        d is Failed ==> action == (TaskPollAction::RecordStatus {
            status: TaskStatus::CompleteFailure,
        }),
        d is Cancelled ==> action == (TaskPollAction::RecordStatus {
            status: TaskStatus::CancelledByProvider,
        }),
        d is Complete ==> action is FetchResult && next == (TaskPollState::AwaitingResult {
            job_id,
            is_image: d->is_image,
        }),
        d is InProgress || d is Unrecognized ==> next == TaskPollState::Finished && action
            == (TaskPollAction::NextTask { pause_nanos: 500_000_000 }),
{
    lemma_poll_status_literals();
}

/// The steps around a task's poll: a task without a bridge job is skipped
/// at once; a task with one is polled under that job; a poll that failed
/// skips the task without a pause.
pub proof fn lemma_step_start_and_poll_failure(
    task: PendingTask,
    state: TaskPollState,
    event: TaskPollEvent,
    next: TaskPollState,
    action: TaskPollAction,
)
    requires
        poll_step_holds(task, state, event, next, action),
    ensures
        state == TaskPollState::Start && task.provider_job_id is None ==> next
            == TaskPollState::Finished && action == (TaskPollAction::NextTask { pause_nanos: 0 }),
        state == TaskPollState::Start && task.provider_job_id is Some ==> next
            == (TaskPollState::AwaitingStatus { job_id: task.provider_job_id->0 }) && action
            == (TaskPollAction::PollStatus { job_id: task.provider_job_id->0 }),
        state is AwaitingStatus && event == TaskPollEvent::PollFailed ==> next
            == TaskPollState::Finished && action == (TaskPollAction::NextTask { pause_nanos: 0 }),
        action is PollStatus ==> state == TaskPollState::Start,
{
}

/// A fetched result is recorded as the completed job's result: its token is
/// `wan2gp_<job>`, its media class and reported action say image exactly
/// when the job's result is an image, and the success is recorded before
/// anything else.
pub proof fn lemma_fetched_result_recorded(
    task: PendingTask,
    job_id: String,
    is_image: bool,
    bytes: Option<Vec<u8>>,
    path: Option<String>,
    next: TaskPollState,
    action: TaskPollAction,
)
    requires
        poll_step_holds(
            task,
            TaskPollState::AwaitingResult { job_id, is_image },
            TaskPollEvent::ResultFetched { bytes, path },
            next,
            action,
        ),
    ensures
        action is RecordSuccess,
        action->record.media_file_token@ == "wan2gp_"@ + job_id@,
        action->record.media_class == TaskMediaFileClass::Image <==> is_image,
        action->record.action == GenerationAction::GenerateImage <==> is_image,
        next == (TaskPollState::AwaitingSuccessRecord { action: action->record.action }),
{
}

/// What a completed task is recorded as: the token `wan2gp_<job>`; for an
/// image, the class `Image`, the action `GenerateImage` and, when the bytes
/// were fetched, a `data:image/png;base64,` URL of them; for a video, the
/// class `Video`, the action `GenerateVideo` and, when the file was written,
/// a `file:///` URL of its path with backslashes turned into slashes.
pub proof fn lemma_completion_record_contents(
    job_id: Seq<char>,
    is_image: bool,
    result_bytes: Option<Vec<u8>>,
    result_path: Option<String>,
    r: CompletionRecord,
)
    requires
        completion_record_holds(job_id, is_image, result_bytes, result_path, r),
    ensures
        r.media_file_token@ == "wan2gp_"@ + job_id,
        is_image ==> r.media_class == TaskMediaFileClass::Image && r.action
            == GenerationAction::GenerateImage,
        !is_image ==> r.media_class == TaskMediaFileClass::Video && r.action
            == GenerationAction::GenerateVideo,
        is_image && result_bytes is Some ==> r.cdn_url is Some && r.cdn_url->0@
            == "data:image/png;base64,"@ + base64_standard(result_bytes->0@),
        is_image && result_bytes is None ==> r.cdn_url is None,
        !is_image && result_path is None ==> r.cdn_url is None,
        !is_image && result_path is Some ==> r.cdn_url is Some && r.cdn_url->0@.len() == 8
            + result_path->0@.len() && r.cdn_url->0@.subrange(0, 8) == "file:///"@ && (forall|i: int|
            0 <= i < result_path->0@.len() ==> r.cdn_url->0@[8 + i] == (if result_path->0@[i]
                == '\\' {
                '/'
            } else {
                result_path->0@[i]
            })),
{
    reveal_strlit("file:///");
    if !is_image && result_path is Some {
        let p = result_path->0@;
        let u = r.cdn_url->0@;
        assert(u == "file:///"@ + forward_slashes(p));
        assert(u.subrange(0, 8) =~= "file:///"@);
        assert forall|i: int| 0 <= i < p.len() implies u[8 + i] == (if p[i] == '\\' {
            '/'
        } else {
            p[i]
        }) by {
            assert(u[8 + i] == forward_slashes(p)[i]);
        }
    }
}

/// The names a completed job's result goes by: its file is
/// `wan2gp_<job>.png` for an image and `wan2gp_<job>.mp4` for a video, an
/// image is shown through a `data:image/png;base64,` URL of its bytes, and a
/// video through `file:///` followed by its path with slashes only.
pub proof fn lemma_result_names(job_id: Seq<char>, is_image: bool, bytes: Seq<u8>, path: Seq<char>)
    ensures
        is_image ==> result_file_name_text(job_id, is_image) == "wan2gp_"@ + job_id + ".png"@,
        !is_image ==> result_file_name_text(job_id, is_image) == "wan2gp_"@ + job_id + ".mp4"@,
        image_data_url_text(bytes) == "data:image/png;base64,"@ + base64_standard(bytes),
        file_url_text(path).len() == 8 + path.len(),
        file_url_text(path).subrange(0, 8) == "file:///"@,
        forall|i: int|
            0 <= i < path.len() ==> file_url_text(path)[8 + i] == (if path[i] == '\\' {
                '/'
            } else {
                path[i]
            }),
{
    reveal_strlit("file:///");
    assert(file_url_text(path).subrange(0, 8) =~= "file:///"@);
    assert forall|i: int| 0 <= i < path.len() implies file_url_text(path)[8 + i] == (if path[i]
        == '\\' {
        '/'
    } else {
        path[i]
    }) by {
        assert(file_url_text(path)[8 + i] == forward_slashes(path)[i]);
    }
}

/// After the success of a task was recorded, the frontend is told (with the
/// recorded action) exactly when a row changed; otherwise the task ends
/// with the 500 ms pause. A failed record stops the cycle, and a recorded
/// failure or cancellation, or a sent notification, ends the task with the
/// pause.
pub proof fn lemma_success_record_step(
    task: PendingTask,
    a: GenerationAction,
    state: TaskPollState,
    event: TaskPollEvent,
    next: TaskPollState,
    action: TaskPollAction,
)
    requires
        poll_step_holds(task, state, event, next, action),
    ensures
        state == (TaskPollState::AwaitingSuccessRecord { action: a }) && event
            == (TaskPollEvent::SuccessRecorded { updated: true }) ==> next
            == TaskPollState::AwaitingNotification && action == (TaskPollAction::Notify { action: a }),
        state == (TaskPollState::AwaitingSuccessRecord { action: a }) && event
            == (TaskPollEvent::SuccessRecorded { updated: false }) ==> next
            == TaskPollState::Finished && action == (TaskPollAction::NextTask {
            pause_nanos: 500_000_000,
        }),
        state == (TaskPollState::AwaitingSuccessRecord { action: a }) && event
            == TaskPollEvent::RecordFailed ==> next == TaskPollState::CycleAborted && action
            == TaskPollAction::AbortCycle,
        state == TaskPollState::AwaitingStatusRecord || state == TaskPollState::AwaitingNotification
            ==> next == TaskPollState::Finished && action == (TaskPollAction::NextTask {
            pause_nanos: 500_000_000,
        }),
{
}

/// The frontend is told of a completion only after the database recorded
/// it and reported a changed row.
pub proof fn lemma_notify_only_after_update(
    task: PendingTask,
    state: TaskPollState,
    event: TaskPollEvent,
    next: TaskPollState,
    action: TaskPollAction,
)
    requires
        poll_step_holds(task, state, event, next, action),
        action is Notify,
    ensures
        state is AwaitingSuccessRecord,
        event == (TaskPollEvent::SuccessRecorded { updated: true }),
{
}

/// The cycle stops only when recording a success failed (or had already
/// stopped).
pub proof fn lemma_abort_only_on_record_failure(
    task: PendingTask,
    state: TaskPollState,
    event: TaskPollEvent,
    next: TaskPollState,
    action: TaskPollAction,
)
    requires
        poll_step_holds(task, state, event, next, action),
        action is AbortCycle,
    ensures
        (state is AwaitingSuccessRecord && event == TaskPollEvent::RecordFailed) || state is CycleAborted,
{
}

/// A status that the client treats as the end of a task (complete, failed or
/// cancelled) settles the task in the polling loop too: it is recorded as a
/// success, a failure or a cancellation, never left in progress.
pub proof fn lemma_terminal_status_settles_task(
    task_type: TaskType,
    status: TaskStatusResponse,
    d: PollDecision,
)
    requires
        poll_decision_holds(task_type, status, d),
        crate::types::status_is_terminal(status.status@),
    ensures
        d is Complete || d is Failed || d is Cancelled,
        crate::types::status_is_complete(status.status@) ==> d is Complete,
        crate::types::status_is_failed(status.status@) ==> d is Failed,
        crate::types::status_is_cancelled(status.status@) ==> d is Cancelled,
{
    crate::types::lemma_terminal_states_exclusive(status.status@);
    reveal_strlit("complete");
    reveal_strlit("failed");
    reveal_strlit("cancelled");
    reveal_strlit("error");
    assert("complete"@.len() == 8);
    assert("failed"@.len() == 6);
    assert("error"@.len() == 5);
    assert("cancelled"@.len() == 9);
}

/// A completed task is recorded consistently: its media class, the action
/// reported and the extension of its file all say image, or all say video.
pub proof fn lemma_completion_consistent(
    job_id: Seq<char>,
    is_image: bool,
    result_bytes: Option<Vec<u8>>,
    result_path: Option<String>,
    r: CompletionRecord,
)
    requires
        completion_record_holds(job_id, is_image, result_bytes, result_path, r),
    ensures
        (r.media_class == TaskMediaFileClass::Image) <==> (r.action
            == GenerationAction::GenerateImage),
        (r.media_class == TaskMediaFileClass::Image) <==> is_image,
        result_file_name_text(job_id, is_image) == r.media_file_token@ + (if r.media_class
            == TaskMediaFileClass::Image {
            ".png"@
        } else {
            ".mp4"@
        }),
{
}

} // verus!
