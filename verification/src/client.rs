//! The plain-value side of the Wan2GP bridge client: where it sends each
//! request, which replies it accepts, and when waiting for a task ends.
//! Durations are held in nanoseconds, which stand for any `Duration`
//! exactly.

use vstd::prelude::*;
use vstd::string::StringExecFns;
use crate::error::Wan2gpError;
use crate::text::trim_end_char;
use crate::text::without_trailing;
use crate::types::TaskStatusResponse;
use crate::types::status_is_cancelled;
use crate::types::status_is_complete;
use crate::types::status_is_failed;

verus! {

/// Default bridge API base URL.
pub const DEFAULT_BASE_URL: &'static str = "http://localhost:7861";

/// Default timeout for regular API calls (status, models, etc.).
pub const DEFAULT_TIMEOUT_NANOS: u128 = 10_000_000_000;

/// Timeout for each request that polls a generation task.
pub const POLL_TIMEOUT_NANOS: u128 = 5_000_000_000;

/// Timeout for downloading a result file.
pub const DOWNLOAD_TIMEOUT_NANOS: u128 = 120_000_000_000;

/// Default interval between poll requests.
pub const DEFAULT_POLL_INTERVAL_NANOS: u128 = 2_000_000_000;

/// Maximum time to wait for a generation to complete (ten minutes).
pub const DEFAULT_MAX_GENERATION_TIME_NANOS: u128 = 600_000_000_000;

/// Settings of a client for the Wan2GP Bridge API.
pub struct Wan2gpClient {
    base_url: String,
    poll_interval_nanos: u128,
    max_generation_time_nanos: u128,
}

/// What a client is: its base URL and its two timings.
pub struct Wan2gpClientView {
    pub base_url: Seq<char>,
    pub poll_interval_nanos: u128,
    pub max_generation_time_nanos: u128,
}

impl Wan2gpClient {
    /// The base URL never ends with a slash.
    #[verifier::type_invariant]
    spec fn well_formed(self) -> bool {
        self.base_url@.len() == 0 || self.base_url@.last() != '/'
    }
}

impl View for Wan2gpClient {
    type V = Wan2gpClientView;

    closed spec fn view(&self) -> Wan2gpClientView {
        Wan2gpClientView {
            base_url: self.base_url@,
            poll_interval_nanos: self.poll_interval_nanos,
            max_generation_time_nanos: self.max_generation_time_nanos,
        }
    }
}

/// A client for `base_url`, with trailing slashes dropped, and the default
/// timings.
pub open spec fn client_for(base_url: Seq<char>) -> Wan2gpClientView {
    Wan2gpClientView {
        base_url: without_trailing(base_url, '/'),
        poll_interval_nanos: DEFAULT_POLL_INTERVAL_NANOS,
        max_generation_time_nanos: DEFAULT_MAX_GENERATION_TIME_NANOS,
    }
}

/// The URL of an API path on a bridge.
pub open spec fn endpoint(base_url: Seq<char>, path: Seq<char>) -> Seq<char> {
    base_url + path
}

/// Whether an HTTP status code reports success (200 to 299).
pub open spec fn is_success_code(code: u16) -> bool {
    200 <= code <= 299
}

/// The message of a failed task: the bridge's error, or "Unknown error".
pub open spec fn failure_message(error: Option<String>) -> Seq<char> {
    match error {
        Some(e) => e@,
        None => "Unknown error"@,
    }
}

/// What one poll of a task decides while waiting for it: `None` to keep
/// waiting, otherwise the result of the wait.
pub open spec fn wait_outcome_holds(
    status: TaskStatusResponse,
    r: Option<Result<TaskStatusResponse, Wan2gpError>>,
) -> bool {
    if status_is_complete(status.status@) {
        r == Some(Ok::<TaskStatusResponse, Wan2gpError>(status))
    } else if status_is_failed(status.status@) {
        r matches Some(Err(Wan2gpError::GenerationFailed(m))) && m@ == failure_message(status.error)
    } else if status_is_cancelled(status.status@) {
        r == Some(Err::<TaskStatusResponse, Wan2gpError>(Wan2gpError::Cancelled))
    } else {
        r is None
    }
}

/// Waiting for a task ends exactly when a poll reports a terminal status.
pub proof fn lemma_wait_ends_on_terminal(
    status: TaskStatusResponse,
    r: Option<Result<TaskStatusResponse, Wan2gpError>>,
)
    requires
        wait_outcome_holds(status, r),
    ensures
        r is Some <==> crate::types::status_is_terminal(status.status@),
        r matches Some(Ok(s)) ==> s == status && status_is_complete(s.status@),
{
}

/// A generation request is accepted exactly when its reply counts as
/// success: 202 (Accepted) is itself a success code, and the success codes
/// are exactly 200 to 299.
pub proof fn lemma_generate_accepted_iff_success(code: u16)
    ensures
        (code == 202 || is_success_code(code)) <==> is_success_code(code),
        is_success_code(code) <==> 200 <= code < 300,
        is_success_code(202),
{
}

/// An endpoint is the base URL followed by the path.
pub proof fn lemma_endpoint_is_concatenation(base_url: Seq<char>, path: Seq<char>)
    ensures
        endpoint(base_url, path) == base_url + path,
        endpoint(base_url, path).subrange(0, base_url.len() as int) == base_url,
        endpoint(base_url, path).len() == base_url.len() + path.len(),
{
    assert((base_url + path).subrange(0, base_url.len() as int) =~= base_url);
}

/// The client for a base URL keeps that URL up to its trailing slashes,
/// drops exactly the slashes at its end, and uses the default timings
/// (2 s between polls, 10 min for a generation).
pub proof fn lemma_client_for_keeps_base_url(base_url: Seq<char>)
    ensures
        client_for(base_url).base_url.len() <= base_url.len(),
        client_for(base_url).base_url == base_url.subrange(0, client_for(base_url).base_url.len() as int),
        forall|i: int|
            client_for(base_url).base_url.len() <= i < base_url.len() ==> base_url[i] == '/',
        client_for(base_url).base_url.len() == 0 || client_for(base_url).base_url.last() != '/',
        client_for(base_url).poll_interval_nanos == 2_000_000_000,
        client_for(base_url).max_generation_time_nanos == 600_000_000_000,
{
    crate::text::lemma_without_trailing(base_url, '/');
}

/// A client's base URL never ends with a slash, and building a client from
/// it again gives the same client.
pub proof fn lemma_base_url_normalized(base_url: Seq<char>)
    ensures
        client_for(base_url).base_url.len() == 0 || client_for(base_url).base_url.last() != '/',
        client_for(client_for(base_url).base_url) == client_for(base_url),
{
    crate::text::lemma_without_trailing(base_url, '/');
}

/// What happened since the last step of a wait for a task.
#[derive(Debug, PartialEq, Eq)]
pub enum WaitEvent {
    /// A new round of the wait begins, `elapsed_nanos` after the wait began.
    Tick { elapsed_nanos: u128 },
    /// The task was polled, with this result.
    Polled(Result<TaskStatusResponse, Wan2gpError>),
}

/// What the wait does next.
#[derive(Debug, PartialEq, Eq)]
pub enum WaitAction {
    /// Poll the task.
    Poll,
    /// Sleep this long, then begin a new round.
    Sleep { nanos: u128 },
    /// End the wait with this result.
    Finish(Result<TaskStatusResponse, Wan2gpError>),
}

/// One step of a wait for a task: each round first checks the time limit,
/// then polls; a failed poll ends the wait with its error, a terminal status
/// ends it as `wait_outcome_holds` says, any other status sleeps for the
/// poll interval.
pub open spec fn wait_step_holds(c: Wan2gpClientView, event: WaitEvent, action: WaitAction) -> bool {
    match event {
        WaitEvent::Tick { elapsed_nanos } => if elapsed_nanos > c.max_generation_time_nanos {
            action == WaitAction::Finish(Err(Wan2gpError::Timeout))
        } else {
            action == WaitAction::Poll
        },
        WaitEvent::Polled(Err(e)) => action == WaitAction::Finish(Err(e)),
        WaitEvent::Polled(Ok(s)) => if crate::types::status_is_terminal(s.status@) {
            action matches WaitAction::Finish(r) && wait_outcome_holds(s, Some(r))
        } else {
            action == WaitAction::Sleep { nanos: c.poll_interval_nanos }
        },
    }
}

/// The terminal statuses are three different words.
proof fn lemma_status_literals()
    ensures
        "complete"@ != "failed"@,
        "complete"@ != "cancelled"@,
        "failed"@ != "cancelled"@,
{
    reveal_strlit("complete");
    reveal_strlit("failed");
    reveal_strlit("cancelled");
    assert("complete"@.len() == 8);
    assert("failed"@.len() == 6);
    assert("cancelled"@.len() == 9);
}

/// What a poll decides while waiting, by the status the bridge reports: a
/// complete task ends the wait with its status, a failed one with
/// `GenerationFailed` carrying the bridge's error (or "Unknown error"), a
/// cancelled one with `Cancelled`, and any other status keeps the wait going.
pub proof fn lemma_wait_outcome_by_status(
    status: TaskStatusResponse,
    r: Option<Result<TaskStatusResponse, Wan2gpError>>,
)
    requires
        wait_outcome_holds(status, r),
    ensures
        status.status@ == "complete"@ ==> r == Some(Ok::<TaskStatusResponse, Wan2gpError>(status)),
        status.status@ == "failed"@ ==> r is Some && r->0 is Err && r->0->Err_0 is GenerationFailed,
        status.status@ == "failed"@ && status.error is Some ==> r->0->Err_0->GenerationFailed_0@
            == status.error->0@,
        status.status@ == "failed"@ && status.error is None ==> r->0->Err_0->GenerationFailed_0@
            == "Unknown error"@,
        status.status@ == "cancelled"@ ==> r == Some(
            Err::<TaskStatusResponse, Wan2gpError>(Wan2gpError::Cancelled),
        ),
        status.status@ != "complete"@ && status.status@ != "failed"@ && status.status@
            != "cancelled"@ ==> r is None,
{
    lemma_status_literals();
}

/// One step of a wait, by what happened: a round first checks the time
/// (`Timeout` exactly past the limit, otherwise a poll); a poll that failed
/// ends the wait with that very error; a poll that succeeded ends it on a
/// complete, failed or cancelled task and otherwise sleeps for the poll
/// interval. The wait sleeps only after a successful poll of a task still
/// under way.
pub proof fn lemma_wait_step_by_event(c: Wan2gpClientView, event: WaitEvent, action: WaitAction)
    requires
        wait_step_holds(c, event, action),
    ensures
        event is Polled && event->Polled_0 is Err ==> action == WaitAction::Finish(
            Err(event->Polled_0->Err_0),
        ),
        event is Tick && event->elapsed_nanos > c.max_generation_time_nanos ==> action
            == WaitAction::Finish(Err(Wan2gpError::Timeout)),
        event is Tick && event->elapsed_nanos <= c.max_generation_time_nanos ==> action
            == WaitAction::Poll,
        event is Polled && event->Polled_0 is Ok && event->Polled_0->Ok_0.status@ == "complete"@
            ==> action == WaitAction::Finish(Ok(event->Polled_0->Ok_0)),
        event is Polled && event->Polled_0 is Ok && event->Polled_0->Ok_0.status@ == "cancelled"@
            ==> action == WaitAction::Finish(Err(Wan2gpError::Cancelled)),
        event is Polled && event->Polled_0 is Ok && event->Polled_0->Ok_0.status@ == "failed"@
            ==> action is Finish && action->Finish_0 is Err && action->Finish_0->Err_0 is GenerationFailed,
        action is Sleep ==> event is Polled && event->Polled_0 is Ok && action->nanos
            == c.poll_interval_nanos && event->Polled_0->Ok_0.status@ != "complete"@
            && event->Polled_0->Ok_0.status@ != "failed"@ && event->Polled_0->Ok_0.status@
            != "cancelled"@,
        action is Poll ==> event is Tick && event->elapsed_nanos <= c.max_generation_time_nanos,
{
    lemma_status_literals();
    match event {
        WaitEvent::Polled(Ok(s)) => {
            if crate::types::status_is_terminal(s.status@) {
                lemma_wait_outcome_by_status(s, Some(action->Finish_0));
            }
        },
        _ => {},
    }
}

/// A wait ends with `Timeout` only once it has lasted longer than the
/// maximum generation time (a poll that fails with a timeout is reported as
/// another error, see `transport_error`).
pub proof fn lemma_timeout_only_past_limit(c: Wan2gpClientView, event: WaitEvent, action: WaitAction)
    requires
        wait_step_holds(c, event, action),
        action == WaitAction::Finish(Err(Wan2gpError::Timeout)),
        event != WaitEvent::Polled(Err(Wan2gpError::Timeout)),
    ensures
        event matches WaitEvent::Tick { elapsed_nanos } && elapsed_nanos > c.max_generation_time_nanos,
{
}

impl Wan2gpClient {
    /// A client for the default base URL (`http://localhost:7861`).
    pub fn new() -> (c: Self)
        ensures
            c@ == client_for(DEFAULT_BASE_URL@),
    {
        Self::with_base_url(DEFAULT_BASE_URL)
    }

    /// A client for a custom base URL; trailing slashes are dropped.
    pub fn with_base_url(base_url: &str) -> (c: Self)
        ensures
            c@ == client_for(base_url@),
    {
        proof {
            crate::text::lemma_without_trailing(base_url@, '/');
        }
        Wan2gpClient {
            base_url: trim_end_char(base_url, '/'),
            poll_interval_nanos: DEFAULT_POLL_INTERVAL_NANOS,
            max_generation_time_nanos: DEFAULT_MAX_GENERATION_TIME_NANOS,
        }
    }

    /// Set the polling interval for generation tasks.
    pub fn with_poll_interval(self, interval_nanos: u128) -> (c: Self)
        ensures
            c@ == (Wan2gpClientView { poll_interval_nanos: interval_nanos, ..self@ }),
    {
        proof {
            use_type_invariant(&self);
        }
        Wan2gpClient { poll_interval_nanos: interval_nanos, ..self }
    }

    /// Set the maximum time to wait for a generation to complete.
    pub fn with_max_generation_time(self, max_time_nanos: u128) -> (c: Self)
        ensures
            c@ == (Wan2gpClientView { max_generation_time_nanos: max_time_nanos, ..self@ }),
    {
        proof {
            use_type_invariant(&self);
        }
        Wan2gpClient { max_generation_time_nanos: max_time_nanos, ..self }
    }

    /// The base URL, without trailing slashes.
    pub fn base_url(&self) -> (s: &str)
        ensures
            s@ == self@.base_url,
            s@.len() == 0 || s@.last() != '/',
    {
        proof {
            use_type_invariant(self);
        }
        self.base_url.as_str()
    }

    /// The interval between poll requests.
    pub fn poll_interval_nanos(&self) -> (ns: u128)
        ensures
            ns == self@.poll_interval_nanos,
    {
        self.poll_interval_nanos
    }

    /// The longest time to wait for a generation.
    pub fn max_generation_time_nanos(&self) -> (ns: u128)
        ensures
            ns == self@.max_generation_time_nanos,
    {
        self.max_generation_time_nanos
    }

    fn url(&self, path: &str) -> (s: String)
        ensures
            s@ == self@.base_url + (path@),
    {
        let mut s = self.base_url.clone();
        s.append(path);
        s
    }

    fn url_with(&self, path: &str, id: &str, suffix: &str) -> (s: String)
        ensures
            s@ == self@.base_url + (path@ + id@ + suffix@),
    {
        let mut s = self.base_url.clone();
        s.append(path);
        s.append(id);
        s.append(suffix);
        s
    }

    /// `GET` here to learn whether the bridge is online.
    pub fn status_url(&self) -> (s: String)
        ensures
            s@ == self@.base_url + ("/artcraft/api/status"@),
    {
        self.url("/artcraft/api/status")
    }

    /// `GET` here to list the available models.
    pub fn models_url(&self) -> (s: String)
        ensures
            s@ == self@.base_url + ("/artcraft/api/models"@),
    {
        self.url("/artcraft/api/models")
    }

    /// `GET` here for the speed profiles of a model.
    pub fn profiles_url(&self, model_id: &str) -> (s: String)
        ensures
            s@ == self@.base_url + ("/artcraft/api/models/profiles/"@ + model_id@),
    {
        let s = self.url_with("/artcraft/api/models/profiles/", model_id, "");
        proof {
            reveal_strlit("");
            assert("/artcraft/api/models/profiles/"@ + model_id@ + ""@ =~= "/artcraft/api/models/profiles/"@ + model_id@);
        }
        s
    }

    /// `POST` a generation request here.
    pub fn generate_url(&self) -> (s: String)
        ensures
            s@ == self@.base_url + ("/artcraft/api/generate"@),
    {
        self.url("/artcraft/api/generate")
    }

    /// `GET` here for the status of a task.
    pub fn task_url(&self, task_id: &str) -> (s: String)
        ensures
            s@ == self@.base_url + ("/artcraft/api/tasks/"@ + task_id@),
    {
        let s = self.url_with("/artcraft/api/tasks/", task_id, "");
        proof {
            reveal_strlit("");
            assert("/artcraft/api/tasks/"@ + task_id@ + ""@ =~= "/artcraft/api/tasks/"@ + task_id@);
        }
        s
    }

    /// `GET` here for the result file of a completed task.
    pub fn download_url(&self, task_id: &str) -> (s: String)
        ensures
            s@ == self@.base_url + ("/artcraft/api/tasks/"@ + task_id@ + "/download"@),
    {
        self.url_with("/artcraft/api/tasks/", task_id, "/download")
    }

    /// `POST` here to cancel a running or pending task.
    pub fn cancel_url(&self, task_id: &str) -> (s: String)
        ensures
            s@ == self@.base_url + ("/artcraft/api/tasks/"@ + task_id@ + "/cancel"@),
    {
        self.url_with("/artcraft/api/tasks/", task_id, "/cancel")
    }

    /// Whether a wait that has lasted `elapsed_nanos` has run out of time; it
    /// has once it lasts longer than the maximum generation time.
    pub fn timed_out(&self, elapsed_nanos: u128) -> (r: bool)
        ensures
            r == (elapsed_nanos > self@.max_generation_time_nanos),
    {
        elapsed_nanos > self.max_generation_time_nanos
    }

    /// What one poll decides while waiting for a task: a complete task ends
    /// the wait with it, a failed one with its error (or "Unknown error"), a
    /// cancelled one with `Cancelled`; any other keeps the wait going (`None`).
    pub fn wait_outcome(status: TaskStatusResponse) -> (r: Option<
        Result<TaskStatusResponse, Wan2gpError>,
    >)
        ensures
            wait_outcome_holds(status, r),
    {
        if status.is_complete() {
            Some(Ok(status))
        } else if status.is_failed() {
            let message = match status.error {
                Some(e) => e,
                None => String::from_str("Unknown error"),
            };
            Some(Err(Wan2gpError::GenerationFailed(message)))
        } else if status.is_cancelled() {
            Some(Err(Wan2gpError::Cancelled))
        } else {
            None
        }
    }
}

impl Wan2gpClient {
    /// The next step of a wait for a task, given what just happened.
    pub fn wait_step(&self, event: WaitEvent) -> (action: WaitAction)
        ensures
            wait_step_holds(self@, event, action),
    {
        match event {
            WaitEvent::Tick { elapsed_nanos } => {
                if self.timed_out(elapsed_nanos) {
                    WaitAction::Finish(Err(Wan2gpError::Timeout))
                } else {
                    WaitAction::Poll
                }
            },
            WaitEvent::Polled(Err(e)) => WaitAction::Finish(Err(e)),
            WaitEvent::Polled(Ok(s)) => {
                match Self::wait_outcome(s) {
                    Some(r) => WaitAction::Finish(r),
                    None => WaitAction::Sleep { nanos: self.poll_interval_nanos },
                }
            },
        }
    }
}

impl Clone for Wan2gpClient {
    fn clone(&self) -> (c: Self)
        ensures
            c@ == self@,
    {
        proof {
            use_type_invariant(self);
        }
        Wan2gpClient {
            base_url: self.base_url.clone(),
            poll_interval_nanos: self.poll_interval_nanos,
            max_generation_time_nanos: self.max_generation_time_nanos,
        }
    }
}

impl Default for Wan2gpClient {
    fn default() -> (c: Self)
        ensures
            c@ == client_for(DEFAULT_BASE_URL@),
    {
        Self::new()
    }
}

/// Whether the bridge is online, by the answer to a status request: a
/// failed request means it is not.
pub fn bridge_online(result: &Result<crate::types::BridgeStatus, Wan2gpError>) -> (r: bool)
    ensures
        r == (result matches Ok(s) && s.online),
{
    match result {
        Ok(s) => s.online,
        Err(_) => false,
    }
}

/// Whether a reply with this status code counts as success.
pub fn is_success_status(code: u16) -> (r: bool)
    ensures
        r == is_success_code(code),
{
    200 <= code && code <= 299
}

/// Whether a reply to a generation request is accepted: 202 (Accepted) or
/// any success.
pub fn is_generate_accepted(code: u16) -> (r: bool)
    ensures
        r == (code == 202 || is_success_code(code)),
{
    code == 202 || is_success_status(code)
}

/// The error for a reply whose status code does not count as success.
pub fn http_error(status: u16, body: String) -> (e: Wan2gpError)
    ensures
        e == (Wan2gpError::HttpError { status, message: body }),
{
    Wan2gpError::HttpError { status, message: body }
}

} // verus!
