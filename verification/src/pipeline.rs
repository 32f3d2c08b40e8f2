//! The contract with the remote inspection pipeline: where requests go,
//! what a reply means, and what of it is kept.

use vstd::prelude::*;
use crate::database::{AIInspectionResult, InspectionTarget};
use crate::error::InspectionError;
use crate::session::SessionEvent;
use crate::text::push_text;
use crate::verdict::{outcome_of_label, Outcome, Verdict, FULL_CONFIDENCE};

verus! {

/// What is sent to the pipeline for one session.
#[derive(Debug, Clone, PartialEq, Eq)]
pub struct PipelineRequest {
    pub session_id: String,
    /// The images as base64 text.
    pub images: Vec<String>,
    pub product_id: String,
    pub batch_id: String,
}

/// What the pipeline answers.
#[derive(Debug, Clone, PartialEq, Eq)]
pub struct PipelineResponse {
    pub execution_id: String,
    pub session_id: String,
    /// `PASS`, `WARN` or `FAIL`.
    pub overall_result: String,
    /// The confidence in parts per million.
    pub confidence_ppm: u32,
    /// The processing time in milliseconds.
    pub processing_ms: u64,
    /// The detail payload as JSON text.
    pub detailed_results: Option<String>,
    pub pipeline_version: String,
}

/// What the caller is told of a pipeline run.
#[derive(Debug, Clone, PartialEq, Eq)]
pub struct ExecutionSummary {
    pub execution_id: String,
    pub target_id: String,
    pub overall_result: String,
    pub confidence_ppm: u32,
    pub processing_ms: u64,
    pub image_count: usize,
}

/// Where the pipeline is reached and with which key.
#[derive(Debug, Clone, PartialEq, Eq)]
pub struct PipelineClient {
    base_url: String,
    api_key: Option<String>,
}

/// Whether an HTTP status is a success: 200 to 299.
pub open spec fn is_success(status: u16) -> bool {
    200 <= status < 300
}

/// Whether an HTTP status is a success.
pub fn status_is_success(status: u16) -> (b: bool)
    ensures
        b == is_success(status),
{
    200 <= status && status < 300
}

/// The verdict that a response holds: its label must be one of the three
/// results `PASS`, `WARN` and `FAIL`, and its confidence at most 1. A
/// response with another label or a confidence above 1 holds no verdict;
/// it is never stored, and the session is told that the pipeline failed.
pub open spec fn verdict_in(
    label: Seq<char>,
    confidence_ppm: u32,
    processing_ms: u64,
) -> Option<Verdict> {
    match outcome_of_label(label) {
        Some(outcome) if confidence_ppm <= FULL_CONFIDENCE => Some(
            Verdict { outcome, confidence_ppm, processing_ms },
        ),
        _ => None,
    }
}

impl PipelineResponse {
    /// The verdict that this response holds, if it holds a valid one.
    pub open spec fn held_verdict(&self) -> Option<Verdict> {
        verdict_in(self.overall_result@, self.confidence_ppm, self.processing_ms)
    }

    /// The verdict that this response holds, if it holds a valid one.
    pub fn verdict(&self) -> (r: Option<Verdict>)
        ensures
            r == self.held_verdict(),
            r matches Some(v) ==> v.valid(),
    {
        match Outcome::from_label(self.overall_result.as_str()) {
            Some(outcome) => Verdict::new(outcome, self.confidence_ppm, self.processing_ms),
            None => None,
        }
    }
}

/// What a reply to a submission or a status query means. `status` is the
/// HTTP status, or `None` where no reply came (a timeout, a broken
/// connection); `body` is the decoded response, or `None` where the body
/// could not be decoded. Only a success status with a decoded body is a
/// result; everything else is `PipelineUnavailable`.
pub fn submission_result(status: Option<u16>, body: Option<PipelineResponse>) -> (r: Result<
    PipelineResponse,
    InspectionError,
>)
    ensures
        match (status, body) {
            (Some(code), Some(response)) if is_success(code) => r == Ok::<
                PipelineResponse,
                InspectionError,
            >(response),
            _ => r == Err::<PipelineResponse, InspectionError>(
                InspectionError::PipelineUnavailable,
            ),
        },
{
    match (status, body) {
        (Some(code), Some(response)) => {
            if status_is_success(code) {
                Ok(response)
            } else {
                Err(InspectionError::PipelineUnavailable)
            }
        },
        _ => Err(InspectionError::PipelineUnavailable),
    }
}

/// What a reply to a validation means. A status that is no success is
/// `false`, not a failure; so is a body without a truth value under
/// `valid`. `body` is `None` where the body is no JSON, `Some(None)` where
/// it holds no such member. No reply at all and a body that is no JSON are
/// `PipelineUnavailable`.
pub fn validation_result(status: Option<u16>, body: Option<Option<bool>>) -> (r: Result<
    bool,
    InspectionError,
>)
    ensures
        r == match status {
            None => Err::<bool, InspectionError>(InspectionError::PipelineUnavailable),
            Some(code) => if !is_success(code) {
                Ok(false)
            } else {
                match body {
                    None => Err(InspectionError::PipelineUnavailable),
                    Some(None) => Ok(false),
                    Some(Some(valid)) => Ok(valid),
                }
            },
        },
{
    match status {
        None => Err(InspectionError::PipelineUnavailable),
        Some(code) => {
            if !status_is_success(code) {
                Ok(false)
            } else {
                match body {
                    None => Err(InspectionError::PipelineUnavailable),
                    Some(None) => Ok(false),
                    Some(Some(valid)) => Ok(valid),
                }
            }
        },
    }
}

/// What the orchestrator is told of a submission: the verdict where the
/// pipeline answered with a valid one, else that the pipeline failed. An
/// answer whose result is none of `PASS`, `WARN` and `FAIL` counts as a
/// failure of the pipeline, as an answer that never came does.
pub fn event_for(result: &Result<PipelineResponse, InspectionError>) -> (event: SessionEvent)
    ensures
        event == match result {
            Ok(response) => match response.held_verdict() {
                Some(v) => SessionEvent::VerdictReceived(v),
                None => SessionEvent::PipelineFailed,
            },
            Err(_) => SessionEvent::PipelineFailed,
        },
        event matches SessionEvent::VerdictReceived(v) ==> v.valid(),
{
    match result {
        Ok(response) => match response.verdict() {
            Some(v) => SessionEvent::VerdictReceived(v),
            None => SessionEvent::PipelineFailed,
        },
        Err(_) => SessionEvent::PipelineFailed,
    }
}

/// The record kept for a response, where it holds a valid verdict. The
/// confidence of every record made lies between 0 and 1.
pub fn verdict_record(id: String, session_id: String, response: &PipelineResponse, now: i64) -> (r:
    Option<AIInspectionResult>)
    ensures
        r is Some <==> response.held_verdict() is Some,
        r matches Some(record) ==> record.id == id && record.session_id == session_id
            && Some(record.verdict) == response.held_verdict() && record.verdict.valid()
            && record.pipeline_version == Some(response.pipeline_version)
            && record.detailed_results == response.detailed_results && record.created_at == now,
{
    match response.verdict() {
        Some(verdict) => Some(
            AIInspectionResult {
                id,
                session_id,
                pipeline_version: Some(response.pipeline_version.clone()),
                verdict,
                detailed_results: response.detailed_results.clone(),
                created_at: now,
            },
        ),
        None => None,
    }
}

/// The request for a session: product and batch are those of its target.
pub fn build_request(session_id: String, target: &InspectionTarget, images: Vec<String>) -> (r:
    PipelineRequest)
    ensures
        r.session_id == session_id,
        r.images == images,
        r.product_id == target.product_id,
        r.batch_id == target.batch_id,
{
    PipelineRequest {
        session_id,
        images,
        product_id: target.product_id.clone(),
        batch_id: target.batch_id.clone(),
    }
}

/// What the caller is told of a run on `image_count` images.
pub fn summarize(response: PipelineResponse, target_id: String, image_count: usize) -> (s:
    ExecutionSummary)
    ensures
        s.execution_id == response.execution_id,
        s.target_id == target_id,
        s.overall_result == response.overall_result,
        s.confidence_ppm == response.confidence_ppm,
        s.processing_ms == response.processing_ms,
        s.image_count == image_count,
{
    ExecutionSummary {
        execution_id: response.execution_id,
        target_id,
        overall_result: response.overall_result,
        confidence_ppm: response.confidence_ppm,
        processing_ms: response.processing_ms,
        image_count,
    }
}

impl PipelineClient {
    /// The address of the service.
    pub closed spec fn base(&self) -> Seq<char> {
        self.base_url@
    }

    /// The key sent as bearer token, if there is one.
    pub closed spec fn key(&self) -> Option<Seq<char>> {
        match self.api_key {
            Some(k) => Some(k@),
            None => None,
        }
    }

    pub fn new(base_url: String, api_key: Option<String>) -> (client: Self)
        ensures
            client.base() == base_url@,
            client.key() == match api_key {
                Some(k) => Some(k@),
                None => None,
            },
    {
        PipelineClient { base_url, api_key }
    }

    /// The key to send as bearer token, if there is one.
    pub fn bearer(&self) -> (k: &Option<String>)
        ensures
            match *k {
                Some(key) => self.key() == Some(key@),
                None => self.key() is None,
            },
    {
        &self.api_key
    }

    fn url(&self, path: &str) -> (u: String)
        ensures
            u@ == self.base() + path@,
    {
        let mut u = self.base_url.clone();
        push_text(&mut u, path);
        u
    }

    /// Where a submission is posted.
    pub fn execute_url(&self) -> (u: String)
        ensures
            u@ == self.base() + "/api/v1/inspection/execute"@,
    {
        self.url("/api/v1/inspection/execute")
    }

    /// Where the status of an execution is read.
    pub fn status_url(&self, execution_id: &str) -> (u: String)
        ensures
            u@ == self.base() + "/api/v1/inspection/status/"@ + execution_id@,
    {
        let mut u = self.url("/api/v1/inspection/status/");
        push_text(&mut u, execution_id);
        u
    }

    /// Where a product and batch are validated.
    pub fn validate_url(&self) -> (u: String)
        ensures
            u@ == self.base() + "/api/v1/targets/validate"@,
    {
        self.url("/api/v1/targets/validate")
    }
}

} // verus!
