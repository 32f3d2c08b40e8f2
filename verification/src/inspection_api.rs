//! The addresses of the remote inspection service and the meaning of its
//! replies.

use vstd::prelude::*;
use crate::text::opt_text;
use crate::codes::{has_ascending_keys, keys_ascend, pair_texts};
use crate::error::InspectionError;
use crate::pipeline::{is_success, status_is_success};
use crate::text::{owned, push_signed, push_text, signed_decimal};

verus! {

/// One page of a listing.
#[derive(Debug, Clone, PartialEq, Eq)]
pub struct PaginatedResponse<T> {
    pub items: Vec<T>,
    pub total_count: i32,
    pub page: i32,
    pub page_size: i32,
    pub total_pages: i32,
}

/// What is sent to open an execution.
#[derive(Debug, Clone, PartialEq, Eq)]
pub struct CreateExecutionRequest {
    pub target_id: String,
    pub operator_id: Option<String>,
    pub qr_code: Option<String>,
    /// Open-ended entries, ordered by key.
    pub metadata: Option<Vec<(String, String)>>,
}

/// What is sent to record a judgment.
#[derive(Debug, Clone, PartialEq, Eq)]
pub struct SaveResultRequest {
    pub execution_id: String,
    pub item_execution_id: String,
    pub judgment: String,
    pub comment: Option<String>,
    pub evidence_file_ids: Option<Vec<String>>,
    /// Open-ended entries, ordered by key.
    pub metrics: Option<Vec<(String, String)>>,
}

impl CreateExecutionRequest {
    /// The entries of the metadata, where there are any, are ordered by
    /// key and no key occurs twice.
    pub open spec fn wf(&self) -> bool {
        match self.metadata {
            Some(entries) => keys_ascend(pair_texts(entries@)),
            None => true,
        }
    }

    /// Whether the metadata is ordered by key without a key twice.
    pub fn is_wf(&self) -> (ok: bool)
        ensures
            ok == self.wf(),
    {
        match &self.metadata {
            Some(entries) => has_ascending_keys(entries),
            None => true,
        }
    }
}

impl SaveResultRequest {
    /// The entries of the metrics, where there are any, are ordered by key
    /// and no key occurs twice.
    pub open spec fn wf(&self) -> bool {
        match self.metrics {
            Some(entries) => keys_ascend(pair_texts(entries@)),
            None => true,
        }
    }

    /// Whether the metrics are ordered by key without a key twice.
    pub fn is_wf(&self) -> (ok: bool)
        ensures
            ok == self.wf(),
    {
        match &self.metrics {
            Some(entries) => has_ascending_keys(entries),
            None => true,
        }
    }
}

/// Where the inspection service is reached and with which token.
#[derive(Debug, Clone, PartialEq, Eq)]
pub struct InspectionApiClient {
    base_url: String,
    auth_token: Option<String>,
}

/// The query that selects a page and a search term of the target listing.
pub open spec fn targets_query(page: Option<i32>, search: Option<Seq<char>>) -> Seq<char> {
    match (page, search) {
        (None, None) => Seq::empty(),
        (Some(p), None) => "?page="@ + signed_decimal(p as int),
        (None, Some(s)) => "?search="@ + s,
        (Some(p), Some(s)) => "?page="@ + signed_decimal(p as int) + "&search="@ + s,
    }
}

/// What a reply of the service means: the decoded body where the status is
/// a success, else `PipelineUnavailable`. `status` is `None` where no reply
/// came, `body` where the body could not be decoded.
pub fn reply_result<T>(status: Option<u16>, body: Option<T>) -> (r: Result<T, InspectionError>)
    ensures
        match (status, body) {
            (Some(code), Some(value)) if is_success(code) => r == Ok::<T, InspectionError>(value),
            _ => r == Err::<T, InspectionError>(InspectionError::PipelineUnavailable),
        },
{
    match (status, body) {
        (Some(code), Some(value)) => {
            if status_is_success(code) {
                Ok(value)
            } else {
                Err(InspectionError::PipelineUnavailable)
            }
        },
        _ => Err(InspectionError::PipelineUnavailable),
    }
}

impl InspectionApiClient {
    /// The address of the service.
    pub closed spec fn base(&self) -> Seq<char> {
        self.base_url@
    }

    /// The token sent with every request, if one is set.
    pub closed spec fn token(&self) -> Option<Seq<char>> {
        match self.auth_token {
            Some(t) => Some(t@),
            None => None,
        }
    }

    /// A client without a token.
    pub fn new(base_url: String) -> (client: Self)
        ensures
            client.base() == base_url@,
            client.token() is None,
    {
        InspectionApiClient { base_url, auth_token: None }
    }

    /// Sets the token sent with every request from now on.
    pub fn set_auth_token(&mut self, token: String)
        ensures
            final(self).token() == Some(token@),
            final(self).base() == old(self).base(),
    {
        self.auth_token = Some(token);
    }

    /// The value of the `Authorization` header: `Bearer` and the token,
    /// where one is set.
    pub fn authorization(&self) -> (header: Option<String>)
        ensures
            match header {
                Some(h) => self.token() is Some && h@ == "Bearer "@ + self.token()->0,
                None => self.token() is None,
            },
    {
        match &self.auth_token {
            Some(token) => {
                let mut h = owned("Bearer ");
                push_text(&mut h, token.as_str());
                Some(h)
            },
            None => None,
        }
    }

    fn url(&self, path: &str) -> (u: String)
        ensures
            u@ == self.base() + path@,
    {
        let mut u = self.base_url.clone();
        push_text(&mut u, path);
        u
    }

    /// Where the targets are listed, a page at a time and filtered by a
    /// search term where these are given. The term is written as it is.
    pub fn targets_url(&self, page: Option<i32>, search: &Option<String>) -> (u: String)
        ensures
            u@ == self.base() + "/api/v1/inspection/targets"@ + targets_query(
                page,
                opt_text(*search),
            ),
    {
        let mut u = self.url("/api/v1/inspection/targets");
        let ghost start = u@;
        let mut first = true;
        if let Some(p) = page {
            push_text(&mut u, "?page=");
            push_signed(&mut u, p as i64);
            first = false;
        }
        if let Some(s) = search {
            if first {
                push_text(&mut u, "?search=");
            } else {
                push_text(&mut u, "&search=");
            }
            push_text(&mut u, s.as_str());
        }
        assert(u@ =~= start + targets_query(page, opt_text(*search)));
        u
    }

    /// Where the items of a target are listed.
    pub fn target_items_url(&self, target_id: &str) -> (u: String)
        ensures
            u@ == self.base() + "/api/v1/inspection/targets/"@ + target_id@ + "/items"@,
    {
        let mut u = self.url("/api/v1/inspection/targets/");
        push_text(&mut u, target_id);
        push_text(&mut u, "/items");
        u
    }

    /// Where an execution is opened.
    pub fn executions_url(&self) -> (u: String)
        ensures
            u@ == self.base() + "/api/v1/inspection/executions"@,
    {
        self.url("/api/v1/inspection/executions")
    }

    /// Where an execution is read.
    pub fn execution_url(&self, execution_id: &str) -> (u: String)
        ensures
            u@ == self.base() + "/api/v1/inspection/executions/"@ + execution_id@,
    {
        let mut u = self.url("/api/v1/inspection/executions/");
        push_text(&mut u, execution_id);
        u
    }

    /// Where the items of an execution are listed.
    pub fn execution_items_url(&self, execution_id: &str) -> (u: String)
        ensures
            u@ == self.base() + "/api/v1/inspection/executions/"@ + execution_id@ + "/items"@,
    {
        let mut u = self.execution_url(execution_id);
        push_text(&mut u, "/items");
        u
    }

    /// Where the image for an item of an execution is posted.
    pub fn execute_item_url(&self, execution_id: &str, item_id: &str) -> (u: String)
        ensures
            u@ == self.base() + "/api/v1/inspection/executions/"@ + execution_id@ + "/items/"@
                + item_id@ + "/execute"@,
    {
        let mut u = self.execution_url(execution_id);
        push_text(&mut u, "/items/");
        push_text(&mut u, item_id);
        push_text(&mut u, "/execute");
        u
    }

    /// Where a judgment is recorded.
    pub fn results_url(&self) -> (u: String)
        ensures
            u@ == self.base() + "/api/v1/inspection/results"@,
    {
        self.url("/api/v1/inspection/results")
    }

    /// Where the judgments of an execution are listed.
    pub fn execution_results_url(&self, execution_id: &str) -> (u: String)
        ensures
            u@ == self.base() + "/api/v1/inspection/results?execution_id="@ + execution_id@,
    {
        let mut u = self.url("/api/v1/inspection/results?execution_id=");
        push_text(&mut u, execution_id);
        u
    }
}

/// The request that opens an execution from the front end: no metadata.
pub fn execution_request(target_id: String, operator_id: Option<String>, qr_code: Option<String>) -> (r:
    CreateExecutionRequest)
    ensures
        r.target_id == target_id,
        r.operator_id == operator_id,
        r.qr_code == qr_code,
        r.metadata is None,
        r.wf(),
{
    CreateExecutionRequest { target_id, operator_id, qr_code, metadata: None }
}

/// The request that records a judgment from the front end, unless the
/// metrics are not ordered by key or hold a key twice.
pub fn result_request(
    execution_id: String,
    item_execution_id: String,
    judgment: String,
    comment: Option<String>,
    evidence_file_ids: Option<Vec<String>>,
    metrics: Option<Vec<(String, String)>>,
) -> (r: Option<SaveResultRequest>)
    ensures
        r is Some <==> (metrics matches Some(entries) ==> keys_ascend(pair_texts(entries@))),
        r matches Some(request) ==> request.wf() && request.execution_id == execution_id
            && request.item_execution_id == item_execution_id && request.judgment == judgment
            && request.comment == comment && request.evidence_file_ids == evidence_file_ids
            && request.metrics == metrics,
{
    let request = SaveResultRequest {
        execution_id,
        item_execution_id,
        judgment,
        comment,
        evidence_file_ids,
        metrics,
    };
    if request.is_wf() {
        Some(request)
    } else {
        None
    }
}

} // verus!
