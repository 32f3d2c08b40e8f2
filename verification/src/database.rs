//! The records that the durable store keeps, and the rules for filling them.
//!
//! Times are seconds since the Unix epoch. Confidence is held in parts per
//! million and durations in milliseconds.

use vstd::prelude::*;
use crate::codes::QRCodeData;
use crate::session::Status;
use crate::text::{owned, push_decimal, push_text};
use crate::verdict::Verdict;

verus! {

/// The rows returned for the history when no limit is asked for.
pub const DEFAULT_HISTORY_LIMIT: i32 = 50;

/// The most rows ever returned for the history.
pub const MAX_HISTORY_LIMIT: i32 = 100;

/// A registered user.
#[derive(Debug, Clone, PartialEq, Eq)]
pub struct User {
    pub id: i64,
    pub username: String,
    pub email: Option<String>,
    pub full_name: Option<String>,
    pub role: String,
    pub created_at: i64,
}

/// The product and batch that a scanned code named.
#[derive(Debug, Clone, PartialEq, Eq)]
pub struct InspectionTarget {
    pub id: String,
    pub product_id: String,
    pub batch_id: String,
    pub qr_code: String,
    pub created_at: i64,
}

/// A session as the store keeps it.
#[derive(Debug, Clone, PartialEq, Eq)]
pub struct InspectionSession {
    pub id: String,
    pub target_id: String,
    pub user_id: Option<i64>,
    pub status: Status,
    pub started_at: i64,
    pub completed_at: Option<i64>,
}

/// A stored image of a session.
#[derive(Debug, Clone, PartialEq, Eq)]
pub struct InspectionImage {
    pub id: String,
    pub session_id: String,
    pub file_path: String,
    pub image_type: String,
    pub file_size: Option<i64>,
    pub created_at: i64,
}

/// A stored verdict of the pipeline.
#[derive(Debug, Clone, PartialEq, Eq)]
pub struct AIInspectionResult {
    pub id: String,
    pub session_id: String,
    pub pipeline_version: Option<String>,
    pub verdict: Verdict,
    /// The detail payload as JSON text.
    pub detailed_results: Option<String>,
    pub created_at: i64,
}

/// A stored judgment of a human inspector.
#[derive(Debug, Clone, PartialEq, Eq)]
pub struct HumanVerificationResult {
    pub id: String,
    pub session_id: String,
    pub user_id: i64,
    pub final_result: String,
    pub notes: Option<String>,
    pub verification_ms: u64,
    pub created_at: i64,
}

/// The number of history rows to ask the store for: fifty where none is
/// given, never more than a hundred and never fewer than none. A negative
/// limit asks for no row: it must not reach a store that reads a negative
/// limit as no limit at all.
pub open spec fn history_limit_of(limit: Option<i32>) -> int {
    match limit {
        None => DEFAULT_HISTORY_LIMIT as int,
        Some(n) => if n > MAX_HISTORY_LIMIT {
            MAX_HISTORY_LIMIT as int
        } else if n < 0 {
            0
        } else {
            n as int
        },
    }
}

/// The number of history rows to ask the store for.
pub fn history_limit(limit: Option<i32>) -> (n: i32)
    ensures
        n == history_limit_of(limit),
        0 <= n <= MAX_HISTORY_LIMIT,
{
    match limit {
        None => DEFAULT_HISTORY_LIMIT,
        Some(n) => if n > MAX_HISTORY_LIMIT {
            MAX_HISTORY_LIMIT
        } else if n < 0 {
            0
        } else {
            n
        },
    }
}

/// Whether the sessions are ordered from the most recently started one.
pub open spec fn most_recent_first(rows: Seq<InspectionSession>) -> bool {
    forall|i: int, j: int| 0 <= i <= j < rows.len() ==> rows[i].started_at >= rows[j].started_at
}

/// Whether `rows` can be the answer to a history query with `limit`: no
/// more rows than asked for, most recent first.
pub fn is_history_page(rows: &Vec<InspectionSession>, limit: Option<i32>) -> (ok: bool)
    ensures
        ok == (rows.len() <= history_limit_of(limit) && most_recent_first(rows@)),
{
    let n = history_limit(limit);
    if rows.len() > n as usize {
        return false;
    }
    let mut i: usize = 1;
    while i < rows.len()
        invariant
            1 <= i,
            forall|a: int, b: int|
                0 <= a <= b < i && b < rows.len() ==> rows@[a].started_at >= rows@[b].started_at,
        decreases rows.len() - i,
    {
        if rows[i - 1].started_at < rows[i].started_at {
            proof {
                assert(rows@[i as int - 1].started_at < rows@[i as int].started_at);
            }
            return false;
        }
        proof {
            assert forall|a: int, b: int| 0 <= a <= b < i + 1 && b < rows.len() implies rows@[a].started_at
                >= rows@[b].started_at by {
                if b == i && a < i {
                    assert(rows@[a].started_at >= rows@[i as int - 1].started_at);
                }
            }
        }
        i = i + 1;
    }
    true
}

/// The address of the remote service where none is configured.
pub open spec fn default_endpoint() -> Seq<char> {
    "https://api.imageflowcanvas.com"@
}

/// The address of the remote service: the configured one, else the default.
pub fn resolve_endpoint(configured: Option<String>) -> (url: String)
    ensures
        url@ == match configured {
            Some(c) => c@,
            None => default_endpoint(),
        },
{
    match configured {
        Some(c) => c,
        None => owned("https://api.imageflowcanvas.com"),
    }
}

/// The key under which the address of the remote service is configured.
pub fn endpoint_key() -> (key: String)
    ensures
        key@ == "api_endpoint"@,
{
    owned("api_endpoint")
}

/// The target record for a decoded code.
pub fn new_target(id: String, decoded: QRCodeData, qr_code: String, now: i64) -> (t:
    InspectionTarget)
    ensures
        t.id == id,
        t.product_id == decoded.product_id,
        t.batch_id == decoded.batch_id,
        t.qr_code == qr_code,
        t.created_at == now,
{
    InspectionTarget {
        id,
        product_id: decoded.product_id,
        batch_id: decoded.batch_id,
        qr_code,
        created_at: now,
    }
}

/// The path under which the image at `index` of a session is kept.
pub open spec fn image_path_of(session_id: Seq<char>, index: nat) -> Seq<char> {
    "images/"@ + session_id + "_"@ + crate::text::decimal(index) + ".jpg"@
}

/// The path under which the image at `index` of a session is kept.
pub fn image_path(session_id: &str, index: u64) -> (path: String)
    ensures
        path@ == image_path_of(session_id@, index as nat),
{
    let mut path = owned("images/");
    push_text(&mut path, session_id);
    push_text(&mut path, "_");
    push_decimal(&mut path, index);
    push_text(&mut path, ".jpg");
    path
}

/// The size to record for a payload: its length, where that fits.
pub fn recorded_size(len: usize) -> (size: Option<i64>)
    ensures
        size == if len <= i64::MAX {
            Some(len as i64)
        } else {
            None
        },
{
    if len as u64 <= i64::MAX as u64 {
        Some(len as i64)
    } else {
        None
    }
}

/// The record for the captured image at `index` of a session.
pub fn image_record(id: String, session_id: &str, index: u64, payload_len: usize, now: i64) -> (r:
    InspectionImage)
    ensures
        r.id == id,
        r.session_id@ == session_id@,
        r.file_path@ == image_path_of(session_id@, index as nat),
        r.image_type@ == "capture"@,
        r.file_size == if payload_len <= i64::MAX {
            Some(payload_len as i64)
        } else {
            None
        },
        r.created_at == now,
{
    InspectionImage {
        id,
        session_id: owned(session_id),
        file_path: image_path(session_id, index),
        image_type: owned("capture"),
        file_size: recorded_size(payload_len),
        created_at: now,
    }
}

/// Whether `record` is the record for the captured image at `index` of a
/// session, with the given identifier and payload length, made at `now`.
pub open spec fn is_image_record(
    record: InspectionImage,
    id: String,
    session_id: Seq<char>,
    index: nat,
    payload_len: usize,
    now: i64,
) -> bool {
    &&& record.id == id
    &&& record.session_id@ == session_id
    &&& record.file_path@ == image_path_of(session_id, index)
    &&& record.image_type@ == "capture"@
    &&& record.file_size == if payload_len <= i64::MAX {
        Some(payload_len as i64)
    } else {
        None
    }
    &&& record.created_at == now
}

/// The records for all the captured images of a session, to be stored as
/// one unit: `payloads` gives, for each image in order, its identifier and
/// the length of its payload.
pub fn image_records(session_id: &str, payloads: &Vec<(String, usize)>, now: i64) -> (records: Vec<
    InspectionImage,
>)
    ensures
        records.len() == payloads.len(),
        forall|i: int|
            0 <= i < records.len() ==> is_image_record(
                #[trigger] records[i],
                payloads[i].0,
                session_id@,
                i as nat,
                payloads[i].1,
                now,
            ),
{
    let mut records: Vec<InspectionImage> = Vec::new();
    let mut i: usize = 0;
    while i < payloads.len()
        invariant
            i <= payloads.len(),
            records.len() == i,
            forall|k: int|
                0 <= k < i ==> is_image_record(
                    #[trigger] records[k],
                    payloads[k].0,
                    session_id@,
                    k as nat,
                    payloads[k].1,
                    now,
                ),
        decreases payloads.len() - i,
    {
        let record = image_record(payloads[i].0.clone(), session_id, i as u64, payloads[i].1, now);
        records.push(record);
        i = i + 1;
    }
    records
}

/// The record for a human verification: it belongs to the session and the inspector given.
pub fn verification_record(
    id: String,
    session_id: String,
    inspector: i64,
    final_result: String,
    notes: Option<String>,
    verification_ms: u64,
    now: i64,
) -> (r: HumanVerificationResult)
    ensures
        r.id == id,
        r.session_id == session_id,
        r.user_id == inspector,
        r.final_result == final_result,
        r.notes == notes,
        r.verification_ms == verification_ms,
        r.created_at == now,
{
    HumanVerificationResult {
        id,
        session_id,
        user_id: inspector,
        final_result,
        notes,
        verification_ms,
        created_at: now,
    }
}

} // verus!
