//! Per-URL processing results and their rendering into the coordinator's
//! wire shapes.
//!
//! The transport of the two coordinator calls lives outside the library; the
//! closed result taxonomy, and the collapse of the in-process error set onto
//! the smaller wire enum, are verified here.

use crate::download::DlError;
use vstd::prelude::*;

verus! {

/// Processing result of one asset URL.
pub struct UrlDlResult {
    /// Asset URL that has been processed.
    pub url: String,
    /// Either a successful store or a classified failure.
    pub outcome: DlOutcome,
}

/// Outcome of downloading and processing one URL.
#[derive(Debug, Clone, PartialEq, Eq)]
pub enum DlOutcome {
    Success { mime: String, size: u32 },
    Fail { err: DlError },
}

impl DlOutcome {
    /// A stored preview: the source MIME text and the applied edge bound.
    pub fn success(mime: &str, size: u32) -> (r: DlOutcome)
        ensures
            r matches DlOutcome::Success { mime: m, size: s } && m@ == mime@ && s == size,
    {
        DlOutcome::Success { mime: mime.to_owned(), size }
    }

    /// The fetched asset is not an image; carries its MIME text.
    pub fn unsupported_format(mime: &str) -> (r: DlOutcome)
        ensures
            r matches DlOutcome::Fail { err } && err matches DlError::UnsupportedFormat(t) && t@
                == mime@,
    {
        DlOutcome::Fail { err: DlError::UnsupportedFormat(mime.to_owned()) }
    }

    /// The fetched bytes did not survive normalization.
    pub fn corrupted_asset(message: String) -> (r: DlOutcome)
        ensures
            r == (DlOutcome::Fail { err: DlError::CorruptedAsset(message) }),
    {
        DlOutcome::Fail { err: DlError::CorruptedAsset(message) }
    }
}

impl From<DlError> for DlOutcome {
    fn from(value: DlError) -> (r: DlOutcome) {
        DlOutcome::Fail { err: value }
    }
}

impl vstd::std_specs::convert::FromSpecImpl<DlError> for DlOutcome {
    open spec fn obeys_from_spec() -> bool {
        true
    }

    open spec fn from_spec(v: DlError) -> DlOutcome {
        DlOutcome::Fail { err: v }
    }
}

/// The coordinator's wire-side error enum: a closed set smaller than
/// [`DlError`], so several in-process errors collapse onto one wire value.
#[derive(Debug, Clone, Copy, PartialEq, Eq, Structural)]
pub enum DownloadError {
    TooLarge,
    NotFound,
    ServerError,
    NotSupportedFormat,
}

/// Wire shape of a successful download report.
#[derive(Debug, Clone, PartialEq, Eq)]
pub struct DownloadSuccess {
    pub mime: String,
    pub size: u32,
}

/// Wire shape of one URL's result.
#[derive(Debug, Clone, PartialEq, Eq)]
pub enum DlResult {
    Success(DownloadSuccess),
    Fail(DownloadError),
}

/// Wire shape of one entry of a result batch.
#[derive(Debug, Clone, PartialEq, Eq)]
pub struct UrlDownloadDetails {
    pub url: String,
    pub dl_result: Option<DlResult>,
}

/// The collapse of the in-process error set onto the wire enum. Retryable
/// conditions (5xx, rate limiting) travel as `ServerError`; unusable content
/// (wrong format, undecodable bytes) as `NotSupportedFormat`.
pub open spec fn wire_error_of(e: DlError) -> DownloadError {
    match e {
        DlError::FileTooLarge(_) => DownloadError::TooLarge,
        DlError::DownloadFailed => DownloadError::NotFound,
        DlError::NotFound => DownloadError::NotFound,
        DlError::TooManyRequests => DownloadError::ServerError,
        DlError::ServerError => DownloadError::ServerError,
        DlError::UnsupportedFormat(_) => DownloadError::NotSupportedFormat,
        DlError::CorruptedAsset(_) => DownloadError::NotSupportedFormat,
    }
}

impl From<DlError> for DownloadError {
    fn from(value: DlError) -> (r: DownloadError) {
        match value {
            DlError::FileTooLarge(_) => DownloadError::TooLarge,
            DlError::DownloadFailed => DownloadError::NotFound,
            DlError::NotFound => DownloadError::NotFound,
            DlError::TooManyRequests => DownloadError::ServerError,
            DlError::ServerError => DownloadError::ServerError,
            DlError::UnsupportedFormat(_) => DownloadError::NotSupportedFormat,
            DlError::CorruptedAsset(_) => DownloadError::NotSupportedFormat,
        }
    }
}

impl vstd::std_specs::convert::FromSpecImpl<DlError> for DownloadError {
    open spec fn obeys_from_spec() -> bool {
        true
    }

    open spec fn from_spec(v: DlError) -> DownloadError {
        wire_error_of(v)
    }
}

/// The wire rendering of an outcome.
pub open spec fn wire_result_of(o: DlOutcome) -> DlResult {
    match o {
        DlOutcome::Success { mime, size } => DlResult::Success(DownloadSuccess { mime, size }),
        DlOutcome::Fail { err } => DlResult::Fail(wire_error_of(err)),
    }
}

impl From<DlOutcome> for DlResult {
    fn from(value: DlOutcome) -> (r: DlResult) {
        match value {
            DlOutcome::Success { mime, size } => DlResult::Success(DownloadSuccess { mime, size }),
            DlOutcome::Fail { err } => DlResult::Fail(DownloadError::from(err)),
        }
    }
}

impl vstd::std_specs::convert::FromSpecImpl<DlOutcome> for DlResult {
    open spec fn obeys_from_spec() -> bool {
        true
    }

    open spec fn from_spec(v: DlOutcome) -> DlResult {
        wire_result_of(v)
    }
}

/// The wire entry a processed URL becomes.
pub open spec fn detail_of(x: UrlDlResult) -> UrlDownloadDetails {
    UrlDownloadDetails { url: x.url, dl_result: Some(wire_result_of(x.outcome)) }
}

/// Renders a result batch into the coordinator's wire entries, keeping the
/// batch's insertion order.
pub fn to_wire_details(results: Vec<UrlDlResult>) -> (r: Vec<UrlDownloadDetails>)
    ensures
        r@.len() == results@.len(),
        forall|i: int| 0 <= i < r@.len() ==> #[trigger] r@[i] == detail_of(results@[i]),
{
    let ghost all = results@;
    let mut r: Vec<UrlDownloadDetails> = Vec::new();
    let mut rest = results;
    let mut idx: usize = 0;
    while rest.len() > 0
        invariant
            all.len() == r@.len() + rest@.len(),
            rest@ == all.subrange(r@.len() as int, all.len() as int),
            forall|i: int| 0 <= i < r@.len() ==> #[trigger] r@[i] == detail_of(all[i]),
        decreases rest@.len(),
    {
        let x = rest.remove(0);
        let detail = UrlDownloadDetails { url: x.url, dl_result: Some(DlResult::from(x.outcome)) };
        r.push(detail);
        proof {
            assert(rest@ =~= all.subrange(r@.len() as int, all.len() as int));
        }
    }
    r
}

} // verus!
