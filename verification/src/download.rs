//! Classification of a download attempt: HTTP status mapping, the
//! `Content-Type` reading, and the advertised-size cap.
//!
//! The network fetch itself happens outside the library; it hands in the
//! status code and the relevant headers as plain values and is told, before
//! any body is read, whether to proceed.

use crate::media_type::class_of_mime;
use crate::media_type::is_image_mime;
use crate::media_type::Mime;
use vstd::prelude::*;

verus! {

/// Why a URL could not be turned into a stored preview.
#[derive(Debug, Clone, PartialEq, Eq)]
pub enum DlError {
    /// The server advertised a `Content-Length` above the configured cap.
    FileTooLarge(u64),
    /// Catch-all transport failure, and any status outside the mapped ranges.
    DownloadFailed,
    /// Unreachable host, or an HTTP 4xx other than 429.
    NotFound,
    /// HTTP 429.
    TooManyRequests,
    /// HTTP 5xx; worth retrying later.
    ServerError,
    /// Fetched, but not an image; carries the MIME text.
    UnsupportedFormat(String),
    /// The bytes did not decode or re-encode; carries a description.
    CorruptedAsset(String),
}

/// The error a response status maps to, `None` for a 2xx success.
pub open spec fn status_error(status: u16) -> Option<DlError> {
    if status == 429 {
        Some(DlError::TooManyRequests)
    } else if 400 <= status < 500 {
        Some(DlError::NotFound)
    } else if 500 <= status < 600 {
        Some(DlError::ServerError)
    } else if 200 <= status < 300 {
        None
    } else {
        Some(DlError::DownloadFailed)
    }
}

/// Maps an HTTP response status: 429 to [`DlError::TooManyRequests`], any
/// other 4xx to [`DlError::NotFound`], 5xx to [`DlError::ServerError`], any
/// remaining non-2xx to [`DlError::DownloadFailed`], and 2xx to `None`.
pub fn classify_status(status: u16) -> (r: Option<DlError>)
    ensures
        r == status_error(status),
{
    if status == 429 {
        Some(DlError::TooManyRequests)
    } else if 400 <= status && status < 500 {
        Some(DlError::NotFound)
    } else if 500 <= status && status < 600 {
        Some(DlError::ServerError)
    } else if 200 <= status && status < 300 {
        None
    } else {
        Some(DlError::DownloadFailed)
    }
}

/// The MIME text a response yields: the `Content-Type` header when it is
/// present and readable, the octet-stream default otherwise.
pub open spec fn response_mime_text(content_type: Option<Seq<char>>) -> Seq<char> {
    match content_type {
        Some(t) => t,
        None => "application/octet-stream"@,
    }
}

/// Decides a download from the response envelope, before any body is read.
///
/// `content_type` is the `Content-Type` header when present and UTF-8;
/// `content_length` the advertised body size. A non-2xx status maps as
/// [`classify_status`] says. An advertised length above `file_max_size`
/// yields [`DlError::FileTooLarge`] without the body being consumed. On a
/// 2xx with an acceptable length, the parsed [`Mime`] says whether the body
/// is worth fetching as an image.
pub fn evaluate_response(
    status: u16,
    content_type: Option<&str>,
    content_length: Option<u64>,
    file_max_size: u64,
) -> (r: Result<Mime, DlError>)
    ensures
        status_error(status) matches Some(e) ==> r == Err::<Mime, DlError>(e),
        status_error(status) is None ==> ({
            &&& (match content_length {
                Some(size) => size > file_max_size ==> r == Err::<Mime, DlError>(
                    DlError::FileTooLarge(size),
                ),
                None => true,
            })
            &&& (match content_length {
                Some(size) => size <= file_max_size,
                None => true,
            }) ==> (r matches Ok(m) && m.mime@ == response_mime_text(
                match content_type {
                    Some(t) => Some(t@),
                    None => None,
                },
            ) && m.class == class_of_mime(m.mime@))
        }),
{
    if let Some(err) = classify_status(status) {
        return Err(err);
    }
    if let Some(size) = content_length {
        if size > file_max_size {
            return Err(DlError::FileTooLarge(size));
        }
    }
    let mime = match content_type {
        Some(text) => Mime::from_mime_str(text),
        None => Mime::default(),
    };
    proof {
        if content_type is None {
            reveal_strlit("application/octet-stream");
            let s = "application/octet-stream"@;
            if is_image_mime(s) {
                assert(s.subrange(0, 5)[0] == s[0]);
                assert(false);
            }
        }
    }
    Ok(mime)
}

} // verus!
