//! The preview server's decision logic: validating the optional `size`
//! query parameter, choosing between 404, streaming the stored bytes, and
//! resizing on the fly.
//!
//! Routing, streaming and the store read happen outside the library.

use crate::image_resize::probe_of;
use crate::image_resize::resize_fast;
use crate::image_resize::target_height;
use crate::image_resize::target_width;
use crate::image_resize::ImageKind;
use crate::image_resize::ImgProbe;
use crate::image_resize::ImgResizeError;
use crate::obj_storage_client::StoredData;
use vstd::prelude::*;

verus! {

/// The exclusive cap on a requested preview size: the configured stored
/// edge. A request at or above it is served from storage unresized.
pub const IMG_MAX_SIZE: u32 = 400;

/// A decimal digit.
pub open spec fn is_digit(c: char) -> bool {
    '0' <= c <= '9'
}

/// The value of a decimal digit.
pub open spec fn digit_val(c: char) -> int {
    c as int - '0' as int
}

/// A non-empty string of decimal digits.
pub open spec fn is_decimal(s: Seq<char>) -> bool {
    s.len() > 0 && forall|i: int| 0 <= i < s.len() ==> is_digit(#[trigger] s[i])
}

/// The number a digit string denotes.
pub open spec fn decimal_value(s: Seq<char>) -> int
    decreases s.len(),
{
    if s.len() == 0 {
        0
    } else {
        decimal_value(s.drop_last()) * 10 + digit_val(s.last())
    }
}

proof fn lemma_decimal_nonneg(s: Seq<char>)
    requires
        forall|i: int| 0 <= i < s.len() ==> is_digit(#[trigger] s[i]),
    ensures
        decimal_value(s) >= 0,
    decreases s.len(),
{
    if s.len() > 0 {
        lemma_decimal_nonneg(s.drop_last());
    }
}

proof fn lemma_decimal_prefix_le(s: Seq<char>, i: int)
    requires
        0 <= i <= s.len(),
        forall|j: int| 0 <= j < s.len() ==> is_digit(#[trigger] s[j]),
    ensures
        decimal_value(s.subrange(0, i)) <= decimal_value(s),
    decreases s.len() - i,
{
    if i < s.len() {
        lemma_decimal_prefix_le(s, i + 1);
        let shorter = s.subrange(0, i);
        let longer = s.subrange(0, i + 1);
        assert(longer.drop_last() =~= shorter);
        lemma_decimal_nonneg(shorter);
    } else {
        assert(s.subrange(0, i) =~= s);
    }
}

/// Parses a non-empty all-digit string into a `u32`; anything else — an
/// empty string, a non-digit character, a value above `u32::MAX` — is
/// rejected.
fn parse_u32(s: &str) -> (r: Option<u32>)
    ensures
        (is_decimal(s@) && decimal_value(s@) <= u32::MAX) ==> r == Some(decimal_value(s@) as u32),
        !(is_decimal(s@) && decimal_value(s@) <= u32::MAX) ==> r is None,
{
    let n = s.unicode_len();
    if n == 0 {
        return None;
    }
    let mut acc: u64 = 0;
    let mut i: usize = 0;
    while i < n
        invariant
            0 <= i <= n,
            n == s@.len(),
            forall|j: int| 0 <= j < i ==> is_digit(#[trigger] s@[j]),
            acc == decimal_value(s@.subrange(0, i as int)),
            acc <= u32::MAX,
        decreases n - i,
    {
        let c = s.get_char(i);
        if c < '0' || c > '9' {
            return None;
        }
        let d: u64 = (c as u32 as u64) - ('0' as u32 as u64);
        proof {
            let prefix = s@.subrange(0, i as int);
            let next = s@.subrange(0, i + 1 as int);
            assert(next.drop_last() =~= prefix);
            assert(d == digit_val(s@[i as int]));
        }
        acc = acc * 10 + d;
        i = i + 1;
        if acc > (u32::MAX as u64) {
            proof {
                if is_decimal(s@) {
                    lemma_decimal_prefix_le(s@, i as int);
                }
            }
            return None;
        }
    }
    proof {
        assert(s@.subrange(0, n as int) =~= s@);
    }
    Some(acc as u32)
}

/// The accepted value of a raw `size` parameter: present, all digits, and
/// strictly between zero and the cap; anything else counts as absent.
pub open spec fn accepted_size(raw: Option<Seq<char>>, cap: u32) -> Option<u32> {
    match raw {
        None => None,
        Some(s) => if is_decimal(s) && 0 < decimal_value(s) < cap {
            Some(decimal_value(s) as u32)
        } else {
            None
        },
    }
}

/// Validates the optional `size` query parameter against
/// [`IMG_MAX_SIZE`]: an absent, malformed, zero or too-large value is
/// treated as absent.
pub fn parse_size_param(raw: Option<&str>) -> (r: Option<u32>)
    ensures
        r == accepted_size(
            match raw {
                Some(s) => Some(s@),
                None => None,
            },
            IMG_MAX_SIZE,
        ),
{
    match raw {
        None => None,
        Some(s) => {
            proof {
                if is_decimal(s@) {
                    lemma_decimal_nonneg(s@);
                }
            }
            match parse_u32(s) {
                Some(v) => {
                    if 0 < v && v < IMG_MAX_SIZE {
                        Some(v)
                    } else {
                        None
                    }
                },
                None => None,
            }
        },
    }
}

/// How a preview request is served.
#[derive(Debug, Clone, Copy, PartialEq, Eq, Structural)]
pub enum PreviewDecision {
    /// No stored object: 404 with an empty body.
    NotFound,
    /// Stream the stored bytes unchanged, under the stored content type.
    StreamStored,
    /// Buffer the stored bytes and resize them to the accepted size.
    ResizeStored { size: u32 },
}

/// Chooses how to serve a preview request: 404 when the object is absent,
/// a plain stream when no valid size was requested, an on-the-fly resize
/// otherwise.
pub fn preview_decision(found: bool, size: Option<u32>) -> (r: PreviewDecision)
    ensures
        !found ==> r == PreviewDecision::NotFound,
        (found && size is None) ==> r == PreviewDecision::StreamStored,
        match size {
            Some(s) => found ==> r == (PreviewDecision::ResizeStored { size: s }),
            None => true,
        },
{
    if !found {
        PreviewDecision::NotFound
    } else {
        match size {
            None => PreviewDecision::StreamStored,
            Some(size) => PreviewDecision::ResizeStored { size },
        }
    }
}

/// Resizes a stored preview for serving. The content type is echoed
/// unchanged. A source already within the requested size is served as
/// stored when it is WebP; a normalization failure yields `None`, which the
/// server answers with a 500.
pub fn render_resized(stored: StoredData, size: u32) -> (r: Option<StoredData>)
    requires
        size >= 1,
    ensures
        r matches Some(out) ==> out.mime@ == stored.mime@,
        probe_of(stored.bytes@) is None ==> r is None,
        probe_of(stored.bytes@) matches Some(p) ==> ({
            let small = p.width < size && p.height < size;
            let tw = target_width(p.width as int, p.height as int, size as int);
            let th = target_height(p.width as int, p.height as int, size as int);
            &&& (small && p.kind is WebP) ==> (r matches Some(out) && out.bytes@ == stored.bytes@)
            &&& (small && p.kind is Other) ==> (r matches Some(out) ==> probe_of(out.bytes@)
                == Some((ImgProbe { kind: ImageKind::WebP, width: p.width, height: p.height })))
            &&& !small ==> (r matches Some(out) ==> (probe_of(out.bytes@) matches Some(q)
                && q.kind is WebP && q.width == tw && q.height == th))
        }),
{
    match resize_fast(&stored.bytes, size) {
        Ok(resized) => Some(StoredData { bytes: resized, mime: stored.mime }),
        Err(e) => {
            if e == ImgResizeError::NoResizeNeeded {
                Some(stored)
            } else {
                None
            }
        },
    }
}

} // verus!
