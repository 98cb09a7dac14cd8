//! The ingestion pipeline's decision core: the work items, the bounded-queue
//! capacity, the per-URL processing step of a worker, and the reporter's
//! batching buffer.
//!
//! The loops around these functions — polling the coordinator, receiving
//! from channels, performing store writes and RPCs — run outside the
//! library and only carry out what is decided here.

use crate::configs::AssetProcessorCfg;
use crate::configs::DasCfg;
use crate::das_client::DlOutcome;
use crate::das_client::UrlDlResult;
use crate::download::DlError;
use crate::image_resize::resize_fast;
use crate::image_resize::target_height;
use crate::image_resize::target_width;
use crate::image_resize::ImgProbe;
use crate::image_resize::ImgResizeError;
use crate::image_resize::probe_of;
use crate::image_resize::ImageKind;
use crate::media_type::AssetClass;
use crate::media_type::Mime;
use crate::obj_storage_client::storage_key_of;
use crate::obj_storage_client::key_for_size;
use crate::string_util::keccak256_hash_bs58str;
use vstd::prelude::*;

verus! {

/// How many results the reporter buffers before it flushes a batch.
pub const SEND_BACK_BUFFER_SIZE: usize = 100;

/// A unit of work handed to a worker.
pub enum Task {
    /// Fetch, normalize and store one URL.
    Download { url: String },
    /// Sentinel: the receiving worker exits after its current task.
    Finish,
}

/// A worker's answer: one processed URL.
pub struct TaskResp(pub UrlDlResult);

/// The capacity of the task and result queues: one fetched batch per worker.
/// When the task queue is full the poller blocks, which stops it from
/// pulling further batches; a full result queue blocks workers in turn.
pub fn task_queue_capacity(das_cfg: &DasCfg) -> (q: usize)
    requires
        das_cfg.number_of_workers * das_cfg.fetch_batch_size <= usize::MAX,
    ensures
        q == das_cfg.number_of_workers * das_cfg.fetch_batch_size,
{
    das_cfg.number_of_workers * (das_cfg.fetch_batch_size as usize)
}

/// A write the worker asks the object store to perform.
pub struct StoreOp {
    /// Full object key, `media/` plus the asset identifier.
    pub key: String,
    /// The preview bytes to store.
    pub bytes: Vec<u8>,
    /// The content type recorded with the object: the source MIME text.
    pub content_type: String,
}

/// What one processed URL amounts to: at most one store write, and exactly
/// one result for the coordinator.
pub struct IngestAction {
    pub store: Option<StoreOp>,
    pub result: UrlDlResult,
}

/// The processing step of a worker, after the fetch and before the store
/// write: classifies the fetched value, normalizes the image, and decides
/// what to store and what to report.
///
/// Every write goes to the storage key derived from the URL. A non-image
/// yields `UnsupportedFormat` and no write; a failed fetch echoes its error
/// and writes nothing; a normalization failure yields `CorruptedAsset`. A
/// success stores WebP bytes within the edge bound — or the source bytes
/// untouched when they are already a WebP within the bound — and reports
/// the source MIME text with the configured bound.
pub fn process_fetched(
    url: String,
    fetched: Result<(Vec<u8>, Mime), DlError>,
    asset_cfg: &AssetProcessorCfg,
) -> (act: IngestAction)
    requires
        asset_cfg.resize_to >= 1,
    ensures
        act.result.url@ == url@,
        act.store matches Some(op) ==> (fetched matches Ok(p) && op.key@ == storage_key_of(url@)
            && op.content_type@ == p.1.mime@),
        fetched matches Err(e) ==> (act.store is None && act.result.outcome == (DlOutcome::Fail {
            err: e,
        })),
        fetched matches Ok(p) ==> ({
            let bytes = p.0;
            let mime = p.1;
            &&& !(mime.class is Image) ==> (act.store is None && act.result.outcome == (
            DlOutcome::Fail { err: DlError::UnsupportedFormat(mime.mime) }))
            &&& mime.class is Image ==> ({
                let pr = probe_of(bytes@);
                &&& (act.store is Some) <==> (act.result.outcome matches DlOutcome::Success { .. })
                &&& act.result.outcome matches DlOutcome::Success { mime: m, size: s } ==> (m@
                    == mime.mime@ && s == asset_cfg.resize_to)
                &&& act.store is None ==> (act.result.outcome matches DlOutcome::Fail { err }
                    && err matches DlError::CorruptedAsset(_))
                &&& pr is None ==> (act.store is None && (act.result.outcome matches
                DlOutcome::Fail { err } && err matches DlError::CorruptedAsset(msg) && msg@
                    == "Cannot determine image format"@))
                &&& pr matches Some(p) ==> ({
                    let small = p.width < asset_cfg.resize_to && p.height < asset_cfg.resize_to;
                    let tw = target_width(p.width as int, p.height as int, asset_cfg.resize_to as int);
                    let th = target_height(p.width as int, p.height as int, asset_cfg.resize_to as int);
                    &&& (small && p.kind is WebP) ==> (act.store matches Some(op) && op.bytes@
                        == bytes@)
                    &&& (small && p.kind is Other) ==> (act.store matches Some(op)
                        ==> probe_of(op.bytes@) == Some(
                        (ImgProbe { kind: ImageKind::WebP, width: p.width, height: p.height }),
                    ))
                    &&& !small ==> (act.store matches Some(op) ==> (probe_of(op.bytes@)
                        matches Some(q) && q.kind is WebP && q.width == tw && q.height == th))
                })
            })
        }),
{
    let id = keccak256_hash_bs58str(url.as_str());
    match fetched {
        Err(err) => IngestAction {
            store: None,
            result: UrlDlResult { url, outcome: DlOutcome::Fail { err } },
        },
        Ok((bytes, mime)) => {
            if !(mime.class == AssetClass::Image) {
                IngestAction {
                    store: None,
                    result: UrlDlResult {
                        url,
                        outcome: DlOutcome::Fail { err: DlError::UnsupportedFormat(mime.mime) },
                    },
                }
            } else {
                match resize_fast(&bytes, asset_cfg.resize_to) {
                    Ok(resized) => {
                        let key = key_for_size(id.as_str());
                        IngestAction {
                            store: Some(
                                StoreOp {
                                    key,
                                    bytes: resized,
                                    content_type: mime.mime.clone(),
                                },
                            ),
                            result: UrlDlResult {
                                url,
                                outcome: DlOutcome::Success {
                                    mime: mime.mime,
                                    size: asset_cfg.resize_to,
                                },
                            },
                        }
                    },
                    Err(e) => {
                        if e == ImgResizeError::NoResizeNeeded {
                            let key = key_for_size(id.as_str());
                            IngestAction {
                                store: Some(
                                    StoreOp { key, bytes, content_type: mime.mime.clone() },
                                ),
                                result: UrlDlResult {
                                    url,
                                    outcome: DlOutcome::Success {
                                        mime: mime.mime,
                                        size: asset_cfg.resize_to,
                                    },
                                },
                            }
                        } else {
                            IngestAction {
                                store: None,
                                result: UrlDlResult {
                                    url,
                                    outcome: DlOutcome::Fail {
                                        err: DlError::CorruptedAsset(e.message()),
                                    },
                                },
                            }
                        }
                    },
                }
            }
        },
    }
}

/// The reporter's batching buffer. It holds fewer than
/// [`SEND_BACK_BUFFER_SIZE`] results at all times: the push that reaches the
/// bound hands the whole batch out at once, so no result waits behind more
/// than `SEND_BACK_BUFFER_SIZE - 1` earlier ones.
pub struct ResultsBuffer {
    buffer: Vec<UrlDlResult>,
}

impl View for ResultsBuffer {
    type V = Seq<UrlDlResult>;

    closed spec fn view(&self) -> Seq<UrlDlResult> {
        self.buffer@
    }
}

impl ResultsBuffer {
    /// The buffer stays strictly below the flush size.
    pub open spec fn inv(&self) -> bool {
        self@.len() < SEND_BACK_BUFFER_SIZE
    }

    /// An empty buffer.
    pub fn new() -> (r: ResultsBuffer)
        ensures
            r@ == Seq::<UrlDlResult>::empty(),
            r.inv(),
    {
        ResultsBuffer { buffer: Vec::new() }
    }

    /// Appends one result. When the buffer reaches the flush size, the whole
    /// batch — in insertion order — is returned and the buffer emptied;
    /// otherwise the result is kept and nothing is returned.
    pub fn push(&mut self, result: UrlDlResult) -> (flush: Option<Vec<UrlDlResult>>)
        requires
            old(self).inv(),
        ensures
            final(self).inv(),
            old(self)@.len() + 1 == SEND_BACK_BUFFER_SIZE ==> (flush matches Some(batch) && batch@
                == old(self)@.push(result) && final(self)@ == Seq::<UrlDlResult>::empty()),
            old(self)@.len() + 1 < SEND_BACK_BUFFER_SIZE ==> (flush is None && final(self)@ == old(
                self,
            )@.push(result)),
    {
        self.buffer.push(result);
        if self.buffer.len() >= SEND_BACK_BUFFER_SIZE {
            let mut batch: Vec<UrlDlResult> = Vec::new();
            core::mem::swap(&mut batch, &mut self.buffer);
            Some(batch)
        } else {
            None
        }
    }

    /// The final flush when the result channel closes: whatever is still
    /// buffered, in insertion order, or nothing when the buffer is empty.
    pub fn close(self) -> (rest: Option<Vec<UrlDlResult>>)
        ensures
            self@.len() == 0 ==> rest is None,
            self@.len() > 0 ==> (rest matches Some(batch) && batch@ == self@),
    {
        if self.buffer.is_empty() {
            None
        } else {
            Some(self.buffer)
        }
    }
}

/// The reporter never sits on a full batch: any buffer that satisfies the
/// invariant holds fewer results than the flush size.
pub proof fn lemma_reporter_flush_bound(b: &ResultsBuffer)
    requires
        b.inv(),
    ensures
        b@.len() < SEND_BACK_BUFFER_SIZE,
{
}

} // verus!
