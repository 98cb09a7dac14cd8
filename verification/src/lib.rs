//! Asset-ingestion and preview-serving library for a content-addressed media
//! store.
//!
//! The library holds the decision logic of the service: classifying fetched
//! content, deriving storage keys, normalizing images to size-capped WebP
//! previews, batching per-URL results, and choosing how a stored preview is
//! served. The surrounding process (HTTP transport, the object store, the
//! coordinator RPCs) hands these functions plain values and carries out the
//! actions they decide on.

pub mod asset_processing;
pub mod configs;
pub mod das_client;
pub mod download;
pub mod http_endpoints;
pub mod image_resize;
pub mod media_type;
pub mod obj_storage_client;
pub mod string_util;
