//! Typed application configuration, and the helpers around it: the default
//! configuration file path and the masking of credentials for debug output.
//!
//! Loading (files, environment variables) happens outside the library; the
//! loaded values arrive here as plain data.

use crate::string_util::without_trailing_slashes;
use crate::string_util::StrUtil;
use vstd::prelude::*;

verus! {

/// Preview HTTP server settings.
#[derive(Debug, Clone)]
pub struct HttpServer {
    pub enabled: bool,
    pub port: u16,
}

/// Coordinator (DAS node) settings.
#[derive(Debug, Clone)]
pub struct DasCfg {
    pub enabled: bool,
    pub grpc_address: String,
    pub fetch_batch_size: u32,
    pub number_of_workers: usize,
}

/// Object-store settings. No `Debug` is derived: a rendering of this value
/// must mask the credentials, which the library's [`mask_creds`] does.
#[derive(Clone)]
pub struct ObjStorage {
    pub region: Option<String>,
    pub endpoint: Option<String>,
    pub access_key_id: Option<String>,
    pub secret_access_key: Option<String>,
    pub session_token: Option<String>,
    pub bucket_for_media: String,
}

/// Asset normalization settings: the preview edge bound and the download cap.
#[derive(Debug, Clone)]
pub struct AssetProcessorCfg {
    pub resize_to: u32,
    pub file_max_size_bytes: u64,
}

/// Metrics settings.
#[derive(Debug, Clone)]
pub struct Metrics {
    pub enabled: bool,
}

/// The whole application configuration.
#[derive(Clone)]
pub struct Settings {
    pub http_server: HttpServer,
    pub obj_storage: ObjStorage,
    pub asset_processor: AssetProcessorCfg,
    pub das: DasCfg,
    pub env: String,
    pub metrics: Metrics,
}

/// The path of the default configuration file under `base_path`: trailing
/// slashes are dropped and `/default.toml` appended.
pub fn default_config_file_path(base_path: &str) -> (r: String)
    ensures
        r@ == without_trailing_slashes(base_path@) + "/default.toml"@,
{
    let trimmed = base_path.trim_right_slash();
    let owned: String = trimmed.to_owned();
    owned.concat("/default.toml")
}

/// Masks a credential for debug rendering: the first two characters stay,
/// every later one becomes `*`. The length is preserved.
pub fn mask_creds(s: &str) -> (r: String)
    requires
        s@.len() >= 2,
    ensures
        r@.len() == s@.len(),
        r@.subrange(0, 2) == s@.subrange(0, 2),
        forall|i: int| 2 <= i < r@.len() ==> r@[i] == '*',
{
    let n = s.unicode_len();
    let prefix = s.substring_char(0, 2);
    let mut r: String = prefix.to_owned();
    let mut i: usize = 2;
    proof {
        reveal_strlit("*");
    }
    while i < n
        invariant
            2 <= i <= n,
            n == s@.len(),
            r@.len() == i,
            r@.subrange(0, 2) == s@.subrange(0, 2),
            forall|j: int| 2 <= j < i ==> r@[j] == '*',
            "*"@ == seq!['*'],
        decreases n - i,
    {
        r.append("*");
        proof {
            assert(r@.subrange(0, 2) =~= s@.subrange(0, 2));
        }
        i = i + 1;
    }
    r
}

} // verus!
