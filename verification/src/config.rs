//! Configuration of the virtual filesystem and its defaults.

use vstd::prelude::*;
use crate::filter::FilterConfig;

verus! {

/// The whole configuration.
pub struct Config {
    pub backend: BackendConfig,
    pub mount: MountConfig,
    pub encoding: EncodingConfig,
    pub log: Option<LogConfig>,
    pub filter: Option<FilterConfig>,
}

/// Where the original files are.
pub struct BackendConfig {
    pub backend_dir: String,
}

/// Where the filesystem is mounted.
pub struct MountConfig {
    /// Windows: drive letter (e.g. 'X').
    pub drive_letter: Option<char>,
    /// Linux: mount point path (e.g. "/mnt/gbk-vfs").
    pub mount_point: Option<String>,
}

/// Encoding settings.
pub struct EncodingConfig {
    /// Source encoding: "auto" for per-file detection, or an encoding name such as "GBK".
    pub source_encoding: String,
    /// Target encoding: the encoding files appear in when mounted, usually "UTF-8".
    pub target_encoding: String,
    /// Fallback encoding when detection fails (used when the source is "auto").
    pub default_encoding: String,
    /// Kept for backward compatibility; `source_encoding = "auto"` replaces it.
    pub auto_detect: bool,
    /// How many leading bytes of a file are used to detect its encoding.
    pub detect_sample_bytes: usize,
    /// Entry limit of the encoding cache.
    pub cache_max_entries: u64,
    /// Time to live of cached encodings, in seconds.
    pub cache_ttl_seconds: u64,
    /// Filter rules (`[encoding.filter]`).
    pub filter: Option<FilterConfig>,
}

/// Logging settings.
pub struct LogConfig {
    pub level: String,
    pub file: Option<String>,
}

/// "auto"
pub fn default_source_encoding() -> (r: String)
    ensures
        r@ == "auto"@,
{
    String::from_str("auto")
}

/// "UTF-8"
pub fn default_target_encoding() -> (r: String)
    ensures
        r@ == "UTF-8"@,
{
    String::from_str("UTF-8")
}

/// "GBK"
pub fn default_encoding() -> (r: String)
    ensures
        r@ == "GBK"@,
{
    String::from_str("GBK")
}

/// true
pub fn default_true() -> (r: bool)
    ensures
        r,
{
    true
}

/// 8192 bytes
pub fn default_sample_bytes() -> (r: usize)
    ensures
        r == 8192,
{
    8192
}

/// 10000 entries
pub fn default_cache_max_entries() -> (r: u64)
    ensures
        r == 10000,
{
    10000
}

/// 3600 seconds
pub fn default_cache_ttl() -> (r: u64)
    ensures
        r == 3600,
{
    3600
}

/// "info"
pub fn default_log_level() -> (r: String)
    ensures
        r@ == "info"@,
{
    String::from_str("info")
}

/// No log file.
pub fn default_log_file() -> (r: Option<String>)
    ensures
        r is None,
{
    None
}

impl EncodingConfig {
    /// Every field at its default: source "auto", target "UTF-8", fallback "GBK",
    /// detection on, 8192 sample bytes, 10000 cache entries, one hour time to live,
    /// no filter rules.
    pub fn defaults() -> (r: EncodingConfig)
        ensures
            r.source_encoding@ == "auto"@,
            r.target_encoding@ == "UTF-8"@,
            r.default_encoding@ == "GBK"@,
            r.auto_detect,
            r.detect_sample_bytes == 8192,
            r.cache_max_entries == 10000,
            r.cache_ttl_seconds == 3600,
            r.filter is None,
    {
        EncodingConfig {
            source_encoding: default_source_encoding(),
            target_encoding: default_target_encoding(),
            default_encoding: default_encoding(),
            auto_detect: default_true(),
            detect_sample_bytes: default_sample_bytes(),
            cache_max_entries: default_cache_max_entries(),
            cache_ttl_seconds: default_cache_ttl(),
            filter: None,
        }
    }
}

impl Config {
    /// The configuration used when no file is given: backend ".", drive 'X', default
    /// encoding settings, log level "info" to no file, no filter.
    pub fn default_config() -> (r: Config)
        ensures
            r.backend.backend_dir@ == "."@,
            r.mount.drive_letter == Some('X'),
            r.mount.mount_point is None,
            r.encoding.source_encoding@ == "auto"@,
            r.encoding.target_encoding@ == "UTF-8"@,
            r.encoding.default_encoding@ == "GBK"@,
            r.encoding.auto_detect,
            r.encoding.detect_sample_bytes == 8192,
            r.encoding.cache_max_entries == 10000,
            r.encoding.cache_ttl_seconds == 3600,
            r.encoding.filter is None,
            r.log matches Some(l) && l.level@ == "info"@ && l.file is None,
            r.filter is None,
    {
        Config {
            backend: BackendConfig { backend_dir: String::from_str(".") },
            mount: MountConfig { drive_letter: Some('X'), mount_point: None },
            encoding: EncodingConfig::defaults(),
            log: Some(LogConfig { level: default_log_level(), file: default_log_file() }),
            filter: None,
        }
    }
}

} // verus!
