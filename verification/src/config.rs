//! The part of the server configuration that decisions depend on.
use vstd::prelude::*;

verus! {

/// Where the hosts are stored.
pub enum StorageConfig {
    /// In one JSON file.
    Json { path: String, session_expiration_check_interval_ms: u64 },
}

/// How the server presents itself to stream hosts.
pub struct MoonlightConfig {
    /// The port on which a host answers unencrypted requests, unless said otherwise.
    pub default_http_port: u16,
    /// The name under which this device is paired.
    pub pair_device_name: String,
}

/// The configuration of the web server.
pub struct Config {
    pub data_storage: StorageConfig,
    pub moonlight: MoonlightConfig,
}

impl StorageConfig {
    /// The file that the hosts are stored in.
    pub open spec fn spec_path(self) -> Seq<char> {
        match self {
            StorageConfig::Json { path, .. } => path@,
        }
    }

    /// The file that the hosts are stored in.
    pub fn path(&self) -> (r: &str)
        ensures
            r@ == self.spec_path(),
    {
        match self {
            StorageConfig::Json { path, .. } => path.as_str(),
        }
    }
}

/// The hosts are stored where the configuration says.
pub proof fn law_path_is_the_configured_one(config: StorageConfig)
    ensures
        config matches StorageConfig::Json { path, .. } ==> config.spec_path() == path@,
{
}

} // verus!
