//! The server's settings and their defaults.
use vstd::prelude::*;

verus! {

/// The key used where none is configured; meant for development only.
pub const DEV_API_KEY: &'static str = "dev-api-key-change-in-production";

pub struct Config {
    pub server: ServerConfig,
    pub api: ApiConfig,
}

pub struct ServerConfig {
    pub address: String,
    pub port: u16,
    pub workers: usize,
}

pub struct ApiConfig {
    pub api_key: String,
}

impl Default for Config {
    /// Bind every address on port 8080 with four workers, and the development key.
    fn default() -> (r: Config)
        ensures
            r.server.address@ == "0.0.0.0"@,
            r.server.port == 8080,
            r.server.workers == 4,
            r.api.api_key@ == DEV_API_KEY@,
    {
        Config {
            server: ServerConfig {
                address: String::from_str("0.0.0.0"),
                port: 8080,
                workers: 4,
            },
            api: ApiConfig { api_key: String::from_str(DEV_API_KEY) },
        }
    }
}

} // verus!
