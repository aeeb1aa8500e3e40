//! The server's configuration and its defaults.

use vstd::prelude::*;

verus! {

/// Configuration loaded at launch.
#[derive(Debug, Clone)]
pub struct ServerConfig {
    /// TCP port the server listens on.
    pub port: u32,
    /// Base path of the rotating log files.
    pub log_filename: String,
    /// Gitignore-style file listing paths that GET requests may not read.
    pub ignore_filename: String,
    /// SQLite database that stores one seed per day.
    pub daily_seed_cache_db: String,
    /// SQLite database that stores the submitted scores.
    pub highscore_db: String,
    /// Page served with 403 for malicious URIs.
    pub forbidden_filename: String,
    /// Page served with 404 for files that do not exist.
    pub not_found_filename: String,
    /// Page served with 401 for files in the ignore list.
    pub unauthorized_filename: String,
    /// Largest request body accepted, in bytes.
    pub request_max_payload_size: usize,
    /// Largest number of leaderboard rows one request may ask for.
    pub maximum_row_query: i32,
    /// How long a leaderboard read may wait for the database, in milliseconds.
    pub database_read_timeout_ms: u64,
}

impl ServerConfig {
    /// The configuration used when no config file can be read.
    pub fn default_config() -> (config: Self)
        ensures
            config.port == 3000,
            config.log_filename@ == "logs/server.log"@,
            config.ignore_filename@ == ".ignore"@,
            config.daily_seed_cache_db@ == "seed_cache"@,
            config.highscore_db@ == "highscores"@,
            config.forbidden_filename@ == "forbidden.html"@,
            config.not_found_filename@ == "not_found.html"@,
            config.unauthorized_filename@ == "unauthorized.html"@,
            config.request_max_payload_size == 4096,
            config.maximum_row_query == 100,
            config.database_read_timeout_ms == 1000,
    {
        ServerConfig {
            port: 3000,
            log_filename: "logs/server.log".to_string(),
            ignore_filename: ".ignore".to_string(),
            daily_seed_cache_db: "seed_cache".to_string(),
            highscore_db: "highscores".to_string(),
            forbidden_filename: "forbidden.html".to_string(),
            not_found_filename: "not_found.html".to_string(),
            unauthorized_filename: "unauthorized.html".to_string(),
            request_max_payload_size: 4096,
            maximum_row_query: 100,
            database_read_timeout_ms: 1000,
        }
    }
}

} // verus!
