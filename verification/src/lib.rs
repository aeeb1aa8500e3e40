//! Verified core of the daily-seed highscore server: date text, the daily
//! seed cache, URI classification for static files and the decisions behind
//! the JSON API.

pub mod text;
pub mod date;
pub mod uri;
pub mod config;
pub mod database;
pub mod response;
pub mod api;
pub mod daily_seed;
