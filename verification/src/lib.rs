//! A remixing proxy for Plex: the rules by which hubs, collections and
//! playback requests are rewritten, with their contracts.
pub mod text;
pub mod config;
pub mod models;
pub mod query;
pub mod utils;
pub mod artwork;
pub mod routes;
pub mod plex_client;
pub mod cache;
pub mod headers;
pub mod tmdb;
pub mod webhooks;
pub mod logging;
pub mod timeout;
pub mod middleware;
pub mod fields;
pub mod laws;
pub mod transform;
