//! The payload Plex posts to the webhook.
use vstd::prelude::*;

verus! {

/// An event Plex reports.
#[derive(Clone, Debug, Default)]
pub struct Payload {
    pub event: String,
    pub user: bool,
    pub owner: bool,
    pub account: Account,
    pub server: Server,
    pub player: Player,
    pub metadata: Metadata,
}

/// The account the event is about.
#[derive(Clone, Debug, Default)]
pub struct Account {
    pub id: i64,
    pub thumb: String,
    pub title: String,
}

/// The server that reports.
#[derive(Clone, Debug, Default)]
pub struct Server {
    pub title: String,
    pub uuid: String,
}

/// The player the event happened on.
#[derive(Clone, Debug, Default)]
pub struct Player {
    pub local: bool,
    pub public_address: String,
    pub title: String,
    pub uuid: String,
}

/// The item the event is about.
#[derive(Clone, Debug, Default)]
pub struct Metadata {
    pub library_section_type: String,
    pub rating_key: String,
    pub key: String,
    pub parent_rating_key: String,
    pub grandparent_rating_key: String,
    pub guid: String,
    pub library_section_id: i64,
    pub type_field: String,
    pub title: String,
    pub grandparent_key: String,
    pub parent_key: String,
    pub grandparent_title: Option<String>,
    pub parent_title: Option<String>,
    pub summary: String,
    pub index: i64,
    pub parent_index: i64,
    pub rating_count: i64,
    pub thumb: String,
    pub art: String,
    pub parent_thumb: String,
    pub grandparent_thumb: String,
    pub grandparent_art: String,
    pub added_at: i64,
    pub updated_at: i64,
}

/// Handles a watchlist event: nothing is done with it.
pub fn watchlist(payload: Payload) {
}

} // verus!
