//! Names of the Plex headers the proxy reads and writes.
use vstd::prelude::*;

verus! {

pub const PLEX_TOKEN: &'static str = "x-plex-token";

pub const PLEX_LANGUAGE: &'static str = "x-plex-language";

pub const PLEX_PLATFORM: &'static str = "x-plex-platform";

pub const PLEX_CLIENT_IDENTIFIER: &'static str = "x-plex-client-identifier";

pub const PLEX_CLIENT_PROFILE_EXTRA: &'static str = "x-plex-client-profile-extra";

} // verus!
