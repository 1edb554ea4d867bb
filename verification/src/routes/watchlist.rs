//! The requests that switch on watchlist notifications for a user and opt
//! out of the Plex streaming providers.
use vstd::prelude::*;
use crate::models::PlexContext;
use crate::text::concat;
use crate::text::owned;
use super::{Method, RouteError};

verus! {

/// A request the proxy sends to plex.tv.
#[derive(Debug)]
pub struct WatchlistRequest {
    pub method: Method,
    pub url: String,
    pub headers: Vec<(String, String)>,
    pub body: Option<String>,
}

pub type RequestView = (Method, Seq<char>, Seq<(Seq<char>, Seq<char>)>, Option<Seq<char>>);

pub open spec fn request_view(r: WatchlistRequest) -> RequestView {
    (
        r.method,
        r.url@,
        r.headers@.map_values(|h: (String, String)| (h.0@, h.1@)),
        match r.body {
            Some(b) => Some(b@),
            None => None,
        },
    )
}

/// Where switching on notifications stands.
#[derive(Debug)]
pub enum WatchlistStep {
    /// The user is being fetched.
    AwaitUser,
    /// Notifications are being switched on for the user with this uuid.
    AwaitNotifications(String),
    /// The user with this uuid is opting out of this many providers so far.
    AwaitOptOut(String, usize),
    /// Nothing more is sent.
    Done,
}

/// Switching on watchlist notifications for the user of a request.
#[derive(Debug)]
pub struct WatchlistForce {
    pub token: String,
    pub client_id: String,
    pub step: WatchlistStep,
}

/// The base of the plex.tv client api.
pub open spec fn client_base() -> Seq<char> {
    "https://clients.plex.tv"@
}

/// The body that switches on notifications of new library items.
pub open spec fn notification_body() -> Seq<char> {
    "{\"enabled\": true,\"libraries\": [],\"identifier\": \"tv.plex.notification.library.new\"}"@
}

/// The providers a user opts out of, in order.
pub open spec fn opt_out_keys() -> Seq<Seq<char>> {
    seq!["tv.plex.provider.vod"@, "tv.plex.provider.music"@]
}

/// The headers that name the user to plex.tv.
pub open spec fn user_headers(token: Seq<char>, client_id: Seq<char>) -> Seq<(Seq<char>, Seq<char>)> {
    seq![("Accept"@, "application/json"@), ("X-Plex-Token"@, token), ("X-Plex-Client-Identifier"@, client_id)]
}

/// The request that fetches the user.
pub open spec fn user_request(token: Seq<char>, client_id: Seq<char>) -> RequestView {
    (Method::Get, client_base() + "/api/v2/user"@, user_headers(token, client_id), None)
}

/// The request that switches on notifications.
pub open spec fn notification_request(token: Seq<char>) -> RequestView {
    (
        Method::Post,
        "https://notifications.plex.tv/api/v1/notifications/settings?X-Plex-Token="@ + token,
        seq![("Content-Type"@, "application/json"@)],
        Some(notification_body()),
    )
}

/// The request that opts the user out of the provider at place `k`.
pub open spec fn opt_out_request(token: Seq<char>, client_id: Seq<char>, uuid: Seq<char>, k: int) -> RequestView {
    (
        Method::Post,
        client_base() + "/api/v2/user/"@ + uuid + "/settings/opt_outs"@ + "?key="@ + opt_out_keys()[k] + "&value=opt_out"@,
        user_headers(token, client_id),
        None,
    )
}

fn headers_of(token: &String, client_id: &String) -> (r: Vec<(String, String)>)
    ensures
        r@.map_values(|h: (String, String)| (h.0@, h.1@)) == user_headers(token@, client_id@),
{
    let mut h: Vec<(String, String)> = Vec::new();
    h.push((owned("Accept"), owned("application/json")));
    h.push((owned("X-Plex-Token"), token.clone()));
    h.push((owned("X-Plex-Client-Identifier"), client_id.clone()));
    assert(h@.map_values(|h: (String, String)| (h.0@, h.1@)) =~= user_headers(token@, client_id@));
    h
}

fn opt_out(token: &String, client_id: &String, uuid: &String, k: usize) -> (r: WatchlistRequest)
    requires
        k < 2,
    ensures
        request_view(r) == opt_out_request(token@, client_id@, uuid@, k as int),
{
    let key = if k == 0 {
        owned("tv.plex.provider.vod")
    } else {
        owned("tv.plex.provider.music")
    };
    let u = concat("https://clients.plex.tv/api/v2/user/", uuid.as_str());
    let u = concat(u.as_str(), "/settings/opt_outs");
    let u = concat(u.as_str(), "?key=");
    let u = concat(u.as_str(), key.as_str());
    let u = concat(u.as_str(), "&value=opt_out");
    proof {
        reveal_strlit("https://clients.plex.tv/api/v2/user/");
        reveal_strlit("https://clients.plex.tv");
        reveal_strlit("/api/v2/user/");
        assert("https://clients.plex.tv/api/v2/user/"@ =~= client_base() + "/api/v2/user/"@);
    }
    WatchlistRequest { method: Method::Post, url: u, headers: headers_of(token, client_id), body: None }
}

impl WatchlistForce {
    /// Starts for a request with a token by fetching its user; a request
    /// without token starts nothing. Fails when the client names no
    /// identifier.
    pub fn start(context: &PlexContext) -> (r: Result<Option<(WatchlistForce, WatchlistRequest)>, RouteError>)
        ensures
            match r {
                Err(e) => context.token is Some && context.client_identifier is None && e == RouteError::MissingParam,
                Ok(None) => context.token is None,
                Ok(Some((w, req))) => context.token is Some && context.client_identifier is Some && w.token
                    == context.token->0 && w.client_id == context.client_identifier->0 && w.step is AwaitUser
                    && request_view(req) == user_request(w.token@, w.client_id@),
            },
    {
        let token = match &context.token {
            Some(t) => t.clone(),
            None => return Ok(None),
        };
        let client_id = match &context.client_identifier {
            Some(c) => c.clone(),
            None => return Err(RouteError::MissingParam),
        };
        let url = owned("https://clients.plex.tv/api/v2/user");
        proof {
            reveal_strlit("https://clients.plex.tv/api/v2/user");
            reveal_strlit("https://clients.plex.tv");
            reveal_strlit("/api/v2/user");
            assert("https://clients.plex.tv/api/v2/user"@ =~= client_base() + "/api/v2/user"@);
        }
        let req = WatchlistRequest { method: Method::Get, url, headers: headers_of(&token, &client_id), body: None };
        Ok(Some((WatchlistForce { token, client_id, step: WatchlistStep::AwaitUser }, req)))
    }

    /// The user was fetched: when Plex answered with success, notifications
    /// are switched on for the user with `uuid`; else nothing more is sent.
    pub fn on_user(self, success: bool, uuid: String) -> (r: (WatchlistForce, Option<WatchlistRequest>))
        requires
            self.step is AwaitUser,
        ensures
            r.0.token == self.token && r.0.client_id == self.client_id,
            !success ==> r.0.step is Done && r.1 is None,
            success ==> r.0.step == WatchlistStep::AwaitNotifications(uuid) && r.1 is Some && request_view(r.1->0)
                == notification_request(self.token@),
    {
        let mut w = self;
        if !success {
            w.step = WatchlistStep::Done;
            return (w, None);
        }
        let url = concat("https://notifications.plex.tv/api/v1/notifications/settings?X-Plex-Token=", w.token.as_str());
        let mut h: Vec<(String, String)> = Vec::new();
        h.push((owned("Content-Type"), owned("application/json")));
        assert(h@.map_values(|h: (String, String)| (h.0@, h.1@)) =~= seq![("Content-Type"@, "application/json"@)]);
        let body = owned("{\"enabled\": true,\"libraries\": [],\"identifier\": \"tv.plex.notification.library.new\"}");
        let req = WatchlistRequest { method: Method::Post, url, headers: h, body: Some(body) };
        w.step = WatchlistStep::AwaitNotifications(uuid);
        (w, Some(req))
    }

    /// The last request was answered, whatever its status: the user opts
    /// out of the providers one by one, then nothing more is sent.
    pub fn on_response(self) -> (r: (WatchlistForce, Option<WatchlistRequest>))
        ensures
            r.0.token == self.token && r.0.client_id == self.client_id,
            match self.step {
                WatchlistStep::AwaitNotifications(uuid) => r.0.step == WatchlistStep::AwaitOptOut(uuid, 0) && r.1 is Some
                    && request_view(r.1->0) == opt_out_request(self.token@, self.client_id@, uuid@, 0),
                WatchlistStep::AwaitOptOut(uuid, k) => if k + 1 < 2 {
                    r.0.step == WatchlistStep::AwaitOptOut(uuid, (k + 1) as usize) && r.1 is Some && request_view(r.1->0)
                        == opt_out_request(self.token@, self.client_id@, uuid@, k + 1)
                } else {
                    r.0.step is Done && r.1 is None
                },
                _ => r.0.step is Done && r.1 is None,
            },
    {
        let mut w = self;
        let mut step = WatchlistStep::Done;
        std::mem::swap(&mut step, &mut w.step);
        match step {
            WatchlistStep::AwaitNotifications(uuid) => {
                let req = opt_out(&w.token, &w.client_id, &uuid, 0);
                w.step = WatchlistStep::AwaitOptOut(uuid, 0);
                (w, Some(req))
            },
            WatchlistStep::AwaitOptOut(uuid, k) => {
                if k < 1 {
                    let req = opt_out(&w.token, &w.client_id, &uuid, k + 1);
                    w.step = WatchlistStep::AwaitOptOut(uuid, k + 1);
                    (w, Some(req))
                } else {
                    w.step = WatchlistStep::Done;
                    (w, None)
                }
            },
            _ => {
                w.step = WatchlistStep::Done;
                (w, None)
            },
        }
    }
}

} // verus!
