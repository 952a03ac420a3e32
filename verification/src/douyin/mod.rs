//! Douyin adapter: publish videos, list them and read their statistics
//! through the Douyin Open Platform.
//!
//! Tools: `douyin_get_auth_url`, `douyin_publish_video`,
//! `douyin_get_video_list` and `douyin_get_video_stats`.  The first needs
//! the client key; the others a user access token and open id.

pub mod content;
pub mod oauth;
pub mod tools;

use vstd::prelude::*;
use vstd::string::*;

use crate::douyin::oauth::{auth_url, build_auth_url};
use crate::douyin::tools::{build_tool_definitions, douyin_tool_shapes};
use crate::error::{AdapterError, invalid_params, is_auth_required, is_invalid_params};
use crate::json::{JsonValue, field, get_str, get_u64, keys_of, str_field, str_of, u64_field, value_at};
use crate::text::{chars_of, parse_u64, parse_u64_spec, same_text};
use crate::traits::{AdapterType, AuthRequirement, HealthStatus, ToolDefinition, auth_requirement, is_tool_not_found, str_views, views, is_unknown_tool, lists_tool};

verus! {

/// Douyin API base URL.
pub const DOUYIN_API_BASE: &'static str = "https://open.douyin.com";

/// Response from Douyin OAuth token endpoints.
#[derive(Debug)]
pub struct DouyinTokenResponse {
    pub access_token: String,
    pub open_id: String,
    pub refresh_token: String,
    pub expires_in: u64,
    pub refresh_expires_in: u64,
    pub scope: String,
}

/// Generic Douyin API reply.
#[derive(Debug)]
pub struct DouyinApiResponse<T> {
    pub data: Option<T>,
    pub message: String,
}

/// A cached client token and the time (seconds past the epoch) it expires.
#[derive(Debug)]
pub struct CachedToken {
    pub token: String,
    pub expires_at: u64,
}

/// Douyin Open Platform adapter.
#[derive(Debug)]
pub struct DouyinAdapter {
    pub id: String,
    pub connected: bool,
    pub client_key: Option<String>,
    pub client_secret: Option<String>,
    /// Pre-configured user OAuth2 access token.
    pub access_token: Option<String>,
    pub open_id: Option<String>,
    /// Machine-level client token.
    pub client_token: Option<CachedToken>,
    pub api_base: String,
}

/// A checked Douyin call.
#[derive(Debug)]
pub enum DouyinRequest {
    /// Answered at once: `{auth_url}`.
    AuthUrl { auth_url: String },
    /// Upload the file, then publish it with the caption.
    Publish { token: String, open_id: String, file_path: String, caption: String },
    /// List the user's videos.
    VideoList { token: String, open_id: String, url: String },
    /// Read one video's statistics.
    VideoStats { token: String, open_id: String, url: String, body: JsonValue },
}

/// The scopes the authorization URL asks for.
pub open spec fn auth_scopes() -> Seq<Seq<char>> {
    seq!["video.create"@, "video.list"@, "video.data.bind"@]
}

/// The reason given for a missing field.
pub open spec fn douyin_missing_reason(field: Seq<char>) -> Seq<char> {
    "missing required field `"@ + field + "`"@
}

fn missing(field: &str) -> (r: String)
    ensures
        r@ == douyin_missing_reason(field@),
{
    let mut r = String::from_str("missing required field `");
    r.append(field);
    r.append("`");
    r
}

/// The `count` parameter text, `10` when absent.
pub open spec fn count_text(params: JsonValue) -> Seq<char> {
    match str_field(params, "count"@) {
        Some(c) => c,
        None => "10"@,
    }
}

/// What a Douyin call gives: the checks in order, then the request.
pub open spec fn douyin_plan_outcome(a: DouyinAdapter, name: Seq<char>, params: JsonValue, r: Result<DouyinRequest, AdapterError>) -> bool {
    if name == "douyin_get_auth_url"@ {
        match a.client_key {
            None => r matches Err(e) && is_auth_required(e, a.id@, "douyin"@),
            Some(k) => match str_field(params, "redirect_uri"@) {
                None => r matches Err(e) && is_invalid_params(e, name, douyin_missing_reason("redirect_uri"@)),
                Some(uri) => r matches Ok(DouyinRequest::AuthUrl { auth_url: u }) && u@ == auth_url(k@, uri, auth_scopes()),
            },
        }
    } else if name == "douyin_publish_video"@ || name == "douyin_get_video_list"@ || name == "douyin_get_video_stats"@ {
        match (a.access_token, a.open_id) {
            (Some(t), Some(o)) => if name == "douyin_publish_video"@ {
                match (str_field(params, "file_path"@), str_field(params, "caption"@)) {
                    (None, _) => r matches Err(e) && is_invalid_params(e, name, douyin_missing_reason("file_path"@)),
                    (Some(_), None) => r matches Err(e) && is_invalid_params(e, name, douyin_missing_reason("caption"@)),
                    (Some(f), Some(c)) => r matches Ok(DouyinRequest::Publish { token, open_id, file_path, caption }) && token@
                        == t@ && open_id@ == o@ && file_path@ == f && caption@ == c,
                }
            } else if name == "douyin_get_video_list"@ {
                match parse_u64_spec(count_text(params)) {
                    Some(n) => if n <= u32::MAX {
                        r matches Ok(DouyinRequest::VideoList { token, open_id, url }) && token@ == t@ && open_id@ == o@
                            && url@ == a.api_base@ + "/api/douyin/v1/video/list/?open_id="@ + o@ + "&count="@
                            + crate::text::decimal(n as nat)
                    } else {
                        r matches Err(e) && is_invalid_params(e, name, "invalid count value: '"@ + count_text(params) + "'"@)
                    },
                    None => r matches Err(e) && is_invalid_params(e, name, "invalid count value: '"@ + count_text(params) + "'"@),
                }
            } else {
                match str_field(params, "item_id"@) {
                    None => r matches Err(e) && is_invalid_params(e, name, douyin_missing_reason("item_id"@)),
                    Some(item) => r matches Ok(DouyinRequest::VideoStats { token, open_id, url, body }) && token@ == t@
                        && open_id@ == o@ && url@ == a.api_base@ + "/api/douyin/v1/data/video/base/"@ + "?open_id="@
                        + o@ && keys_of(body) == seq!["item_ids"@] && (value_at(body, 0) matches JsonValue::Array(ids)
                        && ids@.len() == 1 && str_of(ids@[0]) == Some(item)),
                }
            },
            _ => r matches Err(e) && is_auth_required(e, a.id@, "douyin"@),
        }
    } else {
        r matches Err(e) && is_tool_not_found(e, a.id@, name)
    }
}

/// The lifetime a client-token reply gives its token: `data.expires_in`,
/// 86400 when absent.
pub open spec fn client_token_lifetime(resp: JsonValue) -> u64 {
    match field(resp, "data"@) {
        Some(d) => match u64_field(d, "expires_in"@) {
            Some(n) => n,
            None => 86400,
        },
        None => 0,
    }
}

/// The token a client-token cache gives at `now`: its token while it
/// expires more than five minutes later.
pub open spec fn client_cache_read(cache: Option<CachedToken>, now: u64) -> Option<Seq<char>> {
    match cache {
        Some(c) => if c.expires_at > now + 300 {
            Some(c.token@)
        } else {
            None
        },
        None => None,
    }
}

/// A client token read back after it was stored: once `store_client_token`
/// has cached the token of a reply received at `stored_at`, the cache gives
/// that token at any time more than five minutes before its expiry, and
/// nothing from then on.
pub proof fn law_client_token_after_store(a: DouyinAdapter, token: Seq<char>, stored_at: u64, lifetime: u64, later: u64)
    requires
        a.client_token matches Some(c) && c.token@ == token && c.expires_at == stored_at + lifetime,
    ensures
        client_cache_read(a.client_token, later) == if stored_at + lifetime > later + 300 {
            Some(token)
        } else {
            None
        },
{
}

/// The four tool names differ in length, so no two of them are equal.
proof fn lemma_tool_names()
    ensures
        "douyin_get_auth_url"@.len() == 19,
        "douyin_publish_video"@.len() == 20,
        "douyin_get_video_list"@.len() == 21,
        "douyin_get_video_stats"@.len() == 22,
{
    reveal_strlit("douyin_get_auth_url");
    reveal_strlit("douyin_publish_video");
    reveal_strlit("douyin_get_video_list");
    reveal_strlit("douyin_get_video_stats");
}

/// The authorization URL names the client, the three scopes and the redirect
/// given: with a client key `k`, `douyin_get_auth_url` with a string
/// `redirect_uri` answers
/// `https://open.douyin.com/platform/oauth/connect/?client_key=<k>&response_type=code&scope=video.create,video.list,video.data.bind&redirect_uri=<redirect_uri>`.
pub proof fn law_authorization_url(a: DouyinAdapter, params: JsonValue, r: Result<DouyinRequest, AdapterError>, redirect: Seq<char>)
    requires
        a.client_key is Some,
        str_field(params, "redirect_uri"@) == Some(redirect),
        douyin_plan_outcome(a, "douyin_get_auth_url"@, params, r),
    ensures
        r matches Ok(DouyinRequest::AuthUrl { auth_url: u }) && u@
            == "https://open.douyin.com/platform/oauth/connect/?client_key="@ + a.client_key->0@
            + "&response_type=code&scope=video.create,video.list,video.data.bind&redirect_uri="@ + redirect,
{
    reveal_strlit("https://open.douyin.com/platform/oauth/connect/?client_key=");
    reveal_strlit("&response_type=code&scope=");
    reveal_strlit("video.create");
    reveal_strlit("video.list");
    reveal_strlit("video.data.bind");
    reveal_strlit("&redirect_uri=");
    reveal_strlit("&response_type=code&scope=video.create,video.list,video.data.bind&redirect_uri=");
    let sc = auth_scopes();
    assert(sc.drop_last().drop_last() =~= seq!["video.create"@]);
    assert(sc.drop_last() =~= seq!["video.create"@, "video.list"@]);
    reveal_strlit("video.create,video.list,video.data.bind");
    assert(crate::text::join(sc.drop_last().drop_last(), seq![',']) == "video.create"@);
    assert(crate::text::join(sc.drop_last(), seq![',']) == "video.create"@ + seq![','] + "video.list"@);
    assert(crate::text::join(sc, seq![',']) == "video.create"@ + seq![','] + "video.list"@ + seq![',']
        + "video.data.bind"@);
    assert(crate::text::join(sc, seq![',']) =~= "video.create,video.list,video.data.bind"@);
    assert("&response_type=code&scope="@ + crate::text::join(sc, seq![',']) + "&redirect_uri="@
        =~= "&response_type=code&scope=video.create,video.list,video.data.bind&redirect_uri="@);
}

/// Publishing carries the file and caption given: with an access token and
/// an open id, `douyin_publish_video` with string `file_path` and `caption`
/// asks to upload that file and publish it with that caption, for that user.
pub proof fn law_publish_carries_file_and_caption(a: DouyinAdapter, params: JsonValue, r: Result<DouyinRequest, AdapterError>, file: Seq<char>, text: Seq<char>)
    requires
        a.access_token is Some,
        a.open_id is Some,
        str_field(params, "file_path"@) == Some(file),
        str_field(params, "caption"@) == Some(text),
        douyin_plan_outcome(a, "douyin_publish_video"@, params, r),
    ensures
        r matches Ok(DouyinRequest::Publish { token, open_id, file_path, caption }) && token@ == a.access_token->0@
            && open_id@ == a.open_id->0@ && file_path@ == file && caption@ == text,
{
    lemma_tool_names();
}

/// Listing videos asks for the count given: with an access token and an open
/// id, `douyin_get_video_list` whose `count` parameter (the text `10` when
/// absent) reads as a number `n` of at most 32 bits is a listing at
/// `<api_base>/api/douyin/v1/video/list/?open_id=<open_id>&count=<n>`; any
/// other count is refused.
pub proof fn law_video_list_count(a: DouyinAdapter, params: JsonValue, r: Result<DouyinRequest, AdapterError>)
    requires
        a.access_token is Some,
        a.open_id is Some,
        douyin_plan_outcome(a, "douyin_get_video_list"@, params, r),
    ensures
        ({
            let count = match str_field(params, "count"@) {
                Some(c) => c,
                None => "10"@,
            };
            &&& forall|n: u64| parse_u64_spec(count) == Some(n) && n <= u32::MAX ==> (r matches Ok(
                DouyinRequest::VideoList { url, .. },
            ) && url@ == a.api_base@ + "/api/douyin/v1/video/list/?open_id="@ + a.open_id->0@ + "&count="@
                + crate::text::decimal(n as nat))
            &&& !(parse_u64_spec(count) matches Some(n) && n <= u32::MAX) ==> (r matches Err(e) && is_invalid_params(
                e,
                "douyin_get_video_list"@,
                "invalid count value: '"@ + count + "'"@,
            ))
        }),
{
    lemma_tool_names();
}

/// Reading statistics asks for the video given: with an access token and an
/// open id, `douyin_get_video_stats` with a string `item_id` is a request to
/// `<api_base>/api/douyin/v1/data/video/base/?open_id=<open_id>` whose body is
/// `{"item_ids": [<item_id>]}`.
pub proof fn law_video_stats_item(a: DouyinAdapter, params: JsonValue, r: Result<DouyinRequest, AdapterError>, item: Seq<char>)
    requires
        a.access_token is Some,
        a.open_id is Some,
        str_field(params, "item_id"@) == Some(item),
        douyin_plan_outcome(a, "douyin_get_video_stats"@, params, r),
    ensures
        r matches Ok(DouyinRequest::VideoStats { url, body, .. }) && url@ == a.api_base@
            + "/api/douyin/v1/data/video/base/?open_id="@ + a.open_id->0@ && keys_of(body) == seq!["item_ids"@] && (
        value_at(body, 0) matches JsonValue::Array(ids) && ids@.len() == 1 && str_of(ids@[0]) == Some(item)),
{
    lemma_tool_names();
    reveal_strlit("/api/douyin/v1/data/video/base/");
    reveal_strlit("?open_id=");
    reveal_strlit("/api/douyin/v1/data/video/base/?open_id=");
    assert("/api/douyin/v1/data/video/base/"@ + "?open_id="@ =~= "/api/douyin/v1/data/video/base/?open_id="@);
}

/// The tools the adapter lists are exactly those it executes: whatever its state, a
/// call is answered "tool not found" exactly when `tools` does not list its
/// name.
pub proof fn law_listed_tools_are_executed(a: DouyinAdapter, ts: Seq<ToolDefinition>, name: Seq<char>, params: JsonValue, r: Result<DouyinRequest, AdapterError>)
    requires
        douyin_tool_shapes(ts),
        douyin_plan_outcome(a, name, params, r),
    ensures
        is_unknown_tool(r) <==> !lists_tool(ts, name),
{
    if name == "douyin_get_auth_url"@ {
        assert(ts[0].name@ == name);
    } else if name == "douyin_publish_video"@ {
        assert(ts[1].name@ == name);
    } else if name == "douyin_get_video_list"@ {
        assert(ts[2].name@ == name);
    } else if name == "douyin_get_video_stats"@ {
        assert(ts[3].name@ == name);
    }
}

impl DouyinAdapter {
    /// A new, disconnected adapter with the given settings (read from
    /// `DOUYIN_CLIENT_KEY`, `DOUYIN_CLIENT_SECRET`, `DOUYIN_ACCESS_TOKEN` and
    /// `DOUYIN_OPEN_ID`).
    pub fn with_settings(id: &str, client_key: Option<String>, client_secret: Option<String>, access_token: Option<String>, open_id: Option<String>) -> (r: Self)
        ensures
            r.id@ == id@,
            !r.connected,
            r.client_key == client_key,
            r.client_secret == client_secret,
            r.access_token == access_token,
            r.open_id == open_id,
            r.client_token is None,
            r.api_base@ == DOUYIN_API_BASE@,
    {
        DouyinAdapter {
            id: String::from_str(id),
            connected: false,
            client_key,
            client_secret,
            access_token,
            open_id,
            client_token: None,
            api_base: String::from_str(DOUYIN_API_BASE),
        }
    }

    /// The adapter's id.
    pub fn id(&self) -> (r: &str)
        ensures
            r@ == self.id@,
    {
        self.id.as_str()
    }

    /// The adapter's category.
    pub fn adapter_type(&self) -> (r: AdapterType)
        ensures
            r == AdapterType::Messaging,
    {
        AdapterType::Messaging
    }

    /// The settings the adapter needs.
    pub fn required_auth(&self) -> (r: Option<AuthRequirement>)
        ensures
            r matches Some(a) && a.provider@ == "douyin"@ && views(a.scopes@) == seq![
                "DOUYIN_CLIENT_KEY"@,
                "DOUYIN_CLIENT_SECRET"@,
            ],
    {
        Some(auth_requirement("douyin", &["DOUYIN_CLIENT_KEY", "DOUYIN_CLIENT_SECRET"]))
    }

    /// The four Douyin tools.
    pub fn tools(&self) -> (r: Vec<ToolDefinition>)
        ensures
            douyin_tool_shapes(r@),
    {
        build_tool_definitions()
    }

    /// The user token and open id, or `AuthRequired` when either is missing.
    pub fn user_token(&self) -> (r: Result<(String, String), AdapterError>)
        ensures
            match (self.access_token, self.open_id) {
                (Some(t), Some(o)) => r matches Ok(p) && p.0@ == t@ && p.1@ == o@,
                _ => r matches Err(e) && is_auth_required(e, self.id@, "douyin"@),
            },
    {
        match (&self.access_token, &self.open_id) {
            (Some(t), Some(o)) => Ok((t.clone(), o.clone())),
            _ => Err(crate::error::auth_required(self.id.as_str(), "douyin")),
        }
    }

    /// The cached client token, when it is still valid at `now` for more
    /// than five minutes.
    pub fn cached_client_token(&self, now: u64) -> (r: Option<String>)
        ensures
            match r {
                Some(t) => client_cache_read(self.client_token, now) == Some(t@),
                None => client_cache_read(self.client_token, now) is None,
            },
    {
        match &self.client_token {
            Some(c) => if c.expires_at > now && c.expires_at - now > 300 {
                Some(c.token.clone())
            } else {
                None
            },
            None => None,
        }
    }

    /// The client-token request (URL and body), or `AuthRequired` without
    /// the client key and secret.
    pub fn client_token_request(&self) -> (r: Result<(String, JsonValue), AdapterError>)
        ensures
            match (self.client_key, self.client_secret) {
                (Some(k), Some(s)) => r matches Ok(q) && q.0@ == self.api_base@ + "/oauth/client_token/"@ && keys_of(q.1)
                    == seq!["client_key"@, "client_secret"@, "grant_type"@] && str_of(value_at(q.1, 0)) == Some(k@)
                    && str_of(value_at(q.1, 1)) == Some(s@) && str_of(value_at(q.1, 2)) == Some("client_credential"@),
                _ => r matches Err(e) && is_auth_required(e, self.id@, "douyin"@),
            },
    {
        match (&self.client_key, &self.client_secret) {
            (Some(k), Some(s)) => {
                let mut url = self.api_base.clone();
                url.append("/oauth/client_token/");
                let mut es: Vec<(String, JsonValue)> = Vec::new();
                es.push((String::from_str("client_key"), JsonValue::Str(k.clone())));
                es.push((String::from_str("client_secret"), JsonValue::Str(s.clone())));
                es.push((String::from_str("grant_type"), JsonValue::from_str_value("client_credential")));
                let j = JsonValue::Object(es);
                assert(keys_of(j) =~= seq!["client_key"@, "client_secret"@, "grant_type"@]);
                Ok((url, j))
            },
            _ => Err(crate::error::auth_required(self.id.as_str(), "douyin")),
        }
    }

    /// Reads a client-token reply received at `now` and caches the token:
    /// `data.access_token`, valid for `data.expires_in` seconds (86400 when
    /// absent).
    pub fn store_client_token(&mut self, resp: &JsonValue, now: u64) -> (r: Result<String, AdapterError>)
        requires
            now + client_token_lifetime(*resp) <= u64::MAX,
        ensures
            final(self).id == old(self).id,
            final(self).connected == old(self).connected,
            final(self).client_key == old(self).client_key,
            final(self).client_secret == old(self).client_secret,
            final(self).access_token == old(self).access_token,
            final(self).open_id == old(self).open_id,
            final(self).api_base == old(self).api_base,
            match field(*resp, "data"@) {
                None => r matches Err(AdapterError::Internal(m)) && m@ == "Douyin client_token: missing 'data' field"@,
                Some(d) => match str_field(d, "access_token"@) {
                    None => r matches Err(AdapterError::Internal(m)) && m@ == "Douyin client_token: missing access_token"@,
                    Some(t) => {
                        let expires_in = match u64_field(d, "expires_in"@) {
                            Some(n) => n,
                            None => 86400,
                        };
                        (r matches Ok(x) && x@ == t) && (final(self).client_token matches Some(c) && c.token@ == t
                            && c.expires_at == now + expires_in)
                    },
                },
            },
    {
        let data = match resp.get("data") {
            Some(d) => d,
            None => {
                return Err(AdapterError::Internal(String::from_str("Douyin client_token: missing 'data' field")));
            },
        };
        let token = match get_str(data, "access_token") {
            Some(t) => t,
            None => {
                return Err(AdapterError::Internal(String::from_str("Douyin client_token: missing access_token")));
            },
        };
        let expires_in: u64 = match get_u64(data, "expires_in") {
            Some(n) => n,
            None => 86400,
        };
        self.client_token = Some(CachedToken { token: token.clone(), expires_at: now + expires_in });
        Ok(token)
    }

    /// Completes a connection.  Without the client key and secret the
    /// adapter stays as it was; a configured user token connects it, and so
    /// does a client token (`client_token_ok`).
    pub fn complete_connect(&mut self, client_token_ok: bool) -> (r: Result<(), AdapterError>)
        ensures
            r is Ok,
            final(self).connected == if old(self).client_key is None || old(self).client_secret is None {
                old(self).connected
            } else {
                old(self).connected || old(self).access_token is Some || client_token_ok
            },
            final(self).id == old(self).id,
            final(self).client_key == old(self).client_key,
            final(self).client_secret == old(self).client_secret,
            final(self).access_token == old(self).access_token,
            final(self).open_id == old(self).open_id,
            final(self).client_token == old(self).client_token,
            final(self).api_base == old(self).api_base,
    {
        if self.client_key.is_none() || self.client_secret.is_none() {
            return Ok(());
        }
        if self.access_token.is_some() || client_token_ok {
            self.connected = true;
        }
        Ok(())
    }

    /// Disconnects.
    pub fn disconnect(&mut self) -> (r: Result<(), AdapterError>)
        ensures
            r is Ok,
            !final(self).connected,
            final(self).id == old(self).id,
            final(self).client_key == old(self).client_key,
            final(self).client_secret == old(self).client_secret,
            final(self).access_token == old(self).access_token,
            final(self).open_id == old(self).open_id,
            final(self).client_token == old(self).client_token,
            final(self).api_base == old(self).api_base,
    {
        self.connected = false;
        Ok(())
    }

    /// Unhealthy when disconnected; healthy when a client token can be had,
    /// degraded otherwise.
    pub fn health_from(&self, client_token_ok: bool) -> (r: HealthStatus)
        ensures
            r == if !self.connected {
                HealthStatus::Unhealthy
            } else if client_token_ok {
                HealthStatus::Healthy
            } else {
                HealthStatus::Degraded
            },
    {
        if !self.connected {
            HealthStatus::Unhealthy
        } else if client_token_ok {
            HealthStatus::Healthy
        } else {
            HealthStatus::Degraded
        }
    }

    /// Checks a call and turns it into a request.
    #[verifier::rlimit(50)]
    pub fn plan_tool(&self, name: &str, params: &JsonValue) -> (r: Result<DouyinRequest, AdapterError>)
        ensures
            douyin_plan_outcome(*self, name@, *params, r),
    {
        proof {
            reveal_strlit("douyin_get_auth_url");
            reveal_strlit("douyin_publish_video");
            reveal_strlit("douyin_get_video_list");
            reveal_strlit("douyin_get_video_stats");
            assert("douyin_get_auth_url"@.len() == 19 && "douyin_publish_video"@.len() == 20);
            assert("douyin_get_video_list"@.len() == 21 && "douyin_get_video_stats"@.len() == 22);
        }
        if same_text(name, "douyin_get_auth_url") {
            let key = match &self.client_key {
                Some(k) => k,
                None => {
                    return Err(crate::error::auth_required(self.id.as_str(), "douyin"));
                },
            };
            let uri = match get_str(params, "redirect_uri") {
                Some(u) => u,
                None => {
                    return Err(invalid_params(name, missing("redirect_uri")));
                },
            };
            let scopes: [&str; 3] = ["video.create", "video.list", "video.data.bind"];
            assert(str_views(scopes@) =~= auth_scopes());
            let url = build_auth_url(key.as_str(), uri.as_str(), &scopes);
            return Ok(DouyinRequest::AuthUrl { auth_url: url });
        }
        let is_publish = same_text(name, "douyin_publish_video");
        let is_list = same_text(name, "douyin_get_video_list");
        let is_stats = same_text(name, "douyin_get_video_stats");
        if !(is_publish || is_list || is_stats) {
            return Err(crate::traits::tool_not_found(self.id.as_str(), name));
        }
        let (token, open_id) = match self.user_token() {
            Ok(p) => p,
            Err(e) => {
                return Err(e);
            },
        };
        if is_publish {
            let file_path = match get_str(params, "file_path") {
                Some(f) => f,
                None => {
                    return Err(invalid_params(name, missing("file_path")));
                },
            };
            let caption = match get_str(params, "caption") {
                Some(c) => c,
                None => {
                    return Err(invalid_params(name, missing("caption")));
                },
            };
            return Ok(DouyinRequest::Publish { token, open_id, file_path, caption });
        }
        if is_list {
            let count_text = match get_str(params, "count") {
                Some(c) => c,
                None => String::from_str("10"),
            };
            let cv = chars_of(count_text.as_str());
            let n = match parse_u64(cv.as_slice()) {
                Some(n) => n,
                None => 0xffff_ffff_ffff_ffffu64,
            };
            if parse_u64(cv.as_slice()).is_none() || n > 0xffff_ffffu64 {
                let mut reason = String::from_str("invalid count value: '");
                reason.append(count_text.as_str());
                reason.append("'");
                return Err(invalid_params(name, reason));
            }
            let mut url = self.api_base.clone();
            url.append("/api/douyin/v1/video/list/?open_id=");
            url.append(open_id.as_str());
            url.append("&count=");
            let c = crate::text::u64_to_decimal(n);
            url.append(c.as_str());
            return Ok(DouyinRequest::VideoList { token, open_id, url });
        }
        let item = match get_str(params, "item_id") {
            Some(i) => i,
            None => {
                return Err(invalid_params(name, missing("item_id")));
            },
        };
        let url = crate::douyin::content::open_id_url(self.api_base.as_str(), "/api/douyin/v1/data/video/base/", open_id.as_str());
        let body = crate::douyin::content::video_stats_body(item.as_str());
        Ok(DouyinRequest::VideoStats { token, open_id, url, body })
    }
}

/// The result of a published video: `{success: true, item_id, video_id}`
/// with the `data.item_id` of the publish reply (empty when absent).
pub fn publish_result(create_reply: &JsonValue, video_id: &str) -> (j: JsonValue)
    ensures
        keys_of(j) == seq!["success"@, "item_id"@, "video_id"@],
        value_at(j, 0) == JsonValue::Bool(true),
        str_of(value_at(j, 1)) == Some(match field(*create_reply, "data"@) {
            Some(d) => match str_field(d, "item_id"@) {
                Some(i) => i,
                None => Seq::empty(),
            },
            None => Seq::empty(),
        }),
        str_of(value_at(j, 2)) == Some(video_id@),
{
    let item = match create_reply.get("data") {
        Some(d) => match get_str(d, "item_id") {
            Some(i) => i,
            None => String::new(),
        },
        None => String::new(),
    };
    let mut es: Vec<(String, JsonValue)> = Vec::new();
    es.push((String::from_str("success"), JsonValue::Bool(true)));
    es.push((String::from_str("item_id"), JsonValue::Str(item)));
    es.push((String::from_str("video_id"), JsonValue::from_str_value(video_id)));
    let j = JsonValue::Object(es);
    assert(keys_of(j) =~= seq!["success"@, "item_id"@, "video_id"@]);
    j
}

/// The result of `douyin_get_auth_url`: `{auth_url}`.
pub fn auth_url_result(url: String) -> (j: JsonValue)
    ensures
        keys_of(j) == seq!["auth_url"@],
        str_of(value_at(j, 0)) == Some(url@),
{
    let mut es: Vec<(String, JsonValue)> = Vec::new();
    es.push((String::from_str("auth_url"), JsonValue::Str(url)));
    let j = JsonValue::Object(es);
    assert(keys_of(j) =~= seq!["auth_url"@]);
    j
}

} // verus!
