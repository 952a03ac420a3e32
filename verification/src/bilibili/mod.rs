//! Bilibili Open Live Platform adapter: live room information and danmaku.
//!
//! Three tools: `bili_get_live_info`, `bili_send_danmaku` and
//! `bili_get_danmaku_history`.  A call is checked and turned into a
//! [`BiliRequest`]; the body of a signed request is written by the caller
//! and signed by [`api::signed_post`].

pub mod api;
pub mod tools;

use vstd::prelude::*;
use vstd::string::*;

use crate::bilibili::tools::{bili_tool_shapes, build_tool_definitions};
use crate::crypto::time_since_epoch;
use crate::error::{AdapterError, execution_failed, invalid_params, is_auth_required, is_execution_failed, is_invalid_params};
use crate::json::{JsonNumber, JsonValue, get_i64, get_str, get_u64, i64_field, u64_field, keys_of, str_field, str_of, uint, value_at};
use crate::text::{chars_of, parse_u64, parse_u64_spec, same_text, signed_decimal, i64_to_decimal};
use crate::traits::{
    AdapterType, AuthRequirement, HealthStatus, ToolDefinition, auth_requirement, is_tool_not_found,
    tool_not_found, views, is_unknown_tool, lists_tool};

verus! {

/// Basic live room information from the public API.
#[derive(Debug)]
pub struct BiliLiveRoom {
    pub room_id: u64,
    pub uid: u64,
    pub title: String,
    pub live_status: u8,
    pub online: u64,
}

/// A danmaku (bullet comment) entry.
#[derive(Debug)]
pub struct BiliDanmaku {
    pub uid: u64,
    pub uname: String,
    pub msg: String,
    pub timestamp: u64,
}

/// Bilibili Open Live Platform adapter.
#[derive(Debug)]
pub struct BilibiliAdapter {
    pub id: String,
    pub connected: bool,
    pub access_key_id: Option<String>,
    pub access_key_secret: Option<String>,
    pub app_id: Option<String>,
}

/// A checked Bilibili call.
#[derive(Debug)]
pub enum BiliRequest {
    /// An unsigned GET of a public API URL.
    PublicGet { url: String },
    /// A signed POST of a JSON body to an Open Live Platform path.
    SignedPost { path: String, body: JsonValue },
}

/// The reason given for a missing field.
pub open spec fn bili_missing_reason(field: Seq<char>) -> Seq<char> {
    "missing required field `"@ + field + "`"@
}

/// The `app_id` as a number, or 0.
pub open spec fn app_number(app_id: Seq<char>) -> u64 {
    match parse_u64_spec(app_id) {
        Some(n) => n,
        None => 0,
    }
}

/// Whether `b` is the body of a danmaku: the room, the app, and the message
/// in white, size 25, mode 0, stamped `ts`.
pub open spec fn danmaku_body(b: JsonValue, room: u64, app: u64, content: Seq<char>, ts: u64) -> bool {
    &&& keys_of(b) == seq!["room_id"@, "app_id"@, "dm"@]
    &&& value_at(b, 0) == uint(room)
    &&& value_at(b, 1) == uint(app)
    &&& keys_of(value_at(b, 2)) == seq!["color"@, "font_size"@, "mode"@, "msg"@, "timestamp"@, "emoji_unique_id"@]
    &&& value_at(value_at(b, 2), 0) == uint(16777215)
    &&& value_at(value_at(b, 2), 1) == uint(25)
    &&& value_at(value_at(b, 2), 2) == uint(0)
    &&& str_of(value_at(value_at(b, 2), 3)) == Some(content)
    &&& value_at(value_at(b, 2), 4) == uint(ts)
    &&& str_of(value_at(value_at(b, 2), 5)) == Some(Seq::<char>::empty())
}

/// What a Bilibili call gives at time `ts` (seconds past the epoch).
pub open spec fn bili_plan_outcome(a: BilibiliAdapter, name: Seq<char>, params: JsonValue, ts: u64, r: Result<BiliRequest, AdapterError>) -> bool {
    if !(a.access_key_id is Some && a.access_key_secret is Some && a.app_id is Some) {
        r matches Err(e) && is_auth_required(e, a.id@, "bilibili"@)
    } else if name == "bili_get_live_info"@ {
        let room = match str_field(params, "room_id"@) {
            Some(x) => x,
            None => "0"@,
        };
        if room != "0"@ {
            r matches Ok(BiliRequest::PublicGet { url }) && url@ == "https://api.live.bilibili.com/room/v1/Room/get_info?room_id="@
                + room
        } else {
            r matches Ok(BiliRequest::SignedPost { path, body }) && path@ == "/v2/app/start"@ && keys_of(body) == seq![
                "code"@,
            ] && value_at(body, 0) == uint(0)
        }
    } else if name == "bili_send_danmaku"@ {
        match str_field(params, "room_id"@) {
            None => r matches Err(e) && is_invalid_params(e, name, bili_missing_reason("room_id"@)),
            Some(room) => match str_field(params, "content"@) {
                None => r matches Err(e) && is_invalid_params(e, name, bili_missing_reason("content"@)),
                Some(content) => if content.len() > 30 {
                    r matches Err(e) && is_invalid_params(e, name, "danmaku content exceeds 30 characters"@)
                } else {
                    match parse_u64_spec(room) {
                        None => r matches Err(e) && is_invalid_params(e, name, "room_id must be a numeric string"@),
                        Some(n) => r matches Ok(BiliRequest::SignedPost { path, body }) && path@ == "/v2/app/send_msg"@
                            && danmaku_body(body, n, app_number(a.app_id->0@), content, ts),
                    }
                },
            },
        }
    } else if name == "bili_get_danmaku_history"@ {
        match str_field(params, "room_id"@) {
            None => r matches Err(e) && is_invalid_params(e, name, bili_missing_reason("room_id"@)),
            Some(room) => {
                let count = match str_field(params, "count"@) {
                    Some(c) => c,
                    None => "20"@,
                };
                r matches Ok(BiliRequest::PublicGet { url }) && url@
                    == "https://api.live.bilibili.com/xlive/web-room/v1/dM/gethistory?roomid="@ + room + "&count="@
                    + count
            },
        }
    } else {
        r matches Err(e) && is_tool_not_found(e, a.id@, name)
    }
}

fn bili_missing(field: &str) -> (r: String)
    ensures
        r@ == bili_missing_reason(field@),
{
    let mut r = String::from_str("missing required field `");
    r.append(field);
    r.append("`");
    r
}

fn u64_json(n: u64) -> (j: JsonValue)
    ensures
        j == uint(n),
{
    JsonValue::Number(JsonNumber::PosInt(n))
}

/// The tools the adapter lists are exactly those it executes: with its credentials, a
/// call is answered "tool not found" exactly when `tools` does not list its
/// name.
pub proof fn law_listed_tools_are_executed(a: BilibiliAdapter, ts: Seq<ToolDefinition>, name: Seq<char>, params: JsonValue, at: u64, r: Result<BiliRequest, AdapterError>)
    requires
        bili_tool_shapes(ts),
        a.access_key_id is Some,
        a.access_key_secret is Some,
        a.app_id is Some,
        bili_plan_outcome(a, name, params, at, r),
    ensures
        is_unknown_tool(r) <==> !lists_tool(ts, name),
{
    if name == "bili_get_live_info"@ {
        assert(ts[0].name@ == name);
    } else if name == "bili_send_danmaku"@ {
        assert(ts[1].name@ == name);
    } else if name == "bili_get_danmaku_history"@ {
        assert(ts[2].name@ == name);
    }
}

/// The three tool names differ in length, so no two of them are equal.
proof fn lemma_tool_names()
    ensures
        "bili_get_live_info"@.len() == 18,
        "bili_send_danmaku"@.len() == 17,
        "bili_get_danmaku_history"@.len() == 24,
{
    reveal_strlit("bili_get_live_info");
    reveal_strlit("bili_send_danmaku");
    reveal_strlit("bili_get_danmaku_history");
}

/// Room information is read for the room given: with all three credentials,
/// `bili_get_live_info` with a string `room_id` other than `0` is an unsigned
/// GET of `https://api.live.bilibili.com/room/v1/Room/get_info?room_id=<room_id>`.
pub proof fn law_live_info_room(a: BilibiliAdapter, params: JsonValue, ts: u64, r: Result<BiliRequest, AdapterError>, room: Seq<char>)
    requires
        a.access_key_id is Some,
        a.access_key_secret is Some,
        a.app_id is Some,
        str_field(params, "room_id"@) == Some(room),
        room != "0"@,
        bili_plan_outcome(a, "bili_get_live_info"@, params, ts, r),
    ensures
        r matches Ok(BiliRequest::PublicGet { url }) && url@
            == "https://api.live.bilibili.com/room/v1/Room/get_info?room_id="@ + room,
{
    lemma_tool_names();
}

/// The danmaku history is read for the room and count given: with all three
/// credentials, `bili_get_danmaku_history` with a string `room_id` is an
/// unsigned GET of
/// `https://api.live.bilibili.com/xlive/web-room/v1/dM/gethistory?roomid=<room_id>&count=<count>`,
/// where `count` is the string `count` parameter or `20`; without `room_id` it
/// is refused.
pub proof fn law_history_room_and_count(a: BilibiliAdapter, params: JsonValue, ts: u64, r: Result<BiliRequest, AdapterError>)
    requires
        a.access_key_id is Some,
        a.access_key_secret is Some,
        a.app_id is Some,
        bili_plan_outcome(a, "bili_get_danmaku_history"@, params, ts, r),
    ensures
        str_field(params, "room_id"@) is None ==> (r matches Err(e) && is_invalid_params(
            e,
            "bili_get_danmaku_history"@,
            "missing required field `room_id`"@,
        )),
        forall|room: Seq<char>| str_field(params, "room_id"@) == Some(room) ==> (r matches Ok(
            BiliRequest::PublicGet { url },
        ) && url@ == "https://api.live.bilibili.com/xlive/web-room/v1/dM/gethistory?roomid="@ + room + "&count="@
            + match str_field(params, "count"@) {
            Some(c) => c,
            None => "20"@,
        }),
{
    lemma_tool_names();
    reveal_strlit("missing required field `");
    reveal_strlit("room_id");
    reveal_strlit("`");
    reveal_strlit("missing required field `room_id`");
    assert(bili_missing_reason("room_id"@) =~= "missing required field `room_id`"@);
}

/// A danmaku carries the message, room and time given: with all three
/// credentials, `bili_send_danmaku` with a string `content` of at most 30
/// characters and a `room_id` that reads as the number `n` is a signed POST to
/// `/v2/app/send_msg` whose body names room `n` and holds the message
/// `content` stamped `ts`; a longer `content` is refused.
pub proof fn law_danmaku_message(a: BilibiliAdapter, params: JsonValue, ts: u64, r: Result<BiliRequest, AdapterError>, room: Seq<char>, content: Seq<char>)
    requires
        a.access_key_id is Some,
        a.access_key_secret is Some,
        a.app_id is Some,
        str_field(params, "room_id"@) == Some(room),
        str_field(params, "content"@) == Some(content),
        bili_plan_outcome(a, "bili_send_danmaku"@, params, ts, r),
    ensures
        content.len() > 30 ==> (r matches Err(e) && is_invalid_params(
            e,
            "bili_send_danmaku"@,
            "danmaku content exceeds 30 characters"@,
        )),
        forall|n: u64| content.len() <= 30 && parse_u64_spec(room) == Some(n) ==> (r matches Ok(
            BiliRequest::SignedPost { path, body },
        ) && path@ == "/v2/app/send_msg"@ && keys_of(body) == seq!["room_id"@, "app_id"@, "dm"@] && value_at(body, 0)
            == uint(n) && str_of(value_at(value_at(body, 2), 3)) == Some(content) && value_at(value_at(body, 2), 4)
            == uint(ts)),
{
    lemma_tool_names();
}

impl BilibiliAdapter {
    /// A new, disconnected adapter with the given credentials (read from
    /// `BILI_ACCESS_KEY_ID`, `BILI_ACCESS_KEY_SECRET` and `BILI_APP_ID`).
    pub fn with_credentials(id: &str, access_key_id: Option<String>, access_key_secret: Option<String>, app_id: Option<String>) -> (r: Self)
        ensures
            r.id@ == id@,
            !r.connected,
            r.access_key_id == access_key_id,
            r.access_key_secret == access_key_secret,
            r.app_id == app_id,
    {
        BilibiliAdapter { id: String::from_str(id), connected: false, access_key_id, access_key_secret, app_id }
    }

    /// Whether all three credentials are present.
    pub fn has_credentials(&self) -> (r: bool)
        ensures
            r == (self.access_key_id is Some && self.access_key_secret is Some && self.app_id is Some),
    {
        self.access_key_id.is_some() && self.access_key_secret.is_some() && self.app_id.is_some()
    }

    /// The adapter's id.
    pub fn id(&self) -> (r: &str)
        ensures
            r@ == self.id@,
    {
        self.id.as_str()
    }

    /// The adapter's category.
    pub fn adapter_type(&self) -> (r: AdapterType)
        ensures
            r == AdapterType::Messaging,
    {
        AdapterType::Messaging
    }

    /// The three credentials the adapter needs.
    pub fn required_auth(&self) -> (r: Option<AuthRequirement>)
        ensures
            r matches Some(a) && a.provider@ == "bilibili"@ && views(a.scopes@) == seq![
                "BILI_ACCESS_KEY_ID"@,
                "BILI_ACCESS_KEY_SECRET"@,
                "BILI_APP_ID"@,
            ],
    {
        Some(auth_requirement("bilibili", &["BILI_ACCESS_KEY_ID", "BILI_ACCESS_KEY_SECRET", "BILI_APP_ID"]))
    }

    /// The three Bilibili tools.
    pub fn tools(&self) -> (r: Vec<ToolDefinition>)
        ensures
            bili_tool_shapes(r@),
    {
        build_tool_definitions()
    }

    /// Connects when all credentials are present; otherwise stays
    /// disconnected (and still succeeds).
    pub fn connect(&mut self) -> (r: Result<(), AdapterError>)
        ensures
            r is Ok,
            final(self).connected == (old(self).connected || (old(self).access_key_id is Some
                && old(self).access_key_secret is Some && old(self).app_id is Some)),
            final(self).id == old(self).id,
            final(self).access_key_id == old(self).access_key_id,
            final(self).access_key_secret == old(self).access_key_secret,
            final(self).app_id == old(self).app_id,
    {
        if self.has_credentials() {
            self.connected = true;
        }
        Ok(())
    }

    /// Disconnects.
    pub fn disconnect(&mut self) -> (r: Result<(), AdapterError>)
        ensures
            r is Ok,
            !final(self).connected,
            final(self).id == old(self).id,
            final(self).access_key_id == old(self).access_key_id,
            final(self).access_key_secret == old(self).access_key_secret,
            final(self).app_id == old(self).app_id,
    {
        self.connected = false;
        Ok(())
    }

    /// Healthy when connected with all credentials, unhealthy otherwise.
    pub fn health_check(&self) -> (r: Result<HealthStatus, AdapterError>)
        ensures
            r == Ok::<HealthStatus, AdapterError>(if self.connected && self.access_key_id is Some
                && self.access_key_secret is Some && self.app_id is Some {
                HealthStatus::Healthy
            } else {
                HealthStatus::Unhealthy
            }),
    {
        if self.connected && self.has_credentials() {
            Ok(HealthStatus::Healthy)
        } else {
            Ok(HealthStatus::Unhealthy)
        }
    }

    /// Checks a call made at `ts` seconds past the epoch and turns it into a
    /// request.
    #[verifier::rlimit(40)]
    pub fn plan_tool_at(&self, name: &str, params: &JsonValue, ts: u64) -> (r: Result<BiliRequest, AdapterError>)
        ensures
            bili_plan_outcome(*self, name@, *params, ts, r),
    {
        if !self.has_credentials() {
            return Err(crate::error::auth_required(self.id.as_str(), "bilibili"));
        }
        proof {
            reveal_strlit("bili_get_live_info");
            reveal_strlit("bili_send_danmaku");
            reveal_strlit("bili_get_danmaku_history");
            assert("bili_get_live_info"@.len() == 18 && "bili_send_danmaku"@.len() == 17);
            assert("bili_get_danmaku_history"@.len() == 24);
        }
        if same_text(name, "bili_get_live_info") {
            let room = match get_str(params, "room_id") {
                Some(x) => x,
                None => String::from_str("0"),
            };
            if !same_text(room.as_str(), "0") {
                let mut url = String::from_str("https://api.live.bilibili.com/room/v1/Room/get_info?room_id=");
                url.append(room.as_str());
                return Ok(BiliRequest::PublicGet { url });
            }
            let mut es: Vec<(String, JsonValue)> = Vec::new();
            es.push((String::from_str("code"), u64_json(0)));
            let body = JsonValue::Object(es);
            assert(keys_of(body) =~= seq!["code"@]);
            return Ok(BiliRequest::SignedPost { path: String::from_str("/v2/app/start"), body });
        }
        if same_text(name, "bili_send_danmaku") {
            let room = match get_str(params, "room_id") {
                Some(x) => x,
                None => {
                    return Err(invalid_params(name, bili_missing("room_id")));
                },
            };
            let content = match get_str(params, "content") {
                Some(x) => x,
                None => {
                    return Err(invalid_params(name, bili_missing("content")));
                },
            };
            let cv = chars_of(content.as_str());
            if cv.len() > 30 {
                return Err(invalid_params(name, String::from_str("danmaku content exceeds 30 characters")));
            }
            let rv = chars_of(room.as_str());
            let n = match parse_u64(rv.as_slice()) {
                Some(n) => n,
                None => {
                    return Err(invalid_params(name, String::from_str("room_id must be a numeric string")));
                },
            };
            let app = match &self.app_id {
                Some(a) => {
                    let av = chars_of(a.as_str());
                    match parse_u64(av.as_slice()) {
                        Some(x) => x,
                        None => 0,
                    }
                },
                None => 0,
            };
            let mut dm: Vec<(String, JsonValue)> = Vec::new();
            dm.push((String::from_str("color"), u64_json(16777215)));
            dm.push((String::from_str("font_size"), u64_json(25)));
            dm.push((String::from_str("mode"), u64_json(0)));
            dm.push((String::from_str("msg"), JsonValue::Str(content)));
            dm.push((String::from_str("timestamp"), u64_json(ts)));
            dm.push((String::from_str("emoji_unique_id"), JsonValue::Str(String::new())));
            let dmj = JsonValue::Object(dm);
            assert(keys_of(dmj) =~= seq!["color"@, "font_size"@, "mode"@, "msg"@, "timestamp"@, "emoji_unique_id"@]);
            let mut es: Vec<(String, JsonValue)> = Vec::new();
            es.push((String::from_str("room_id"), u64_json(n)));
            es.push((String::from_str("app_id"), u64_json(app)));
            es.push((String::from_str("dm"), dmj));
            let body = JsonValue::Object(es);
            assert(keys_of(body) =~= seq!["room_id"@, "app_id"@, "dm"@]);
            return Ok(BiliRequest::SignedPost { path: String::from_str("/v2/app/send_msg"), body });
        }
        if same_text(name, "bili_get_danmaku_history") {
            let room = match get_str(params, "room_id") {
                Some(x) => x,
                None => {
                    return Err(invalid_params(name, bili_missing("room_id")));
                },
            };
            let count = match get_str(params, "count") {
                Some(c) => c,
                None => String::from_str("20"),
            };
            let mut url = String::from_str("https://api.live.bilibili.com/xlive/web-room/v1/dM/gethistory?roomid=");
            url.append(room.as_str());
            url.append("&count=");
            url.append(count.as_str());
            return Ok(BiliRequest::PublicGet { url });
        }
        Err(tool_not_found(self.id.as_str(), name))
    }

    /// Checks a call made now and turns it into a request.
    pub fn plan_tool(&self, name: &str, params: &JsonValue) -> (r: Result<BiliRequest, AdapterError>)
        ensures
            exists|ts: u64| bili_plan_outcome(*self, name@, *params, ts, r),
    {
        let (secs, _millis, _nanos) = time_since_epoch();
        self.plan_tool_at(name, params, secs)
    }
}

/// The reason given when a danmaku is refused.
pub open spec fn danmaku_error_reason(reply: JsonValue) -> Seq<char> {
    let message = match str_field(reply, "message"@) {
        Some(m) => m,
        None => "unknown error"@,
    };
    let code = match i64_field(reply, "code"@) {
        Some(c) => c,
        None => -1i64,
    };
    "Bilibili API error "@ + signed_decimal(code as int) + ": "@ + message
}

/// Reads the reply to a danmaku: an error unless its `code` is 0, else
/// `{success: true, room_id}`.
pub fn danmaku_result(reply: &JsonValue, room_id: u64) -> (r: Result<JsonValue, AdapterError>)
    ensures
        (match i64_field(*reply, "code"@) {
            Some(c) => c == 0,
            None => false,
        }) ==> (r matches Ok(j) && keys_of(j) == seq!["success"@, "room_id"@] && value_at(j, 0) == JsonValue::Bool(true)
            && value_at(j, 1) == uint(room_id)),
        !(match i64_field(*reply, "code"@) {
            Some(c) => c == 0,
            None => false,
        }) ==> (r matches Err(e) && is_execution_failed(e, "bili_send_danmaku"@, danmaku_error_reason(*reply))),
{
    let code: i64 = match get_i64(reply, "code") {
        Some(c) => c,
        None => -1,
    };
    if code != 0 {
        let message = match get_str(reply, "message") {
            Some(m) => m,
            None => String::from_str("unknown error"),
        };
        let mut reason = String::from_str("Bilibili API error ");
        let c = i64_to_decimal(code);
        reason.append(c.as_str());
        reason.append(": ");
        reason.append(message.as_str());
        return Err(execution_failed("bili_send_danmaku", reason));
    }
    let mut es: Vec<(String, JsonValue)> = Vec::new();
    es.push((String::from_str("success"), JsonValue::Bool(true)));
    es.push((String::from_str("room_id"), u64_json(room_id)));
    let j = JsonValue::Object(es);
    assert(keys_of(j) =~= seq!["success"@, "room_id"@]);
    Ok(j)
}

/// The room a danmaku body names: its `room_id`, else 0.
pub open spec fn body_room(body: JsonValue) -> u64 {
    match u64_field(body, "room_id"@) {
        Some(r) => r,
        None => 0,
    }
}

/// Reads the reply to a signed POST: for `bili_send_danmaku` as
/// `danmaku_result` reads it, for the room named in the body; for any other
/// tool the reply is the result.
pub fn signed_reply_result(name: &str, body: &JsonValue, reply: JsonValue) -> (r: Result<JsonValue, AdapterError>)
    ensures
        name@ == "bili_send_danmaku"@ ==> {
            let ok = match i64_field(reply, "code"@) {
                Some(c) => c == 0,
                None => false,
            };
            &&& ok ==> (r matches Ok(j) && keys_of(j) == seq!["success"@, "room_id"@] && value_at(j, 0) == JsonValue::Bool(
                true,
            ) && value_at(j, 1) == uint(body_room(*body)))
            &&& !ok ==> (r matches Err(e) && is_execution_failed(e, "bili_send_danmaku"@, danmaku_error_reason(reply)))
        },
        name@ != "bili_send_danmaku"@ ==> r == Ok::<JsonValue, AdapterError>(reply),
{
    if same_text(name, "bili_send_danmaku") {
        let room_id: u64 = match get_u64(body, "room_id") {
            Some(v) => v,
            None => 0,
        };
        danmaku_result(&reply, room_id)
    } else {
        Ok(reply)
    }
}

} // verus!
