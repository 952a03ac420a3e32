//! DingTalk adapter: messages to a group through a custom robot webhook, or
//! through an enterprise app with an access token.
//!
//! Tools: `dingtalk_send_text`, `dingtalk_send_markdown` and
//! `dingtalk_send_card`.  With app credentials (`DINGTALK_APP_KEY` and
//! `DINGTALK_APP_SECRET`) the adapter works in app mode; else with
//! `DINGTALK_WEBHOOK_URL` (and optionally `DINGTALK_WEBHOOK_SECRET`) it works
//! in webhook mode; else it cannot send.

pub mod api;
pub mod tools;
pub mod types;

use vstd::prelude::*;
use vstd::string::*;
use vstd::utf8::encode_utf8;

use crate::crypto::{base64_encode, base64_of, hmac_sha256, hmac_sha256_of, time_since_epoch};
use crate::dingtalk::api::AccessTokenResponse;
use crate::dingtalk::tools::{build_tool_definitions, dingtalk_tool_shapes};
use crate::dingtalk::types::{
    ActionButton, ActionCardContent, AtConfig, MarkdownContent, TextContent, WebhookActionCardMsg,
    WebhookMarkdownMsg, WebhookTextMsg, at_json, button_json, card_msg_json, markdown_msg_json,
    strings_json, text_msg_json,
};
use crate::error::{AdapterError, invalid_params, is_auth_required, is_invalid_params};
use crate::json::{JsonValue, bool_field, field, get_bool, get_str, keys_of, str_field, str_of, value_at};
use crate::text::{decimal, same_text, u64_to_decimal};
use crate::traits::{AdapterType, AuthRequirement, HealthStatus, ToolDefinition, auth_requirement, is_tool_not_found, views, is_unknown_tool, lists_tool};
use crate::urlencoding::{encode, percent_encoded};

verus! {

/// DingTalk API base URL.
pub const DINGTALK_API_BASE: &'static str = "https://oapi.dingtalk.com";

/// A cached access token and the time (seconds past the epoch) it expires.
#[derive(Debug)]
pub struct CachedToken {
    pub token: String,
    pub expires_at: u64,
}

/// The token a cache gives at `now`: its token while it expires more than
/// five minutes later.
pub open spec fn cache_read(cache: Option<CachedToken>, now: u64) -> Option<Seq<char>> {
    match cache {
        Some(c) => if c.expires_at > now + 300 {
            Some(c.token@)
        } else {
            None
        },
        None => None,
    }
}

/// A token read back after it was stored: once `store_token` has cached a
/// token fetched at `stored_at`, the cache gives that token at any time more
/// than five minutes before its expiry, and nothing from then on.
pub proof fn law_cached_token_after_store(a: DingTalkAdapter, fetched: AccessTokenResponse, stored_at: u64, later: u64)
    requires
        a.token_cache matches Some(c) && c.token@ == fetched.access_token@ && c.expires_at == stored_at
            + fetched.expires_in,
    ensures
        cache_read(a.token_cache, later) == if stored_at + fetched.expires_in > later + 300 {
            Some(fetched.access_token@)
        } else {
            None
        },
{
}

/// How the adapter reaches DingTalk.
#[derive(Debug, Clone, Copy, PartialEq, Eq, Structural)]
pub enum DingTalkMode {
    App,
    Webhook,
    Unconfigured,
}

/// DingTalk adapter supporting both webhook and app integration.
#[derive(Debug)]
pub struct DingTalkAdapter {
    pub id: String,
    pub connected: bool,
    pub app_key: Option<String>,
    pub app_secret: Option<String>,
    pub webhook_url: Option<String>,
    pub webhook_secret: Option<String>,
    pub token_cache: Option<CachedToken>,
    pub api_base: String,
}

/// The mode given the configured settings: app mode with both app
/// credentials, else webhook mode with a webhook URL.
pub open spec fn mode_of(a: DingTalkAdapter) -> DingTalkMode {
    if a.app_key is Some && a.app_secret is Some {
        DingTalkMode::App
    } else if a.webhook_url is Some {
        DingTalkMode::Webhook
    } else {
        DingTalkMode::Unconfigured
    }
}

// ---------------------------------------------------------------------------
// Webhook signing
// ---------------------------------------------------------------------------

/// A webhook URL signed at `millis` milliseconds past the epoch: the
/// signature is the base64 HMAC-SHA256, under the secret, of the time and
/// the secret on two lines, percent-encoded.
pub open spec fn signed_webhook_url(url: Seq<char>, secret: Seq<char>, millis: u64) -> Seq<char> {
    let ts = decimal(millis as nat);
    let sign_string = ts + seq!['\n'] + secret;
    let signature = base64_of(hmac_sha256_of(encode_utf8(secret), encode_utf8(sign_string)));
    url + "&timestamp="@ + ts + "&sign="@ + percent_encoded(encode_utf8(signature))
}

/// Signs a webhook URL at the given time.
pub fn sign_webhook_url_at(webhook_url: &str, secret: &str, millis: u64) -> (r: String)
    ensures
        r@ == signed_webhook_url(webhook_url@, secret@, millis),
{
    let ts = u64_to_decimal(millis);
    let mut sign_string = ts.clone();
    sign_string.append("\n");
    sign_string.append(secret);
    proof {
        reveal_strlit("\n");
    }
    assert(sign_string@ =~= ts@ + seq!['\n'] + secret@);
    let mac = hmac_sha256(secret.as_bytes(), sign_string.as_str().as_bytes());
    let signature = base64_encode(mac.as_slice());
    let encoded = encode(signature.as_str());
    let mut r = String::from_str(webhook_url);
    r.append("&timestamp=");
    r.append(ts.as_str());
    r.append("&sign=");
    r.append(encoded.as_str());
    r
}

/// Signs a webhook URL now.
pub fn sign_webhook_url(webhook_url: &str, secret: &str) -> (r: String)
    ensures
        exists|millis: u64| r@ == signed_webhook_url(webhook_url@, secret@, millis),
{
    let (_secs, millis, _nanos) = time_since_epoch();
    sign_webhook_url_at(webhook_url, secret, millis)
}

// ---------------------------------------------------------------------------
// Webhook messages
// ---------------------------------------------------------------------------

/// The reason given for a missing field.
pub open spec fn dingtalk_missing_reason(field: Seq<char>) -> Seq<char> {
    "missing required field `"@ + field + "`"@
}

fn missing(field: &str) -> (r: String)
    ensures
        r@ == dingtalk_missing_reason(field@),
{
    let mut r = String::from_str("missing required field `");
    r.append(field);
    r.append("`");
    r
}

/// The strings among JSON values, in order.
pub open spec fn string_items(vs: Seq<JsonValue>) -> Seq<Seq<char>>
    decreases vs.len(),
{
    if vs.len() == 0 {
        Seq::empty()
    } else {
        let rest = string_items(vs.drop_last());
        match str_of(vs.last()) {
            Some(s) => rest.push(s),
            None => rest,
        }
    }
}

/// The `(title, action_url)` pairs of the objects among JSON values that
/// have both as strings, in order.
pub open spec fn button_items(vs: Seq<JsonValue>) -> Seq<(Seq<char>, Seq<char>)>
    decreases vs.len(),
{
    if vs.len() == 0 {
        Seq::empty()
    } else {
        let rest = button_items(vs.drop_last());
        match (str_field(vs.last(), "title"@), str_field(vs.last(), "action_url"@)) {
            (Some(t), Some(u)) => rest.push((t, u)),
            _ => rest,
        }
    }
}

/// The elements of an array field, or none.
pub open spec fn array_items(params: JsonValue, key: Seq<char>) -> Seq<JsonValue> {
    match field(params, key) {
        Some(JsonValue::Array(a)) => a@,
        _ => Seq::empty(),
    }
}

/// The `at_all` flag of a call.
pub open spec fn at_all_of(params: JsonValue) -> bool {
    match bool_field(params, "at_all"@) {
        Some(b) => b,
        None => false,
    }
}

fn collect_strings(vs: &Vec<JsonValue>) -> (r: Vec<String>)
    ensures
        views(r@) == string_items(vs@),
{
    let mut out: Vec<String> = Vec::new();
    let mut i: usize = 0;
    while i < vs.len()
        invariant
            i <= vs@.len(),
            views(out@) == string_items(vs@.take(i as int)),
        decreases vs.len() - i,
    {
        assert(vs@.take(i + 1).drop_last() =~= vs@.take(i as int));
        let ghost before = out@;
        match vs[i].as_str() {
            Some(s) => {
                out.push(String::from_str(s));
                assert(views(out@) =~= views(before).push(s@));
            },
            None => {},
        }
        i = i + 1;
    }
    assert(vs@.take(vs@.len() as int) =~= vs@);
    out
}

fn collect_buttons(vs: &Vec<JsonValue>) -> (r: Vec<ActionButton>)
    ensures
        r@.map_values(|b: ActionButton| (b.title@, b.action_url@)) == button_items(vs@),
{
    let mut out: Vec<ActionButton> = Vec::new();
    let mut i: usize = 0;
    while i < vs.len()
        invariant
            i <= vs@.len(),
            out@.map_values(|b: ActionButton| (b.title@, b.action_url@)) == button_items(vs@.take(i as int)),
        decreases vs.len() - i,
    {
        assert(vs@.take(i + 1).drop_last() =~= vs@.take(i as int));
        let ghost before = out@;
        match (get_str(&vs[i], "title"), get_str(&vs[i], "action_url")) {
            (Some(t), Some(u)) => {
                let ghost pair = (t@, u@);
                out.push(ActionButton { title: t, action_url: u });
                assert(out@.map_values(|b: ActionButton| (b.title@, b.action_url@)) =~= before.map_values(
                    |b: ActionButton| (b.title@, b.action_url@),
                ).push(pair));
            },
            _ => {},
        }
        i = i + 1;
    }
    assert(vs@.take(vs@.len() as int) =~= vs@);
    out
}

fn array_of<'a>(params: &'a JsonValue, key: &str) -> (r: Option<&'a Vec<JsonValue>>)
    ensures
        match r {
            Some(a) => array_items(*params, key@) == a@,
            None => array_items(*params, key@) == Seq::<JsonValue>::empty(),
        },
{
    match params.get(key) {
        Some(v) => match v.as_array() {
            Some(a) => Some(a),
            None => None,
        },
        None => None,
    }
}

/// What the webhook body of a call is: the message of the tool as serde
/// writes it, or the error for a missing field or an unknown tool.
pub open spec fn webhook_body_outcome(name: Seq<char>, params: JsonValue, r: Result<JsonValue, AdapterError>) -> bool {
    if name == "dingtalk_send_text"@ {
        match str_field(params, "content"@) {
            None => r matches Err(e) && is_invalid_params(e, name, dingtalk_missing_reason("content"@)),
            Some(content) => r matches Ok(j) && {
                &&& keys_of(j) == seq!["msgtype"@, "text"@, "at"@]
                &&& str_of(value_at(j, 0)) == Some("text"@)
                &&& str_of(value_at(value_at(j, 1), 0)) == Some(content)
                &&& keys_of(value_at(j, 2)) == seq!["atMobiles"@, "isAtAll"@]
                &&& strings_json(value_at(value_at(j, 2), 0), string_items(array_items(params, "at_mobiles"@)))
                &&& value_at(value_at(j, 2), 1) == JsonValue::Bool(at_all_of(params))
            },
        }
    } else if name == "dingtalk_send_markdown"@ {
        match (str_field(params, "title"@), str_field(params, "text"@)) {
            (None, _) => r matches Err(e) && is_invalid_params(e, name, dingtalk_missing_reason("title"@)),
            (Some(_), None) => r matches Err(e) && is_invalid_params(e, name, dingtalk_missing_reason("text"@)),
            (Some(title), Some(text)) => r matches Ok(j) && {
                &&& keys_of(j) == seq!["msgtype"@, "markdown"@, "at"@]
                &&& str_of(value_at(j, 0)) == Some("markdown"@)
                &&& str_of(value_at(value_at(j, 1), 0)) == Some(title)
                &&& str_of(value_at(value_at(j, 1), 1)) == Some(text)
                &&& strings_json(value_at(value_at(j, 2), 0), Seq::empty())
                &&& value_at(value_at(j, 2), 1) == JsonValue::Bool(at_all_of(params))
            },
        }
    } else if name == "dingtalk_send_card"@ {
        match (str_field(params, "title"@), str_field(params, "text"@)) {
            (None, _) => r matches Err(e) && is_invalid_params(e, name, dingtalk_missing_reason("title"@)),
            (Some(_), None) => r matches Err(e) && is_invalid_params(e, name, dingtalk_missing_reason("text"@)),
            (Some(title), Some(text)) => r matches Ok(j) && {
                let c = value_at(j, 1);
                let bs = button_items(array_items(params, "buttons"@));
                &&& keys_of(j) == seq!["msgtype"@, "actionCard"@]
                &&& str_of(value_at(j, 0)) == Some("actionCard"@)
                &&& keys_of(c) == seq!["title"@, "text"@, "btnOrientation"@, "btns"@]
                &&& str_of(value_at(c, 0)) == Some(title)
                &&& str_of(value_at(c, 1)) == Some(text)
                &&& str_of(value_at(c, 2)) == Some("0"@)
                &&& value_at(c, 3) matches JsonValue::Array(a) && a@.len() == bs.len() && forall|i: int|
                    0 <= i < bs.len() ==> keys_of(#[trigger] a@[i]) == seq!["title"@, "actionUrl"@] && str_of(
                        value_at(a@[i], 0),
                    ) == Some(bs[i].0) && str_of(value_at(a@[i], 1)) == Some(bs[i].1)
            },
        }
    } else {
        r matches Err(e) && is_tool_not_found(e, "dingtalk"@, name)
    }
}

/// A text message carries the content and mentions given: `dingtalk_send_text`
/// with a string `content` is a `text` message with that content, mentioning
/// the strings of `at_mobiles` in order, and `isAtAll` set exactly when the
/// boolean `at_all` is true; without `content` it is refused.
pub proof fn law_text_message(params: JsonValue, r: Result<JsonValue, AdapterError>)
    requires
        webhook_body_outcome("dingtalk_send_text"@, params, r),
    ensures
        str_field(params, "content"@) is None ==> (r matches Err(e) && is_invalid_params(
            e,
            "dingtalk_send_text"@,
            "missing required field `content`"@,
        )),
        forall|content: Seq<char>| str_field(params, "content"@) == Some(content) ==> (r matches Ok(j) && str_of(
            value_at(j, 0),
        ) == Some("text"@) && str_of(value_at(value_at(j, 1), 0)) == Some(content) && strings_json(
            value_at(value_at(j, 2), 0),
            string_items(array_items(params, "at_mobiles"@)),
        ) && value_at(value_at(j, 2), 1) == JsonValue::Bool(bool_field(params, "at_all"@) == Some(true))),
{
    reveal_strlit("missing required field `");
    reveal_strlit("content");
    reveal_strlit("`");
    reveal_strlit("missing required field `content`");
    assert(dingtalk_missing_reason("content"@) =~= "missing required field `content`"@);
}

/// Markdown and card messages carry the title and text given:
/// `dingtalk_send_markdown` and `dingtalk_send_card` with string `title` and
/// `text` are a `markdown` (or `actionCard`) message whose first two fields are
/// that title and that text, a card with one button for each element of
/// `buttons` that has a string `title` and `action_url`.
pub proof fn law_titled_messages(name: Seq<char>, params: JsonValue, r: Result<JsonValue, AdapterError>, title: Seq<char>, text: Seq<char>)
    requires
        name == "dingtalk_send_markdown"@ || name == "dingtalk_send_card"@,
        str_field(params, "title"@) == Some(title),
        str_field(params, "text"@) == Some(text),
        webhook_body_outcome(name, params, r),
    ensures
        r matches Ok(j) && str_of(value_at(j, 0)) == Some(
            if name == "dingtalk_send_markdown"@ {
                "markdown"@
            } else {
                "actionCard"@
            },
        ) && str_of(value_at(value_at(j, 1), 0)) == Some(title) && str_of(value_at(value_at(j, 1), 1)) == Some(text)
            && (name == "dingtalk_send_card"@ ==> (value_at(value_at(j, 1), 3) matches JsonValue::Array(a) && a@.len()
            == button_items(array_items(params, "buttons"@)).len())),
{
    reveal_strlit("dingtalk_send_text");
    reveal_strlit("dingtalk_send_markdown");
    reveal_strlit("dingtalk_send_card");
    assert("dingtalk_send_text"@.len() == 18 && "dingtalk_send_markdown"@.len() == 22);
    assert("dingtalk_send_card"@.len() == 18 && "dingtalk_send_text"@[14] != "dingtalk_send_card"@[14]);
}

/// The tools the adapter lists are exactly those it sends through a
/// webhook: a call is answered "tool not found" exactly when `tools` does
/// not list its name.
pub proof fn law_listed_tools_are_executed(ts: Seq<ToolDefinition>, name: Seq<char>, params: JsonValue, r: Result<JsonValue, AdapterError>)
    requires
        dingtalk_tool_shapes(ts),
        webhook_body_outcome(name, params, r),
    ensures
        is_unknown_tool(r) <==> !lists_tool(ts, name),
{
    reveal_strlit("dingtalk_send_text");
    reveal_strlit("dingtalk_send_markdown");
    reveal_strlit("dingtalk_send_card");
    assert("dingtalk_send_text"@.len() == 18 && "dingtalk_send_markdown"@.len() == 22);
    assert("dingtalk_send_card"@.len() == 18 && "dingtalk_send_text"@[14] != "dingtalk_send_card"@[14]);
    if name == "dingtalk_send_text"@ {
        assert(ts[0].name@ == name);
    } else if name == "dingtalk_send_markdown"@ {
        assert(ts[1].name@ == name);
    } else if name == "dingtalk_send_card"@ {
        assert(ts[2].name@ == name);
    }
}

/// The webhook body of a call.
#[verifier::rlimit(40)]
pub fn webhook_body(name: &str, params: &JsonValue) -> (r: Result<JsonValue, AdapterError>)
    ensures
        webhook_body_outcome(name@, *params, r),
{
    proof {
        reveal_strlit("dingtalk_send_text");
        reveal_strlit("dingtalk_send_markdown");
        reveal_strlit("dingtalk_send_card");
        assert("dingtalk_send_text"@.len() == 18 && "dingtalk_send_markdown"@.len() == 22);
        assert("dingtalk_send_card"@.len() == 18 && "dingtalk_send_text"@[14] != "dingtalk_send_card"@[14]);
    }
    let at_all = match get_bool(params, "at_all") {
        Some(b) => b,
        None => false,
    };
    if same_text(name, "dingtalk_send_text") {
        let content = match get_str(params, "content") {
            Some(c) => c,
            None => {
                return Err(invalid_params(name, missing("content")));
            },
        };
        let mobiles = match array_of(params, "at_mobiles") {
            Some(a) => collect_strings(a),
            None => Vec::new(),
        };
        assert(views(mobiles@) == string_items(array_items(*params, "at_mobiles"@)));
        let msg = WebhookTextMsg {
            msgtype: String::from_str("text"),
            text: TextContent { content },
            at: AtConfig { at_mobiles: mobiles, is_at_all: at_all },
        };
        return Ok(msg.to_json());
    }
    if same_text(name, "dingtalk_send_markdown") || same_text(name, "dingtalk_send_card") {
        let title = match get_str(params, "title") {
            Some(c) => c,
            None => {
                return Err(invalid_params(name, missing("title")));
            },
        };
        let text = match get_str(params, "text") {
            Some(c) => c,
            None => {
                return Err(invalid_params(name, missing("text")));
            },
        };
        if same_text(name, "dingtalk_send_markdown") {
            let msg = WebhookMarkdownMsg {
                msgtype: String::from_str("markdown"),
                markdown: MarkdownContent { title, text },
                at: AtConfig { at_mobiles: Vec::new(), is_at_all: at_all },
            };
            assert(views(msg.at.at_mobiles@) =~= Seq::<Seq<char>>::empty());
            return Ok(msg.to_json());
        }
        let buttons = match array_of(params, "buttons") {
            Some(a) => collect_buttons(a),
            None => Vec::new(),
        };
        assert(buttons@.map_values(|b: ActionButton| (b.title@, b.action_url@)) == button_items(
            array_items(*params, "buttons"@),
        ));
        let msg = WebhookActionCardMsg {
            msgtype: String::from_str("actionCard"),
            action_card: ActionCardContent { title, text, btn_orientation: String::from_str("0"), btns: buttons },
        };
        let j = msg.to_json();
        proof {
            let bs = button_items(array_items(*params, "buttons"@));
            let c = value_at(j, 1);
            let a = value_at(c, 3)->Array_0;
            assert forall|i: int| 0 <= i < bs.len() implies keys_of(#[trigger] a@[i]) == seq!["title"@, "actionUrl"@]
                && str_of(value_at(a@[i], 0)) == Some(bs[i].0) && str_of(value_at(a@[i], 1)) == Some(bs[i].1) by {
                assert(button_json(a@[i], msg.action_card.btns@[i]));
                assert(msg.action_card.btns@.map_values(|b: ActionButton| (b.title@, b.action_url@))[i] == bs[i]);
            }
        }
        return Ok(j);
    }
    Err(AdapterError::ToolNotFound { adapter_id: String::from_str("dingtalk"), tool_name: String::from_str(name) })
}

/// The result of a webhook send that DingTalk accepted: `{success: true}`.
pub fn webhook_success() -> (j: JsonValue)
    ensures
        keys_of(j) == seq!["success"@],
        value_at(j, 0) == JsonValue::Bool(true),
{
    let mut es: Vec<(String, JsonValue)> = Vec::new();
    es.push((String::from_str("success"), JsonValue::Bool(true)));
    let j = JsonValue::Object(es);
    assert(keys_of(j) =~= seq!["success"@]);
    j
}

/// A webhook send: where to post which body.
#[derive(Debug)]
pub struct WebhookSend {
    pub url: String,
    pub body: JsonValue,
}

// ---------------------------------------------------------------------------
// The adapter
// ---------------------------------------------------------------------------

impl DingTalkAdapter {
    /// A new, disconnected adapter with the given settings (read from
    /// `DINGTALK_APP_KEY`, `DINGTALK_APP_SECRET`, `DINGTALK_WEBHOOK_URL` and
    /// `DINGTALK_WEBHOOK_SECRET`).
    pub fn with_settings(id: &str, app_key: Option<String>, app_secret: Option<String>, webhook_url: Option<String>, webhook_secret: Option<String>) -> (r: Self)
        ensures
            r.id@ == id@,
            !r.connected,
            r.app_key == app_key,
            r.app_secret == app_secret,
            r.webhook_url == webhook_url,
            r.webhook_secret == webhook_secret,
            r.token_cache is None,
            r.api_base@ == DINGTALK_API_BASE@,
    {
        DingTalkAdapter {
            id: String::from_str(id),
            connected: false,
            app_key,
            app_secret,
            webhook_url,
            webhook_secret,
            token_cache: None,
            api_base: String::from_str(DINGTALK_API_BASE),
        }
    }

    /// The mode the settings give.
    pub fn mode(&self) -> (r: DingTalkMode)
        ensures
            r == mode_of(*self),
    {
        if self.app_key.is_some() && self.app_secret.is_some() {
            DingTalkMode::App
        } else if self.webhook_url.is_some() {
            DingTalkMode::Webhook
        } else {
            DingTalkMode::Unconfigured
        }
    }

    /// The adapter's id.
    pub fn id(&self) -> (r: &str)
        ensures
            r@ == self.id@,
    {
        self.id.as_str()
    }

    /// The adapter's category.
    pub fn adapter_type(&self) -> (r: AdapterType)
        ensures
            r == AdapterType::Messaging,
    {
        AdapterType::Messaging
    }

    /// The settings the adapter needs.
    pub fn required_auth(&self) -> (r: Option<AuthRequirement>)
        ensures
            r matches Some(a) && a.provider@ == "dingtalk"@ && views(a.scopes@) == seq![
                "DINGTALK_WEBHOOK_URL"@,
                "DINGTALK_APP_KEY"@,
                "DINGTALK_APP_SECRET"@,
            ],
    {
        Some(auth_requirement("dingtalk", &["DINGTALK_WEBHOOK_URL", "DINGTALK_APP_KEY", "DINGTALK_APP_SECRET"]))
    }

    /// The three DingTalk tools.
    pub fn tools(&self) -> (r: Vec<ToolDefinition>)
        ensures
            dingtalk_tool_shapes(r@),
    {
        build_tool_definitions()
    }

    /// The cached token, when it is still valid at `now` for more than five
    /// minutes.
    pub fn cached_token(&self, now: u64) -> (r: Option<String>)
        ensures
            match r {
                Some(t) => cache_read(self.token_cache, now) == Some(t@),
                None => cache_read(self.token_cache, now) is None,
            },
    {
        match &self.token_cache {
            Some(c) => if c.expires_at > now && c.expires_at - now > 300 {
                Some(c.token.clone())
            } else {
                None
            },
            None => None,
        }
    }

    /// The URL that fetches an app access token, or `AuthRequired` without
    /// app credentials.
    pub fn token_url(&self) -> (r: Result<String, AdapterError>)
        ensures
            match (self.app_key, self.app_secret) {
                (Some(k), Some(s)) => r matches Ok(u) && u@ == self.api_base@ + "/gettoken?appkey="@ + k@
                    + "&appsecret="@ + s@,
                _ => r matches Err(e) && is_auth_required(e, self.id@, "dingtalk"@),
            },
    {
        match (&self.app_key, &self.app_secret) {
            (Some(k), Some(s)) => {
                let mut u = self.api_base.clone();
                u.append("/gettoken?appkey=");
                u.append(k.as_str());
                u.append("&appsecret=");
                u.append(s.as_str());
                Ok(u)
            },
            _ => Err(crate::error::auth_required(self.id.as_str(), "dingtalk")),
        }
    }

    /// Caches a fetched token, fetched at `now`.
    pub fn store_token(&mut self, fetched: &AccessTokenResponse, now: u64)
        requires
            now + fetched.expires_in <= u64::MAX,
        ensures
            final(self).token_cache matches Some(c) && c.token@ == fetched.access_token@ && c.expires_at == now
                + fetched.expires_in,
            final(self).id == old(self).id,
            final(self).connected == old(self).connected,
            final(self).app_key == old(self).app_key,
            final(self).app_secret == old(self).app_secret,
            final(self).webhook_url == old(self).webhook_url,
            final(self).webhook_secret == old(self).webhook_secret,
            final(self).api_base == old(self).api_base,
    {
        self.token_cache = Some(CachedToken { token: fetched.access_token.clone(), expires_at: now + fetched.expires_in });
    }

    /// Completes a connection.  `token_ok` says, in app mode, whether an
    /// access token could be had.  Without settings the adapter stays
    /// disconnected; in app mode it connects only with a token.
    pub fn complete_connect(&mut self, token_ok: bool) -> (r: Result<(), AdapterError>)
        ensures
            r is Ok,
            final(self).connected == match mode_of(*old(self)) {
                DingTalkMode::Unconfigured => old(self).connected,
                DingTalkMode::App => old(self).connected || token_ok,
                DingTalkMode::Webhook => true,
            },
            final(self).id == old(self).id,
            final(self).app_key == old(self).app_key,
            final(self).app_secret == old(self).app_secret,
            final(self).webhook_url == old(self).webhook_url,
            final(self).webhook_secret == old(self).webhook_secret,
            final(self).token_cache == old(self).token_cache,
            final(self).api_base == old(self).api_base,
    {
        match self.mode() {
            DingTalkMode::Unconfigured => {},
            DingTalkMode::App => {
                if token_ok {
                    self.connected = true;
                }
            },
            DingTalkMode::Webhook => {
                self.connected = true;
            },
        }
        Ok(())
    }

    /// Disconnects.
    pub fn disconnect(&mut self) -> (r: Result<(), AdapterError>)
        ensures
            r is Ok,
            !final(self).connected,
            final(self).id == old(self).id,
            final(self).app_key == old(self).app_key,
            final(self).app_secret == old(self).app_secret,
            final(self).webhook_url == old(self).webhook_url,
            final(self).webhook_secret == old(self).webhook_secret,
            final(self).token_cache == old(self).token_cache,
            final(self).api_base == old(self).api_base,
    {
        self.connected = false;
        Ok(())
    }

    /// The health: unhealthy when disconnected or without settings; in app
    /// mode healthy when a token can be had (`token_ok`), else degraded;
    /// healthy in webhook mode.
    pub fn health_from(&self, token_ok: bool) -> (r: HealthStatus)
        ensures
            r == if !self.connected {
                HealthStatus::Unhealthy
            } else {
                match mode_of(*self) {
                    DingTalkMode::App => if token_ok {
                        HealthStatus::Healthy
                    } else {
                        HealthStatus::Degraded
                    },
                    DingTalkMode::Webhook => HealthStatus::Healthy,
                    DingTalkMode::Unconfigured => HealthStatus::Unhealthy,
                }
            },
    {
        if !self.connected {
            return HealthStatus::Unhealthy;
        }
        match self.mode() {
            DingTalkMode::App => if token_ok {
                HealthStatus::Healthy
            } else {
                HealthStatus::Degraded
            },
            DingTalkMode::Webhook => HealthStatus::Healthy,
            DingTalkMode::Unconfigured => HealthStatus::Unhealthy,
        }
    }

    /// In webhook mode, the send a call makes at `millis` milliseconds past
    /// the epoch: the webhook URL (signed when a secret is set) and the body.
    pub fn webhook_send_at(&self, name: &str, params: &JsonValue, millis: u64) -> (r: Result<WebhookSend, AdapterError>)
        requires
            self.webhook_url is Some,
        ensures
            r matches Ok(s) ==> s.url@ == match self.webhook_secret {
                Some(k) => signed_webhook_url(self.webhook_url->0@, k@, millis),
                None => self.webhook_url->0@,
            },
            webhook_body_outcome(
                name@,
                *params,
                match r {
                    Ok(s) => Ok(s.body),
                    Err(e) => Err(e),
                },
            ),
    {
        let url = match &self.webhook_url {
            Some(u) => match &self.webhook_secret {
                Some(k) => sign_webhook_url_at(u.as_str(), k.as_str(), millis),
                None => u.clone(),
            },
            None => String::new(),
        };
        match webhook_body(name, params) {
            Ok(body) => Ok(WebhookSend { url, body }),
            Err(e) => Err(e),
        }
    }

    /// In app mode, the answer of a tool once a token is had: the text
    /// message is echoed for delivery elsewhere, the markdown fields are
    /// echoed, and a card echoes its parameters.
    pub fn app_tool_result(&self, name: &str, params: JsonValue) -> (r: Result<JsonValue, AdapterError>)
        ensures
            name@ == "dingtalk_send_text"@ ==> match str_field(params, "content"@) {
                None => r matches Err(e) && is_invalid_params(e, name@, dingtalk_missing_reason("content"@)),
                Some(c) => r matches Ok(j) && keys_of(j) == seq!["success"@, "note"@, "content"@] && value_at(j, 0)
                    == JsonValue::Bool(true) && str_of(value_at(j, 2)) == Some(c),
            },
            name@ == "dingtalk_send_markdown"@ ==> (r matches Ok(j) && keys_of(j) == seq!["success"@, "title"@, "text"@]
                && str_of(value_at(j, 1)) == Some(match str_field(params, "title"@) {
                Some(t) => t,
                None => Seq::empty(),
            }) && str_of(value_at(j, 2)) == Some(match str_field(params, "text"@) {
                Some(t) => t,
                None => Seq::empty(),
            })),
            name@ == "dingtalk_send_card"@ ==> (r matches Ok(j) && keys_of(j) == seq!["success"@, "params"@]
                && value_at(j, 1) == params),
            !(name@ == "dingtalk_send_text"@ || name@ == "dingtalk_send_markdown"@ || name@ == "dingtalk_send_card"@)
                ==> (r matches Err(e) && is_tool_not_found(e, self.id@, name@)),
    {
        proof {
            reveal_strlit("dingtalk_send_text");
            reveal_strlit("dingtalk_send_markdown");
            reveal_strlit("dingtalk_send_card");
            reveal_strlit("");
            assert("dingtalk_send_text"@.len() == 18 && "dingtalk_send_markdown"@.len() == 22);
            assert("dingtalk_send_card"@.len() == 18 && "dingtalk_send_text"@[14] != "dingtalk_send_card"@[14]);
        }
        if same_text(name, "dingtalk_send_text") {
            let content = match get_str(&params, "content") {
                Some(c) => c,
                None => {
                    return Err(invalid_params(name, missing("content")));
                },
            };
            let mut es: Vec<(String, JsonValue)> = Vec::new();
            es.push((String::from_str("success"), JsonValue::Bool(true)));
            es.push((
                String::from_str("note"),
                JsonValue::from_str_value("App mode: deliver via robot/sendByOpenConversationId with open_conversation_id"),
            ));
            es.push((String::from_str("content"), JsonValue::Str(content)));
            let j = JsonValue::Object(es);
            assert(keys_of(j) =~= seq!["success"@, "note"@, "content"@]);
            return Ok(j);
        }
        if same_text(name, "dingtalk_send_markdown") {
            let title = match get_str(&params, "title") {
                Some(t) => t,
                None => String::from_str(""),
            };
            let text = match get_str(&params, "text") {
                Some(t) => t,
                None => String::from_str(""),
            };
            let mut es: Vec<(String, JsonValue)> = Vec::new();
            es.push((String::from_str("success"), JsonValue::Bool(true)));
            es.push((String::from_str("title"), JsonValue::Str(title)));
            es.push((String::from_str("text"), JsonValue::Str(text)));
            let j = JsonValue::Object(es);
            assert(keys_of(j) =~= seq!["success"@, "title"@, "text"@]);
            return Ok(j);
        }
        if same_text(name, "dingtalk_send_card") {
            let mut es: Vec<(String, JsonValue)> = Vec::new();
            es.push((String::from_str("success"), JsonValue::Bool(true)));
            es.push((String::from_str("params"), params));
            let j = JsonValue::Object(es);
            assert(keys_of(j) =~= seq!["success"@, "params"@]);
            return Ok(j);
        }
        Err(crate::traits::tool_not_found(self.id.as_str(), name))
    }
}

} // verus!
