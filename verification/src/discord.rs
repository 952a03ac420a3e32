//! Discord Bot API (v10) adapter: messages, channels, guilds and reactions.
//!
//! A call is checked and turned into a [`DiscordRequest`]; sending it is
//! left to the caller, and the reply is read by [`discord_reply`].

use vstd::prelude::*;
use vstd::string::*;

use crate::error::{AdapterError, execution_failed, invalid_params, is_auth_required, is_execution_failed, is_invalid_params, missing_field, missing_field_reason};
use crate::json::{
    JsonValue, first_absent, first_missing, get_i64, get_str, get_u64, i64_field, keys_of, lemma_first_absent,
    str_field, str_of, u64_field, value_at,
};
use crate::text::{decimal, i64_to_decimal, same_text, signed_decimal, u64_to_decimal};
use crate::traits::{
    AdapterType, AuthRequirement, HealthStatus, HttpMethod, ParamSchema, SchemaKind, ToolDefinition,
    auth_requirement, bare_schema, credential_health, ensure_connected, is_not_connected_error,
    is_tool_not_found, params_of, strings_of, tool, tool_not_found, tool_shape, views, is_unknown_tool, lists_tool, ParamDoc, param_docs, tool_doc};
use crate::urlencoding::{encode, percent_encoded};

verus! {

/// Discord API v10 base URL.
pub const API_BASE_URL: &'static str = "https://discord.com/api/v10";

/// Discord Bot API adapter.
#[derive(Debug)]
pub struct DiscordAdapter {
    pub id: String,
    pub connected: bool,
    /// Discord bot token for authentication.
    pub bot_token: Option<String>,
}

/// A request for the Discord API.
#[derive(Debug)]
pub struct DiscordRequest {
    pub tool: String,
    pub method: HttpMethod,
    pub url: String,
    /// Bot token (sent as `Authorization: Bot <token>`).
    pub token: String,
    /// JSON body of a POST.
    pub body: Option<JsonValue>,
}

/// Whether `name` is one of the five Discord tools.
pub open spec fn is_discord_tool(name: Seq<char>) -> bool {
    name == "discord_send_message"@ || name == "discord_get_messages"@ || name == "discord_get_channel"@
        || name == "discord_get_guild"@ || name == "discord_create_reaction"@
}

/// The string parameters a tool requires, in the order they are checked.
pub open spec fn discord_fields(name: Seq<char>) -> Seq<Seq<char>> {
    if name == "discord_send_message"@ {
        seq!["channel_id"@, "content"@]
    } else if name == "discord_get_guild"@ {
        seq!["guild_id"@]
    } else if name == "discord_create_reaction"@ {
        seq!["channel_id"@, "message_id"@, "emoji"@]
    } else {
        seq!["channel_id"@]
    }
}

/// A string parameter, or empty.
pub open spec fn param_text(params: JsonValue, key: Seq<char>) -> Seq<char> {
    match str_field(params, key) {
        Some(s) => s,
        None => Seq::empty(),
    }
}

/// The URL a tool asks for.
pub open spec fn discord_url(name: Seq<char>, params: JsonValue) -> Seq<char> {
    let channel = API_BASE_URL@ + "/channels/"@ + param_text(params, "channel_id"@);
    if name == "discord_send_message"@ {
        channel + "/messages"@
    } else if name == "discord_get_messages"@ {
        let limit = match u64_field(params, "limit"@) {
            Some(n) => n,
            None => 50,
        };
        channel + "/messages?limit="@ + decimal(limit as nat)
    } else if name == "discord_get_channel"@ {
        channel
    } else if name == "discord_get_guild"@ {
        API_BASE_URL@ + "/guilds/"@ + param_text(params, "guild_id"@)
    } else {
        channel + "/messages/"@ + param_text(params, "message_id"@) + "/reactions/"@ + percent_encoded(
            vstd::utf8::encode_utf8(param_text(params, "emoji"@)),
        ) + "/@me"@
    }
}

/// The method a tool uses.
pub open spec fn discord_method(name: Seq<char>) -> HttpMethod {
    if name == "discord_send_message"@ {
        HttpMethod::Post
    } else if name == "discord_create_reaction"@ {
        HttpMethod::Put
    } else {
        HttpMethod::Get
    }
}

/// What a Discord call gives: the checks in order (connection, tool name,
/// token, parameters), then the request.
pub open spec fn discord_plan_outcome(a: DiscordAdapter, name: Seq<char>, params: JsonValue, r: Result<DiscordRequest, AdapterError>) -> bool {
    if !a.connected {
        r matches Err(e) && is_not_connected_error(e, a.id@, name)
    } else if !is_discord_tool(name) {
        r matches Err(e) && is_tool_not_found(e, a.id@, name)
    } else {
        match a.bot_token {
            None => r matches Err(e) && is_auth_required(e, a.id@, "discord"@),
            Some(t) => match first_absent(params, discord_fields(name)) {
                Some(k) => r matches Err(e) && is_invalid_params(e, name, missing_field_reason(k)),
                None => r matches Ok(q) && q.tool@ == name && q.token@ == t@ && q.url@ == discord_url(name, params)
                    && q.method == discord_method(name) && if name == "discord_send_message"@ {
                    q.body matches Some(b) && keys_of(b) == seq!["content"@] && str_of(value_at(b, 0))
                        == str_field(params, "content"@)
                } else {
                    q.body is None
                },
            },
        }
    }
}

fn param_string(params: &JsonValue, key: &str) -> (r: String)
    ensures
        r@ == param_text(*params, key@),
{
    match get_str(params, key) {
        Some(s) => s,
        None => String::new(),
    }
}

/// The tools the adapter lists are exactly those it executes: once connected, a
/// call is answered "tool not found" exactly when `tools` does not list its
/// name.
pub proof fn law_listed_tools_are_executed(a: DiscordAdapter, ts: Seq<ToolDefinition>, name: Seq<char>, params: JsonValue, r: Result<DiscordRequest, AdapterError>)
    requires
        discord_tool_shapes(ts),
        a.connected,
        discord_plan_outcome(a, name, params, r),
    ensures
        is_unknown_tool(r) <==> !lists_tool(ts, name),
{
    if name == "discord_send_message"@ {
        assert(ts[0].name@ == name);
    } else if name == "discord_get_messages"@ {
        assert(ts[1].name@ == name);
    } else if name == "discord_get_channel"@ {
        assert(ts[2].name@ == name);
    } else if name == "discord_get_guild"@ {
        assert(ts[3].name@ == name);
    } else if name == "discord_create_reaction"@ {
        assert(ts[4].name@ == name);
    }
}

/// The five tool names have these lengths, and the two of equal length
/// differ; so no two of them are equal.
proof fn lemma_tool_names()
    ensures
        "discord_send_message"@.len() == 20,
        "discord_get_messages"@.len() == 20,
        "discord_get_channel"@.len() == 19,
        "discord_get_guild"@.len() == 17,
        "discord_create_reaction"@.len() == 23,
        "discord_send_message"@ != "discord_get_messages"@,
{
    reveal_strlit("discord_send_message");
    reveal_strlit("discord_get_messages");
    reveal_strlit("discord_get_channel");
    reveal_strlit("discord_get_guild");
    reveal_strlit("discord_create_reaction");
    assert("discord_send_message"@[8] != "discord_get_messages"@[8]);
}

/// `API_BASE_URL` followed by `/channels/` or `/guilds/`, spelled out.
proof fn lemma_channels_base()
    ensures
        API_BASE_URL@ + "/channels/"@ == "https://discord.com/api/v10/channels/"@,
        API_BASE_URL@ + "/guilds/"@ == "https://discord.com/api/v10/guilds/"@,
{
    reveal_strlit("https://discord.com/api/v10");
    reveal_strlit("https://discord.com/api/v10/channels/");
    reveal_strlit("https://discord.com/api/v10/guilds/");
    reveal_strlit("/channels/");
    reveal_strlit("/guilds/");
    assert(API_BASE_URL@ + "/channels/"@ =~= "https://discord.com/api/v10/channels/"@);
    assert(API_BASE_URL@ + "/guilds/"@ =~= "https://discord.com/api/v10/guilds/"@);
}

/// Sending posts the given content to the given channel: once connected and
/// with a bot token, `discord_send_message` with string `channel_id` and
/// `content` is a POST to
/// `https://discord.com/api/v10/channels/<channel_id>/messages` whose body is
/// `{"content": <content>}`.
pub proof fn law_send_message(a: DiscordAdapter, params: JsonValue, r: Result<DiscordRequest, AdapterError>, channel: Seq<char>, content: Seq<char>)
    requires
        a.connected,
        a.bot_token is Some,
        str_field(params, "channel_id"@) == Some(channel),
        str_field(params, "content"@) == Some(content),
        discord_plan_outcome(a, "discord_send_message"@, params, r),
    ensures
        r matches Ok(q) && q.method == HttpMethod::Post && q.url@ == "https://discord.com/api/v10/channels/"@ + channel
            + "/messages"@ && (q.body matches Some(b) && keys_of(b) == seq!["content"@] && str_of(value_at(b, 0))
            == Some(content)),
{
    lemma_tool_names();
    lemma_channels_base();
    reveal_with_fuel(first_absent, 3);
    let fields = discord_fields("discord_send_message"@);
    assert(fields == seq!["channel_id"@, "content"@]);
    assert(fields.drop_first() =~= seq!["content"@]);
    assert(fields.drop_first().drop_first() =~= Seq::<Seq<char>>::empty());
    assert(first_absent(params, fields) is None);
}

/// Looking up a channel or a guild asks for the one given: once connected and
/// with a bot token, `discord_get_channel` with a string `channel_id` is a GET
/// of `https://discord.com/api/v10/channels/<channel_id>`, and
/// `discord_get_guild` with a string `guild_id` a GET of
/// `https://discord.com/api/v10/guilds/<guild_id>`.
pub proof fn law_lookups(a: DiscordAdapter, name: Seq<char>, params: JsonValue, r: Result<DiscordRequest, AdapterError>, id: Seq<char>)
    requires
        a.connected,
        a.bot_token is Some,
        name == "discord_get_channel"@ ==> str_field(params, "channel_id"@) == Some(id),
        name == "discord_get_guild"@ ==> str_field(params, "guild_id"@) == Some(id),
        name == "discord_get_channel"@ || name == "discord_get_guild"@,
        discord_plan_outcome(a, name, params, r),
    ensures
        r matches Ok(q) && q.method == HttpMethod::Get && q.url@ == (if name == "discord_get_channel"@ {
            "https://discord.com/api/v10/channels/"@
        } else {
            "https://discord.com/api/v10/guilds/"@
        }) + id,
{
    lemma_tool_names();
    lemma_channels_base();
    reveal_with_fuel(first_absent, 2);
    let fields = discord_fields(name);
    assert(fields.drop_first() =~= Seq::<Seq<char>>::empty());
    assert(first_absent(params, fields) is None);
}

/// Reacting puts the given emoji on the given message: once connected and
/// with a bot token, `discord_create_reaction` with string `channel_id`,
/// `message_id` and `emoji` is a PUT to
/// `https://discord.com/api/v10/channels/<channel_id>/messages/<message_id>/reactions/<emoji>/@me`,
/// the emoji percent-encoded as UTF-8.
pub proof fn law_reaction(a: DiscordAdapter, params: JsonValue, r: Result<DiscordRequest, AdapterError>, channel: Seq<char>, message: Seq<char>, emoji: Seq<char>)
    requires
        a.connected,
        a.bot_token is Some,
        str_field(params, "channel_id"@) == Some(channel),
        str_field(params, "message_id"@) == Some(message),
        str_field(params, "emoji"@) == Some(emoji),
        discord_plan_outcome(a, "discord_create_reaction"@, params, r),
    ensures
        r matches Ok(q) && q.method == HttpMethod::Put && q.body is None && q.url@
            == "https://discord.com/api/v10/channels/"@ + channel + "/messages/"@ + message + "/reactions/"@
            + percent_encoded(vstd::utf8::encode_utf8(emoji)) + "/@me"@,
{
    lemma_tool_names();
    lemma_channels_base();
    reveal_with_fuel(first_absent, 4);
    let fields = discord_fields("discord_create_reaction"@);
    assert(fields == seq!["channel_id"@, "message_id"@, "emoji"@]);
    assert(fields.drop_first() =~= seq!["message_id"@, "emoji"@]);
    assert(fields.drop_first().drop_first() =~= seq!["emoji"@]);
    assert(fields.drop_first().drop_first().drop_first() =~= Seq::<Seq<char>>::empty());
    assert(first_absent(params, fields) is None);
}

/// Reading messages asks for as many as the caller gives: once connected and
/// with a bot token, `discord_get_messages` with a string `channel_id` is a
/// GET of `https://discord.com/api/v10/channels/<channel_id>/messages?limit=<n>`,
/// where `n` is the integer `limit` parameter, or 50 when there is none.
pub proof fn law_messages_limit(a: DiscordAdapter, params: JsonValue, r: Result<DiscordRequest, AdapterError>, channel: Seq<char>)
    requires
        a.connected,
        a.bot_token is Some,
        str_field(params, "channel_id"@) == Some(channel),
        discord_plan_outcome(a, "discord_get_messages"@, params, r),
    ensures
        r is Ok,
        r matches Ok(q) && q.method == HttpMethod::Get,
        forall|n: u64| u64_field(params, "limit"@) == Some(n) ==> (r matches Ok(q) && q.url@
            == "https://discord.com/api/v10/channels/"@ + channel + "/messages?limit="@ + decimal(n as nat)),
        u64_field(params, "limit"@) is None ==> (r matches Ok(q) && q.url@
            == "https://discord.com/api/v10/channels/"@ + channel + "/messages?limit=50"@),
{
    lemma_tool_names();
    lemma_channels_base();
    reveal_strlit("/messages?limit=");
    reveal_strlit("/messages?limit=50");
    reveal_strlit("50");
    let fields = discord_fields("discord_get_messages"@);
    assert(fields == seq!["channel_id"@]);
    reveal_with_fuel(first_absent, 2);
    assert(fields.drop_first() =~= Seq::<Seq<char>>::empty());
    assert(first_absent(params, fields) is None);
    reveal_with_fuel(decimal, 2);
    assert(decimal(50) =~= "50"@);
    assert("/messages?limit="@ + decimal(50) =~= "/messages?limit=50"@);
}

impl DiscordAdapter {
    /// A new adapter with no token.
    pub fn new(id: &str) -> (r: Self)
        ensures
            r.id@ == id@,
            !r.connected,
            r.bot_token is None,
    {
        DiscordAdapter { id: String::from_str(id), connected: false, bot_token: None }
    }

    /// A new adapter with a bot token.
    pub fn with_token(id: &str, bot_token: &str) -> (r: Self)
        ensures
            r.id@ == id@,
            !r.connected,
            r.bot_token matches Some(t) && t@ == bot_token@,
    {
        DiscordAdapter { id: String::from_str(id), connected: false, bot_token: Some(String::from_str(bot_token)) }
    }

    /// The bot token, or `AuthRequired` when there is none.
    pub fn resolve_token(&self) -> (r: Result<String, AdapterError>)
        ensures
            match self.bot_token {
                Some(t) => r matches Ok(x) && x@ == t@,
                None => r matches Err(e) && is_auth_required(e, self.id@, "discord"@),
            },
    {
        match &self.bot_token {
            Some(t) => Ok(t.clone()),
            None => Err(crate::error::auth_required(self.id.as_str(), "discord")),
        }
    }

    /// A full API URL: the API base followed by `path`.
    pub fn api_url(path: &str) -> (r: String)
        ensures
            r@ == API_BASE_URL@ + path@,
    {
        let mut s = String::from_str(API_BASE_URL);
        s.append(path);
        s
    }

    /// The adapter's id.
    pub fn id(&self) -> (r: &str)
        ensures
            r@ == self.id@,
    {
        self.id.as_str()
    }

    /// The adapter's category.
    pub fn adapter_type(&self) -> (r: AdapterType)
        ensures
            r == AdapterType::Messaging,
    {
        AdapterType::Messaging
    }

    /// Discord credentials with the bot, message, guild and reaction scopes.
    pub fn required_auth(&self) -> (r: Option<AuthRequirement>)
        ensures
            r matches Some(a) && a.provider@ == "discord"@ && views(a.scopes@) == seq![
                "bot"@,
                "messages.read"@,
                "messages.write"@,
                "guilds.read"@,
                "reactions.write"@,
            ],
    {
        Some(auth_requirement("discord", &["bot", "messages.read", "messages.write", "guilds.read", "reactions.write"]))
    }

    /// The five Discord tools.
    pub fn tools(&self) -> (r: Vec<ToolDefinition>)
        ensures
            discord_tool_shapes(r@),
    {
        discord_tool_definitions()
    }

    /// Connects; without a configured token, takes the `DISCORD_BOT_TOKEN`
    /// value `env_token` when it is set and not empty.
    pub fn complete_connect(&mut self, env_token: Option<String>) -> (r: Result<(), AdapterError>)
        ensures
            r is Ok,
            final(self).connected,
            final(self).id == old(self).id,
            old(self).bot_token is Some ==> final(self).bot_token == old(self).bot_token,
            old(self).bot_token is None ==> match env_token {
                Some(t) => if t@.len() > 0 {
                    final(self).bot_token == Some(t)
                } else {
                    final(self).bot_token is None
                },
                None => final(self).bot_token is None,
            },
    {
        if self.bot_token.is_none() {
            match env_token {
                Some(t) => {
                    if !t.as_str().is_empty() {
                        self.bot_token = Some(t);
                    }
                },
                None => {},
            }
        }
        self.connected = true;
        Ok(())
    }

    /// Disconnects and forgets the token.
    pub fn disconnect(&mut self) -> (r: Result<(), AdapterError>)
        ensures
            r is Ok,
            !final(self).connected,
            final(self).bot_token is None,
            final(self).id == old(self).id,
    {
        self.bot_token = None;
        self.connected = false;
        Ok(())
    }

    /// Unhealthy when disconnected, degraded without a token.
    pub fn health_check(&self) -> (r: Result<HealthStatus, AdapterError>)
        ensures
            r == Ok::<HealthStatus, AdapterError>(credential_health(self.connected, self.bot_token is Some)),
    {
        if !self.connected {
            Ok(HealthStatus::Unhealthy)
        } else if self.bot_token.is_some() {
            Ok(HealthStatus::Healthy)
        } else {
            Ok(HealthStatus::Degraded)
        }
    }

    /// Checks a call and turns it into a request.
    #[verifier::rlimit(50)]
    pub fn plan_tool(&self, name: &str, params: &JsonValue) -> (r: Result<DiscordRequest, AdapterError>)
        ensures
            discord_plan_outcome(*self, name@, *params, r),
    {
        match ensure_connected(self.connected, self.id.as_str(), name) {
            Ok(()) => {},
            Err(e) => {
                return Err(e);
            },
        }
        let n0 = same_text(name, "discord_send_message");
        let n1 = same_text(name, "discord_get_messages");
        let n2 = same_text(name, "discord_get_channel");
        let n3 = same_text(name, "discord_get_guild");
        let n4 = same_text(name, "discord_create_reaction");
        if !(n0 || n1 || n2 || n3 || n4) {
            return Err(tool_not_found(self.id.as_str(), name));
        }
        let token = match self.resolve_token() {
            Ok(t) => t,
            Err(e) => {
                return Err(e);
            },
        };
        proof {
            reveal_strlit("discord_send_message");
            reveal_strlit("discord_get_messages");
            reveal_strlit("discord_get_channel");
            reveal_strlit("discord_get_guild");
            reveal_strlit("discord_create_reaction");
            assert("discord_send_message"@.len() == 20 && "discord_get_messages"@.len() == 20);
            assert("discord_get_channel"@.len() == 19 && "discord_get_guild"@.len() == 17);
            assert("discord_create_reaction"@.len() == 23);
            assert("discord_send_message"@[8] != "discord_get_messages"@[8]);
        }
        let fields: &[&str] = if n0 {
            &["channel_id", "content"]
        } else if n3 {
            &["guild_id"]
        } else if n4 {
            &["channel_id", "message_id", "emoji"]
        } else {
            &["channel_id"]
        };
        assert(fields@.map_values(|k: &str| k@) =~= discord_fields(name@));
        match first_missing(params, fields) {
            Some(i) => {
                return Err(invalid_params(name, missing_field(fields[i])));
            },
            None => {},
        }
        proof {
            lemma_first_absent(*params, discord_fields(name@));
        }
        let mut method = HttpMethod::Get;
        let mut body: Option<JsonValue> = None;
        let url = if n3 {
            let mut u = String::from_str(API_BASE_URL);
            u.append("/guilds/");
            let g = param_string(params, "guild_id");
            u.append(g.as_str());
            u
        } else {
            let mut u = String::from_str(API_BASE_URL);
            u.append("/channels/");
            let c = param_string(params, "channel_id");
            u.append(c.as_str());
            if n0 {
                u.append("/messages");
                method = HttpMethod::Post;
                let content = param_string(params, "content");
                let mut es: Vec<(String, JsonValue)> = Vec::new();
                es.push((String::from_str("content"), JsonValue::Str(content)));
                let b = JsonValue::Object(es);
                assert(keys_of(b) =~= seq!["content"@]);
                body = Some(b);
            } else if n1 {
                let limit: u64 = match get_u64(params, "limit") {
                    Some(n) => n,
                    None => 50,
                };
                u.append("/messages?limit=");
                let l = u64_to_decimal(limit);
                u.append(l.as_str());
            } else if n4 {
                let m = param_string(params, "message_id");
                let e = param_string(params, "emoji");
                let enc = encode(e.as_str());
                u.append("/messages/");
                u.append(m.as_str());
                u.append("/reactions/");
                u.append(enc.as_str());
                u.append("/@me");
                method = HttpMethod::Put;
            }
            u
        };
        Ok(DiscordRequest { tool: String::from_str(name), method, url, token, body })
    }
}

/// The reason given for an unsuccessful Discord reply; `status_text` is the
/// HTTP status as written (`404 Not Found`).
pub open spec fn discord_error_reason(reply: JsonValue, status_text: Seq<char>) -> Seq<char> {
    let message = match str_field(reply, "message"@) {
        Some(m) => m,
        None => "unknown error"@,
    };
    let code = match i64_field(reply, "code"@) {
        Some(c) => c,
        None => -1i64,
    };
    "Discord API error (code "@ + signed_decimal(code as int) + ", status "@ + status_text + "): "@ + message
}

/// Reads a Discord reply: `{success: true}` for 204 No Content, the parsed
/// reply for another success, an error otherwise.
pub fn discord_reply(no_content: bool, success: bool, status_text: &str, reply: JsonValue, tool_name: &str) -> (r: Result<JsonValue, AdapterError>)
    ensures
        no_content ==> (r matches Ok(j) && keys_of(j) == seq!["success"@] && value_at(j, 0) == JsonValue::Bool(true)),
        !no_content && success ==> r == Ok::<JsonValue, AdapterError>(reply),
        !no_content && !success ==> (r matches Err(e) && is_execution_failed(
            e,
            tool_name@,
            discord_error_reason(reply, status_text@),
        )),
{
    if no_content {
        let mut es: Vec<(String, JsonValue)> = Vec::new();
        es.push((String::from_str("success"), JsonValue::Bool(true)));
        let j = JsonValue::Object(es);
        assert(keys_of(j) =~= seq!["success"@]);
        return Ok(j);
    }
    if !success {
        let message = match get_str(&reply, "message") {
            Some(m) => m,
            None => String::from_str("unknown error"),
        };
        let code: i64 = match get_i64(&reply, "code") {
            Some(c) => c,
            None => -1,
        };
        let mut reason = String::from_str("Discord API error (code ");
        let c = i64_to_decimal(code);
        reason.append(c.as_str());
        reason.append(", status ");
        reason.append(status_text);
        reason.append("): ");
        reason.append(message.as_str());
        return Err(execution_failed(tool_name, reason));
    }
    Ok(reply)
}

/// The result of a Discord tool: `{success: true, data}`.
pub fn discord_tool_result(data: JsonValue) -> (j: JsonValue)
    ensures
        keys_of(j) == seq!["success"@, "data"@],
        value_at(j, 0) == JsonValue::Bool(true),
        value_at(j, 1) == data,
{
    let mut es: Vec<(String, JsonValue)> = Vec::new();
    es.push((String::from_str("success"), JsonValue::Bool(true)));
    es.push((String::from_str("data"), data));
    let j = JsonValue::Object(es);
    assert(keys_of(j) =~= seq!["success"@, "data"@]);
    j
}

/// The five Discord tools, in order: names, descriptions, parameters with JSON types
/// and documentation, and required parameters.
pub open spec fn discord_tool_shapes(ts: Seq<ToolDefinition>) -> bool {
    &&& ts.len() == 5
    &&& tool_shape(ts[0], "discord_send_message"@, seq![("channel_id"@, SchemaKind::Str), ("content"@, SchemaKind::Str)], Some(seq!["channel_id"@, "content"@]))
    &&& tool_shape(ts[1], "discord_get_messages"@, seq![("channel_id"@, SchemaKind::Str), ("limit"@, SchemaKind::Integer)], Some(seq!["channel_id"@]))
    &&& tool_shape(ts[2], "discord_get_channel"@, seq![("channel_id"@, SchemaKind::Str)], Some(seq!["channel_id"@]))
    &&& tool_shape(ts[3], "discord_get_guild"@, seq![("guild_id"@, SchemaKind::Str)], Some(seq!["guild_id"@]))
    &&& tool_shape(ts[4], "discord_create_reaction"@, seq![("channel_id"@, SchemaKind::Str), ("message_id"@, SchemaKind::Str), ("emoji"@, SchemaKind::Str)], Some(seq!["channel_id"@, "message_id"@, "emoji"@]))
    &&& tool_doc(ts[0], "Send a message to a Discord channel"@, seq![(Some("The ID of the Discord channel to send the message to"@), Seq::<Seq<char>>::empty(), None, None), (Some("The message content to send"@), Seq::<Seq<char>>::empty(), None, None)])
    &&& tool_doc(ts[1], "Get recent messages from a Discord channel"@, seq![(Some("The ID of the Discord channel to retrieve messages from"@), Seq::<Seq<char>>::empty(), None, None), (Some("Number of messages to retrieve (default: 50, max: 100)"@), Seq::<Seq<char>>::empty(), None, None)])
    &&& tool_doc(ts[2], "Get information about a Discord channel"@, seq![(Some("The ID of the Discord channel"@), Seq::<Seq<char>>::empty(), None, None)])
    &&& tool_doc(ts[3], "Get information about a Discord guild (server)"@, seq![(Some("The ID of the Discord guild"@), Seq::<Seq<char>>::empty(), None, None)])
    &&& tool_doc(ts[4], "Add a reaction emoji to a Discord message"@, seq![(Some("The ID of the channel containing the message"@), Seq::<Seq<char>>::empty(), None, None), (Some("The ID of the message to react to"@), Seq::<Seq<char>>::empty(), None, None), (Some("The emoji to react with (Unicode emoji or custom format name:id)"@), Seq::<Seq<char>>::empty(), None, None)])
}

/// Builds the definitions of the five Discord tools.
#[verifier::rlimit(30)]
pub fn discord_tool_definitions() -> (r: Vec<ToolDefinition>)
    ensures
        discord_tool_shapes(r@),
{
    let mut ts: Vec<ToolDefinition> = Vec::new();
    let mut s1 = bare_schema(SchemaKind::Object);
    let mut p1: Vec<(String, ParamSchema)> = Vec::new();
    let mut s2 = bare_schema(SchemaKind::Str);
    s2.description = Some(String::from_str("The ID of the Discord channel to send the message to"));
    p1.push((String::from_str("channel_id"), s2));
    let mut s3 = bare_schema(SchemaKind::Str);
    s3.description = Some(String::from_str("The message content to send"));
    p1.push((String::from_str("content"), s3));
    s1.properties = p1;
    s1.has_properties = true;
    s1.required = Some(strings_of(&["channel_id", "content"]));
    ts.push(tool("discord_send_message", "Send a message to a Discord channel", s1));
    let mut s4 = bare_schema(SchemaKind::Object);
    let mut p4: Vec<(String, ParamSchema)> = Vec::new();
    let mut s5 = bare_schema(SchemaKind::Str);
    s5.description = Some(String::from_str("The ID of the Discord channel to retrieve messages from"));
    p4.push((String::from_str("channel_id"), s5));
    let mut s6 = bare_schema(SchemaKind::Integer);
    s6.description = Some(String::from_str("Number of messages to retrieve (default: 50, max: 100)"));
    p4.push((String::from_str("limit"), s6));
    s4.properties = p4;
    s4.has_properties = true;
    s4.required = Some(strings_of(&["channel_id"]));
    ts.push(tool("discord_get_messages", "Get recent messages from a Discord channel", s4));
    let mut s7 = bare_schema(SchemaKind::Object);
    let mut p7: Vec<(String, ParamSchema)> = Vec::new();
    let mut s8 = bare_schema(SchemaKind::Str);
    s8.description = Some(String::from_str("The ID of the Discord channel"));
    p7.push((String::from_str("channel_id"), s8));
    s7.properties = p7;
    s7.has_properties = true;
    s7.required = Some(strings_of(&["channel_id"]));
    ts.push(tool("discord_get_channel", "Get information about a Discord channel", s7));
    let mut s9 = bare_schema(SchemaKind::Object);
    let mut p9: Vec<(String, ParamSchema)> = Vec::new();
    let mut s10 = bare_schema(SchemaKind::Str);
    s10.description = Some(String::from_str("The ID of the Discord guild"));
    p9.push((String::from_str("guild_id"), s10));
    s9.properties = p9;
    s9.has_properties = true;
    s9.required = Some(strings_of(&["guild_id"]));
    ts.push(tool("discord_get_guild", "Get information about a Discord guild (server)", s9));
    let mut s11 = bare_schema(SchemaKind::Object);
    let mut p11: Vec<(String, ParamSchema)> = Vec::new();
    let mut s12 = bare_schema(SchemaKind::Str);
    s12.description = Some(String::from_str("The ID of the channel containing the message"));
    p11.push((String::from_str("channel_id"), s12));
    let mut s13 = bare_schema(SchemaKind::Str);
    s13.description = Some(String::from_str("The ID of the message to react to"));
    p11.push((String::from_str("message_id"), s13));
    let mut s14 = bare_schema(SchemaKind::Str);
    s14.description = Some(String::from_str("The emoji to react with (Unicode emoji or custom format name:id)"));
    p11.push((String::from_str("emoji"), s14));
    s11.properties = p11;
    s11.has_properties = true;
    s11.required = Some(strings_of(&["channel_id", "message_id", "emoji"]));
    ts.push(tool("discord_create_reaction", "Add a reaction emoji to a Discord message", s11));
    proof {
        assert(param_docs(ts@[0]) =~~= seq![(Some("The ID of the Discord channel to send the message to"@), Seq::<Seq<char>>::empty(), None, None), (Some("The message content to send"@), Seq::<Seq<char>>::empty(), None, None)]);
        assert(param_docs(ts@[1]) =~~= seq![(Some("The ID of the Discord channel to retrieve messages from"@), Seq::<Seq<char>>::empty(), None, None), (Some("Number of messages to retrieve (default: 50, max: 100)"@), Seq::<Seq<char>>::empty(), None, None)]);
        assert(param_docs(ts@[2]) =~~= seq![(Some("The ID of the Discord channel"@), Seq::<Seq<char>>::empty(), None, None)]);
        assert(param_docs(ts@[3]) =~~= seq![(Some("The ID of the Discord guild"@), Seq::<Seq<char>>::empty(), None, None)]);
        assert(param_docs(ts@[4]) =~~= seq![(Some("The ID of the channel containing the message"@), Seq::<Seq<char>>::empty(), None, None), (Some("The ID of the message to react to"@), Seq::<Seq<char>>::empty(), None, None), (Some("The emoji to react with (Unicode emoji or custom format name:id)"@), Seq::<Seq<char>>::empty(), None, None)]);
        assert(params_of(ts@[0]) =~= seq![("channel_id"@, SchemaKind::Str), ("content"@, SchemaKind::Str)]);
        assert(views(ts@[0].parameters.required->Some_0@) =~= seq!["channel_id"@, "content"@]);
        assert(params_of(ts@[1]) =~= seq![("channel_id"@, SchemaKind::Str), ("limit"@, SchemaKind::Integer)]);
        assert(views(ts@[1].parameters.required->Some_0@) =~= seq!["channel_id"@]);
        assert(params_of(ts@[2]) =~= seq![("channel_id"@, SchemaKind::Str)]);
        assert(views(ts@[2].parameters.required->Some_0@) =~= seq!["channel_id"@]);
        assert(params_of(ts@[3]) =~= seq![("guild_id"@, SchemaKind::Str)]);
        assert(views(ts@[3].parameters.required->Some_0@) =~= seq!["guild_id"@]);
        assert(params_of(ts@[4]) =~= seq![("channel_id"@, SchemaKind::Str), ("message_id"@, SchemaKind::Str), ("emoji"@, SchemaKind::Str)]);
        assert(views(ts@[4].parameters.required->Some_0@) =~= seq!["channel_id"@, "message_id"@, "emoji"@]);
    }
    ts
}

} // verus!
