//! Feishu (Lark) adapter: messages, chats, documents and users through the
//! Feishu Open Platform REST API.
//!
//! A call is checked and turned into a [`FeishuRequest`]; sending it is
//! left to the caller, and the reply is read by
//! [`api::feishu_tool_result`].

pub mod api;
pub mod tools;

use vstd::prelude::*;
use vstd::string::*;

use crate::error::{AdapterError, invalid_params, is_auth_required, is_invalid_params, missing_field, missing_field_reason};
use crate::feishu::api::{build_message_body, build_send_message_url, build_token_request_body};
use crate::feishu::tools::{build_tool_definitions, feishu_tool_shapes};
use crate::json::{
    JsonNumber, JsonValue, first_absent, first_missing, get_str, get_u64, keys_of, lemma_first_absent,
    str_field, str_of, u64_field, uint, value_at,
};
use crate::text::{decimal, same_text, u64_to_decimal};
use crate::traits::{
    AdapterType, AuthRequirement, HealthStatus, HttpMethod, ToolDefinition, auth_requirement,
    credential_health, ensure_connected, is_not_connected_error, is_tool_not_found, tool_not_found, views, is_unknown_tool, lists_tool};

verus! {

/// Default Feishu Open Platform API base URL.
pub const DEFAULT_BASE_URL: &'static str = "https://open.feishu.cn/open-apis";

/// Feishu Open Platform REST API adapter.
#[derive(Debug)]
pub struct FeishuAdapter {
    pub id: String,
    pub connected: bool,
    /// Feishu app ID for authentication.
    pub app_id: Option<String>,
    /// Feishu app secret for authentication.
    pub app_secret: Option<String>,
    /// Cached tenant access token.
    pub tenant_access_token: Option<String>,
    /// Base URL for the Feishu API.
    pub base_url: String,
}

/// A request for the Feishu API.
#[derive(Debug)]
pub struct FeishuRequest {
    pub tool: String,
    pub method: HttpMethod,
    pub url: String,
    /// Bearer token.
    pub token: String,
    /// JSON body of a POST.
    pub body: Option<JsonValue>,
}

/// Whether `name` is one of the six Feishu tools.
pub open spec fn is_feishu_tool(name: Seq<char>) -> bool {
    name == "feishu_send_message"@ || name == "feishu_list_chats"@ || name == "feishu_get_chat_messages"@
        || name == "feishu_create_doc"@ || name == "feishu_search_users"@ || name == "feishu_get_user_info"@
}

/// The string parameters a tool requires, in the order they are checked.
pub open spec fn feishu_fields(name: Seq<char>) -> Seq<Seq<char>> {
    if name == "feishu_send_message"@ {
        seq!["receive_id"@, "receive_id_type"@, "msg_type"@, "content"@]
    } else if name == "feishu_get_chat_messages"@ {
        seq!["container_id"@]
    } else if name == "feishu_create_doc"@ {
        seq!["title"@]
    } else if name == "feishu_search_users"@ {
        seq!["query"@]
    } else if name == "feishu_get_user_info"@ {
        seq!["user_id"@]
    } else {
        Seq::empty()
    }
}

/// A string parameter, or a default.
pub open spec fn str_or(params: JsonValue, key: Seq<char>, d: Seq<char>) -> Seq<char> {
    match str_field(params, key) {
        Some(s) => s,
        None => d,
    }
}

/// The `page_size` parameter, or 20.
pub open spec fn page_size_of(params: JsonValue) -> u64 {
    match u64_field(params, "page_size"@) {
        Some(n) => n,
        None => 20,
    }
}

/// The URL a tool asks for.
pub open spec fn feishu_url(base: Seq<char>, name: Seq<char>, params: JsonValue) -> Seq<char> {
    let size = decimal(page_size_of(params) as nat);
    if name == "feishu_send_message"@ {
        base + "/im/v1/messages?receive_id_type="@ + str_or(params, "receive_id_type"@, Seq::empty())
    } else if name == "feishu_list_chats"@ {
        let tok = str_or(params, "page_token"@, Seq::empty());
        base + "/im/v1/chats?page_size="@ + size + if tok.len() > 0 {
            "&page_token="@ + tok
        } else {
            Seq::empty()
        }
    } else if name == "feishu_get_chat_messages"@ {
        base + "/im/v1/messages?container_id_type=chat&container_id="@ + str_or(
            params,
            "container_id"@,
            Seq::empty(),
        ) + "&page_size="@ + size
    } else if name == "feishu_create_doc"@ {
        base + "/docx/v1/documents"@
    } else if name == "feishu_search_users"@ {
        base + "/search/v1/user"@
    } else {
        base + "/contact/v3/users/"@ + str_or(params, "user_id"@, Seq::empty()) + "?user_id_type="@ + str_or(
            params,
            "user_id_type"@,
            "open_id"@,
        )
    }
}

/// Whether a tool sends a POST.
pub open spec fn feishu_posts(name: Seq<char>) -> bool {
    name == "feishu_send_message"@ || name == "feishu_create_doc"@ || name == "feishu_search_users"@
}

/// Whether the body of a request is what the tool sends.
pub open spec fn feishu_body_ok(name: Seq<char>, params: JsonValue, body: Option<JsonValue>) -> bool {
    if name == "feishu_send_message"@ {
        body matches Some(b) && keys_of(b) == seq!["receive_id"@, "msg_type"@, "content"@] && str_of(value_at(b, 0))
            == str_field(params, "receive_id"@) && str_of(value_at(b, 1)) == str_field(params, "msg_type"@)
            && str_of(value_at(b, 2)) == str_field(params, "content"@)
    } else if name == "feishu_create_doc"@ {
        body matches Some(b) && keys_of(b) == seq!["title"@] + (if str_field(params, "folder_token"@) is Some {
            seq!["folder_token"@]
        } else {
            Seq::empty()
        }) && str_of(value_at(b, 0)) == str_field(params, "title"@) && (str_field(params, "folder_token"@) is Some
            ==> str_of(value_at(b, 1)) == str_field(params, "folder_token"@))
    } else if name == "feishu_search_users"@ {
        body matches Some(b) && keys_of(b) == seq!["query"@, "page_size"@] && str_of(value_at(b, 0)) == str_field(
            params,
            "query"@,
        ) && value_at(b, 1) == uint(page_size_of(params))
    } else {
        body is None
    }
}

/// What a Feishu call gives: the checks in order (connection, tool name,
/// token, parameters), then the request.
pub open spec fn feishu_plan_outcome(a: FeishuAdapter, name: Seq<char>, params: JsonValue, r: Result<FeishuRequest, AdapterError>) -> bool {
    if !a.connected {
        r matches Err(e) && is_not_connected_error(e, a.id@, name)
    } else if !is_feishu_tool(name) {
        r matches Err(e) && is_tool_not_found(e, a.id@, name)
    } else {
        match a.tenant_access_token {
            None => r matches Err(e) && is_auth_required(e, a.id@, "feishu"@),
            Some(t) => {
                match first_absent(params, feishu_fields(name)) {
                    Some(k) => r matches Err(e) && is_invalid_params(e, name, missing_field_reason(k)),
                    None => r matches Ok(q) && q.tool@ == name && q.token@ == t@ && q.url@ == feishu_url(
                        a.base_url@,
                        name,
                        params,
                    ) && q.method == (if feishu_posts(name) {
                        HttpMethod::Post
                    } else {
                        HttpMethod::Get
                    }) && feishu_body_ok(name, params, q.body),
                }
            },
        }
    }
}

fn str_param_or(params: &JsonValue, key: &str, d: &str) -> (r: String)
    ensures
        r@ == str_or(*params, key@, d@),
{
    match get_str(params, key) {
        Some(s) => s,
        None => String::from_str(d),
    }
}

/// The tools the adapter lists are exactly those it executes: once connected, a
/// call is answered "tool not found" exactly when `tools` does not list its
/// name.
pub proof fn law_listed_tools_are_executed(a: FeishuAdapter, ts: Seq<ToolDefinition>, name: Seq<char>, params: JsonValue, r: Result<FeishuRequest, AdapterError>)
    requires
        feishu_tool_shapes(ts),
        a.connected,
        feishu_plan_outcome(a, name, params, r),
    ensures
        is_unknown_tool(r) <==> !lists_tool(ts, name),
{
    if name == "feishu_send_message"@ {
        assert(ts[0].name@ == name);
    } else if name == "feishu_list_chats"@ {
        assert(ts[1].name@ == name);
    } else if name == "feishu_get_chat_messages"@ {
        assert(ts[2].name@ == name);
    } else if name == "feishu_create_doc"@ {
        assert(ts[3].name@ == name);
    } else if name == "feishu_search_users"@ {
        assert(ts[4].name@ == name);
    } else if name == "feishu_get_user_info"@ {
        assert(ts[5].name@ == name);
    }
}

/// The six tool names have these lengths, and those of equal length differ;
/// so no two of them are equal.
proof fn lemma_tool_names()
    ensures
        "feishu_send_message"@.len() == 19,
        "feishu_list_chats"@.len() == 17,
        "feishu_get_chat_messages"@.len() == 24,
        "feishu_create_doc"@.len() == 17,
        "feishu_search_users"@.len() == 19,
        "feishu_get_user_info"@.len() == 20,
        "feishu_list_chats"@ != "feishu_create_doc"@,
        "feishu_send_message"@ != "feishu_search_users"@,
{
    reveal_strlit("feishu_send_message");
    reveal_strlit("feishu_list_chats");
    reveal_strlit("feishu_get_chat_messages");
    reveal_strlit("feishu_create_doc");
    reveal_strlit("feishu_search_users");
    reveal_strlit("feishu_get_user_info");
    assert("feishu_list_chats"@[7] != "feishu_create_doc"@[7]);
    assert("feishu_send_message"@[9] != "feishu_search_users"@[9]);
}

/// The decimal of the default page size.
proof fn lemma_default_size()
    ensures
        decimal(20) == "20"@,
{
    reveal_strlit("20");
    reveal_with_fuel(decimal, 2);
    assert(decimal(20) =~= "20"@);
}

/// Sending posts the given message: once connected and with a tenant token,
/// `feishu_send_message` with string `receive_id`, `receive_id_type`,
/// `msg_type` and `content` is a POST to
/// `<base>/im/v1/messages?receive_id_type=<receive_id_type>` whose body is
/// `{"receive_id", "msg_type", "content"}` with those values.
pub proof fn law_send_message(a: FeishuAdapter, params: JsonValue, r: Result<FeishuRequest, AdapterError>, to: Seq<char>, to_type: Seq<char>, kind: Seq<char>, content: Seq<char>)
    requires
        a.connected,
        a.tenant_access_token is Some,
        str_field(params, "receive_id"@) == Some(to),
        str_field(params, "receive_id_type"@) == Some(to_type),
        str_field(params, "msg_type"@) == Some(kind),
        str_field(params, "content"@) == Some(content),
        feishu_plan_outcome(a, "feishu_send_message"@, params, r),
    ensures
        r matches Ok(q) && q.method == HttpMethod::Post && q.url@ == a.base_url@ + "/im/v1/messages?receive_id_type="@
            + to_type && (q.body matches Some(b) && keys_of(b) == seq!["receive_id"@, "msg_type"@, "content"@]
            && str_of(value_at(b, 0)) == Some(to) && str_of(value_at(b, 1)) == Some(kind) && str_of(value_at(b, 2))
            == Some(content)),
{
    lemma_tool_names();
    reveal_with_fuel(first_absent, 5);
    let fields = feishu_fields("feishu_send_message"@);
    assert(fields == seq!["receive_id"@, "receive_id_type"@, "msg_type"@, "content"@]);
    assert(fields.drop_first() =~= seq!["receive_id_type"@, "msg_type"@, "content"@]);
    assert(fields.drop_first().drop_first() =~= seq!["msg_type"@, "content"@]);
    assert(fields.drop_first().drop_first().drop_first() =~= seq!["content"@]);
    assert(fields.drop_first().drop_first().drop_first().drop_first() =~= Seq::<Seq<char>>::empty());
    assert(first_absent(params, fields) is None);
}

/// Reading a chat asks for the given chat and page size: once connected and
/// with a tenant token, `feishu_get_chat_messages` with a string
/// `container_id` is a GET of
/// `<base>/im/v1/messages?container_id_type=chat&container_id=<container_id>&page_size=<size>`,
/// where `size` is the integer `page_size` parameter or 20.
pub proof fn law_chat_messages(a: FeishuAdapter, params: JsonValue, r: Result<FeishuRequest, AdapterError>, chat: Seq<char>)
    requires
        a.connected,
        a.tenant_access_token is Some,
        str_field(params, "container_id"@) == Some(chat),
        feishu_plan_outcome(a, "feishu_get_chat_messages"@, params, r),
    ensures
        r matches Ok(q) && q.method == HttpMethod::Get && q.url@ == a.base_url@
            + "/im/v1/messages?container_id_type=chat&container_id="@ + chat + "&page_size="@ + match u64_field(
            params,
            "page_size"@,
        ) {
            Some(n) => decimal(n as nat),
            None => "20"@,
        },
{
    lemma_tool_names();
    lemma_default_size();
    reveal_with_fuel(first_absent, 2);
    let fields = feishu_fields("feishu_get_chat_messages"@);
    assert(fields == seq!["container_id"@]);
    assert(fields.drop_first() =~= Seq::<Seq<char>>::empty());
    assert(first_absent(params, fields) is None);
}

/// Looking up a user asks for the given user, by the given kind of id: once
/// connected and with a tenant token, `feishu_get_user_info` with a string
/// `user_id` is a GET of
/// `<base>/contact/v3/users/<user_id>?user_id_type=<type>`, where `type` is
/// the string `user_id_type` parameter or `open_id`.
pub proof fn law_user_info(a: FeishuAdapter, params: JsonValue, r: Result<FeishuRequest, AdapterError>, user: Seq<char>)
    requires
        a.connected,
        a.tenant_access_token is Some,
        str_field(params, "user_id"@) == Some(user),
        feishu_plan_outcome(a, "feishu_get_user_info"@, params, r),
    ensures
        r matches Ok(q) && q.method == HttpMethod::Get && q.url@ == a.base_url@ + "/contact/v3/users/"@ + user
            + "?user_id_type="@ + match str_field(params, "user_id_type"@) {
            Some(t) => t,
            None => "open_id"@,
        },
{
    lemma_tool_names();
    reveal_with_fuel(first_absent, 2);
    let fields = feishu_fields("feishu_get_user_info"@);
    assert(fields == seq!["user_id"@]);
    assert(fields.drop_first() =~= Seq::<Seq<char>>::empty());
    assert(first_absent(params, fields) is None);
}

/// Creating a document and searching users post what the caller gives: once
/// connected and with a tenant token, `feishu_create_doc` with a string
/// `title` is a POST to `<base>/docx/v1/documents` whose body starts with that
/// title, then the string `folder_token` when there is one; and
/// `feishu_search_users` with a string `query` is a POST to
/// `<base>/search/v1/user` whose body is that query and the integer
/// `page_size` parameter, or 20.
pub proof fn law_document_and_search(a: FeishuAdapter, name: Seq<char>, params: JsonValue, r: Result<FeishuRequest, AdapterError>, text: Seq<char>)
    requires
        a.connected,
        a.tenant_access_token is Some,
        name == "feishu_create_doc"@ ==> str_field(params, "title"@) == Some(text),
        name == "feishu_search_users"@ ==> str_field(params, "query"@) == Some(text),
        name == "feishu_create_doc"@ || name == "feishu_search_users"@,
        feishu_plan_outcome(a, name, params, r),
    ensures
        r matches Ok(q) && q.method == HttpMethod::Post && (q.body matches Some(b) && str_of(value_at(b, 0)) == Some(
            text,
        ) && (name == "feishu_create_doc"@ ==> q.url@ == a.base_url@ + "/docx/v1/documents"@ && keys_of(b)[0]
            == "title"@ && (str_field(params, "folder_token"@) matches Some(f) ==> keys_of(b) == seq![
            "title"@,
            "folder_token"@,
        ] && str_of(value_at(b, 1)) == Some(f)) && (str_field(params, "folder_token"@) is None ==> keys_of(b)
            == seq!["title"@])) && (name == "feishu_search_users"@ ==> q.url@ == a.base_url@ + "/search/v1/user"@
            && keys_of(b) == seq!["query"@, "page_size"@] && value_at(b, 1) == uint(
            match u64_field(params, "page_size"@) {
                Some(n) => n,
                None => 20,
            },
        ))),
{
    lemma_tool_names();
    reveal_with_fuel(first_absent, 2);
    let fields = feishu_fields(name);
    assert(fields.drop_first() =~= Seq::<Seq<char>>::empty());
    assert(first_absent(params, fields) is None);
    if name == "feishu_create_doc"@ {
        let b = r->Ok_0.body->Some_0;
        if str_field(params, "folder_token"@) is Some {
            assert(keys_of(b) =~= seq!["title"@, "folder_token"@]);
        } else {
            assert(keys_of(b) =~= seq!["title"@]);
        }
    }
}

/// Listing chats follows the page the caller asks for: once connected and
/// with a tenant token, `feishu_list_chats` is a GET of
/// `<base>/im/v1/chats?page_size=<size>`, where `size` is the integer
/// `page_size` parameter or 20, followed by `&page_token=<t>` exactly when the
/// `page_token` parameter is a non-empty string `t`.
pub proof fn law_chats_follow_page_token(a: FeishuAdapter, params: JsonValue, r: Result<FeishuRequest, AdapterError>)
    requires
        a.connected,
        a.tenant_access_token is Some,
        feishu_plan_outcome(a, "feishu_list_chats"@, params, r),
    ensures
        r is Ok,
        r matches Ok(q) && q.method == HttpMethod::Get,
        ({
            let first = a.base_url@ + "/im/v1/chats?page_size="@ + match u64_field(params, "page_size"@) {
                Some(n) => decimal(n as nat),
                None => "20"@,
            };
            &&& forall|t: Seq<char>| str_field(params, "page_token"@) == Some(t) && t.len() > 0 ==> (r matches Ok(q)
                && q.url@ == first + "&page_token="@ + t)
            &&& !(str_field(params, "page_token"@) matches Some(t) && t.len() > 0) ==> (r matches Ok(q) && q.url@
                == first)
        }),
{
    lemma_tool_names();
    lemma_default_size();
    assert(feishu_fields("feishu_list_chats"@) =~= Seq::<Seq<char>>::empty());
    assert(first_absent(params, feishu_fields("feishu_list_chats"@)) is None);
    let first = a.base_url@ + "/im/v1/chats?page_size="@ + decimal(page_size_of(params) as nat);
    assert(first + Seq::<char>::empty() =~= first);
}

impl FeishuAdapter {
    /// A new adapter with no credentials, for the default API URL.
    pub fn new(id: &str) -> (r: Self)
        ensures
            r.id@ == id@,
            !r.connected,
            r.app_id is None,
            r.app_secret is None,
            r.tenant_access_token is None,
            r.base_url@ == DEFAULT_BASE_URL@,
    {
        FeishuAdapter {
            id: String::from_str(id),
            connected: false,
            app_id: None,
            app_secret: None,
            tenant_access_token: None,
            base_url: String::from_str(DEFAULT_BASE_URL),
        }
    }

    /// A new adapter with app credentials.
    pub fn with_credentials(id: &str, app_id: &str, app_secret: &str) -> (r: Self)
        ensures
            r.id@ == id@,
            !r.connected,
            r.app_id matches Some(x) && x@ == app_id@,
            r.app_secret matches Some(x) && x@ == app_secret@,
            r.tenant_access_token is None,
            r.base_url@ == DEFAULT_BASE_URL@,
    {
        let mut a = Self::new(id);
        a.app_id = Some(String::from_str(app_id));
        a.app_secret = Some(String::from_str(app_secret));
        a
    }

    /// A full API URL: the base URL followed by `path`.
    pub fn api_url(&self, path: &str) -> (r: String)
        ensures
            r@ == self.base_url@ + path@,
    {
        let mut s = self.base_url.clone();
        s.append(path);
        s
    }

    /// The tenant access token, or `AuthRequired` when there is none.
    pub fn resolve_token(&self) -> (r: Result<String, AdapterError>)
        ensures
            match self.tenant_access_token {
                Some(t) => r matches Ok(x) && x@ == t@,
                None => r matches Err(e) && is_auth_required(e, self.id@, "feishu"@),
            },
    {
        match &self.tenant_access_token {
            Some(t) => Ok(t.clone()),
            None => Err(crate::error::auth_required(self.id.as_str(), "feishu")),
        }
    }

    /// The adapter's id.
    pub fn id(&self) -> (r: &str)
        ensures
            r@ == self.id@,
    {
        self.id.as_str()
    }

    /// The adapter's category.
    pub fn adapter_type(&self) -> (r: AdapterType)
        ensures
            r == AdapterType::Messaging,
    {
        AdapterType::Messaging
    }

    /// Feishu credentials with the messaging, chat, contact and document scopes.
    pub fn required_auth(&self) -> (r: Option<AuthRequirement>)
        ensures
            r matches Some(a) && a.provider@ == "feishu"@ && views(a.scopes@) == seq![
                "im:message"@,
                "im:chat"@,
                "contact:user.base"@,
                "docx:document"@,
            ],
    {
        Some(auth_requirement("feishu", &["im:message", "im:chat", "contact:user.base", "docx:document"]))
    }

    /// The six Feishu tools.
    pub fn tools(&self) -> (r: Vec<ToolDefinition>)
        ensures
            feishu_tool_shapes(r@),
    {
        build_tool_definitions()
    }

    /// Unhealthy when disconnected, degraded without a tenant token.
    pub fn health_check(&self) -> (r: Result<HealthStatus, AdapterError>)
        ensures
            r == Ok::<HealthStatus, AdapterError>(credential_health(self.connected, self.tenant_access_token is Some)),
    {
        if !self.connected {
            Ok(HealthStatus::Unhealthy)
        } else if self.tenant_access_token.is_some() {
            Ok(HealthStatus::Healthy)
        } else {
            Ok(HealthStatus::Degraded)
        }
    }

    /// The token request a connection makes, when app credentials are
    /// configured: its URL and body.
    pub fn token_request(&self) -> (r: Option<(String, JsonValue)>)
        ensures
            (self.app_id is Some && self.app_secret is Some) == r is Some,
            r matches Some(q) ==> q.0@ == self.base_url@ + "/auth/v3/tenant_access_token/internal"@ && keys_of(q.1)
                == seq!["app_id"@, "app_secret"@] && str_of(value_at(q.1, 0)) == Some(self.app_id->0@) && str_of(
                value_at(q.1, 1),
            ) == Some(self.app_secret->0@),
    {
        match (&self.app_id, &self.app_secret) {
            (Some(id), Some(secret)) => {
                let url = self.api_url("/auth/v3/tenant_access_token/internal");
                Some((url, build_token_request_body(id.as_str(), secret.as_str())))
            },
            _ => None,
        }
    }

    /// Completes a connection with the token obtained, if any: a failed
    /// token request still connects, without a token.
    pub fn complete_connect(&mut self, token: Option<String>) -> (r: Result<(), AdapterError>)
        ensures
            r is Ok,
            final(self).connected,
            token is Some ==> final(self).tenant_access_token == token,
            token is None ==> final(self).tenant_access_token == old(self).tenant_access_token,
            final(self).id == old(self).id,
            final(self).app_id == old(self).app_id,
            final(self).app_secret == old(self).app_secret,
            final(self).base_url == old(self).base_url,
    {
        if token.is_some() {
            self.tenant_access_token = token;
        }
        self.connected = true;
        Ok(())
    }

    /// Disconnects and forgets the tenant token.
    pub fn disconnect(&mut self) -> (r: Result<(), AdapterError>)
        ensures
            r is Ok,
            !final(self).connected,
            final(self).tenant_access_token is None,
            final(self).id == old(self).id,
            final(self).app_id == old(self).app_id,
            final(self).app_secret == old(self).app_secret,
            final(self).base_url == old(self).base_url,
    {
        self.tenant_access_token = None;
        self.connected = false;
        Ok(())
    }

    /// Checks a call and turns it into a request.
    #[verifier::rlimit(50)]
    pub fn plan_tool(&self, name: &str, params: &JsonValue) -> (r: Result<FeishuRequest, AdapterError>)
        ensures
            feishu_plan_outcome(*self, name@, *params, r),
    {
        match ensure_connected(self.connected, self.id.as_str(), name) {
            Ok(()) => {},
            Err(e) => {
                return Err(e);
            },
        }
        let n0 = same_text(name, "feishu_send_message");
        let n1 = same_text(name, "feishu_list_chats");
        let n2 = same_text(name, "feishu_get_chat_messages");
        let n3 = same_text(name, "feishu_create_doc");
        let n4 = same_text(name, "feishu_search_users");
        let n5 = same_text(name, "feishu_get_user_info");
        if !(n0 || n1 || n2 || n3 || n4 || n5) {
            return Err(tool_not_found(self.id.as_str(), name));
        }
        let token = match self.resolve_token() {
            Ok(t) => t,
            Err(e) => {
                return Err(e);
            },
        };
        proof {
            reveal_strlit("feishu_send_message");
            reveal_strlit("feishu_list_chats");
            reveal_strlit("feishu_get_chat_messages");
            reveal_strlit("feishu_create_doc");
            reveal_strlit("feishu_search_users");
            reveal_strlit("feishu_get_user_info");
            reveal_strlit("");
            assert("feishu_send_message"@.len() == 19 && "feishu_list_chats"@.len() == 17);
            assert("feishu_get_chat_messages"@.len() == 24 && "feishu_create_doc"@.len() == 17);
            assert("feishu_search_users"@.len() == 19 && "feishu_get_user_info"@.len() == 20);
            assert("feishu_send_message"@[9] != "feishu_search_users"@[9]);
            assert("feishu_list_chats"@[7] != "feishu_create_doc"@[7]);
        }
        let fields: &[&str] = if n0 {
            &["receive_id", "receive_id_type", "msg_type", "content"]
        } else if n2 {
            &["container_id"]
        } else if n3 {
            &["title"]
        } else if n4 {
            &["query"]
        } else if n5 {
            &["user_id"]
        } else {
            &[]
        };
        assert(fields@.map_values(|k: &str| k@) =~= feishu_fields(name@));
        match first_missing(params, fields) {
            Some(i) => {
                return Err(invalid_params(name, missing_field(fields[i])));
            },
            None => {},
        }
        proof {
            lemma_first_absent(*params, feishu_fields(name@));
        }
        let base = self.base_url.as_str();
        let size: u64 = match get_u64(params, "page_size") {
            Some(n) => n,
            None => 20,
        };
        let size_text = u64_to_decimal(size);
        let mut method = HttpMethod::Get;
        let mut body: Option<JsonValue> = None;
        let mut url = String::from_str(base);
        if n0 {
            let rid = str_param_or(params, "receive_id", "");
            let rtype = str_param_or(params, "receive_id_type", "");
            let mt = str_param_or(params, "msg_type", "");
            let ct = str_param_or(params, "content", "");
            url = build_send_message_url(base, rtype.as_str());
            method = HttpMethod::Post;
            body = Some(build_message_body(rid.as_str(), mt.as_str(), ct.as_str()));
            assert(url@ == feishu_url(self.base_url@, name@, *params));
        } else if n1 {
            let tok = str_param_or(params, "page_token", "");
            url.append("/im/v1/chats?page_size=");
            url.append(size_text.as_str());
            let ghost mid = url@;
            assert(mid == self.base_url@ + "/im/v1/chats?page_size="@ + decimal(page_size_of(*params) as nat));
            if !tok.as_str().is_empty() {
                url.append("&page_token=");
                url.append(tok.as_str());
                assert(url@ == mid + ("&page_token="@ + tok@));
            } else {
                assert(url@ =~= mid + Seq::<char>::empty());
            }
            assert(url@ == feishu_url(self.base_url@, name@, *params));
        } else if n2 {
            let cid = str_param_or(params, "container_id", "");
            url.append("/im/v1/messages?container_id_type=chat&container_id=");
            url.append(cid.as_str());
            url.append("&page_size=");
            url.append(size_text.as_str());
            assert(url@ == feishu_url(self.base_url@, name@, *params));
        } else if n3 {
            let title = str_param_or(params, "title", "");
            url.append("/docx/v1/documents");
            method = HttpMethod::Post;
            let mut es: Vec<(String, JsonValue)> = Vec::new();
            es.push((String::from_str("title"), JsonValue::Str(title)));
            let folder = get_str(params, "folder_token");
            let has_folder = folder.is_some();
            match folder {
                Some(f) => {
                    es.push((String::from_str("folder_token"), JsonValue::Str(f)));
                },
                None => {},
            }
            let b = JsonValue::Object(es);
            assert(keys_of(b) =~= seq!["title"@] + (if has_folder {
                seq!["folder_token"@]
            } else {
                Seq::<Seq<char>>::empty()
            }));
            body = Some(b);
        } else if n4 {
            let q = str_param_or(params, "query", "");
            url.append("/search/v1/user");
            method = HttpMethod::Post;
            let mut es: Vec<(String, JsonValue)> = Vec::new();
            es.push((String::from_str("query"), JsonValue::Str(q)));
            es.push((String::from_str("page_size"), JsonValue::Number(JsonNumber::PosInt(size))));
            let b = JsonValue::Object(es);
            assert(keys_of(b) =~= seq!["query"@, "page_size"@]);
            body = Some(b);
        } else {
            let uid = str_param_or(params, "user_id", "");
            let utype = str_param_or(params, "user_id_type", "open_id");
            url.append("/contact/v3/users/");
            url.append(uid.as_str());
            url.append("?user_id_type=");
            url.append(utype.as_str());
            assert(url@ == feishu_url(self.base_url@, name@, *params));
        }
        assert(url@ == feishu_url(self.base_url@, name@, *params));
        assert(feishu_body_ok(name@, *params, body));
        assert(method == (if feishu_posts(name@) { HttpMethod::Post } else { HttpMethod::Get }));
        Ok(FeishuRequest { tool: String::from_str(name), method, url, token, body })
    }
}

} // verus!
