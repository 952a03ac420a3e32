//! Email adapter: IMAP reading and SMTP sending.
//!
//! Four tools: `email_list_inbox`, `email_read`, `email_send` and
//! `email_search`.  A call is checked and turned into an [`EmailRequest`];
//! the conversation with the server is made of the builders and parsers in
//! [`imap`] and [`smtp`], and [`session`] decides each of its steps.

pub mod imap;
pub mod session;
pub mod smtp;
pub mod tools;

use vstd::prelude::*;
use vstd::string::*;

use crate::email::imap::EnvelopeSummary;
use crate::email::tools::{build_tool_definitions, email_tool_shapes};
use crate::error::{AdapterError, invalid_params, is_invalid_params, missing_field_reason};
use crate::json::{
    JsonNumber, JsonValue, first_absent, get_u64, keys_of, require_str, str_field, str_of, u64_field, uint,
    value_at,
};
use crate::text::{decimal, join, same_text, u64_to_decimal};
use crate::traits::{
    AdapterType, AuthRequirement, HealthStatus, ToolDefinition, basic_health, ensure_connected,
    is_not_connected_error, is_tool_not_found, is_unknown_tool, lists_tool, tool_not_found,
};

verus! {

/// Default IMAP TLS port.
pub const DEFAULT_IMAP_PORT: u16 = 993;

/// Default SMTP TLS port.
pub const DEFAULT_SMTP_PORT: u16 = 465;

/// Default number of inbox messages to list.
pub const DEFAULT_LIST_COUNT: u64 = 10;

/// Email service adapter for IMAP reading and SMTP sending.
#[derive(Debug)]
pub struct EmailAdapter {
    pub id: String,
    pub connected: bool,
    pub imap_host: String,
    pub imap_port: u16,
    pub smtp_host: String,
    pub smtp_port: u16,
}

/// A checked tool call: what to ask which server.
#[derive(Debug)]
pub enum EmailRequest {
    ListInbox { host: String, port: u16, username: String, password: String, count: u64 },
    Read { host: String, port: u16, username: String, password: String, message_id: String },
    Send {
        host: String,
        port: u16,
        username: String,
        password: String,
        to: String,
        subject: String,
        body: String,
    },
    Search { host: String, port: u16, username: String, password: String, query: String, count: u64 },
}

/// The host a call uses: the `host` parameter, else the configured host if
/// it is not empty.
pub open spec fn host_choice(given: Option<Seq<char>>, configured: Seq<char>) -> Option<Seq<char>> {
    match given {
        Some(h) => Some(h),
        None => if configured.len() > 0 {
            Some(configured)
        } else {
            None
        },
    }
}

/// The reason given when no host is known (for IMAP, or else SMTP).
pub open spec fn host_missing_reason(imap: bool) -> Seq<char> {
    if imap {
        "missing `host` parameter and no default IMAP host configured"@
    } else {
        "missing `host` parameter and no default SMTP host configured"@
    }
}

/// Whether `name` is one of the four email tools.
pub open spec fn is_email_tool(name: Seq<char>) -> bool {
    name == "email_list_inbox"@ || name == "email_read"@ || name == "email_send"@ || name
        == "email_search"@
}

/// The string parameters a tool requires, in the order they are checked.
pub open spec fn tool_fields(name: Seq<char>) -> Seq<Seq<char>> {
    if name == "email_read"@ {
        seq!["username"@, "password"@, "message_id"@]
    } else if name == "email_send"@ {
        seq!["username"@, "password"@, "to"@, "subject"@, "body"@]
    } else if name == "email_search"@ {
        seq!["username"@, "password"@, "query"@]
    } else {
        seq!["username"@, "password"@]
    }
}

/// The `count` parameter, or the default.
pub open spec fn count_of(params: JsonValue) -> u64 {
    match u64_field(params, "count"@) {
        Some(n) => n,
        None => DEFAULT_LIST_COUNT,
    }
}

/// Whether a string equals the string field `key` of `params`.
pub open spec fn is_param(s: String, params: JsonValue, key: Seq<char>) -> bool {
    str_field(params, key) == Some(s@)
}

/// Whether `q` is the request for tool `name` with `params` on host `host`.
pub open spec fn request_fits(a: EmailAdapter, name: Seq<char>, params: JsonValue, host: Seq<char>, q: EmailRequest) -> bool {
    match q {
        EmailRequest::ListInbox { host: h, port, username, password, count } => {
            &&& name == "email_list_inbox"@
            &&& h@ == host && port == a.imap_port
            &&& is_param(username, params, "username"@) && is_param(password, params, "password"@)
            &&& count == count_of(params)
        },
        EmailRequest::Read { host: h, port, username, password, message_id } => {
            &&& name == "email_read"@
            &&& h@ == host && port == a.imap_port
            &&& is_param(username, params, "username"@) && is_param(password, params, "password"@)
            &&& is_param(message_id, params, "message_id"@)
        },
        EmailRequest::Send { host: h, port, username, password, to, subject, body } => {
            &&& name == "email_send"@
            &&& h@ == host && port == a.smtp_port
            &&& is_param(username, params, "username"@) && is_param(password, params, "password"@)
            &&& is_param(to, params, "to"@) && is_param(subject, params, "subject"@)
            &&& is_param(body, params, "body"@)
        },
        EmailRequest::Search { host: h, port, username, password, query, count } => {
            &&& name == "email_search"@
            &&& h@ == host && port == a.imap_port
            &&& is_param(username, params, "username"@) && is_param(password, params, "password"@)
            &&& is_param(query, params, "query"@)
            &&& count == count_of(params)
        },
    }
}

/// What a tool call gives: the checks in order (connection, tool name,
/// host, required string fields), then the request.
pub open spec fn plan_outcome(a: EmailAdapter, name: Seq<char>, params: JsonValue, r: Result<EmailRequest, AdapterError>) -> bool {
    if !a.connected {
        r matches Err(e) && is_not_connected_error(e, a.id@, name)
    } else if !is_email_tool(name) {
        r matches Err(e) && is_tool_not_found(e, a.id@, name)
    } else {
        let imap = name != "email_send"@;
        let configured = if imap {
            a.imap_host@
        } else {
            a.smtp_host@
        };
        match host_choice(str_field(params, "host"@), configured) {
            None => r matches Err(e) && is_invalid_params(e, name, host_missing_reason(imap)),
            Some(h) => match first_absent(params, tool_fields(name)) {
                Some(k) => r matches Err(e) && is_invalid_params(e, name, missing_field_reason(k)),
                None => r matches Ok(q) && request_fits(a, name, params, h, q),
            },
        }
    }
}

/// A call is refused before any parameter is read: on a disconnected
/// adapter with the "not connected" error for that tool, and on a
/// connected one, for a name that is not one of the four email tools, with
/// "tool not found" naming the adapter and the tool.
pub proof fn law_refusals_come_first(a: EmailAdapter, name: Seq<char>, params: JsonValue, r: Result<EmailRequest, AdapterError>)
    requires
        plan_outcome(a, name, params, r),
    ensures
        !a.connected ==> (r matches Err(e) && is_not_connected_error(e, a.id@, name)),
        a.connected && !is_email_tool(name) ==> (r matches Err(e) && is_tool_not_found(e, a.id@, name)),
{
}

/// The tools the adapter lists are exactly those it executes: once
/// connected, a call is answered "tool not found" exactly when `tools`
/// does not list its name.
pub proof fn law_listed_tools_are_executed(a: EmailAdapter, ts: Seq<ToolDefinition>, name: Seq<char>, params: JsonValue, r: Result<EmailRequest, AdapterError>)
    requires
        email_tool_shapes(ts),
        a.connected,
        plan_outcome(a, name, params, r),
    ensures
        is_unknown_tool(r) <==> !lists_tool(ts, name),
{
    if is_email_tool(name) {
        if name == "email_list_inbox"@ {
            assert(ts[0].name@ == name);
        } else if name == "email_read"@ {
            assert(ts[1].name@ == name);
        } else if name == "email_send"@ {
            assert(ts[2].name@ == name);
        } else {
            assert(ts[3].name@ == name);
        }
    }
}

/// The four tool names: only `email_read` and `email_send` share a length,
/// and they differ.
proof fn lemma_tool_names()
    ensures
        "email_list_inbox"@.len() == 16,
        "email_read"@.len() == 10,
        "email_send"@.len() == 10,
        "email_search"@.len() == 12,
        "email_read"@ != "email_send"@,
{
    reveal_strlit("email_list_inbox");
    reveal_strlit("email_read");
    reveal_strlit("email_send");
    reveal_strlit("email_search");
    assert("email_read"@[6] != "email_send"@[6]);
}

/// Sending goes to the SMTP server with the message given: once connected,
/// `email_send` with string `username`, `password`, `to`, `subject` and `body`
/// is a send on the SMTP port to the `host` parameter (else the configured
/// SMTP host, when there is one) of that message from that account.
pub proof fn law_send_request(a: EmailAdapter, params: JsonValue, r: Result<EmailRequest, AdapterError>, to: Seq<char>, subject: Seq<char>, text: Seq<char>)
    requires
        a.connected,
        str_field(params, "username"@) is Some,
        str_field(params, "password"@) is Some,
        str_field(params, "to"@) == Some(to),
        str_field(params, "subject"@) == Some(subject),
        str_field(params, "body"@) == Some(text),
        str_field(params, "host"@) is Some || a.smtp_host@.len() > 0,
        plan_outcome(a, "email_send"@, params, r),
    ensures
        r matches Ok(EmailRequest::Send { host, port, username, password, to: t, subject: s, body: b }) && host@ == (
        match str_field(params, "host"@) {
            Some(h) => h,
            None => a.smtp_host@,
        }) && port == a.smtp_port && Some(username@) == str_field(params, "username"@) && Some(password@)
            == str_field(params, "password"@) && t@ == to && s@ == subject && b@ == text,
{
    lemma_tool_names();
    reveal_with_fuel(first_absent, 6);
    let f = tool_fields("email_send"@);
    assert(f == seq!["username"@, "password"@, "to"@, "subject"@, "body"@]);
    assert(f.drop_first() =~= seq!["password"@, "to"@, "subject"@, "body"@]);
    assert(f.drop_first().drop_first() =~= seq!["to"@, "subject"@, "body"@]);
    assert(f.drop_first().drop_first().drop_first() =~= seq!["subject"@, "body"@]);
    assert(f.drop_first().drop_first().drop_first().drop_first() =~= seq!["body"@]);
    assert(f.drop_first().drop_first().drop_first().drop_first().drop_first() =~= Seq::<Seq<char>>::empty());
    assert(first_absent(params, f) is None);
}

/// Listing and searching read as many messages as asked, from the IMAP
/// server: once connected, `email_list_inbox` (and `email_search` with a
/// string `query`) with string `username` and `password` reads, on the IMAP
/// port of the `host` parameter (else the configured IMAP host, when there is
/// one), the integer `count` parameter's number of messages, or 10.
pub proof fn law_mailbox_reads(a: EmailAdapter, name: Seq<char>, params: JsonValue, r: Result<EmailRequest, AdapterError>)
    requires
        a.connected,
        name == "email_list_inbox"@ || (name == "email_search"@ && str_field(params, "query"@) is Some),
        str_field(params, "username"@) is Some,
        str_field(params, "password"@) is Some,
        str_field(params, "host"@) is Some || a.imap_host@.len() > 0,
        plan_outcome(a, name, params, r),
    ensures
        ({
            let host = match str_field(params, "host"@) {
                Some(h) => h,
                None => a.imap_host@,
            };
            let n = match u64_field(params, "count"@) {
                Some(n) => n,
                None => 10,
            };
            &&& name == "email_list_inbox"@ ==> (r matches Ok(EmailRequest::ListInbox { host: h, port, count, .. })
                && h@ == host && port == a.imap_port && count == n)
            &&& name == "email_search"@ ==> (r matches Ok(EmailRequest::Search { host: h, port, query, count, .. })
                && h@ == host && port == a.imap_port && Some(query@) == str_field(params, "query"@) && count == n)
        }),
{
    lemma_tool_names();
    reveal_with_fuel(first_absent, 4);
    let f = tool_fields(name);
    if name == "email_search"@ {
        assert(f == seq!["username"@, "password"@, "query"@]);
        assert(f.drop_first() =~= seq!["password"@, "query"@]);
        assert(f.drop_first().drop_first() =~= seq!["query"@]);
        assert(f.drop_first().drop_first().drop_first() =~= Seq::<Seq<char>>::empty());
    } else {
        assert(f == seq!["username"@, "password"@]);
        assert(f.drop_first() =~= seq!["password"@]);
        assert(f.drop_first().drop_first() =~= Seq::<Seq<char>>::empty());
    }
    assert(first_absent(params, f) is None);
}

impl EmailAdapter {
    /// A new, disconnected email adapter with default ports and no hosts.
    pub fn new(id: &str) -> (r: Self)
        ensures
            r.id@ == id@,
            !r.connected,
            r.imap_host@.len() == 0,
            r.imap_port == DEFAULT_IMAP_PORT,
            r.smtp_host@.len() == 0,
            r.smtp_port == DEFAULT_SMTP_PORT,
    {
        EmailAdapter {
            id: String::from_str(id),
            connected: false,
            imap_host: String::new(),
            imap_port: DEFAULT_IMAP_PORT,
            smtp_host: String::new(),
            smtp_port: DEFAULT_SMTP_PORT,
        }
    }

    /// A new, disconnected email adapter with custom servers.
    pub fn with_config(id: &str, imap_host: &str, imap_port: u16, smtp_host: &str, smtp_port: u16) -> (r: Self)
        ensures
            r.id@ == id@,
            !r.connected,
            r.imap_host@ == imap_host@,
            r.imap_port == imap_port,
            r.smtp_host@ == smtp_host@,
            r.smtp_port == smtp_port,
    {
        EmailAdapter {
            id: String::from_str(id),
            connected: false,
            imap_host: String::from_str(imap_host),
            imap_port,
            smtp_host: String::from_str(smtp_host),
            smtp_port,
        }
    }

    /// The adapter's id.
    pub fn id(&self) -> (r: &str)
        ensures
            r@ == self.id@,
    {
        self.id.as_str()
    }

    /// The adapter's category.
    pub fn adapter_type(&self) -> (r: AdapterType)
        ensures
            r == AdapterType::Productivity,
    {
        AdapterType::Productivity
    }

    /// The adapter needs no stored credential: each call carries its own.
    pub fn required_auth(&self) -> (r: Option<AuthRequirement>)
        ensures
            r is None,
    {
        None
    }

    /// The four email tools.
    pub fn tools(&self) -> (r: Vec<ToolDefinition>)
        ensures
            email_tool_shapes(r@),
    {
        build_tool_definitions()
    }

    /// Marks the adapter connected.
    pub fn connect(&mut self) -> (r: Result<(), AdapterError>)
        ensures
            r is Ok,
            final(self).connected,
            final(self).id == old(self).id,
            final(self).imap_host == old(self).imap_host,
            final(self).imap_port == old(self).imap_port,
            final(self).smtp_host == old(self).smtp_host,
            final(self).smtp_port == old(self).smtp_port,
    {
        self.connected = true;
        Ok(())
    }

    /// Marks the adapter disconnected.
    pub fn disconnect(&mut self) -> (r: Result<(), AdapterError>)
        ensures
            r is Ok,
            !final(self).connected,
            final(self).id == old(self).id,
            final(self).imap_host == old(self).imap_host,
            final(self).imap_port == old(self).imap_port,
            final(self).smtp_host == old(self).smtp_host,
            final(self).smtp_port == old(self).smtp_port,
    {
        self.connected = false;
        Ok(())
    }

    /// Healthy when connected, unhealthy otherwise.
    pub fn health_check(&self) -> (r: Result<HealthStatus, AdapterError>)
        ensures
            r == Ok::<HealthStatus, AdapterError>(basic_health(self.connected)),
    {
        if self.connected {
            Ok(HealthStatus::Healthy)
        } else {
            Ok(HealthStatus::Unhealthy)
        }
    }

    /// The IMAP host of a call: the `host` parameter, else the configured host.
    pub fn resolve_imap_host(&self, params: &JsonValue, tool_name: &str) -> (r: Result<String, AdapterError>)
        ensures
            match host_choice(str_field(*params, "host"@), self.imap_host@) {
                Some(h) => r matches Ok(x) && x@ == h,
                None => r matches Err(e) && is_invalid_params(e, tool_name@, host_missing_reason(true)),
            },
    {
        match params.get("host") {
            Some(v) => match v.as_str() {
                Some(h) => {
                    return Ok(String::from_str(h));
                },
                None => {},
            },
            None => {},
        }
        if !self.imap_host.as_str().is_empty() {
            return Ok(self.imap_host.clone());
        }
        Err(invalid_params(tool_name, String::from_str("missing `host` parameter and no default IMAP host configured")))
    }

    /// The SMTP host of a call: the `host` parameter, else the configured host.
    pub fn resolve_smtp_host(&self, params: &JsonValue, tool_name: &str) -> (r: Result<String, AdapterError>)
        ensures
            match host_choice(str_field(*params, "host"@), self.smtp_host@) {
                Some(h) => r matches Ok(x) && x@ == h,
                None => r matches Err(e) && is_invalid_params(e, tool_name@, host_missing_reason(false)),
            },
    {
        match params.get("host") {
            Some(v) => match v.as_str() {
                Some(h) => {
                    return Ok(String::from_str(h));
                },
                None => {},
            },
            None => {},
        }
        if !self.smtp_host.as_str().is_empty() {
            return Ok(self.smtp_host.clone());
        }
        Err(invalid_params(tool_name, String::from_str("missing `host` parameter and no default SMTP host configured")))
    }

    /// Checks a tool call and turns it into a request.
    pub fn plan_tool(&self, name: &str, params: &JsonValue) -> (r: Result<EmailRequest, AdapterError>)
        ensures
            plan_outcome(*self, name@, *params, r),
    {
        match ensure_connected(self.connected, self.id.as_str(), name) {
            Ok(()) => {},
            Err(e) => {
                return Err(e);
            },
        }
        let is_list = same_text(name, "email_list_inbox");
        let is_read = same_text(name, "email_read");
        let is_send = same_text(name, "email_send");
        let is_search = same_text(name, "email_search");
        if !(is_list || is_read || is_send || is_search) {
            return Err(tool_not_found(self.id.as_str(), name));
        }
        let host = if is_send {
            self.resolve_smtp_host(params, name)
        } else {
            self.resolve_imap_host(params, name)
        };
        let host = match host {
            Ok(h) => h,
            Err(e) => {
                return Err(e);
            },
        };
        proof {
            reveal_strlit("email_list_inbox");
            reveal_strlit("email_read");
            reveal_strlit("email_send");
            reveal_strlit("email_search");
            assert("email_list_inbox"@.len() == 16 && "email_search"@.len() == 12);
            assert("email_read"@.len() == 10 && "email_send"@.len() == 10);
            assert("email_read"@[6] != "email_send"@[6]);
            reveal_with_fuel(first_absent, 6);
            assert(seq!["username"@, "password"@].drop_first() =~= seq!["password"@]);
            assert(seq!["username"@, "password"@, "message_id"@].drop_first() =~= seq!["password"@, "message_id"@]);
            assert(seq!["password"@, "message_id"@].drop_first() =~= seq!["message_id"@]);
            assert(seq!["username"@, "password"@, "query"@].drop_first() =~= seq!["password"@, "query"@]);
            assert(seq!["password"@, "query"@].drop_first() =~= seq!["query"@]);
            assert(seq!["username"@, "password"@, "to"@, "subject"@, "body"@].drop_first()
                =~= seq!["password"@, "to"@, "subject"@, "body"@]);
            assert(seq!["password"@, "to"@, "subject"@, "body"@].drop_first() =~= seq!["to"@, "subject"@, "body"@]);
            assert(seq!["to"@, "subject"@, "body"@].drop_first() =~= seq!["subject"@, "body"@]);
            assert(seq!["subject"@, "body"@].drop_first() =~= seq!["body"@]);
            assert(seq!["password"@].drop_first() =~= Seq::<Seq<char>>::empty());
            assert(seq!["message_id"@].drop_first() =~= Seq::<Seq<char>>::empty());
            assert(seq!["query"@].drop_first() =~= Seq::<Seq<char>>::empty());
            assert(seq!["body"@].drop_first() =~= Seq::<Seq<char>>::empty());
        }
        let username = match require_str(params, "username", name) {
            Ok(s) => s,
            Err(e) => {
                return Err(e);
            },
        };
        let password = match require_str(params, "password", name) {
            Ok(s) => s,
            Err(e) => {
                return Err(e);
            },
        };
        if is_list {
            let count = match get_u64(params, "count") {
                Some(n) => n,
                None => DEFAULT_LIST_COUNT,
            };
            return Ok(EmailRequest::ListInbox { host, port: self.imap_port, username, password, count });
        }
        if is_read {
            let message_id = match require_str(params, "message_id", name) {
                Ok(s) => s,
                Err(e) => {
                    return Err(e);
                },
            };
            return Ok(EmailRequest::Read { host, port: self.imap_port, username, password, message_id });
        }
        if is_send {
            let to = match require_str(params, "to", name) {
                Ok(s) => s,
                Err(e) => {
                    return Err(e);
                },
            };
            let subject = match require_str(params, "subject", name) {
                Ok(s) => s,
                Err(e) => {
                    return Err(e);
                },
            };
            let body = match require_str(params, "body", name) {
                Ok(s) => s,
                Err(e) => {
                    return Err(e);
                },
            };
            return Ok(EmailRequest::Send { host, port: self.smtp_port, username, password, to, subject, body });
        }
        let query = match require_str(params, "query", name) {
            Ok(s) => s,
            Err(e) => {
                return Err(e);
            },
        };
        let count = match get_u64(params, "count") {
            Some(n) => n,
            None => DEFAULT_LIST_COUNT,
        };
        Ok(EmailRequest::Search { host, port: self.imap_port, username, password, query, count })
    }
}

// ---------------------------------------------------------------------------
// Decisions inside the IMAP conversations
// ---------------------------------------------------------------------------

/// The first sequence number listed for an inbox of `exists` messages when
/// at most `count` are wanted.
pub open spec fn inbox_start(exists: u64, count: u64) -> int {
    if exists > count {
        exists - count + 1
    } else {
        1
    }
}

/// The listing covers the most recent messages: the sequence numbers from
/// `inbox_start` to `exists` are the last `count` of the inbox, or all of it
/// when it holds fewer.
pub proof fn law_inbox_window(exists: u64, count: u64)
    requires
        exists > 0,
    ensures
        1 <= inbox_start(exists, count) <= exists + 1,
        count > 0 ==> exists - inbox_start(exists, count) + 1 == if exists > count {
            count as int
        } else {
            exists as int
        },
{
}

/// The sequence set `start:exists` of the most recent messages of an inbox.
pub fn inbox_sequence_set(exists: u64, count: u64) -> (r: String)
    requires
        exists > 0,
        count > 0 || exists < u64::MAX,
    ensures
        r@ == decimal(inbox_start(exists, count) as nat) + ":"@ + decimal(exists as nat),
{
    let start: u64 = if exists > count {
        exists - count + 1
    } else {
        1
    };
    let mut r = u64_to_decimal(start);
    r.append(":");
    let e = u64_to_decimal(exists);
    r.append(e.as_str());
    r
}

/// The most recent matches: the last `count` of `ids` when there are more.
pub open spec fn recent(ids: Seq<u64>, count: u64) -> Seq<u64> {
    if ids.len() > count {
        ids.skip(ids.len() - count)
    } else {
        ids
    }
}

/// Keeps the last `count` search matches.
pub fn recent_matches(ids: &Vec<u64>, count: u64) -> (r: Vec<u64>)
    ensures
        r@ == recent(ids@, count),
{
    let n: usize = ids.len();
    let start: usize = if (n as u64) > count {
        n - (count as usize)
    } else {
        0
    };
    let mut r: Vec<u64> = Vec::new();
    let mut i: usize = start;
    while i < n
        invariant
            start <= i <= n,
            n == ids.len(),
            start == (if n > count { n - count } else { 0 }),
            r@ == ids@.subrange(start as int, i as int),
        decreases n - i,
    {
        r.push(ids[i]);
        assert(ids@.subrange(start as int, i + 1) =~= ids@.subrange(start as int, i as int).push(ids@[i as int]));
        i = i + 1;
    }
    assert(ids@.subrange(start as int, n as int) =~= recent(ids@, count));
    r
}

/// The decimal forms of sequence numbers.
pub open spec fn decimals(ids: Seq<u64>) -> Seq<Seq<char>> {
    ids.map_values(|n: u64| decimal(n as nat))
}

/// The sequence set naming each of `ids`: their numbers joined by commas.
pub fn sequence_set_of(ids: &Vec<u64>) -> (r: String)
    ensures
        r@ == join(decimals(ids@), ","@),
{
    let mut parts: Vec<String> = Vec::new();
    let mut i: usize = 0;
    while i < ids.len()
        invariant
            i <= ids.len(),
            parts@.map_values(|s: String| s@) == decimals(ids@.take(i as int)),
        decreases ids.len() - i,
    {
        let d = u64_to_decimal(ids[i]);
        let ghost before = parts@;
        parts.push(d);
        assert(parts@.map_values(|s: String| s@) =~= before.map_values(|s: String| s@).push(d@));
        assert(decimals(ids@.take(i + 1)) =~= decimals(ids@.take(i as int)).push(decimal(ids@[i as int] as nat)));
        i = i + 1;
    }
    assert(ids@.take(ids.len() as int) =~= ids@);
    crate::text::join_strings(parts.as_slice(), ",")
}

/// The tag of the closing LOGOUT of a search: one more command was sent when
// ---------------------------------------------------------------------------
// Tool results
// ---------------------------------------------------------------------------

/// Whether `j` is the JSON form of summary `s`.
pub open spec fn summary_json(j: JsonValue, s: EnvelopeSummary) -> bool {
    &&& keys_of(j) == seq!["sequence"@, "subject"@, "from"@, "date"@, "message_id"@]
    &&& value_at(j, 0) == uint(s.sequence)
    &&& str_of(value_at(j, 1)) == Some(s.subject@)
    &&& str_of(value_at(j, 2)) == Some(s.from@)
    &&& str_of(value_at(j, 3)) == Some(s.date@)
    &&& str_of(value_at(j, 4)) == Some(s.message_id@)
}

/// Whether `j` is a JSON array of the summaries `ss`.
pub open spec fn summaries_json(j: JsonValue, ss: Seq<EnvelopeSummary>) -> bool {
    j matches JsonValue::Array(a) && a@.len() == ss.len() && forall|i: int|
        0 <= i < ss.len() ==> #[trigger] summary_json(a@[i], ss[i])
}

/// The JSON form of a message summary.
pub fn summary_to_json(s: &EnvelopeSummary) -> (j: JsonValue)
    ensures
        summary_json(j, *s),
{
    let mut es: Vec<(String, JsonValue)> = Vec::new();
    es.push((String::from_str("sequence"), JsonValue::Number(JsonNumber::PosInt(s.sequence))));
    es.push((String::from_str("subject"), JsonValue::Str(s.subject.clone())));
    es.push((String::from_str("from"), JsonValue::Str(s.from.clone())));
    es.push((String::from_str("date"), JsonValue::Str(s.date.clone())));
    es.push((String::from_str("message_id"), JsonValue::Str(s.message_id.clone())));
    let j = JsonValue::Object(es);
    assert(keys_of(j) =~= seq!["sequence"@, "subject"@, "from"@, "date"@, "message_id"@]);
    j
}

/// The JSON array of message summaries.
pub fn summaries_to_json(ss: &Vec<EnvelopeSummary>) -> (j: JsonValue)
    ensures
        summaries_json(j, ss@),
{
    let mut out: Vec<JsonValue> = Vec::new();
    let mut i: usize = 0;
    while i < ss.len()
        invariant
            i <= ss.len(),
            out@.len() == i,
            forall|k: int| 0 <= k < i ==> #[trigger] summary_json(out@[k], ss@[k]),
        decreases ss.len() - i,
    {
        out.push(summary_to_json(&ss[i]));
        i = i + 1;
    }
    JsonValue::Array(out)
}


/// The answer of `email_list_inbox`: `{emails, total, fetched}`.
pub open spec fn list_json(j: JsonValue, emails: Seq<EnvelopeSummary>, total: u64) -> bool {
    &&& keys_of(j) == seq!["emails"@, "total"@, "fetched"@]
    &&& summaries_json(value_at(j, 0), emails)
    &&& value_at(j, 1) == uint(total)
    &&& value_at(j, 2) == uint(emails.len() as u64)
}

/// The answer of `email_read`: `{message_id, headers, body}`.
pub open spec fn read_json(j: JsonValue, message_id: Seq<char>, headers: Seq<char>, body: Seq<char>) -> bool {
    &&& keys_of(j) == seq!["message_id"@, "headers"@, "body"@]
    &&& str_of(value_at(j, 0)) == Some(message_id)
    &&& str_of(value_at(j, 1)) == Some(headers)
    &&& str_of(value_at(j, 2)) == Some(body)
}

/// The answer of `email_send`: `{status: "sent", to, subject}`.
pub open spec fn send_json(j: JsonValue, to: Seq<char>, subject: Seq<char>) -> bool {
    &&& keys_of(j) == seq!["status"@, "to"@, "subject"@]
    &&& str_of(value_at(j, 0)) == Some("sent"@)
    &&& str_of(value_at(j, 1)) == Some(to)
    &&& str_of(value_at(j, 2)) == Some(subject)
}

/// The answer of `email_search`: `{query, total_matches, emails, fetched}`.
pub open spec fn search_json(j: JsonValue, query: Seq<char>, total: u64, emails: Seq<EnvelopeSummary>) -> bool {
    &&& keys_of(j) == seq!["query"@, "total_matches"@, "emails"@, "fetched"@]
    &&& str_of(value_at(j, 0)) == Some(query)
    &&& value_at(j, 1) == uint(total)
    &&& summaries_json(value_at(j, 2), emails)
    &&& value_at(j, 3) == uint(emails.len() as u64)
}

/// The result of `email_list_inbox`: `{emails, total, fetched}`.
pub fn list_inbox_result(emails: &Vec<EnvelopeSummary>, total: u64) -> (j: JsonValue)
    ensures
        list_json(j, emails@, total),
{
    let mut es: Vec<(String, JsonValue)> = Vec::new();
    es.push((String::from_str("emails"), summaries_to_json(emails)));
    es.push((String::from_str("total"), JsonValue::Number(JsonNumber::PosInt(total))));
    es.push((String::from_str("fetched"), JsonValue::Number(JsonNumber::PosInt(emails.len() as u64))));
    let j = JsonValue::Object(es);
    assert(keys_of(j) =~= seq!["emails"@, "total"@, "fetched"@]);
    j
}

/// The result of `email_read`: `{message_id, headers, body}`.
pub fn read_result(message_id: &str, headers: &str, body: &str) -> (j: JsonValue)
    ensures
        read_json(j, message_id@, headers@, body@),
{
    let mut es: Vec<(String, JsonValue)> = Vec::new();
    es.push((String::from_str("message_id"), JsonValue::from_str_value(message_id)));
    es.push((String::from_str("headers"), JsonValue::from_str_value(headers)));
    es.push((String::from_str("body"), JsonValue::from_str_value(body)));
    let j = JsonValue::Object(es);
    assert(keys_of(j) =~= seq!["message_id"@, "headers"@, "body"@]);
    j
}

/// The result of `email_send`: `{status: "sent", to, subject}`.
pub fn send_result(to: &str, subject: &str) -> (j: JsonValue)
    ensures
        send_json(j, to@, subject@),
{
    let mut es: Vec<(String, JsonValue)> = Vec::new();
    es.push((String::from_str("status"), JsonValue::from_str_value("sent")));
    es.push((String::from_str("to"), JsonValue::from_str_value(to)));
    es.push((String::from_str("subject"), JsonValue::from_str_value(subject)));
    let j = JsonValue::Object(es);
    assert(keys_of(j) =~= seq!["status"@, "to"@, "subject"@]);
    j
}

/// The result of `email_search`: `{query, total_matches, emails, fetched}`.
pub fn search_result(query: &str, total_matches: u64, emails: &Vec<EnvelopeSummary>) -> (j: JsonValue)
    ensures
        search_json(j, query@, total_matches, emails@),
{
    let mut es: Vec<(String, JsonValue)> = Vec::new();
    es.push((String::from_str("query"), JsonValue::from_str_value(query)));
    es.push((String::from_str("total_matches"), JsonValue::Number(JsonNumber::PosInt(total_matches))));
    es.push((String::from_str("emails"), summaries_to_json(emails)));
    es.push((String::from_str("fetched"), JsonValue::Number(JsonNumber::PosInt(emails.len() as u64))));
    let j = JsonValue::Object(es);
    assert(keys_of(j) =~= seq!["query"@, "total_matches"@, "emails"@, "fetched"@]);
    j
}

} // verus!
