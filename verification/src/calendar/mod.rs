//! Calendar adapter: events on a CalDAV server.
//!
//! Five tools: `calendar_list_events`, `calendar_create_event`,
//! `calendar_delete_event`, `calendar_search_events` and
//! `calendar_get_event`.  A call is checked and turned into a
//! [`CalendarRequest`]; the HTTP exchange itself is left to the caller, and
//! the reply is read with the functions of [`caldav`].

pub mod caldav;
pub mod tools;

use vstd::prelude::*;
use vstd::string::*;

use crate::calendar::caldav::{
    DEFAULT_DAYS_AHEAD, events_json, filter_events, generate_ical_event, ical_datetime, ical_events,
    ical_text, matching_events, opt_view, parse_ical_events, parse_ical_properties,
};
use crate::calendar::tools::{build_tool_definitions, calendar_tool_shapes};
use crate::error::{AdapterError, invalid_params, is_invalid_params, missing_field_reason};
use crate::json::{
    JsonNumber, JsonValue, get_i64, get_nonempty_str, get_str, i64_field, keys_of, nonempty_str_field,
    require_str, str_field, str_of, uint, value_at,
};
use crate::text::{same_text, trim_end_slashes, trim_slashes};
use crate::traits::{
    AdapterType, AuthRequirement, HealthStatus, ToolDefinition, credential_health, ensure_connected,
    is_not_connected_error, is_tool_not_found, tool_not_found, is_unknown_tool, lists_tool};

verus! {

/// Calendar service adapter for a CalDAV server.
#[derive(Debug)]
pub struct CalendarAdapter {
    pub id: String,
    pub connected: bool,
    /// CalDAV server URL.
    pub caldav_url: Option<String>,
    /// Username for CalDAV authentication.
    pub username: Option<String>,
    /// Password for CalDAV authentication.
    pub password: Option<String>,
}

/// The view of an optional string.
pub open spec fn opt_string(o: Option<String>) -> Option<Seq<char>> {
    match o {
        Some(s) => Some(s@),
        None => None,
    }
}

/// A non-empty parameter, else the configured value.
pub open spec fn param_or_configured(params: JsonValue, key: Seq<char>, configured: Option<String>) -> Option<Seq<char>> {
    match nonempty_str_field(params, key) {
        Some(v) => Some(v),
        None => opt_string(configured),
    }
}

/// The URL of the event `uid` under a calendar URL.
pub open spec fn event_url(base: Seq<char>, uid: Seq<char>) -> Seq<char> {
    trim_slashes(base) + seq!['/'] + uid + ".ics"@
}

/// Builds the URL of an event: `<base without trailing slashes>/<uid>.ics`.
pub fn build_event_url(base: &str, uid: &str) -> (r: String)
    ensures
        r@ == event_url(base@, uid@),
{
    let mut s = trim_end_slashes(base);
    s.append("/");
    s.append(uid);
    s.append(".ics");
    proof {
        reveal_strlit("/");
    }
    assert(s@ =~= event_url(base@, uid@));
    s
}

/// A checked calendar call: what to ask of which URL, with which credentials.
#[derive(Debug)]
pub enum CalendarRequest {
    List { url: String, username: Option<String>, password: Option<String>, days_ahead: i64 },
    Create {
        url: String,
        username: Option<String>,
        password: Option<String>,
        uid: String,
        event_url: String,
        ical: String,
    },
    Delete { username: Option<String>, password: Option<String>, uid: String, event_url: String },
    Search {
        url: String,
        username: Option<String>,
        password: Option<String>,
        query: String,
        days_ahead: i64,
    },
    Get { username: Option<String>, password: Option<String>, uid: String, event_url: String },
}

/// Whether `name` is one of the five calendar tools.
pub open spec fn is_calendar_tool(name: Seq<char>) -> bool {
    name == "calendar_list_events"@ || name == "calendar_create_event"@ || name == "calendar_delete_event"@
        || name == "calendar_search_events"@ || name == "calendar_get_event"@
}

/// The calendar URL of a call: a non-empty `caldav_url` parameter, else the
/// configured URL.
pub open spec fn url_of(a: CalendarAdapter, params: JsonValue) -> Option<Seq<char>> {
    param_or_configured(params, "caldav_url"@, a.caldav_url)
}

/// The `days_ahead` parameter, or the default.
pub open spec fn days_of(params: JsonValue) -> i64 {
    match i64_field(params, "days_ahead"@) {
        Some(n) => n,
        None => DEFAULT_DAYS_AHEAD,
    }
}

/// The reasons given for missing fields of `calendar_create_event`.
pub open spec fn create_missing_reason(field: Seq<char>) -> Seq<char> {
    if field == "summary"@ {
        missing_field_reason(field)
    } else {
        missing_field_reason(field) + " (ISO 8601)"@
    }
}

/// Whether the credentials of a request are those of the call.
pub open spec fn creds_fit(a: CalendarAdapter, params: JsonValue, username: Option<String>, password: Option<String>) -> bool {
    opt_string(username) == param_or_configured(params, "username"@, a.username) && opt_string(password)
        == param_or_configured(params, "password"@, a.password)
}

/// What a tool-specific check gives once the URL is known.
pub open spec fn tool_outcome(a: CalendarAdapter, name: Seq<char>, params: JsonValue, url: Seq<char>, uid: Seq<char>, r: Result<CalendarRequest, AdapterError>) -> bool {
    if name == "calendar_list_events"@ {
        r matches Ok(CalendarRequest::List { url: u, username, password, days_ahead }) && u@ == url && creds_fit(
            a,
            params,
            username,
            password,
        ) && days_ahead == days_of(params)
    } else if name == "calendar_create_event"@ {
        if str_field(params, "summary"@) is None {
            r matches Err(e) && is_invalid_params(e, name, create_missing_reason("summary"@))
        } else if str_field(params, "start"@) is None {
            r matches Err(e) && is_invalid_params(e, name, create_missing_reason("start"@))
        } else if str_field(params, "end"@) is None {
            r matches Err(e) && is_invalid_params(e, name, create_missing_reason("end"@))
        } else {
            r matches Ok(CalendarRequest::Create { url: u, username, password, uid: id, event_url: eu, ical }) && u@
                == url && creds_fit(a, params, username, password) && id@ == uid && eu@ == event_url(url, uid)
                && ical@ == ical_text(
                uid,
                str_field(params, "summary"@)->0,
                ical_datetime(str_field(params, "start"@)->0),
                ical_datetime(str_field(params, "end"@)->0),
                str_field(params, "description"@),
                str_field(params, "location"@),
            )
        }
    } else if name == "calendar_search_events"@ {
        match str_field(params, "query"@) {
            None => r matches Err(e) && is_invalid_params(e, name, missing_field_reason("query"@)),
            Some(q) => r matches Ok(CalendarRequest::Search { url: u, username, password, query, days_ahead })
                && u@ == url && creds_fit(a, params, username, password) && query@ == q && days_ahead
                == days_of(params),
        }
    } else {
        match str_field(params, "uid"@) {
            None => r matches Err(e) && is_invalid_params(e, name, missing_field_reason("uid"@)),
            Some(id) => if name == "calendar_delete_event"@ {
                r matches Ok(CalendarRequest::Delete { username, password, uid: i, event_url: eu }) && creds_fit(
                    a,
                    params,
                    username,
                    password,
                ) && i@ == id && eu@ == event_url(url, id)
            } else {
                r matches Ok(CalendarRequest::Get { username, password, uid: i, event_url: eu }) && creds_fit(
                    a,
                    params,
                    username,
                    password,
                ) && i@ == id && eu@ == event_url(url, id)
            },
        }
    }
}

/// What a calendar call gives: the checks in order (connection, tool name,
/// URL, tool parameters), then the request.  `uid` is the id a new event
/// gets.
pub open spec fn calendar_plan_outcome(a: CalendarAdapter, name: Seq<char>, params: JsonValue, uid: Seq<char>, r: Result<CalendarRequest, AdapterError>) -> bool {
    if !a.connected {
        r matches Err(e) && is_not_connected_error(e, a.id@, name)
    } else if !is_calendar_tool(name) {
        r matches Err(e) && is_tool_not_found(e, a.id@, name)
    } else {
        match url_of(a, params) {
            None => r matches Err(e) && is_invalid_params(
                e,
                "calendar"@,
                "no CalDAV URL configured or provided in params"@,
            ),
            Some(url) => tool_outcome(a, name, params, url, uid, r),
        }
    }
}

/// `uuid::Uuid::new_v4().to_string()`: a random UUID in its hyphenated form,
/// 36 characters long; which one is chance.
#[verifier::external_body]
fn fresh_event_uid() -> (r: String)
    ensures
        r@.len() == 36,
{
    uuid::Uuid::new_v4().to_string()
}

fn clone_opt(o: &Option<String>) -> (r: Option<String>)
    ensures
        opt_string(r) == opt_string(*o),
{
    match o {
        Some(s) => Some(s.clone()),
        None => None,
    }
}

/// The tools the adapter lists are exactly those it executes: once connected, a
/// call is answered "tool not found" exactly when `tools` does not list its
/// name.
pub proof fn law_listed_tools_are_executed(a: CalendarAdapter, ts: Seq<ToolDefinition>, name: Seq<char>, params: JsonValue, uid: Seq<char>, r: Result<CalendarRequest, AdapterError>)
    requires
        calendar_tool_shapes(ts),
        a.connected,
        calendar_plan_outcome(a, name, params, uid, r),
    ensures
        is_unknown_tool(r) <==> !lists_tool(ts, name),
{
    if name == "calendar_list_events"@ {
        assert(ts[0].name@ == name);
    } else if name == "calendar_create_event"@ {
        assert(ts[1].name@ == name);
    } else if name == "calendar_delete_event"@ {
        assert(ts[2].name@ == name);
    } else if name == "calendar_search_events"@ {
        assert(ts[3].name@ == name);
    } else if name == "calendar_get_event"@ {
        assert(ts[4].name@ == name);
    }
}

/// The five tool names have these lengths, and the two of equal length
/// differ; so no two of them are equal.
proof fn lemma_tool_names()
    ensures
        "calendar_list_events"@.len() == 20,
        "calendar_create_event"@.len() == 21,
        "calendar_delete_event"@.len() == 21,
        "calendar_search_events"@.len() == 22,
        "calendar_get_event"@.len() == 18,
        "calendar_create_event"@ != "calendar_delete_event"@,
{
    reveal_strlit("calendar_list_events");
    reveal_strlit("calendar_create_event");
    reveal_strlit("calendar_delete_event");
    reveal_strlit("calendar_search_events");
    reveal_strlit("calendar_get_event");
    assert("calendar_create_event"@[9] != "calendar_delete_event"@[9]);
}

/// Deleting or reading an event addresses the event given: once connected,
/// `calendar_delete_event` (and `calendar_get_event`) with a non-empty
/// `caldav_url` parameter `cal` and a string `uid` asks for the event `uid`
/// at `<cal without trailing slashes>/<uid>.ics`.
pub proof fn law_event_address(a: CalendarAdapter, name: Seq<char>, params: JsonValue, new_uid: Seq<char>, r: Result<CalendarRequest, AdapterError>, cal: Seq<char>, id: Seq<char>)
    requires
        a.connected,
        name == "calendar_delete_event"@ || name == "calendar_get_event"@,
        nonempty_str_field(params, "caldav_url"@) == Some(cal),
        str_field(params, "uid"@) == Some(id),
        calendar_plan_outcome(a, name, params, new_uid, r),
    ensures
        name == "calendar_delete_event"@ ==> (r matches Ok(CalendarRequest::Delete { uid, event_url, .. }) && uid@
            == id && event_url@ == trim_slashes(cal) + "/"@ + id + ".ics"@),
        name == "calendar_get_event"@ ==> (r matches Ok(CalendarRequest::Get { uid, event_url, .. }) && uid@ == id
            && event_url@ == trim_slashes(cal) + "/"@ + id + ".ics"@),
{
    lemma_tool_names();
    reveal_strlit("/");
    assert(seq!['/'] =~= "/"@);
}

/// A new event is stored under its own id: once connected,
/// `calendar_create_event` with a non-empty `caldav_url` parameter `cal` and
/// string `summary`, `start` and `end`, made with the id `u`, puts an iCalendar
/// event whose `UID` is `u` at `<cal without trailing slashes>/<u>.ics`, asked
/// of the calendar `cal`.
pub proof fn law_new_event_address(a: CalendarAdapter, params: JsonValue, u: Seq<char>, r: Result<CalendarRequest, AdapterError>, cal: Seq<char>)
    requires
        a.connected,
        nonempty_str_field(params, "caldav_url"@) == Some(cal),
        str_field(params, "summary"@) is Some,
        str_field(params, "start"@) is Some,
        str_field(params, "end"@) is Some,
        calendar_plan_outcome(a, "calendar_create_event"@, params, u, r),
    ensures
        r matches Ok(CalendarRequest::Create { url, uid, event_url, ical, .. }) && url@ == cal && uid@ == u
            && event_url@ == trim_slashes(cal) + "/"@ + u + ".ics"@ && ical@.subrange(0, 86) == "BEGIN:VCALENDAR\r\nVERSION:2.0\r\nPRODID:-//OpenIntentOS//Calendar//EN\r\nBEGIN:VEVENT\r\nUID:"@ && ical@.subrange(
            86,
            86 + u.len() as int,
        ) == u && ical@.subrange(86 + u.len() as int, 88 + u.len() as int) == "\r\n"@,
{
    lemma_tool_names();
    reveal_strlit("/");
    assert(seq!['/'] =~= "/"@);
    reveal_strlit("BEGIN:VCALENDAR\r\n");
    reveal_strlit("VERSION:2.0\r\n");
    reveal_strlit("PRODID:-//OpenIntentOS//Calendar//EN\r\n");
    reveal_strlit("BEGIN:VEVENT\r\n");
    reveal_strlit("UID:");
    reveal_strlit("\r\n");
    reveal_strlit("BEGIN:VCALENDAR\r\nVERSION:2.0\r\nPRODID:-//OpenIntentOS//Calendar//EN\r\nBEGIN:VEVENT\r\nUID:");
    let head = "BEGIN:VCALENDAR\r\n"@ + "VERSION:2.0\r\n"@ + "PRODID:-//OpenIntentOS//Calendar//EN\r\n"@
        + "BEGIN:VEVENT\r\n"@ + "UID:"@;
    assert(head =~= "BEGIN:VCALENDAR\r\nVERSION:2.0\r\nPRODID:-//OpenIntentOS//Calendar//EN\r\nBEGIN:VEVENT\r\nUID:"@);
    assert(head.len() == 86);
    let q = r->Ok_0;
    let ical = q->Create_ical@;
    let rest = ical.subrange(86 + u.len() as int + 2, ical.len() as int);
    assert(ical =~= head + u + "\r\n"@ + rest);
    assert(ical.subrange(0, 86) =~= head);
    assert(ical.subrange(86, 86 + u.len() as int) =~= u);
    assert(ical.subrange(86 + u.len() as int, 88 + u.len() as int) =~= "\r\n"@);
}

/// Events made with different ids of one length are stored at different
/// addresses: two `calendar_create_event` calls on the same calendar, made
/// with ids `u1 != u2` of equal length, put their events at different URLs.
pub proof fn law_distinct_ids_distinct_events(a: CalendarAdapter, params: JsonValue, u1: Seq<char>, u2: Seq<char>, r1: Result<CalendarRequest, AdapterError>, r2: Result<CalendarRequest, AdapterError>)
    requires
        a.connected,
        u1 != u2,
        u1.len() == u2.len(),
        calendar_plan_outcome(a, "calendar_create_event"@, params, u1, r1),
        calendar_plan_outcome(a, "calendar_create_event"@, params, u2, r2),
        r1 is Ok,
    ensures
        r1 matches Ok(CalendarRequest::Create { event_url: e1, .. }) && r2 matches Ok(
            CalendarRequest::Create { event_url: e2, .. },
        ) && e1@ != e2@,
{
    lemma_tool_names();
    let cal = url_of(a, params)->0;
    let e1 = r1->Ok_0->Create_event_url@;
    let e2 = r2->Ok_0->Create_event_url@;
    let p = trim_slashes(cal) + seq!['/'];
    assert(e1 == p + u1 + ".ics"@);
    assert(e2 == p + u2 + ".ics"@);
    let i = choose|i: int| 0 <= i < u1.len() && u1[i] != u2[i];
    assert(exists|i: int| 0 <= i < u1.len() && u1[i] != u2[i]) by {
        if !exists|i: int| 0 <= i < u1.len() && u1[i] != u2[i] {
            assert(u1 =~= u2);
        }
    }
    assert(e1[p.len() + i] == u1[i]);
    assert(e2[p.len() + i] == u2[i]);
}

/// Listing and searching cover the days asked for: once connected,
/// `calendar_list_events` (and `calendar_search_events` with a string `query`)
/// with a non-empty `caldav_url` parameter `cal` asks the calendar `cal` for
/// the events of the next `days_ahead` days (the integer parameter, or 7),
/// searching for that query.
pub proof fn law_listing_window(a: CalendarAdapter, name: Seq<char>, params: JsonValue, new_uid: Seq<char>, r: Result<CalendarRequest, AdapterError>, cal: Seq<char>)
    requires
        a.connected,
        name == "calendar_list_events"@ || (name == "calendar_search_events"@ && str_field(params, "query"@) is Some),
        nonempty_str_field(params, "caldav_url"@) == Some(cal),
        calendar_plan_outcome(a, name, params, new_uid, r),
    ensures
        ({
            let days = match i64_field(params, "days_ahead"@) {
                Some(n) => n,
                None => 7,
            };
            &&& name == "calendar_list_events"@ ==> (r matches Ok(CalendarRequest::List { url, days_ahead, .. })
                && url@ == cal && days_ahead == days)
            &&& name == "calendar_search_events"@ ==> (r matches Ok(
                CalendarRequest::Search { url, query, days_ahead, .. },
            ) && url@ == cal && Some(query@) == str_field(params, "query"@) && days_ahead == days)
        }),
{
    lemma_tool_names();
}

impl CalendarAdapter {
    /// A new, disconnected adapter with nothing configured.
    pub fn new(id: &str) -> (r: Self)
        ensures
            r.id@ == id@,
            !r.connected,
            r.caldav_url is None,
            r.username is None,
            r.password is None,
    {
        CalendarAdapter { id: String::from_str(id), connected: false, caldav_url: None, username: None, password: None }
    }

    /// A new, disconnected adapter with CalDAV URL and credentials.
    pub fn with_caldav(id: &str, url: &str, username: &str, password: &str) -> (r: Self)
        ensures
            r.id@ == id@,
            !r.connected,
            opt_string(r.caldav_url) == Some(url@),
            opt_string(r.username) == Some(username@),
            opt_string(r.password) == Some(password@),
    {
        let mut a = Self::new(id);
        a.caldav_url = Some(String::from_str(url));
        a.username = Some(String::from_str(username));
        a.password = Some(String::from_str(password));
        a
    }

    /// The adapter's id.
    pub fn id(&self) -> (r: &str)
        ensures
            r@ == self.id@,
    {
        self.id.as_str()
    }

    /// The adapter's category.
    pub fn adapter_type(&self) -> (r: AdapterType)
        ensures
            r == AdapterType::Productivity,
    {
        AdapterType::Productivity
    }

    /// CalDAV credentials with calendar read and write scopes.
    pub fn required_auth(&self) -> (r: Option<AuthRequirement>)
        ensures
            r matches Some(a) && a.provider@ == "caldav"@ && crate::traits::views(a.scopes@) == seq![
                "calendar:read"@,
                "calendar:write"@,
            ],
    {
        Some(crate::traits::auth_requirement("caldav", &["calendar:read", "calendar:write"]))
    }

    /// The five calendar tools.
    pub fn tools(&self) -> (r: Vec<ToolDefinition>)
        ensures
            calendar_tool_shapes(r@),
    {
        build_tool_definitions()
    }

    /// Marks the adapter connected.
    pub fn connect(&mut self) -> (r: Result<(), AdapterError>)
        ensures
            r is Ok,
            final(self).connected,
            final(self).id == old(self).id,
            final(self).caldav_url == old(self).caldav_url,
            final(self).username == old(self).username,
            final(self).password == old(self).password,
    {
        self.connected = true;
        Ok(())
    }

    /// Marks the adapter disconnected.
    pub fn disconnect(&mut self) -> (r: Result<(), AdapterError>)
        ensures
            r is Ok,
            !final(self).connected,
            final(self).id == old(self).id,
            final(self).caldav_url == old(self).caldav_url,
            final(self).username == old(self).username,
            final(self).password == old(self).password,
    {
        self.connected = false;
        Ok(())
    }

    /// Unhealthy when disconnected, degraded without a CalDAV URL.
    pub fn health_check(&self) -> (r: Result<HealthStatus, AdapterError>)
        ensures
            r == Ok::<HealthStatus, AdapterError>(credential_health(self.connected, self.caldav_url is Some)),
    {
        if !self.connected {
            Ok(HealthStatus::Unhealthy)
        } else if self.caldav_url.is_some() {
            Ok(HealthStatus::Healthy)
        } else {
            Ok(HealthStatus::Degraded)
        }
    }

    /// The calendar URL of a call.
    pub fn resolve_caldav_url(&self, params: &JsonValue) -> (r: Result<String, AdapterError>)
        ensures
            match url_of(*self, *params) {
                Some(u) => r matches Ok(x) && x@ == u,
                None => r matches Err(e) && is_invalid_params(
                    e,
                    "calendar"@,
                    "no CalDAV URL configured or provided in params"@,
                ),
            },
    {
        match get_nonempty_str(params, "caldav_url") {
            Some(u) => Ok(u),
            None => match &self.caldav_url {
                Some(u) => Ok(u.clone()),
                None => Err(invalid_params("calendar", String::from_str("no CalDAV URL configured or provided in params"))),
            },
        }
    }

    /// The username of a call: a non-empty parameter, else the configured one.
    pub fn resolve_username(&self, params: &JsonValue) -> (r: Option<String>)
        ensures
            opt_string(r) == param_or_configured(*params, "username"@, self.username),
    {
        match get_nonempty_str(params, "username") {
            Some(u) => Some(u),
            None => clone_opt(&self.username),
        }
    }

    /// The password of a call: a non-empty parameter, else the configured one.
    pub fn resolve_password(&self, params: &JsonValue) -> (r: Option<String>)
        ensures
            opt_string(r) == param_or_configured(*params, "password"@, self.password),
    {
        match get_nonempty_str(params, "password") {
            Some(u) => Some(u),
            None => clone_opt(&self.password),
        }
    }

    /// Checks a call and turns it into a request; a new event gets the id `uid`.
    pub fn plan_tool_with(&self, name: &str, params: &JsonValue, uid: &str) -> (r: Result<CalendarRequest, AdapterError>)
        ensures
            calendar_plan_outcome(*self, name@, *params, uid@, r),
    {
        match ensure_connected(self.connected, self.id.as_str(), name) {
            Ok(()) => {},
            Err(e) => {
                return Err(e);
            },
        }
        let is_list = same_text(name, "calendar_list_events");
        let is_create = same_text(name, "calendar_create_event");
        let is_delete = same_text(name, "calendar_delete_event");
        let is_search = same_text(name, "calendar_search_events");
        let is_get = same_text(name, "calendar_get_event");
        if !(is_list || is_create || is_delete || is_search || is_get) {
            return Err(tool_not_found(self.id.as_str(), name));
        }
        proof {
            reveal_strlit("calendar_list_events");
            reveal_strlit("calendar_create_event");
            reveal_strlit("calendar_delete_event");
            reveal_strlit("calendar_search_events");
            reveal_strlit("calendar_get_event");
            reveal_strlit("summary");
            assert("calendar_list_events"@.len() == 20 && "calendar_create_event"@.len() == 21);
            assert("calendar_delete_event"@.len() == 21 && "calendar_search_events"@.len() == 22);
            assert("calendar_get_event"@.len() == 18);
            assert("calendar_create_event"@[9] != "calendar_delete_event"@[9]);
            assert("summary"@.len() == 7);
        }
        let url = match self.resolve_caldav_url(params) {
            Ok(u) => u,
            Err(e) => {
                return Err(e);
            },
        };
        let username = self.resolve_username(params);
        let password = self.resolve_password(params);
        if is_list {
            let days_ahead = match get_i64(params, "days_ahead") {
                Some(n) => n,
                None => DEFAULT_DAYS_AHEAD,
            };
            return Ok(CalendarRequest::List { url, username, password, days_ahead });
        }
        if is_create {
            let summary = match get_str(params, "summary") {
                Some(s) => s,
                None => {
                    return Err(invalid_params(name, crate::error::missing_field("summary")));
                },
            };
            let start = match get_str(params, "start") {
                Some(s) => s,
                None => {
                    let mut reason = crate::error::missing_field("start");
                    reason.append(" (ISO 8601)");
                    return Err(invalid_params(name, reason));
                },
            };
            let end = match get_str(params, "end") {
                Some(s) => s,
                None => {
                    let mut reason = crate::error::missing_field("end");
                    reason.append(" (ISO 8601)");
                    return Err(invalid_params(name, reason));
                },
            };
            let description = get_str(params, "description");
            let location = get_str(params, "location");
            let ical = generate_ical_event(
                uid,
                summary.as_str(),
                start.as_str(),
                end.as_str(),
                match &description {
                    Some(d) => Some(d.as_str()),
                    None => None,
                },
                match &location {
                    Some(l) => Some(l.as_str()),
                    None => None,
                },
            );
            let event_url = build_event_url(url.as_str(), uid);
            return Ok(
                CalendarRequest::Create { url, username, password, uid: String::from_str(uid), event_url, ical },
            );
        }
        if is_search {
            let query = match require_str(params, "query", name) {
                Ok(q) => q,
                Err(e) => {
                    return Err(e);
                },
            };
            let days_ahead = match get_i64(params, "days_ahead") {
                Some(n) => n,
                None => DEFAULT_DAYS_AHEAD,
            };
            return Ok(CalendarRequest::Search { url, username, password, query, days_ahead });
        }
        let id = match require_str(params, "uid", name) {
            Ok(u) => u,
            Err(e) => {
                return Err(e);
            },
        };
        let event_url = build_event_url(url.as_str(), id.as_str());
        if is_delete {
            Ok(CalendarRequest::Delete { username, password, uid: id, event_url })
        } else {
            Ok(CalendarRequest::Get { username, password, uid: id, event_url })
        }
    }

    /// Checks a call and turns it into a request; a new event gets a fresh
    /// random id.
    pub fn plan_tool(&self, name: &str, params: &JsonValue) -> (r: Result<CalendarRequest, AdapterError>)
        ensures
            exists|uid: Seq<char>| calendar_plan_outcome(*self, name@, *params, uid, r),
    {
        let uid = if same_text(name, "calendar_create_event") {
            fresh_event_uid()
        } else {
            String::new()
        };
        self.plan_tool_with(name, params, uid.as_str())
    }
}

// ---------------------------------------------------------------------------
// Tool results
// ---------------------------------------------------------------------------

/// Whether an HTTP status means the event was stored.
pub open spec fn created_ok(status: u16) -> bool {
    status == 201 || status == 204 || status == 200
}

/// Whether an HTTP status means the event was deleted.
pub open spec fn deleted_ok(status: u16) -> bool {
    status == 204 || status == 200
}

/// The result of `calendar_list_events`:
/// `{success: true, events, count, range: {start, end}}`.
pub fn list_events_result(body: &str, start: &str, end: &str) -> (j: JsonValue)
    ensures
        keys_of(j) == seq!["success"@, "events"@, "count"@, "range"@],
        value_at(j, 0) == JsonValue::Bool(true),
        value_at(j, 1) matches JsonValue::Array(a) && events_json(a@, ical_events(body@)),
        value_at(j, 2) == uint(ical_events(body@).len() as u64),
        keys_of(value_at(j, 3)) == seq!["start"@, "end"@],
        str_of(value_at(value_at(j, 3), 0)) == Some(start@),
        str_of(value_at(value_at(j, 3), 1)) == Some(end@),
{
    let events = parse_ical_events(body);
    let count = events.len() as u64;
    let mut range: Vec<(String, JsonValue)> = Vec::new();
    range.push((String::from_str("start"), JsonValue::from_str_value(start)));
    range.push((String::from_str("end"), JsonValue::from_str_value(end)));
    let rj = JsonValue::Object(range);
    assert(keys_of(rj) =~= seq!["start"@, "end"@]);
    let mut es: Vec<(String, JsonValue)> = Vec::new();
    es.push((String::from_str("success"), JsonValue::Bool(true)));
    es.push((String::from_str("events"), JsonValue::Array(events)));
    es.push((String::from_str("count"), JsonValue::Number(JsonNumber::PosInt(count))));
    es.push((String::from_str("range"), rj));
    let j = JsonValue::Object(es);
    assert(keys_of(j) =~= seq!["success"@, "events"@, "count"@, "range"@]);
    j
}

/// The result of `calendar_create_event`: `{success, uid, url, status}`.
pub fn create_event_result(status: u16, uid: &str, url: &str) -> (j: JsonValue)
    ensures
        keys_of(j) == seq!["success"@, "uid"@, "url"@, "status"@],
        value_at(j, 0) == JsonValue::Bool(created_ok(status)),
        str_of(value_at(j, 1)) == Some(uid@),
        str_of(value_at(j, 2)) == Some(url@),
        value_at(j, 3) == uint(status as u64),
{
    let mut es: Vec<(String, JsonValue)> = Vec::new();
    es.push((String::from_str("success"), JsonValue::Bool(status == 201 || status == 204 || status == 200)));
    es.push((String::from_str("uid"), JsonValue::from_str_value(uid)));
    es.push((String::from_str("url"), JsonValue::from_str_value(url)));
    es.push((String::from_str("status"), JsonValue::Number(JsonNumber::PosInt(status as u64))));
    let j = JsonValue::Object(es);
    assert(keys_of(j) =~= seq!["success"@, "uid"@, "url"@, "status"@]);
    j
}

/// The result of `calendar_delete_event`: `{success, uid, status}`.
pub fn delete_event_result(status: u16, uid: &str) -> (j: JsonValue)
    ensures
        keys_of(j) == seq!["success"@, "uid"@, "status"@],
        value_at(j, 0) == JsonValue::Bool(deleted_ok(status)),
        str_of(value_at(j, 1)) == Some(uid@),
        value_at(j, 2) == uint(status as u64),
{
    let mut es: Vec<(String, JsonValue)> = Vec::new();
    es.push((String::from_str("success"), JsonValue::Bool(status == 204 || status == 200)));
    es.push((String::from_str("uid"), JsonValue::from_str_value(uid)));
    es.push((String::from_str("status"), JsonValue::Number(JsonNumber::PosInt(status as u64))));
    let j = JsonValue::Object(es);
    assert(keys_of(j) =~= seq!["success"@, "uid"@, "status"@]);
    j
}

/// The result of `calendar_search_events`:
/// `{success: true, events, count, query}` with the matching events.
pub fn search_events_result(body: &str, query: &str) -> (j: JsonValue)
    ensures
        keys_of(j) == seq!["success"@, "events"@, "count"@, "query"@],
        value_at(j, 0) == JsonValue::Bool(true),
        value_at(j, 1) matches JsonValue::Array(a) && events_json(a@, matching_events(ical_events(body@), query@)),
        value_at(j, 2) == uint(matching_events(ical_events(body@), query@).len() as u64),
        str_of(value_at(j, 3)) == Some(query@),
{
    let evs = parse_ical_properties(body);
    let matched = filter_events(&evs, query);
    let count = matched.len() as u64;
    let mut es: Vec<(String, JsonValue)> = Vec::new();
    es.push((String::from_str("success"), JsonValue::Bool(true)));
    es.push((String::from_str("events"), JsonValue::Array(matched)));
    es.push((String::from_str("count"), JsonValue::Number(JsonNumber::PosInt(count))));
    es.push((String::from_str("query"), JsonValue::from_str_value(query)));
    let j = JsonValue::Object(es);
    assert(keys_of(j) =~= seq!["success"@, "events"@, "count"@, "query"@]);
    j
}

/// The result of `calendar_get_event`: for status 404
/// `{success: false, error: "event not found", uid}`, else
/// `{success: true, uid, event, raw}` with the first event of the body (or
/// an empty object).
pub fn get_event_result(status: u16, uid: &str, body: &str) -> (j: JsonValue)
    ensures
        status == 404 ==> {
            &&& keys_of(j) == seq!["success"@, "error"@, "uid"@]
            &&& value_at(j, 0) == JsonValue::Bool(false)
            &&& str_of(value_at(j, 1)) == Some("event not found"@)
            &&& str_of(value_at(j, 2)) == Some(uid@)
        },
        status != 404 ==> {
            &&& keys_of(j) == seq!["success"@, "uid"@, "event"@, "raw"@]
            &&& value_at(j, 0) == JsonValue::Bool(true)
            &&& str_of(value_at(j, 1)) == Some(uid@)
            &&& if ical_events(body@).len() > 0 {
                crate::calendar::caldav::event_json(value_at(j, 2), ical_events(body@)[0])
            } else {
                value_at(j, 2) is Object && keys_of(value_at(j, 2)).len() == 0
            }
            &&& str_of(value_at(j, 3)) == Some(body@)
        },
{
    if status == 404 {
        let mut es: Vec<(String, JsonValue)> = Vec::new();
        es.push((String::from_str("success"), JsonValue::Bool(false)));
        es.push((String::from_str("error"), JsonValue::from_str_value("event not found")));
        es.push((String::from_str("uid"), JsonValue::from_str_value(uid)));
        let j = JsonValue::Object(es);
        assert(keys_of(j) =~= seq!["success"@, "error"@, "uid"@]);
        return j;
    }
    let mut events = parse_ical_events(body);
    let event = if events.len() > 0 {
        events.swap_remove(0)
    } else {
        let empty: Vec<(String, JsonValue)> = Vec::new();
        let e = JsonValue::Object(empty);
        assert(keys_of(e) =~= Seq::<Seq<char>>::empty());
        e
    };
    let mut es: Vec<(String, JsonValue)> = Vec::new();
    es.push((String::from_str("success"), JsonValue::Bool(true)));
    es.push((String::from_str("uid"), JsonValue::from_str_value(uid)));
    es.push((String::from_str("event"), event));
    es.push((String::from_str("raw"), JsonValue::from_str_value(body)));
    let j = JsonValue::Object(es);
    assert(keys_of(j) =~= seq!["success"@, "uid"@, "event"@, "raw"@]);
    j
}

} // verus!
