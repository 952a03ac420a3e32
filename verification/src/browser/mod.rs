//! Browser adapter: drives a Chromium-based browser over the Chrome DevTools
//! Protocol.
//!
//! A tool call is checked and turned into a [`BrowserCall`] (a CDP method,
//! its parameters and a message id); the caller sends it to the first page
//! target, reads frames with [`cdp::cdp_step`], and hands the reply to the
//! tool's reading function in [`tools`].

pub mod cdp;
pub mod tools;

use vstd::prelude::*;
use vstd::string::*;

use crate::error::{AdapterError, execution_failed, invalid_params, is_execution_failed, is_invalid_params, missing_field, missing_field_reason};
use crate::json::{JsonValue, get_str, json_quote, json_quoted, keys_of, str_field, str_of, value_at};
use crate::text::same_text;
use crate::traits::{AdapterType, AuthRequirement, HealthStatus, ToolDefinition, ensure_connected, is_not_connected_error, is_tool_not_found, tool_not_found, is_unknown_tool, lists_tool};
use cdp::{CDP_TIMEOUT_SECS, Platform, chrome_candidates_of, chrome_launch_args, find_chrome_path, first_present};
use tools::{browser_tool_shapes, build_tool_definitions};

verus! {

/// Default Chrome DevTools Protocol debug port.
pub const DEFAULT_DEBUG_PORT: u16 = 9222;

/// Timeout of `browser_evaluate` in seconds.
pub const EVALUATE_TIMEOUT_SECS: u64 = 120;

/// The click script up to the first occurrence of the quoted selector.
pub const CLICK_SCRIPT_0: &'static str = "(() => {\n            const el = document.querySelector(";

/// The click script between the first and second quoted selector.
pub const CLICK_SCRIPT_1: &'static str = ");\n            if (!el) return JSON.stringify({ error: \"element not found\", selector: ";

/// The click script between the second and third quoted selector.
pub const CLICK_SCRIPT_2: &'static str = " });\n            el.click();\n            return JSON.stringify({ success: true, tag: el.tagName, selector: ";

/// The click script after the third quoted selector.
pub const CLICK_SCRIPT_3: &'static str = " });\n        })()";

/// The typing script up to the quoted text.
pub const TYPE_SCRIPT_0: &'static str = "(() => {\n            const el = document.activeElement;\n            if (!el || el === document.body) {\n                return JSON.stringify({ error: \"no element focused\" });\n            }\n            const text = ";

/// The typing script after the quoted text.
pub const TYPE_SCRIPT_1: &'static str = ";\n            if ('value' in el) {\n                el.value += text;\n                el.dispatchEvent(new Event('input', { bubbles: true }));\n                el.dispatchEvent(new Event('change', { bubbles: true }));\n            } else {\n                el.textContent += text;\n                el.dispatchEvent(new Event('input', { bubbles: true }));\n            }\n            return JSON.stringify({ success: true, tag: el.tagName, typed_length: text.length });\n        })()";

/// The expression that reads the page text.
pub const PAGE_TEXT_EXPRESSION: &'static str = "document.body.innerText";

/// Browser adapter state.
#[derive(Debug)]
pub struct BrowserAdapter {
    pub id: String,
    pub connected: bool,
    /// Chrome/Chromium executable to launch, if not the platform default.
    pub chrome_path: Option<String>,
    /// The remote debugging port.
    pub debug_port: u16,
    /// The id of the next CDP message.
    pub next_message_id: u64,
}

/// A CDP command to send for a tool call.
#[derive(Debug)]
pub struct BrowserCall {
    pub tool: String,
    /// The CDP message id.
    pub msg_id: u64,
    pub method: String,
    pub params: JsonValue,
    /// How long to wait for the reply, in seconds.
    pub timeout_secs: u64,
}

/// How Chrome is started: the executable and its arguments.
#[derive(Debug)]
pub struct ChromeLaunch {
    pub program: String,
    pub args: Vec<String>,
}

/// The message id after `n` (message ids wrap around).
pub open spec fn id_after(n: u64) -> u64 {
    if n == u64::MAX {
        0
    } else {
        (n + 1) as u64
    }
}

/// Whether `name` is one of the six browser tools.
pub open spec fn is_browser_tool(name: Seq<char>) -> bool {
    name == "browser_navigate"@ || name == "browser_get_page_content"@ || name == "browser_screenshot"@
        || name == "browser_click"@ || name == "browser_type_text"@ || name == "browser_evaluate"@
}

/// The string parameter a tool requires, if any.
pub open spec fn required_param(name: Seq<char>) -> Option<Seq<char>> {
    if name == "browser_navigate"@ {
        Some("url"@)
    } else if name == "browser_click"@ {
        Some("selector"@)
    } else if name == "browser_type_text"@ {
        Some("text"@)
    } else if name == "browser_evaluate"@ {
        Some("expression"@)
    } else {
        None
    }
}

/// The requested screenshot format (`png` by default).
pub open spec fn screenshot_format(params: JsonValue) -> Seq<char> {
    match str_field(params, "format"@) {
        Some(f) => f,
        None => "png"@,
    }
}

/// The reason given for a screenshot format other than png and jpeg.
pub open spec fn bad_format_reason(format: Seq<char>) -> Seq<char> {
    "unsupported format `"@ + format + "`; use \"png\" or \"jpeg\""@
}

/// The reason given for a URL the parser rejects.
pub open spec fn bad_url_reason(url: Seq<char>, message: Seq<char>) -> Seq<char> {
    "invalid URL `"@ + url + "`: "@ + message
}

/// The click script for a selector.
pub open spec fn click_script(selector: Seq<char>) -> Seq<char> {
    let q = json_quoted(selector);
    CLICK_SCRIPT_0@ + q + CLICK_SCRIPT_1@ + q + CLICK_SCRIPT_2@ + q + CLICK_SCRIPT_3@
}

/// The typing script for a text.
pub open spec fn type_script(text: Seq<char>) -> Seq<char> {
    TYPE_SCRIPT_0@ + json_quoted(text) + TYPE_SCRIPT_1@
}

/// `url::Url::parse` on a text: `None` when it parses, else the parser's
/// error message.
pub uninterp spec fn url_parse_error(input: Seq<char>) -> Option<Seq<char>>;

/// `url::Url::parse`: `None` when `input` parses as a URL, otherwise the
/// message of the parse error.  What the parser accepts is not restated.
#[verifier::external_body]
fn check_url(input: &str) -> (r: Option<String>)
    ensures
        match r {
            Some(m) => url_parse_error(input@) == Some(m@),
            None => url_parse_error(input@) is None,
        },
{
    match url::Url::parse(input) {
        Ok(_) => None,
        Err(e) => Some(e.to_string()),
    }
}

/// A `Runtime.evaluate` parameter object: the expression, `returnByValue`,
/// and, for `browser_evaluate`, `awaitPromise`.
pub open spec fn evaluate_params(p: JsonValue, expression: Seq<char>, await_promise: bool) -> bool {
    &&& if await_promise {
        keys_of(p) == seq!["expression"@, "returnByValue"@, "awaitPromise"@] && value_at(p, 2)
            == JsonValue::Bool(true)
    } else {
        keys_of(p) == seq!["expression"@, "returnByValue"@]
    }
    &&& str_of(value_at(p, 0)) == Some(expression)
    &&& value_at(p, 1) == JsonValue::Bool(true)
}

/// The CDP command of a checked tool call: method, parameters and timeout.
pub open spec fn call_shape(name: Seq<char>, params: JsonValue, q: BrowserCall) -> bool {
    &&& q.tool@ == name
    &&& if name == "browser_navigate"@ {
        &&& q.method@ == "Page.navigate"@
        &&& keys_of(q.params) == seq!["url"@]
        &&& str_of(value_at(q.params, 0)) == str_field(params, "url"@)
        &&& q.timeout_secs == CDP_TIMEOUT_SECS
    } else if name == "browser_get_page_content"@ {
        &&& q.method@ == "Runtime.evaluate"@
        &&& evaluate_params(q.params, PAGE_TEXT_EXPRESSION@, false)
        &&& q.timeout_secs == CDP_TIMEOUT_SECS
    } else if name == "browser_screenshot"@ {
        &&& q.method@ == "Page.captureScreenshot"@
        &&& keys_of(q.params) == seq!["format"@]
        &&& str_of(value_at(q.params, 0)) == Some(screenshot_format(params))
        &&& q.timeout_secs == CDP_TIMEOUT_SECS
    } else if name == "browser_click"@ {
        &&& q.method@ == "Runtime.evaluate"@
        &&& str_field(params, "selector"@) matches Some(s) && evaluate_params(q.params, click_script(s), false)
        &&& q.timeout_secs == CDP_TIMEOUT_SECS
    } else if name == "browser_type_text"@ {
        &&& q.method@ == "Runtime.evaluate"@
        &&& str_field(params, "text"@) matches Some(t) && evaluate_params(q.params, type_script(t), false)
        &&& q.timeout_secs == CDP_TIMEOUT_SECS
    } else {
        &&& q.method@ == "Runtime.evaluate"@
        &&& str_field(params, "expression"@) matches Some(x) && evaluate_params(q.params, x, true)
        &&& q.timeout_secs == EVALUATE_TIMEOUT_SECS
    }
}

/// What a browser tool call gives, in the order of the checks: connection,
/// tool name, the required parameter, the URL of a navigation, the format of
/// a screenshot; then the command, which takes the next message id.
pub open spec fn browser_plan_outcome(
    a: BrowserAdapter,
    a2: BrowserAdapter,
    name: Seq<char>,
    params: JsonValue,
    r: Result<BrowserCall, AdapterError>,
) -> bool {
    &&& a2.id == a.id && a2.connected == a.connected && a2.chrome_path == a.chrome_path && a2.debug_port
        == a.debug_port
    &&& if !a.connected {
        r matches Err(e) && is_not_connected_error(e, a.id@, name) && a2.next_message_id == a.next_message_id
    } else if !is_browser_tool(name) {
        r matches Err(e) && is_tool_not_found(e, a.id@, name) && a2.next_message_id == a.next_message_id
    } else if required_param(name) matches Some(k) && str_field(params, k) is None {
        r matches Err(e) && is_invalid_params(e, name, missing_field_reason(required_param(name)->0))
            && a2.next_message_id == a.next_message_id
    } else if name == "browser_navigate"@ && url_parse_error(str_field(params, "url"@)->0) is Some {
        r matches Err(e) && is_invalid_params(
            e,
            name,
            bad_url_reason(str_field(params, "url"@)->0, url_parse_error(str_field(params, "url"@)->0)->0),
        ) && a2.next_message_id == a.next_message_id
    } else if name == "browser_screenshot"@ && screenshot_format(params) != "png"@ && screenshot_format(params)
        != "jpeg"@ {
        r matches Err(e) && is_invalid_params(e, name, bad_format_reason(screenshot_format(params)))
            && a2.next_message_id == a.next_message_id
    } else {
        r matches Ok(q) && call_shape(name, params, q) && q.msg_id == a.next_message_id && a2.next_message_id
            == id_after(a.next_message_id)
    }
}

fn evaluate_object(expression: String, await_promise: bool) -> (p: JsonValue)
    ensures
        evaluate_params(p, expression@, await_promise),
{
    let mut es: Vec<(String, JsonValue)> = Vec::new();
    es.push((String::from_str("expression"), JsonValue::Str(expression)));
    es.push((String::from_str("returnByValue"), JsonValue::Bool(true)));
    if await_promise {
        es.push((String::from_str("awaitPromise"), JsonValue::Bool(true)));
    }
    let p = JsonValue::Object(es);
    if await_promise {
        assert(keys_of(p) =~= seq!["expression"@, "returnByValue"@, "awaitPromise"@]);
    } else {
        assert(keys_of(p) =~= seq!["expression"@, "returnByValue"@]);
    }
    p
}

fn single_field(key: &str, value: String) -> (p: JsonValue)
    ensures
        keys_of(p) == seq![key@],
        str_of(value_at(p, 0)) == Some(value@),
{
    let mut es: Vec<(String, JsonValue)> = Vec::new();
    es.push((String::from_str(key), JsonValue::Str(value)));
    let p = JsonValue::Object(es);
    assert(keys_of(p) =~= seq![key@]);
    p
}

/// The click script for a selector.
pub fn build_click_script(selector: &str) -> (r: String)
    ensures
        r@ == click_script(selector@),
{
    let q = json_quote(selector);
    let mut s = String::from_str(CLICK_SCRIPT_0);
    s.append(q.as_str());
    s.append(CLICK_SCRIPT_1);
    s.append(q.as_str());
    s.append(CLICK_SCRIPT_2);
    s.append(q.as_str());
    s.append(CLICK_SCRIPT_3);
    s
}

/// The typing script for a text.
pub fn build_type_script(text: &str) -> (r: String)
    ensures
        r@ == type_script(text@),
{
    let q = json_quote(text);
    let mut s = String::from_str(TYPE_SCRIPT_0);
    s.append(q.as_str());
    s.append(TYPE_SCRIPT_1);
    s
}

/// Checks a URL for `browser_navigate`, given what the URL parser said of it
/// (`None` when it parsed, else its message).
pub fn navigate_url_check(url: &str, parse_error: Option<String>) -> (r: Result<(), AdapterError>)
    ensures
        match parse_error {
            None => r is Ok,
            Some(m) => r matches Err(e) && is_invalid_params(e, "browser_navigate"@, bad_url_reason(url@, m@)),
        },
{
    match parse_error {
        None => Ok(()),
        Some(m) => {
            let mut reason = String::from_str("invalid URL `");
            reason.append(url);
            reason.append("`: ");
            reason.append(m.as_str());
            Err(invalid_params("browser_navigate", reason))
        },
    }
}

/// Checks a screenshot format: png and jpeg are accepted.
pub fn screenshot_format_check(format: &str) -> (r: Result<(), AdapterError>)
    ensures
        format@ == "png"@ || format@ == "jpeg"@ ==> r is Ok,
        !(format@ == "png"@ || format@ == "jpeg"@) ==> (r matches Err(e) && is_invalid_params(
            e,
            "browser_screenshot"@,
            bad_format_reason(format@),
        )),
{
    if same_text(format, "png") || same_text(format, "jpeg") {
        Ok(())
    } else {
        let mut reason = String::from_str("unsupported format `");
        reason.append(format);
        reason.append("`; use \"png\" or \"jpeg\"");
        Err(invalid_params("browser_screenshot", reason))
    }
}

/// The tools the adapter lists are exactly those it executes: once
/// connected, a call is answered "tool not found" exactly when `tools`
/// does not list its name.
pub proof fn law_listed_tools_are_executed(a: BrowserAdapter, a2: BrowserAdapter, ts: Seq<ToolDefinition>, name: Seq<char>, params: JsonValue, r: Result<BrowserCall, AdapterError>)
    requires
        browser_tool_shapes(ts),
        a.connected,
        browser_plan_outcome(a, a2, name, params, r),
    ensures
        is_unknown_tool(r) <==> !lists_tool(ts, name),
{
    if name == "browser_navigate"@ {
        assert(ts[0].name@ == name);
    } else if name == "browser_get_page_content"@ {
        assert(ts[1].name@ == name);
    } else if name == "browser_screenshot"@ {
        assert(ts[2].name@ == name);
    } else if name == "browser_click"@ {
        assert(ts[3].name@ == name);
    } else if name == "browser_type_text"@ {
        assert(ts[4].name@ == name);
    } else if name == "browser_evaluate"@ {
        assert(ts[5].name@ == name);
    }
}

/// The six tool names: only `browser_navigate` and `browser_evaluate` share a
/// length, and they differ.
proof fn lemma_tool_names()
    ensures
        "browser_navigate"@.len() == 16,
        "browser_get_page_content"@.len() == 24,
        "browser_screenshot"@.len() == 18,
        "browser_click"@.len() == 13,
        "browser_type_text"@.len() == 17,
        "browser_evaluate"@.len() == 16,
        "browser_navigate"@ != "browser_evaluate"@,
{
    reveal_strlit("browser_navigate");
    reveal_strlit("browser_get_page_content");
    reveal_strlit("browser_screenshot");
    reveal_strlit("browser_click");
    reveal_strlit("browser_type_text");
    reveal_strlit("browser_evaluate");
    assert("browser_navigate"@[8] != "browser_evaluate"@[8]);
}

/// Navigating goes to the URL given: once connected, `browser_navigate` with
/// a string `url` that parses as a URL is the command `Page.navigate` with
/// `{"url": <url>}`, a 30 second timeout and the adapter's next message id,
/// which then moves on by one.
pub proof fn law_navigate(a: BrowserAdapter, a2: BrowserAdapter, params: JsonValue, r: Result<BrowserCall, AdapterError>, url: Seq<char>)
    requires
        a.connected,
        str_field(params, "url"@) == Some(url),
        url_parse_error(url) is None,
        a.next_message_id < u64::MAX,
        browser_plan_outcome(a, a2, "browser_navigate"@, params, r),
    ensures
        r matches Ok(q) && q.method@ == "Page.navigate"@ && keys_of(q.params) == seq!["url"@] && str_of(
            value_at(q.params, 0),
        ) == Some(url) && q.timeout_secs == 30 && q.msg_id == a.next_message_id,
        a2.next_message_id == a.next_message_id + 1,
{
    lemma_tool_names();
}

/// Evaluating runs the expression given and waits for its promise: once
/// connected, `browser_evaluate` with a string `expression` is the command
/// `Runtime.evaluate` of that expression with `returnByValue` and
/// `awaitPromise` set, and a 120 second timeout.
pub proof fn law_evaluate(a: BrowserAdapter, a2: BrowserAdapter, params: JsonValue, r: Result<BrowserCall, AdapterError>, x: Seq<char>)
    requires
        a.connected,
        str_field(params, "expression"@) == Some(x),
        browser_plan_outcome(a, a2, "browser_evaluate"@, params, r),
    ensures
        r matches Ok(q) && q.method@ == "Runtime.evaluate"@ && keys_of(q.params) == seq![
            "expression"@,
            "returnByValue"@,
            "awaitPromise"@,
        ] && str_of(value_at(q.params, 0)) == Some(x) && value_at(q.params, 1) == JsonValue::Bool(true) && value_at(
            q.params,
            2,
        ) == JsonValue::Bool(true) && q.timeout_secs == 120,
{
    lemma_tool_names();
}

/// A screenshot is taken in the format asked for: once connected,
/// `browser_screenshot` whose `format` parameter (`png` when absent) is `png`
/// or `jpeg` is the command `Page.captureScreenshot` with that format; any
/// other format is refused.
pub proof fn law_screenshot_format(a: BrowserAdapter, a2: BrowserAdapter, params: JsonValue, r: Result<BrowserCall, AdapterError>)
    requires
        a.connected,
        browser_plan_outcome(a, a2, "browser_screenshot"@, params, r),
    ensures
        ({
            let f = match str_field(params, "format"@) {
                Some(f) => f,
                None => "png"@,
            };
            &&& f == "png"@ || f == "jpeg"@ ==> (r matches Ok(q) && q.method@ == "Page.captureScreenshot"@ && keys_of(
                q.params,
            ) == seq!["format"@] && str_of(value_at(q.params, 0)) == Some(f))
            &&& !(f == "png"@ || f == "jpeg"@) ==> (r matches Err(e) && is_invalid_params(
                e,
                "browser_screenshot"@,
                bad_format_reason(f),
            ))
        }),
{
    lemma_tool_names();
}

/// Commands get successive message ids: two accepted calls in a row, the
/// second on the adapter the first left, carry the ids `n` and `n + 1`.
pub proof fn law_successive_ids(a: BrowserAdapter, a2: BrowserAdapter, a3: BrowserAdapter, n1: Seq<char>, p1: JsonValue, n2: Seq<char>, p2: JsonValue, r1: Result<BrowserCall, AdapterError>, r2: Result<BrowserCall, AdapterError>)
    requires
        a.next_message_id < u64::MAX,
        browser_plan_outcome(a, a2, n1, p1, r1),
        browser_plan_outcome(a2, a3, n2, p2, r2),
        r1 is Ok,
        r2 is Ok,
    ensures
        r1->Ok_0.msg_id == a.next_message_id,
        r2->Ok_0.msg_id == a.next_message_id + 1,
{
}

impl BrowserAdapter {
    /// A new adapter on the default debug port (9222).
    pub fn new(id: &str) -> (r: Self)
        ensures
            r.id@ == id@,
            !r.connected,
            r.chrome_path is None,
            r.debug_port == DEFAULT_DEBUG_PORT,
            r.next_message_id == 1,
    {
        Self::with_port(id, DEFAULT_DEBUG_PORT)
    }

    /// A new adapter on a given debug port.
    pub fn with_port(id: &str, port: u16) -> (r: Self)
        ensures
            r.id@ == id@,
            !r.connected,
            r.chrome_path is None,
            r.debug_port == port,
            r.next_message_id == 1,
    {
        BrowserAdapter { id: String::from_str(id), connected: false, chrome_path: None, debug_port: port, next_message_id: 1 }
    }

    /// The adapter with a Chrome/Chromium executable to launch.
    pub fn with_chrome_path(self, path: &str) -> (r: Self)
        ensures
            r.chrome_path matches Some(p) && p@ == path@,
            r.id == self.id,
            r.connected == self.connected,
            r.debug_port == self.debug_port,
            r.next_message_id == self.next_message_id,
    {
        let mut a = self;
        a.chrome_path = Some(String::from_str(path));
        a
    }

    /// The base URL of the DevTools HTTP endpoint.
    pub fn devtools_base_url(&self) -> (r: String)
        ensures
            r@ == "http://localhost:"@ + crate::text::decimal(self.debug_port as nat),
    {
        cdp::devtools_base_url(self.debug_port)
    }

    /// Takes the next CDP message id.
    pub fn next_id(&mut self) -> (r: u64)
        ensures
            r == old(self).next_message_id,
            final(self).next_message_id == id_after(old(self).next_message_id),
            final(self).id == old(self).id,
            final(self).connected == old(self).connected,
            final(self).chrome_path == old(self).chrome_path,
            final(self).debug_port == old(self).debug_port,
    {
        let r = self.next_message_id;
        self.next_message_id = if r == u64::MAX {
            0
        } else {
            r + 1
        };
        r
    }

    /// The adapter's id.
    pub fn id(&self) -> (r: &str)
        ensures
            r@ == self.id@,
    {
        self.id.as_str()
    }

    /// The adapter's category.
    pub fn adapter_type(&self) -> (r: AdapterType)
        ensures
            r == AdapterType::Productivity,
    {
        AdapterType::Productivity
    }

    /// The browser needs no credentials.
    pub fn required_auth(&self) -> (r: Option<AuthRequirement>)
        ensures
            r is None,
    {
        None
    }

    /// The six browser tools.
    pub fn tools(&self) -> (r: Vec<ToolDefinition>)
        ensures
            browser_tool_shapes(r@),
    {
        build_tool_definitions()
    }

    /// How to start Chrome when its DevTools endpoint is not reachable: the
    /// configured executable, else the first candidate of the platform that
    /// is present (`present[i]` for candidate `i`), with the launch
    /// arguments.
    pub fn chrome_launch(&self, platform: Platform, present: &[bool]) -> (r: Result<ChromeLaunch, AdapterError>)
        ensures
            match self.chrome_path {
                Some(p) => r matches Ok(l) && l.program@ == p@,
                None => match first_present(present@, 0, chrome_candidates_of(platform).len() as int) {
                    Some(i) => r matches Ok(l) && l.program@ == chrome_candidates_of(platform)[i],
                    None => r matches Err(e) && is_execution_failed(
                        e,
                        "connect"@,
                        "could not find Chrome/Chromium executable; set chrome_path manually"@,
                    ),
                },
            },
            r matches Ok(l) ==> crate::traits::views(l.args@) == seq![
                "--remote-debugging-port="@ + crate::text::decimal(self.debug_port as nat),
                "--no-first-run"@,
                "--no-default-browser-check"@,
                "--headless=new"@,
            ],
    {
        let custom: Option<&str> = match &self.chrome_path {
            Some(p) => Some(p.as_str()),
            None => None,
        };
        let program = match find_chrome_path(custom, platform, present) {
            Ok(p) => p,
            Err(e) => {
                return Err(e);
            },
        };
        Ok(ChromeLaunch { program, args: chrome_launch_args(self.debug_port) })
    }

    /// Connects once the DevTools endpoint was found reachable or Chrome was
    /// started (`outcome`); a failure leaves the adapter as it was.
    pub fn complete_connect(&mut self, outcome: Result<(), AdapterError>) -> (r: Result<(), AdapterError>)
        ensures
            r == outcome,
            final(self).connected == (old(self).connected || outcome is Ok),
            final(self).id == old(self).id,
            final(self).chrome_path == old(self).chrome_path,
            final(self).debug_port == old(self).debug_port,
            final(self).next_message_id == old(self).next_message_id,
    {
        if outcome.is_ok() {
            self.connected = true;
        }
        outcome
    }

    /// Disconnects.
    pub fn disconnect(&mut self) -> (r: Result<(), AdapterError>)
        ensures
            r is Ok,
            !final(self).connected,
            final(self).id == old(self).id,
            final(self).chrome_path == old(self).chrome_path,
            final(self).debug_port == old(self).debug_port,
            final(self).next_message_id == old(self).next_message_id,
    {
        self.connected = false;
        Ok(())
    }

    /// Unhealthy when disconnected; healthy when the DevTools endpoint is
    /// still reachable, degraded when it is not.
    pub fn health_check(&self, reachable: bool) -> (r: Result<HealthStatus, AdapterError>)
        ensures
            r == Ok::<HealthStatus, AdapterError>(
                if !self.connected {
                    HealthStatus::Unhealthy
                } else if reachable {
                    HealthStatus::Healthy
                } else {
                    HealthStatus::Degraded
                },
            ),
    {
        if !self.connected {
            Ok(HealthStatus::Unhealthy)
        } else if reachable {
            Ok(HealthStatus::Healthy)
        } else {
            Ok(HealthStatus::Degraded)
        }
    }

    /// Checks a tool call and turns it into a CDP command.
    #[verifier::rlimit(60)]
    pub fn plan_tool(&mut self, name: &str, params: &JsonValue) -> (r: Result<BrowserCall, AdapterError>)
        ensures
            browser_plan_outcome(*old(self), *final(self), name@, *params, r),
    {
        match ensure_connected(self.connected, self.id.as_str(), name) {
            Ok(()) => {},
            Err(e) => {
                return Err(e);
            },
        }
        let nav = same_text(name, "browser_navigate");
        let content = same_text(name, "browser_get_page_content");
        let shot = same_text(name, "browser_screenshot");
        let click = same_text(name, "browser_click");
        let typing = same_text(name, "browser_type_text");
        let eval = same_text(name, "browser_evaluate");
        if !(nav || content || shot || click || typing || eval) {
            return Err(tool_not_found(self.id.as_str(), name));
        }
        let key: Option<&str> = if nav {
            Some("url")
        } else if click {
            Some("selector")
        } else if typing {
            Some("text")
        } else if eval {
            Some("expression")
        } else {
            None
        };
        let arg: String = match key {
            Some(k) => match get_str(params, k) {
                Some(v) => v,
                None => {
                    return Err(invalid_params(name, missing_field(k)));
                },
            },
            None => String::new(),
        };
        if nav {
            let parse_error = check_url(arg.as_str());
            match navigate_url_check(arg.as_str(), parse_error) {
                Ok(()) => {},
                Err(e) => {
                    return Err(e);
                },
            }
        }
        let format = match get_str(params, "format") {
            Some(f) => f,
            None => String::from_str("png"),
        };
        if shot {
            match screenshot_format_check(format.as_str()) {
                Ok(()) => {},
                Err(e) => {
                    return Err(e);
                },
            }
        }
        let (method, cdp_params, timeout_secs) = if nav {
            (String::from_str("Page.navigate"), single_field("url", arg), CDP_TIMEOUT_SECS)
        } else if content {
            (String::from_str("Runtime.evaluate"), evaluate_object(String::from_str(PAGE_TEXT_EXPRESSION), false), CDP_TIMEOUT_SECS)
        } else if shot {
            (String::from_str("Page.captureScreenshot"), single_field("format", format), CDP_TIMEOUT_SECS)
        } else if click {
            (String::from_str("Runtime.evaluate"), evaluate_object(build_click_script(arg.as_str()), false), CDP_TIMEOUT_SECS)
        } else if typing {
            (String::from_str("Runtime.evaluate"), evaluate_object(build_type_script(arg.as_str()), false), CDP_TIMEOUT_SECS)
        } else {
            (String::from_str("Runtime.evaluate"), evaluate_object(arg, true), EVALUATE_TIMEOUT_SECS)
        };
        let msg_id = self.next_id();
        Ok(BrowserCall { tool: String::from_str(name), msg_id, method, params: cdp_params, timeout_secs })
    }
}

} // verus!
