//! Chrome DevTools Protocol: endpoints, messages, target discovery, the
//! reading of replies, and the Chrome executable.

use vstd::prelude::*;
use vstd::string::*;

use crate::error::{AdapterError, execution_failed, is_execution_failed};
use crate::json::{JsonNumber, JsonValue, field, get_str, get_u64, keys_of, str_field, str_of, take_field, u64_field, uint, value_at};
use crate::text::{decimal, same_text, u64_to_decimal};

verus! {

/// Timeout for CDP WebSocket operations in seconds.
pub const CDP_TIMEOUT_SECS: u64 = 30;

/// Timeout for HTTP requests to the DevTools endpoint in seconds.
pub const HTTP_TIMEOUT_SECS: u64 = 10;

/// Timeout waiting for Chrome to start up in seconds.
pub const CHROME_STARTUP_TIMEOUT_SECS: u64 = 10;

/// Maximum response body size from CDP in bytes (5 MB).
pub const MAX_CDP_RESPONSE_BYTES: usize = 5242880;

/// The base URL of the DevTools HTTP endpoint.
pub fn devtools_base_url(debug_port: u16) -> (r: String)
    ensures
        r@ == "http://localhost:"@ + decimal(debug_port as nat),
{
    let mut s = String::from_str("http://localhost:");
    let p = u64_to_decimal(debug_port as u64);
    s.append(p.as_str());
    s
}

/// A CDP message: `{id, method, params}`.
pub fn build_cdp_message(id: u64, method: &str, params: JsonValue) -> (j: JsonValue)
    ensures
        keys_of(j) == seq!["id"@, "method"@, "params"@],
        value_at(j, 0) == uint(id),
        str_of(value_at(j, 1)) == Some(method@),
        value_at(j, 2) == params,
{
    let mut es: Vec<(String, JsonValue)> = Vec::new();
    es.push((String::from_str("id"), JsonValue::Number(JsonNumber::PosInt(id))));
    es.push((String::from_str("method"), JsonValue::from_str_value(method)));
    es.push((String::from_str("params"), params));
    let j = JsonValue::Object(es);
    assert(keys_of(j) =~= seq!["id"@, "method"@, "params"@]);
    j
}

/// Whether a DevTools target is a page.
pub open spec fn is_page(t: JsonValue) -> bool {
    str_field(t, "type"@) == Some("page"@)
}

/// The page targets among the DevTools targets, in order.
pub open spec fn pages_of(ts: Seq<JsonValue>) -> Seq<JsonValue> {
    ts.filter(page_pred())
}

/// `is_page` as a predicate value.
pub open spec fn page_pred() -> spec_fn(JsonValue) -> bool {
    |t: JsonValue| is_page(t)
}

/// Keeps the page targets; an error when there are none.
pub fn page_targets(targets: Vec<JsonValue>) -> (r: Result<Vec<JsonValue>, AdapterError>)
    ensures
        pages_of(targets@).len() == 0 ==> (r matches Err(e) && is_execution_failed(
            e,
            "browser"@,
            "no page targets available in Chrome"@,
        )),
        pages_of(targets@).len() > 0 ==> (r matches Ok(p) && p@ == pages_of(targets@)),
{
    let ghost orig = targets@;
    let mut rest = targets;
    let mut pages: Vec<JsonValue> = Vec::new();
    let mut kept_rev: Vec<JsonValue> = Vec::new();
    // Take the targets from the back, then restore their order.
    let mut n: usize = rest.len();
    assert(orig.take(n as int) =~= orig);
    while n > 0
        invariant
            n == rest@.len(),
            rest@ == orig.take(n as int),
            n <= orig.len(),
            kept_rev@.reverse() == pages_of(orig.skip(n as int)),
        decreases n,
    {
        let t = rest.pop().unwrap();
        assert(orig.take(n as int).last() == t);
        assert(orig.skip(n - 1) =~= seq![t] + orig.skip(n as int));
        proof {
            orig.skip(n as int).lemma_filter_prepend(t, page_pred());
        }
        let page = match get_str(&t, "type") {
            Some(ty) => same_text(ty.as_str(), "page"),
            None => false,
        };
        if page {
            let ghost before = kept_rev@;
            kept_rev.push(t);
            assert(kept_rev@.reverse() =~= seq![t] + before.reverse());
        }
        n = n - 1;
        assert(rest@ =~= orig.take(n as int));
    }
    assert(orig.skip(0) =~= orig);
    let mut k: usize = kept_rev.len();
    let ghost all = kept_rev@;
    while k > 0
        invariant
            k == kept_rev@.len(),
            kept_rev@ == all.take(k as int),
            pages@ == all.reverse().take(all.len() - k),
            k <= all.len(),
        decreases k,
    {
        let t = kept_rev.pop().unwrap();
        pages.push(t);
        assert(all.reverse().take(all.len() - k + 1) =~= all.reverse().take(all.len() - k).push(all[k - 1]));
        k = k - 1;
        assert(kept_rev@ =~= all.take(k as int));
    }
    assert(all.reverse().take(all.len() as int) =~= all.reverse());
    if pages.len() == 0 {
        return Err(execution_failed("browser", String::from_str("no page targets available in Chrome")));
    }
    Ok(pages)
}

/// The WebSocket debugger URL of the first page target.
pub open spec fn ws_url_of(pages: Seq<JsonValue>) -> Option<Seq<char>> {
    if pages.len() == 0 {
        None
    } else {
        str_field(pages[0], "webSocketDebuggerUrl"@)
    }
}

/// The WebSocket debugger URL of the first page target among DevTools
/// targets.
pub fn ws_url_from_targets(targets: Vec<JsonValue>) -> (r: Result<String, AdapterError>)
    ensures
        pages_of(targets@).len() == 0 ==> (r matches Err(e) && is_execution_failed(
            e,
            "browser"@,
            "no page targets available in Chrome"@,
        )),
        pages_of(targets@).len() > 0 ==> match ws_url_of(pages_of(targets@)) {
            Some(u) => r matches Ok(x) && x@ == u,
            None => r matches Err(e) && is_execution_failed(e, "browser"@, "page target has no webSocketDebuggerUrl"@),
        },
{
    let pages = match page_targets(targets) {
        Ok(p) => p,
        Err(e) => {
            return Err(e);
        },
    };
    match get_str(&pages[0], "webSocketDebuggerUrl") {
        Some(u) => Ok(u),
        None => Err(execution_failed("browser", String::from_str("page target has no webSocketDebuggerUrl"))),
    }
}

// ---------------------------------------------------------------------------
// Reading replies
// ---------------------------------------------------------------------------

/// A frame received on the CDP WebSocket.
#[derive(Debug)]
pub enum CdpFrame {
    /// A text frame of `len` bytes; `parsed` is its JSON value, or the
    /// parser's error message.
    Text { len: usize, parsed: Result<JsonValue, String> },
    /// The peer closed the connection.
    Close,
    /// A ping, pong or binary frame.
    Other,
}

/// What to do after a frame.
#[derive(Debug)]
pub enum CdpStep {
    /// Keep reading.
    Continue,
    /// The command is answered (or failed).
    Done(Result<JsonValue, AdapterError>),
}

/// The reason given for an oversized reply.
pub open spec fn too_large_reason(len: nat) -> Seq<char> {
    "CDP response too large: "@ + decimal(len) + " bytes (max 5242880)"@
}

/// The reason given for a reply carrying an error.
pub open spec fn cdp_error_reason(reply: JsonValue) -> Seq<char> {
    "CDP error: "@ + match field(reply, "error"@) {
        Some(e) => match str_field(e, "message"@) {
            Some(m) => m,
            None => "unknown CDP error"@,
        },
        None => Seq::empty(),
    }
}

/// Reads one frame while waiting for the reply to message `msg_id`: an
/// oversized or unparsable text is an error; the reply with the message's
/// id gives its `result` (an empty object when it has none) or its error;
/// other texts, pings and binary frames are skipped; a close is an error.
pub fn cdp_step(frame: CdpFrame, msg_id: u64) -> (r: CdpStep)
    ensures
        match frame {
            CdpFrame::Text { len, parsed } => if len > MAX_CDP_RESPONSE_BYTES {
                r matches CdpStep::Done(Err(e)) && is_execution_failed(e, "browser"@, too_large_reason(len as nat))
            } else {
                match parsed {
                    Err(m) => r matches CdpStep::Done(Err(AdapterError::SerializationError(x))) && x@ == m@,
                    Ok(reply) => if u64_field(reply, "id"@) == Some(msg_id) {
                        if field(reply, "error"@) is Some {
                            r matches CdpStep::Done(Err(e)) && is_execution_failed(e, "browser"@, cdp_error_reason(reply))
                        } else {
                            r matches CdpStep::Done(Ok(j)) && match field(reply, "result"@) {
                                Some(x) => j == x,
                                None => j is Object && keys_of(j).len() == 0,
                            }
                        }
                    } else {
                        r is Continue
                    },
                }
            },
            CdpFrame::Close => r matches CdpStep::Done(Err(e)) && is_execution_failed(
                e,
                "browser"@,
                "WebSocket closed before receiving CDP response"@,
            ),
            CdpFrame::Other => r is Continue,
        },
{
    match frame {
        CdpFrame::Text { len, parsed } => {
            if len > MAX_CDP_RESPONSE_BYTES {
                let mut reason = String::from_str("CDP response too large: ");
                let l = u64_to_decimal(len as u64);
                reason.append(l.as_str());
                reason.append(" bytes (max 5242880)");
                return CdpStep::Done(Err(execution_failed("browser", reason)));
            }
            match parsed {
                Err(m) => CdpStep::Done(Err(AdapterError::SerializationError(m))),
                Ok(reply) => {
                    if get_u64(&reply, "id") == Some(msg_id) {
                        match reply.get("error") {
                            Some(err) => {
                                let msg = match get_str(err, "message") {
                                    Some(m) => m,
                                    None => String::from_str("unknown CDP error"),
                                };
                                let mut reason = String::from_str("CDP error: ");
                                reason.append(msg.as_str());
                                return CdpStep::Done(Err(execution_failed("browser", reason)));
                            },
                            None => {},
                        }
                        let result = match take_field(reply, "result") {
                            Some(x) => x,
                            None => {
                                let empty: Vec<(String, JsonValue)> = Vec::new();
                                let e = JsonValue::Object(empty);
                                assert(keys_of(e) =~= Seq::<Seq<char>>::empty());
                                e
                            },
                        };
                        CdpStep::Done(Ok(result))
                    } else {
                        CdpStep::Continue
                    }
                },
            }
        },
        CdpFrame::Close => CdpStep::Done(
            Err(execution_failed("browser", String::from_str("WebSocket closed before receiving CDP response"))),
        ),
        CdpFrame::Other => CdpStep::Continue,
    }
}

/// The error when the stream ends without the reply.
pub fn stream_ended_error() -> (e: AdapterError)
    ensures
        is_execution_failed(e, "browser"@, "WebSocket stream ended without CDP response"@),
{
    execution_failed("browser", String::from_str("WebSocket stream ended without CDP response"))
}

/// The error when no reply comes within `timeout_secs`.
pub fn reply_timeout_error(method: &str, timeout_secs: u64) -> (e: AdapterError)
    ensures
        e matches AdapterError::Timeout { seconds, reason } && seconds == timeout_secs && reason@
            == "waiting for CDP response to `"@ + method@ + "`"@,
{
    let mut reason = String::from_str("waiting for CDP response to `");
    reason.append(method);
    reason.append("`");
    AdapterError::Timeout { seconds: timeout_secs, reason }
}

// ---------------------------------------------------------------------------
// Chrome
// ---------------------------------------------------------------------------

/// The operating system the adapter runs on.
#[derive(Debug, Clone, Copy, PartialEq, Eq, Structural)]
pub enum Platform {
    MacOs,
    Linux,
    Other,
}

/// Where Chrome or Chromium may be found on a platform, in the order tried.
pub open spec fn chrome_candidates_of(p: Platform) -> Seq<Seq<char>> {
    match p {
        Platform::MacOs => seq![
            "/Applications/Google Chrome.app/Contents/MacOS/Google Chrome"@,
            "/Applications/Chromium.app/Contents/MacOS/Chromium"@,
            "/Applications/Microsoft Edge.app/Contents/MacOS/Microsoft Edge"@,
        ],
        Platform::Linux => seq!["google-chrome"@, "google-chrome-stable"@, "chromium"@, "chromium-browser"@],
        Platform::Other => Seq::empty(),
    }
}

/// The candidate executables of a platform.
pub fn chrome_candidates(p: Platform) -> (r: Vec<&'static str>)
    ensures
        crate::traits::str_views(r@) == chrome_candidates_of(p),
{
    let v: Vec<&'static str> = match p {
        Platform::MacOs => vec![
            "/Applications/Google Chrome.app/Contents/MacOS/Google Chrome",
            "/Applications/Chromium.app/Contents/MacOS/Chromium",
            "/Applications/Microsoft Edge.app/Contents/MacOS/Microsoft Edge",
        ],
        Platform::Linux => vec!["google-chrome", "google-chrome-stable", "chromium", "chromium-browser"],
        Platform::Other => Vec::new(),
    };
    assert(crate::traits::str_views(v@) =~= chrome_candidates_of(p));
    v
}

/// The first candidate that is present, by position.
pub open spec fn first_present(present: Seq<bool>, from: int, n: int) -> Option<int>
    decreases n - from,
{
    if from >= n || from < 0 {
        None
    } else if from < present.len() && present[from] {
        Some(from)
    } else {
        first_present(present, from + 1, n)
    }
}

/// The Chrome executable: the configured path, else the first candidate of
/// the platform that is present (`present[i]` tells whether candidate `i`
/// exists or is on the PATH).
pub fn find_chrome_path(custom_path: Option<&str>, platform: Platform, present: &[bool]) -> (r: Result<String, AdapterError>)
    ensures
        match custom_path {
            Some(p) => r matches Ok(x) && x@ == p@,
            None => match first_present(present@, 0, chrome_candidates_of(platform).len() as int) {
                Some(i) => r matches Ok(x) && x@ == chrome_candidates_of(platform)[i],
                None => r matches Err(e) && is_execution_failed(
                    e,
                    "connect"@,
                    "could not find Chrome/Chromium executable; set chrome_path manually"@,
                ),
            },
        },
{
    match custom_path {
        Some(p) => {
            return Ok(String::from_str(p));
        },
        None => {},
    }
    let candidates = chrome_candidates(platform);
    let ghost cs = chrome_candidates_of(platform);
    let n = candidates.len();
    let mut i: usize = 0;
    while i < n
        invariant
            i <= n == candidates@.len() == cs.len(),
            crate::traits::str_views(candidates@) == cs,
            first_present(present@, 0, n as int) == first_present(present@, i as int, n as int),
            custom_path is None,
            cs == chrome_candidates_of(platform),
        decreases n - i,
    {
        if i < present.len() && present[i] {
            assert(cs[i as int] == candidates@[i as int]@);
            assert(first_present(present@, i as int, n as int) == Some(i as int));
            return Ok(String::from_str(candidates[i]));
        }
        i = i + 1;
    }
    Err(execution_failed("connect", String::from_str("could not find Chrome/Chromium executable; set chrome_path manually")))
}

/// The arguments Chrome is started with.
pub fn chrome_launch_args(debug_port: u16) -> (r: Vec<String>)
    ensures
        crate::traits::views(r@) == seq![
            "--remote-debugging-port="@ + decimal(debug_port as nat),
            "--no-first-run"@,
            "--no-default-browser-check"@,
            "--headless=new"@,
        ],
{
    let mut first = String::from_str("--remote-debugging-port=");
    let p = u64_to_decimal(debug_port as u64);
    first.append(p.as_str());
    let mut v: Vec<String> = Vec::new();
    v.push(first);
    v.push(String::from_str("--no-first-run"));
    v.push(String::from_str("--no-default-browser-check"));
    v.push(String::from_str("--headless=new"));
    assert(crate::traits::views(v@) =~= seq![
        "--remote-debugging-port="@ + decimal(debug_port as nat),
        "--no-first-run"@,
        "--no-default-browser-check"@,
        "--headless=new"@,
    ]);
    v
}


/// The DevTools endpoint that answers while the browser is up.
pub fn version_url(debug_port: u16) -> (r: String)
    ensures
        r@ == "http://localhost:"@ + decimal(debug_port as nat) + "/json/version"@,
{
    let mut s = devtools_base_url(debug_port);
    s.append("/json/version");
    s
}

/// The DevTools endpoint that lists the targets.
pub fn targets_url(debug_port: u16) -> (r: String)
    ensures
        r@ == "http://localhost:"@ + decimal(debug_port as nat) + "/json"@,
{
    let mut s = devtools_base_url(debug_port);
    s.append("/json");
    s
}

/// The error when the WebSocket connection is not made in time.
pub fn ws_connect_timeout_error(ws_url: &str) -> (e: AdapterError)
    ensures
        e matches AdapterError::Timeout { seconds, reason } && seconds == CDP_TIMEOUT_SECS && reason@
            == "WebSocket connection to `"@ + ws_url@ + "` timed out"@,
{
    let mut reason = String::from_str("WebSocket connection to `");
    reason.append(ws_url);
    reason.append("` timed out");
    AdapterError::Timeout { seconds: CDP_TIMEOUT_SECS, reason }
}

/// What to do while waiting for a launched Chrome.
#[derive(Debug)]
pub enum StartupPoll {
    /// The DevTools endpoint answers.
    Ready,
    /// Wait a little and look again.
    Wait,
    /// Give up.
    Failed(AdapterError),
}

/// One look at a launched Chrome: ready when its endpoint answers, else a
/// timeout once the startup deadline has passed, else wait.
pub fn startup_poll(reachable: bool, deadline_passed: bool) -> (r: StartupPoll)
    ensures
        reachable ==> r is Ready,
        !reachable && deadline_passed ==> (r matches StartupPoll::Failed(AdapterError::Timeout { seconds, reason })
            && seconds == CHROME_STARTUP_TIMEOUT_SECS && reason@ == "Chrome did not start in time"@),
        !reachable && !deadline_passed ==> r is Wait,
{
    if reachable {
        StartupPoll::Ready
    } else if deadline_passed {
        StartupPoll::Failed(
            AdapterError::Timeout { seconds: CHROME_STARTUP_TIMEOUT_SECS, reason: String::from_str("Chrome did not start in time") },
        )
    } else {
        StartupPoll::Wait
    }
}

/// The error when Chrome cannot be started.
pub fn launch_failed_error(chrome_path: &str, detail: &str) -> (e: AdapterError)
    ensures
        is_execution_failed(e, "connect"@, "failed to launch Chrome at `"@ + chrome_path@ + "`: "@ + detail@),
{
    let mut reason = String::from_str("failed to launch Chrome at `");
    reason.append(chrome_path);
    reason.append("`: ");
    reason.append(detail);
    execution_failed("connect", reason)
}

} // verus!
