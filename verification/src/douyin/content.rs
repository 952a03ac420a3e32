//! Douyin content requests and reply checks.

use vstd::prelude::*;
use vstd::string::*;

use crate::error::{AdapterError, execution_failed, is_execution_failed};
use crate::json::{JsonValue, field, get_i64, get_str, i64_field, keys_of, str_field, str_of, value_at};
use crate::text::{i64_to_decimal, same_text, signed_decimal};

verus! {

/// The error a Douyin reply carries, if any: a non-zero `data.error_code`,
/// else a `message` that is neither empty nor `success`.
pub open spec fn douyin_error(resp: JsonValue) -> Option<Seq<char>> {
    let coded = match field(resp, "data"@) {
        Some(data) => match i64_field(data, "error_code"@) {
            Some(code) => if code != 0 {
                Some(
                    "Douyin API error "@ + signed_decimal(code as int) + ": "@ + match str_field(data, "description"@) {
                        Some(d) => d,
                        None => "unknown error"@,
                    },
                )
            } else {
                None
            },
            None => None,
        },
        None => None,
    };
    match coded {
        Some(r) => Some(r),
        None => {
            let message = match str_field(resp, "message"@) {
                Some(m) => m,
                None => Seq::empty(),
            };
            if message.len() > 0 && message != "success"@ {
                Some("Douyin API error: "@ + message)
            } else {
                None
            }
        },
    }
}

/// Checks a Douyin reply for an error.
pub fn check_douyin_error(resp: &JsonValue, tool: &str) -> (r: Result<(), AdapterError>)
    ensures
        match douyin_error(*resp) {
            Some(reason) => r matches Err(e) && is_execution_failed(e, tool@, reason),
            None => r is Ok,
        },
{
    proof {
        reveal_strlit("");
    }
    match resp.get("data") {
        Some(data) => match get_i64(data, "error_code") {
            Some(code) => {
                if code != 0 {
                    let description = match get_str(data, "description") {
                        Some(d) => d,
                        None => String::from_str("unknown error"),
                    };
                    let mut reason = String::from_str("Douyin API error ");
                    let c = i64_to_decimal(code);
                    reason.append(c.as_str());
                    reason.append(": ");
                    reason.append(description.as_str());
                    return Err(execution_failed(tool, reason));
                }
            },
            None => {},
        },
        None => {},
    }
    let message = match get_str(resp, "message") {
        Some(m) => m,
        None => String::from_str(""),
    };
    if !message.as_str().is_empty() && !same_text(message.as_str(), "success") {
        let mut reason = String::from_str("Douyin API error: ");
        reason.append(message.as_str());
        return Err(execution_failed(tool, reason));
    }
    Ok(())
}

/// The `data.video.video_id` of an upload reply.
pub open spec fn uploaded_video_id(resp: JsonValue) -> Option<Seq<char>> {
    match field(resp, "data"@) {
        Some(d) => match field(d, "video"@) {
            Some(v) => str_field(v, "video_id"@),
            None => None,
        },
        None => None,
    }
}

/// Reads an upload reply: its error, else its video id.
pub fn upload_reply(resp: &JsonValue) -> (r: Result<String, AdapterError>)
    ensures
        match douyin_error(*resp) {
            Some(reason) => r matches Err(e) && is_execution_failed(e, "douyin_publish_video"@, reason),
            None => match uploaded_video_id(*resp) {
                Some(id) => r matches Ok(x) && x@ == id,
                None => r matches Err(e) && is_execution_failed(
                    e,
                    "douyin_publish_video"@,
                    "missing video_id in upload response"@,
                ),
            },
        },
{
    match check_douyin_error(resp, "douyin_publish_video") {
        Ok(()) => {},
        Err(e) => {
            return Err(e);
        },
    }
    let id = match resp.get("data") {
        Some(d) => match d.get("video") {
            Some(v) => get_str(v, "video_id"),
            None => None,
        },
        None => None,
    };
    match id {
        Some(x) => Ok(x),
        None => Err(execution_failed("douyin_publish_video", String::from_str("missing video_id in upload response"))),
    }
}

/// `<base><path>?open_id=<open_id>`.
pub fn open_id_url(api_base: &str, path: &str, open_id: &str) -> (r: String)
    ensures
        r@ == api_base@ + path@ + "?open_id="@ + open_id@,
{
    let mut u = String::from_str(api_base);
    u.append(path);
    u.append("?open_id=");
    u.append(open_id);
    u
}

/// The body publishing an uploaded video: `{video_id, text}`.
pub fn create_video_body(video_id: &str, text: &str) -> (j: JsonValue)
    ensures
        keys_of(j) == seq!["video_id"@, "text"@],
        str_of(value_at(j, 0)) == Some(video_id@),
        str_of(value_at(j, 1)) == Some(text@),
{
    let mut es: Vec<(String, JsonValue)> = Vec::new();
    es.push((String::from_str("video_id"), JsonValue::from_str_value(video_id)));
    es.push((String::from_str("text"), JsonValue::from_str_value(text)));
    let j = JsonValue::Object(es);
    assert(keys_of(j) =~= seq!["video_id"@, "text"@]);
    j
}

/// The body asking for the stats of one video: `{item_ids: [item_id]}`.
pub fn video_stats_body(item_id: &str) -> (j: JsonValue)
    ensures
        keys_of(j) == seq!["item_ids"@],
        value_at(j, 0) matches JsonValue::Array(a) && a@.len() == 1 && str_of(a@[0]) == Some(item_id@),
{
    let mut items: Vec<JsonValue> = Vec::new();
    items.push(JsonValue::from_str_value(item_id));
    let mut es: Vec<(String, JsonValue)> = Vec::new();
    es.push((String::from_str("item_ids"), JsonValue::Array(items)));
    let j = JsonValue::Object(es);
    assert(keys_of(j) =~= seq!["item_ids"@]);
    j
}

} // verus!
