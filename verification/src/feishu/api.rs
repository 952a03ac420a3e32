//! Feishu Open Platform request bodies, URLs and reply checks.

use vstd::prelude::*;
use vstd::string::*;

use crate::error::{AdapterError, execution_failed, is_execution_failed};
use crate::json::{JsonValue, field, get_i64, get_str, i64_field, keys_of, str_field, str_of, take_field, value_at};
use crate::text::{i64_to_decimal, signed_decimal};

verus! {

/// The `code` of a Feishu reply, or -1 when it has none.
pub open spec fn reply_code(response: JsonValue) -> i64 {
    match i64_field(response, "code"@) {
        Some(c) => c,
        None => -1i64,
    }
}

/// The reason given for a Feishu reply with a non-zero code.
pub open spec fn feishu_error_reason(response: JsonValue) -> Seq<char> {
    let msg = match str_field(response, "msg"@) {
        Some(m) => m,
        None => "unknown error"@,
    };
    "Feishu API error (code "@ + signed_decimal(reply_code(response) as int) + "): "@ + msg
}

/// Checks a Feishu reply (`{"code": 0, "msg": ..., "data": ...}`): an error
/// unless its `code` is 0.
pub fn parse_feishu_response(response: &JsonValue, tool_name: &str) -> (r: Result<(), AdapterError>)
    ensures
        reply_code(*response) == 0 ==> r is Ok,
        reply_code(*response) != 0 ==> (r matches Err(e) && is_execution_failed(
            e,
            tool_name@,
            feishu_error_reason(*response),
        )),
{
    let code = match get_i64(response, "code") {
        Some(c) => c,
        None => -1,
    };
    if code != 0 {
        let msg = match get_str(response, "msg") {
            Some(m) => m,
            None => String::from_str("unknown error"),
        };
        let mut reason = String::from_str("Feishu API error (code ");
        let c = i64_to_decimal(code);
        reason.append(c.as_str());
        reason.append("): ");
        reason.append(msg.as_str());
        return Err(execution_failed(tool_name, reason));
    }
    Ok(())
}

/// The body asking for a tenant access token: `{app_id, app_secret}`.
pub fn build_token_request_body(app_id: &str, app_secret: &str) -> (j: JsonValue)
    ensures
        keys_of(j) == seq!["app_id"@, "app_secret"@],
        str_of(value_at(j, 0)) == Some(app_id@),
        str_of(value_at(j, 1)) == Some(app_secret@),
{
    let mut es: Vec<(String, JsonValue)> = Vec::new();
    es.push((String::from_str("app_id"), JsonValue::from_str_value(app_id)));
    es.push((String::from_str("app_secret"), JsonValue::from_str_value(app_secret)));
    let j = JsonValue::Object(es);
    assert(keys_of(j) =~= seq!["app_id"@, "app_secret"@]);
    j
}

/// The tenant access token of a token reply: an error unless the reply's
/// code is 0 and it holds a string `tenant_access_token`.
pub fn token_from_response(response: &JsonValue) -> (r: Result<String, AdapterError>)
    ensures
        reply_code(*response) != 0 ==> (r matches Err(e) && is_execution_failed(
            e,
            "auth"@,
            feishu_error_reason(*response),
        )),
        reply_code(*response) == 0 ==> match str_field(*response, "tenant_access_token"@) {
            Some(t) => r matches Ok(x) && x@ == t,
            None => r matches Err(e) && is_execution_failed(
                e,
                "auth"@,
                "tenant_access_token not found in response"@,
            ),
        },
{
    match parse_feishu_response(response, "auth") {
        Ok(()) => {},
        Err(e) => {
            return Err(e);
        },
    }
    match get_str(response, "tenant_access_token") {
        Some(t) => Ok(t),
        None => Err(execution_failed("auth", String::from_str("tenant_access_token not found in response"))),
    }
}

/// The body of a message: `{receive_id, msg_type, content}`.
pub fn build_message_body(receive_id: &str, msg_type: &str, content: &str) -> (j: JsonValue)
    ensures
        keys_of(j) == seq!["receive_id"@, "msg_type"@, "content"@],
        str_of(value_at(j, 0)) == Some(receive_id@),
        str_of(value_at(j, 1)) == Some(msg_type@),
        str_of(value_at(j, 2)) == Some(content@),
{
    let mut es: Vec<(String, JsonValue)> = Vec::new();
    es.push((String::from_str("receive_id"), JsonValue::from_str_value(receive_id)));
    es.push((String::from_str("msg_type"), JsonValue::from_str_value(msg_type)));
    es.push((String::from_str("content"), JsonValue::from_str_value(content)));
    let j = JsonValue::Object(es);
    assert(keys_of(j) =~= seq!["receive_id"@, "msg_type"@, "content"@]);
    j
}

/// The URL for sending a message to a receiver of the given id type.
pub fn build_send_message_url(base_url: &str, receive_id_type: &str) -> (r: String)
    ensures
        r@ == base_url@ + "/im/v1/messages?receive_id_type="@ + receive_id_type@,
{
    let mut s = String::from_str(base_url);
    s.append("/im/v1/messages?receive_id_type=");
    s.append(receive_id_type);
    s
}

/// The result of a Feishu tool: an error unless the reply's code is 0,
/// else `{success: true, data}` with the reply's `data` (an empty object
/// when it has none).
pub fn feishu_tool_result(response: JsonValue, tool_name: &str) -> (r: Result<JsonValue, AdapterError>)
    ensures
        reply_code(response) != 0 ==> (r matches Err(e) && is_execution_failed(
            e,
            tool_name@,
            feishu_error_reason(response),
        )),
        reply_code(response) == 0 ==> (r matches Ok(j) && keys_of(j) == seq!["success"@, "data"@] && value_at(j, 0)
            == JsonValue::Bool(true) && match field(response, "data"@) {
            Some(d) => value_at(j, 1) == d,
            None => value_at(j, 1) is Object && keys_of(value_at(j, 1)).len() == 0,
        }),
{
    match parse_feishu_response(&response, tool_name) {
        Ok(()) => {},
        Err(e) => {
            return Err(e);
        },
    }
    let data = match take_field(response, "data") {
        Some(d) => d,
        None => {
            let empty: Vec<(String, JsonValue)> = Vec::new();
            let e = JsonValue::Object(empty);
            assert(keys_of(e) =~= Seq::<Seq<char>>::empty());
            e
        },
    };
    let mut es: Vec<(String, JsonValue)> = Vec::new();
    es.push((String::from_str("success"), JsonValue::Bool(true)));
    es.push((String::from_str("data"), data));
    let j = JsonValue::Object(es);
    assert(keys_of(j) =~= seq!["success"@, "data"@]);
    Ok(j)
}

} // verus!
