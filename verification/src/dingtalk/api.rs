//! DingTalk token replies and error checks.

use vstd::prelude::*;
use vstd::string::*;

use crate::error::{AdapterError, execution_failed, is_execution_failed};
use crate::json::{JsonValue, get_i64, get_str, get_u64, i64_field, str_field, u64_field};
use crate::text::{i64_to_decimal, signed_decimal};

verus! {

/// Response from the DingTalk token endpoint.
#[derive(Debug)]
pub struct AccessTokenResponse {
    pub access_token: String,
    pub expires_in: u64,
}

/// The `errcode` of a reply, or `missing` when it has none.
pub open spec fn errcode_or(resp: JsonValue, missing: i64) -> i64 {
    match i64_field(resp, "errcode"@) {
        Some(c) => c,
        None => missing,
    }
}

/// The reason given for a reply with a non-zero `errcode`.
pub open spec fn dingtalk_error_reason(resp: JsonValue, code: i64) -> Seq<char> {
    let msg = match str_field(resp, "errmsg"@) {
        Some(m) => m,
        None => "unknown error"@,
    };
    "DingTalk API error "@ + signed_decimal(code as int) + ": "@ + msg
}

fn error_reason(resp: &JsonValue, code: i64) -> (r: String)
    ensures
        r@ == dingtalk_error_reason(*resp, code),
{
    let msg = match get_str(resp, "errmsg") {
        Some(m) => m,
        None => String::from_str("unknown error"),
    };
    let mut reason = String::from_str("DingTalk API error ");
    let c = i64_to_decimal(code);
    reason.append(c.as_str());
    reason.append(": ");
    reason.append(msg.as_str());
    reason
}

/// Checks a DingTalk reply: an error when its `errcode` (0 when absent) is
/// not 0.
pub fn check_dingtalk_error(resp: &JsonValue, tool: &str) -> (r: Result<(), AdapterError>)
    ensures
        errcode_or(*resp, 0i64) == 0 ==> r is Ok,
        errcode_or(*resp, 0i64) != 0 ==> (r matches Err(e) && is_execution_failed(
            e,
            tool@,
            dingtalk_error_reason(*resp, errcode_or(*resp, 0i64)),
        )),
{
    let code: i64 = match get_i64(resp, "errcode") {
        Some(c) => c,
        None => 0,
    };
    if code != 0 {
        return Err(execution_failed(tool, error_reason(resp, code)));
    }
    Ok(())
}

/// Reads a token reply: an error unless its `errcode` (-1 when absent) is 0
/// and it holds a string `access_token`; `expires_in` defaults to 7200.
pub fn parse_token_response(resp: &JsonValue) -> (r: Result<AccessTokenResponse, AdapterError>)
    ensures
        errcode_or(*resp, -1i64) != 0 ==> (r matches Err(e) && is_execution_failed(
            e,
            "fetch_access_token"@,
            dingtalk_error_reason(*resp, errcode_or(*resp, -1i64)),
        )),
        errcode_or(*resp, -1i64) == 0 ==> match str_field(*resp, "access_token"@) {
            None => r matches Err(e) && is_execution_failed(
                e,
                "fetch_access_token"@,
                "missing access_token in DingTalk response"@,
            ),
            Some(t) => r matches Ok(x) && x.access_token@ == t && x.expires_in == match u64_field(
                *resp,
                "expires_in"@,
            ) {
                Some(n) => n,
                None => 7200,
            },
        },
{
    let code: i64 = match get_i64(resp, "errcode") {
        Some(c) => c,
        None => -1,
    };
    if code != 0 {
        return Err(execution_failed("fetch_access_token", error_reason(resp, code)));
    }
    let token = match get_str(resp, "access_token") {
        Some(t) => t,
        None => {
            return Err(
                execution_failed("fetch_access_token", String::from_str("missing access_token in DingTalk response")),
            );
        },
    };
    let expires_in: u64 = match get_u64(resp, "expires_in") {
        Some(n) => n,
        None => 7200,
    };
    Ok(AccessTokenResponse { access_token: token, expires_in })
}

} // verus!
