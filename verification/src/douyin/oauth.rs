//! Douyin OAuth2: the authorization URL, token requests and token replies.

use vstd::prelude::*;
use vstd::string::*;

use crate::error::{AdapterError, execution_failed, is_execution_failed};
use crate::json::{JsonValue, field, get_i64, get_str, i64_field, keys_of, str_field, str_of, take_field, value_at};
use crate::text::{i64_to_decimal, join, signed_decimal};
use crate::traits::str_views;

verus! {

/// The authorization URL a user opens to grant access.
pub open spec fn auth_url(client_key: Seq<char>, redirect_uri: Seq<char>, scopes: Seq<Seq<char>>) -> Seq<char> {
    "https://open.douyin.com/platform/oauth/connect/?client_key="@ + client_key + "&response_type=code&scope="@
        + join(scopes, seq![',']) + "&redirect_uri="@ + redirect_uri
}

/// Joins string slices with commas.
fn join_commas(items: &[&str]) -> (r: String)
    ensures
        r@ == join(str_views(items@), seq![',']),
{
    let ghost vs = str_views(items@);
    let mut r = String::new();
    let mut i: usize = 0;
    while i < items.len()
        invariant
            i <= items@.len(),
            vs == str_views(items@),
            r@ == join(vs.take(i as int), seq![',']),
        decreases items.len() - i,
    {
        assert(vs.take(i + 1).drop_last() =~= vs.take(i as int));
        if i > 0 {
            r.append(",");
            proof {
                reveal_strlit(",");
            }
        } else {
            assert(r@ =~= Seq::<char>::empty());
        }
        r.append(items[i]);
        i = i + 1;
    }
    assert(vs.take(items@.len() as int) =~= vs);
    r
}

/// Builds the authorization URL for the user OAuth2 flow.
pub fn build_auth_url(client_key: &str, redirect_uri: &str, scopes: &[&str]) -> (r: String)
    ensures
        r@ == auth_url(client_key@, redirect_uri@, str_views(scopes@)),
{
    let scope = join_commas(scopes);
    let mut s = String::from_str("https://open.douyin.com/platform/oauth/connect/?client_key=");
    s.append(client_key);
    s.append("&response_type=code&scope=");
    s.append(scope.as_str());
    s.append("&redirect_uri=");
    s.append(redirect_uri);
    s
}

/// The request exchanging an authorization code for a token: URL and body.
pub fn exchange_code_request(api_base: &str, client_key: &str, client_secret: &str, code: &str) -> (r: (String, JsonValue))
    ensures
        r.0@ == api_base@ + "/oauth/access_token/"@,
        keys_of(r.1) == seq!["client_key"@, "client_secret"@, "code"@, "grant_type"@],
        str_of(value_at(r.1, 0)) == Some(client_key@),
        str_of(value_at(r.1, 1)) == Some(client_secret@),
        str_of(value_at(r.1, 2)) == Some(code@),
        str_of(value_at(r.1, 3)) == Some("authorization_code"@),
{
    let mut url = String::from_str(api_base);
    url.append("/oauth/access_token/");
    let mut es: Vec<(String, JsonValue)> = Vec::new();
    es.push((String::from_str("client_key"), JsonValue::from_str_value(client_key)));
    es.push((String::from_str("client_secret"), JsonValue::from_str_value(client_secret)));
    es.push((String::from_str("code"), JsonValue::from_str_value(code)));
    es.push((String::from_str("grant_type"), JsonValue::from_str_value("authorization_code")));
    let j = JsonValue::Object(es);
    assert(keys_of(j) =~= seq!["client_key"@, "client_secret"@, "code"@, "grant_type"@]);
    (url, j)
}

/// The request refreshing a user token: URL and body.
pub fn refresh_token_request(api_base: &str, client_key: &str, refresh_token_value: &str) -> (r: (String, JsonValue))
    ensures
        r.0@ == api_base@ + "/oauth/refresh_token/"@,
        keys_of(r.1) == seq!["client_key"@, "grant_type"@, "refresh_token"@],
        str_of(value_at(r.1, 0)) == Some(client_key@),
        str_of(value_at(r.1, 1)) == Some("refresh_token"@),
        str_of(value_at(r.1, 2)) == Some(refresh_token_value@),
{
    let mut url = String::from_str(api_base);
    url.append("/oauth/refresh_token/");
    let mut es: Vec<(String, JsonValue)> = Vec::new();
    es.push((String::from_str("client_key"), JsonValue::from_str_value(client_key)));
    es.push((String::from_str("grant_type"), JsonValue::from_str_value("refresh_token")));
    es.push((String::from_str("refresh_token"), JsonValue::from_str_value(refresh_token_value)));
    let j = JsonValue::Object(es);
    assert(keys_of(j) =~= seq!["client_key"@, "grant_type"@, "refresh_token"@]);
    (url, j)
}

/// The reason given for a token reply without `data`.
pub open spec fn missing_data_reason(resp: JsonValue) -> Seq<char> {
    "Douyin token API missing 'data': message="@ + match str_field(resp, "message"@) {
        Some(m) => m,
        None => "unknown"@,
    }
}

/// The reason given for a `data` object with a non-zero `error_code`.
pub open spec fn data_error_reason(data: JsonValue, code: i64) -> Seq<char> {
    "Douyin API error "@ + signed_decimal(code as int) + ": "@ + match str_field(data, "description"@) {
        Some(d) => d,
        None => "unknown error"@,
    }
}

/// Checks a token reply and gives its `data` object for decoding: an error
/// when `data` is missing or carries a non-zero `error_code`.
pub fn token_reply_data(resp: JsonValue, context: &str) -> (r: Result<JsonValue, AdapterError>)
    ensures
        match field(resp, "data"@) {
            None => r matches Err(e) && is_execution_failed(e, context@, missing_data_reason(resp)),
            Some(data) => match i64_field(data, "error_code"@) {
                Some(code) => if code != 0 {
                    r matches Err(e) && is_execution_failed(e, context@, data_error_reason(data, code))
                } else {
                    r == Ok::<JsonValue, AdapterError>(data)
                },
                None => r == Ok::<JsonValue, AdapterError>(data),
            },
        },
{
    let message = match get_str(&resp, "message") {
        Some(m) => m,
        None => String::from_str("unknown"),
    };
    let ghost whole = resp;
    let data = match take_field(resp, "data") {
        Some(d) => d,
        None => {
            let mut reason = String::from_str("Douyin token API missing 'data': message=");
            reason.append(message.as_str());
            return Err(execution_failed(context, reason));
        },
    };
    match get_i64(&data, "error_code") {
        Some(code) => {
            if code != 0 {
                let description = match get_str(&data, "description") {
                    Some(d) => d,
                    None => String::from_str("unknown error"),
                };
                let mut reason = String::from_str("Douyin API error ");
                let c = i64_to_decimal(code);
                reason.append(c.as_str());
                reason.append(": ");
                reason.append(description.as_str());
                return Err(execution_failed(context, reason));
            }
        },
        None => {},
    }
    Ok(data)
}

} // verus!
