use base64::Engine;
use hmac::{Hmac, Mac};
use sha2::{Digest, Sha256};

use openintent_adapters::bilibili::api::{sign_request_at, to_hex};
use openintent_adapters::dingtalk::{sign_webhook_url_at, webhook_body, DingTalkAdapter, DingTalkMode};
use openintent_adapters::douyin::oauth::build_auth_url;
use openintent_adapters::json::{JsonNumber, JsonValue};
use openintent_adapters::urlencoding::encode;

fn conv(v: &serde_json::Value) -> JsonValue {
    match v {
        serde_json::Value::Null => JsonValue::Null,
        serde_json::Value::Bool(b) => JsonValue::Bool(*b),
        serde_json::Value::Number(n) => {
            if let Some(u) = n.as_u64() {
                JsonValue::Number(JsonNumber::PosInt(u))
            } else if let Some(i) = n.as_i64() {
                JsonValue::Number(JsonNumber::NegInt(i))
            } else {
                JsonValue::Number(JsonNumber::Fraction(n.to_string()))
            }
        }
        serde_json::Value::String(s) => JsonValue::Str(s.clone()),
        serde_json::Value::Array(a) => JsonValue::Array(a.iter().map(conv).collect()),
        serde_json::Value::Object(o) => {
            JsonValue::Object(o.iter().map(|(k, x)| (k.clone(), conv(x))).collect())
        }
    }
}

/// A JSON value from its text.
fn j(text: &str) -> JsonValue {
    conv(&serde_json::from_str(text).unwrap())
}

fn hmac_hex(key: &[u8], msg: &[u8]) -> Vec<u8> {
    let mut m = Hmac::<Sha256>::new_from_slice(key).unwrap();
    m.update(msg);
    m.finalize().into_bytes().to_vec()
}

#[test]
fn to_hex_is_lowercase_two_digits_per_byte() {
    assert_eq!(to_hex(&[0x00, 0x0f, 0xab, 0xff]), "000fabff");
    assert_eq!(to_hex(&[]), "");
}

#[test]
fn urlencoding_keeps_unreserved_and_encodes_utf8() {
    assert_eq!(encode("AZaz09-_.~"), "AZaz09-_.~");
    assert_eq!(encode("é"), "%C3%A9");
    assert_eq!(encode("a=b&c"), "a%3Db%26c");
}

#[test]
fn bilibili_signature_matches_reference_computation() {
    let body = r#"{"room_id":1}"#;
    let header = sign_request_at("key-id", "key-secret", body, 1_700_000_000, 0x1a2b);
    let digest = Sha256::digest(body.as_bytes());
    let md5 = to_hex(&digest[..16]);
    let to_sign = format!("key-id1700000000{:08x}{}", 0x1a2bu32, md5);
    let sig = to_hex(&hmac_hex(b"key-secret", to_sign.as_bytes()));
    assert_eq!(
        header,
        format!("id=key-id,ts=1700000000,nonce=00001a2b,md5={md5},version=1.0,rmk=,sign={sig}")
    );
    assert_eq!(sig.len(), 64);
}

#[test]
fn dingtalk_webhook_signature_matches_reference_computation() {
    let url = "https://oapi.dingtalk.com/robot/send?access_token=abc";
    let signed = sign_webhook_url_at(url, "SECret", 1_700_000_000_123);
    let mac = hmac_hex(b"SECret", b"1700000000123\nSECret");
    let b64 = base64::engine::general_purpose::STANDARD.encode(mac);
    assert_eq!(signed, format!("{url}&timestamp=1700000000123&sign={}", encode(&b64)));
    assert!(!signed.ends_with("sign="));
}

#[test]
fn dingtalk_mode_follows_configuration() {
    let a = DingTalkAdapter::with_settings("d", Some("k".into()), Some("s".into()), Some("u".into()), None);
    assert_eq!(a.mode(), DingTalkMode::App);
    let a = DingTalkAdapter::with_settings("d", Some("k".into()), None, Some("u".into()), None);
    assert_eq!(a.mode(), DingTalkMode::Webhook);
    let a = DingTalkAdapter::with_settings("d", None, None, None, None);
    assert_eq!(a.mode(), DingTalkMode::Unconfigured);
}

#[test]
fn dingtalk_text_webhook_body() {
    let body = webhook_body(
        "dingtalk_send_text",
        &j(r#"{"content": "hi", "at_mobiles": ["138", 5, "139"], "at_all": true}"#),
    )
    .unwrap();
    assert_eq!(body.get("msgtype").and_then(|v| v.as_str()), Some("text"));
    assert_eq!(body.get("text").and_then(|t| t.get("content")).and_then(|v| v.as_str()), Some("hi"));
    let at = body.get("at").unwrap();
    let mobiles: Vec<&str> = at.get("atMobiles").and_then(|v| v.as_array()).unwrap().iter().filter_map(|v| v.as_str()).collect();
    assert_eq!(mobiles, vec!["138", "139"]);
    assert_eq!(at.get("isAtAll").and_then(|v| v.as_bool()), Some(true));
    assert!(webhook_body("dingtalk_send_text", &j("{}")).unwrap_err().to_string().contains("content"));
}

#[test]
fn dingtalk_card_webhook_body() {
    let body = webhook_body(
        "dingtalk_send_card",
        &j(r#"{"title": "T", "text": "X", "buttons": [{"title": "Open", "action_url": "https://e.com"}]}"#),
    )
    .unwrap();
    assert_eq!(body.get("msgtype").and_then(|v| v.as_str()), Some("actionCard"));
    let card = body.get("actionCard").unwrap();
    assert_eq!(card.get("btnOrientation").and_then(|v| v.as_str()), Some("0"));
    let btn = &card.get("btns").and_then(|v| v.as_array()).unwrap()[0];
    assert_eq!(btn.get("title").and_then(|v| v.as_str()), Some("Open"));
    assert_eq!(btn.get("actionUrl").and_then(|v| v.as_str()), Some("https://e.com"));
    assert!(webhook_body("dingtalk_bogus", &j("{}")).is_err());
}

#[test]
fn douyin_auth_url_lists_scopes() {
    let url = build_auth_url("ck", "https://app.example/cb", &["user_info", "video.create"]);
    assert!(url.starts_with("https://open.douyin.com/platform/oauth/connect/?"));
    assert!(url.contains("client_key=ck"));
    assert!(url.contains("scope=user_info,video.create"));
    assert!(url.ends_with("&redirect_uri=https://app.example/cb"));
}
