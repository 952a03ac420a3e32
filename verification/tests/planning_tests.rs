use openintent_adapters::bilibili::{signed_reply_result, BiliRequest, BilibiliAdapter};
use openintent_adapters::calendar::caldav::{build_calendar_query_xml, window_at};
use openintent_adapters::calendar::{CalendarAdapter, CalendarRequest};
use openintent_adapters::douyin::{DouyinAdapter, DouyinRequest};
use openintent_adapters::email::{inbox_sequence_set, recent_matches, sequence_set_of, EmailAdapter, EmailRequest};
use openintent_adapters::feishu::FeishuAdapter;
use openintent_adapters::github::GitHubAdapter;
use openintent_adapters::json::{to_json_text, JsonNumber, JsonValue};
use openintent_adapters::traits::HttpMethod;

fn conv(v: &serde_json::Value) -> JsonValue {
    match v {
        serde_json::Value::Null => JsonValue::Null,
        serde_json::Value::Bool(b) => JsonValue::Bool(*b),
        serde_json::Value::Number(n) => {
            if let Some(u) = n.as_u64() {
                JsonValue::Number(JsonNumber::PosInt(u))
            } else if let Some(i) = n.as_i64() {
                JsonValue::Number(JsonNumber::NegInt(i))
            } else {
                JsonValue::Number(JsonNumber::Fraction(n.to_string()))
            }
        }
        serde_json::Value::String(s) => JsonValue::Str(s.clone()),
        serde_json::Value::Array(a) => JsonValue::Array(a.iter().map(conv).collect()),
        serde_json::Value::Object(o) => {
            JsonValue::Object(o.iter().map(|(k, x)| (k.clone(), conv(x))).collect())
        }
    }
}

/// A JSON value from its text.
fn j(text: &str) -> JsonValue {
    conv(&serde_json::from_str(text).unwrap())
}

#[test]
fn email_list_inbox_plan_uses_configured_host_and_default_count() {
    let mut adapter = EmailAdapter::with_config("e", "imap.example.com", 993, "smtp.example.com", 465);
    adapter.connect().unwrap();
    match adapter.plan_tool("email_list_inbox", &j(r#"{"username": "u", "password": "p"}"#)).unwrap() {
        EmailRequest::ListInbox { host, port, username, password, count } => {
            assert_eq!(host, "imap.example.com");
            assert_eq!(port, 993);
            assert_eq!(username, "u");
            assert_eq!(password, "p");
            assert_eq!(count, 10);
        }
        other => panic!("unexpected {other:?}"),
    }
    match adapter
        .plan_tool(
            "email_send",
            &j(r#"{"to": "t@x.com", "subject": "S", "body": "B", "username": "u", "password": "p", "host": "smtp.other.com"}"#),
        )
        .unwrap()
    {
        EmailRequest::Send { host, port, to, .. } => {
            assert_eq!(host, "smtp.other.com");
            assert_eq!(port, 465);
            assert_eq!(to, "t@x.com");
        }
        other => panic!("unexpected {other:?}"),
    }
}

#[test]
fn email_sequence_sets() {
    assert_eq!(inbox_sequence_set(42, 10), "33:42");
    assert_eq!(inbox_sequence_set(3, 10), "1:3");
    assert_eq!(recent_matches(&vec![1, 4, 7, 12, 15], 2), vec![12, 15]);
    assert_eq!(recent_matches(&vec![1, 4], 5), vec![1, 4]);
    assert_eq!(sequence_set_of(&vec![12, 15]), "12,15");
}

#[test]
fn calendar_create_plan_builds_event() {
    let mut adapter = CalendarAdapter::with_caldav("cal", "https://caldav.example.com/cal/", "u", "p");
    adapter.connect().unwrap();
    let params = j(r#"{"summary": "Lunch", "start": "2026-03-01T12:00:00Z", "end": "2026-03-01T13:00:00Z"}"#);
    match adapter.plan_tool_with("calendar_create_event", &params, "uid-1").unwrap() {
        CalendarRequest::Create { uid, event_url, ical, username, .. } => {
            assert_eq!(uid, "uid-1");
            assert_eq!(event_url, "https://caldav.example.com/cal/uid-1.ics");
            assert!(ical.contains("SUMMARY:Lunch"));
            assert!(ical.contains("DTSTART:20260301T120000Z"));
            assert_eq!(username.as_deref(), Some("u"));
        }
        other => panic!("unexpected {other:?}"),
    }
}

#[test]
fn calendar_window_query_covers_days_ahead() {
    let (start, end) = window_at("calendar_list_events", 1_771_891_200, 7).unwrap();
    assert_eq!(start, "20260224T000000Z");
    assert_eq!(end, "20260303T000000Z");
    let xml = build_calendar_query_xml(&start, &end);
    assert!(xml.contains(r#"start="20260224T000000Z""#));
    assert!(xml.contains(r#"end="20260303T000000Z""#));
    let err = window_at("calendar_list_events", 0, i64::MAX).unwrap_err();
    assert!(err.to_string().contains("days_ahead is out of range"));
}

#[test]
fn github_list_repos_plan_urls() {
    let mut adapter = GitHubAdapter::with_token("gh", "tok");
    adapter.complete_connect(Some(true)).unwrap();
    let q = adapter.plan_tool("github_list_repos", j("{}")).unwrap();
    assert_eq!(q.url, "https://api.github.com/user/repos?page=1&per_page=30");
    assert_eq!(q.method, HttpMethod::Get);
    assert_eq!(q.token, "tok");
    let q = adapter.plan_tool("github_list_repos", j(r#"{"org": "rust-lang", "page": 2}"#)).unwrap();
    assert_eq!(q.url, "https://api.github.com/orgs/rust-lang/repos?page=2&per_page=30");
    let q = adapter.plan_tool("github_search_code", j(r#"{"query": "fn main"}"#)).unwrap();
    assert_eq!(q.url, "https://api.github.com/search/code?q=fn%20main&page=1");
    let q = adapter
        .plan_tool("github_create_issue", j(r#"{"owner": "o", "repo": "r", "title": "Bug"}"#))
        .unwrap();
    assert_eq!(q.method, HttpMethod::Post);
    assert_eq!(q.body.unwrap().get("title").and_then(|v| v.as_str()), Some("Bug"));
}

#[test]
fn feishu_send_message_plan() {
    let mut adapter = FeishuAdapter::new("feishu");
    adapter.complete_connect(Some("t-123".to_string())).unwrap();
    let q = adapter
        .plan_tool(
            "feishu_send_message",
            &j(r#"{"receive_id": "ou_1", "receive_id_type": "open_id", "msg_type": "text", "content": "{}"}"#),
        )
        .unwrap();
    assert_eq!(q.url, "https://open.feishu.cn/open-apis/im/v1/messages?receive_id_type=open_id");
    assert_eq!(q.method, HttpMethod::Post);
    assert_eq!(q.token, "t-123");
    assert_eq!(q.body.unwrap().get("receive_id").and_then(|v| v.as_str()), Some("ou_1"));
}

#[test]
fn douyin_auth_url_plan() {
    let mut adapter = DouyinAdapter::with_settings("dy", Some("ck".to_string()), Some("cs".to_string()), None, None);
    adapter.complete_connect(true).unwrap();
    match adapter.plan_tool("douyin_get_auth_url", &j(r#"{"redirect_uri": "https://cb"}"#)) {
        Ok(DouyinRequest::AuthUrl { auth_url }) => {
            assert!(auth_url.contains("client_key=ck"));
            assert!(auth_url.contains("scope=video.create,video.list,video.data.bind"));
        }
        other => panic!("unexpected {other:?}"),
    }
}

#[test]
fn bilibili_live_info_is_public() {
    let adapter = BilibiliAdapter::with_credentials("bili", None, None, None);
    assert!(adapter.plan_tool_at("bili_get_live_info", &j(r#"{"room_id": "21"}"#), 0).is_err());
    let mut adapter =
        BilibiliAdapter::with_credentials("bili", Some("id".to_string()), Some("secret".to_string()), Some("7".to_string()));
    adapter.connect().unwrap();
    match adapter.plan_tool_at("bili_get_live_info", &j(r#"{"room_id": "21"}"#), 0) {
        Ok(BiliRequest::PublicGet { url }) => {
            assert_eq!(url, "https://api.live.bilibili.com/room/v1/Room/get_info?room_id=21")
        }
        other => panic!("unexpected {other:?}"),
    }
}

#[test]
fn signed_reply_reads_danmaku_replies_and_passes_others_through() {
    let body = j(r#"{"room_id": 4321, "app_id": 7, "dm": {"msg": "hi"}}"#);
    let ok = signed_reply_result("bili_send_danmaku", &body, j(r#"{"code": 0, "data": {}}"#)).unwrap();
    assert_eq!(to_json_text(&ok), r#"{"success":true,"room_id":4321}"#);
    let err = signed_reply_result("bili_send_danmaku", &body, j(r#"{"code": 4001, "message": "room closed"}"#))
        .unwrap_err();
    assert!(err.to_string().contains("Bilibili API error 4001: room closed"), "{}", err.to_string());
    let start = j(r#"{"code": 0, "data": {"anchor_info": {"room_id": 9}}}"#);
    let passed = signed_reply_result("bili_get_live_info", &j(r#"{"code": 0}"#), start).unwrap();
    assert_eq!(to_json_text(&passed), r#"{"code":0,"data":{"anchor_info":{"room_id":9}}}"#);
}
