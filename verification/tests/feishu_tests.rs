use openintent_adapters::feishu::api::{build_message_body, build_send_message_url, build_token_request_body, parse_feishu_response};
use openintent_adapters::feishu::{FeishuAdapter, DEFAULT_BASE_URL};
use openintent_adapters::json::{JsonNumber, JsonValue};
use openintent_adapters::traits::AdapterType;

fn conv(v: &serde_json::Value) -> JsonValue {
    match v {
        serde_json::Value::Null => JsonValue::Null,
        serde_json::Value::Bool(b) => JsonValue::Bool(*b),
        serde_json::Value::Number(n) => {
            if let Some(u) = n.as_u64() {
                JsonValue::Number(JsonNumber::PosInt(u))
            } else if let Some(i) = n.as_i64() {
                JsonValue::Number(JsonNumber::NegInt(i))
            } else {
                JsonValue::Number(JsonNumber::Fraction(n.to_string()))
            }
        }
        serde_json::Value::String(s) => JsonValue::Str(s.clone()),
        serde_json::Value::Array(a) => JsonValue::Array(a.iter().map(conv).collect()),
        serde_json::Value::Object(o) => {
            JsonValue::Object(o.iter().map(|(k, x)| (k.clone(), conv(x))).collect())
        }
    }
}

/// A JSON value from its text.
fn j(text: &str) -> JsonValue {
    conv(&serde_json::from_str(text).unwrap())
}

#[test]
fn feishu_mod_new_creates_adapter_with_defaults() {
    let adapter = FeishuAdapter::new("feishu-test");
    assert_eq!(adapter.id, "feishu-test");
    assert!(!adapter.connected);
    assert!(adapter.app_id.is_none());
    assert!(adapter.app_secret.is_none());
    assert!(adapter.tenant_access_token.is_none());
    assert_eq!(adapter.base_url, DEFAULT_BASE_URL);
}

#[test]
fn mod_with_credentials_sets_app_id_and_secret() {
    let adapter = FeishuAdapter::with_credentials("feishu-test", "my_app_id", "my_app_secret");
    assert_eq!(adapter.id, "feishu-test");
    assert_eq!(adapter.app_id.as_deref(), Some("my_app_id"));
    assert_eq!(adapter.app_secret.as_deref(), Some("my_app_secret"));
    assert!(adapter.tenant_access_token.is_none());
    assert_eq!(adapter.base_url, DEFAULT_BASE_URL);
}

#[test]
fn feishu_mod_adapter_id_returns_id() {
    let adapter = FeishuAdapter::new("my-feishu");
    assert_eq!(adapter.id(), "my-feishu");
}

#[test]
fn mod_adapter_type_is_messaging() {
    let adapter = FeishuAdapter::new("feishu");
    assert_eq!(adapter.adapter_type(), AdapterType::Messaging);
}

#[test]
fn mod_required_auth_returns_feishu_scopes() {
    let adapter = FeishuAdapter::new("feishu");
    let auth = adapter.required_auth().expect("should require auth");
    assert_eq!(auth.provider, "feishu");
    assert!(auth.scopes.contains(&"im:message".to_string()));
    assert!(auth.scopes.contains(&"im:chat".to_string()));
    assert!(auth.scopes.contains(&"contact:user.base".to_string()));
    assert!(auth.scopes.contains(&"docx:document".to_string()));
}

#[test]
fn mod_tools_returns_exactly_six() {
    let adapter = FeishuAdapter::new("feishu");
    let tools = adapter.tools();
    assert_eq!(tools.len(), 6);
}

#[test]
fn feishu_mod_tools_have_expected_names() {
    let adapter = FeishuAdapter::new("feishu");
    let names: Vec<String> = adapter.tools().iter().map(|t| t.name.clone()).collect();
    let expected = vec![
        "feishu_send_message",
        "feishu_list_chats",
        "feishu_get_chat_messages",
        "feishu_create_doc",
        "feishu_search_users",
        "feishu_get_user_info",
    ];
    assert_eq!(names, expected);
}

#[test]
fn mod_tool_send_message_has_required_fields() {
    let adapter = FeishuAdapter::new("feishu");
    let tools = adapter.tools();
    let send_msg = tools
        .iter()
        .find(|t| t.name == "feishu_send_message")
        .expect("should have feishu_send_message");
    let pj = send_msg.parameters.to_json();
    let required = pj.get("required").unwrap()
        .as_array()
        .expect("required should be an array");
    assert!(required.iter().any(|v| v.as_str() == Some("receive_id")));
    assert!(required.iter().any(|v| v.as_str() == Some("receive_id_type")));
    assert!(required.iter().any(|v| v.as_str() == Some("msg_type")));
    assert!(required.iter().any(|v| v.as_str() == Some("content")));
}

#[test]
fn mod_tool_list_chats_has_no_required_fields() {
    let adapter = FeishuAdapter::new("feishu");
    let tools = adapter.tools();
    let list_chats = tools
        .iter()
        .find(|t| t.name == "feishu_list_chats")
        .expect("should have feishu_list_chats");
    let pj = list_chats.parameters.to_json();
    let required = pj.get("required").unwrap()
        .as_array()
        .expect("required should be an array");
    assert!(required.is_empty());
}

#[test]
fn mod_resolve_token_succeeds_with_token() {
    let mut adapter = FeishuAdapter::new("feishu");
    adapter.tenant_access_token = Some("my-token".into());
    let token = adapter.resolve_token().unwrap();
    assert_eq!(token, "my-token");
}

#[test]
fn mod_resolve_token_fails_without_token() {
    let adapter = FeishuAdapter::new("feishu");
    let result = adapter.resolve_token();
    assert!(result.is_err());
}

#[test]
fn mod_build_token_request_body_contains_credentials() {
    let body = build_token_request_body("app123", "secret456");
    assert_eq!(body.get("app_id").and_then(|v| v.as_str()).unwrap(), "app123");
    assert_eq!(body.get("app_secret").and_then(|v| v.as_str()).unwrap(), "secret456");
}

#[test]
fn mod_build_message_body_has_correct_fields() {
    let body = build_message_body("ou_abc123", "text", r#"{"text":"hello"}"#);
    assert_eq!(body.get("receive_id").and_then(|v| v.as_str()).unwrap(), "ou_abc123");
    assert_eq!(body.get("msg_type").and_then(|v| v.as_str()).unwrap(), "text");
    assert_eq!(body.get("content").and_then(|v| v.as_str()).unwrap(), r#"{"text":"hello"}"#);
}

#[test]
fn mod_api_url_constructs_correct_urls() {
    let adapter = FeishuAdapter::new("feishu");
    assert_eq!(
        adapter.api_url("/auth/v3/tenant_access_token/internal"),
        "https://open.feishu.cn/open-apis/auth/v3/tenant_access_token/internal"
    );
    assert_eq!(
        adapter.api_url("/im/v1/messages"),
        "https://open.feishu.cn/open-apis/im/v1/messages"
    );
}

#[test]
fn mod_build_send_message_url_includes_receive_id_type() {
    let url = build_send_message_url(DEFAULT_BASE_URL, "open_id");
    assert_eq!(
        url,
        "https://open.feishu.cn/open-apis/im/v1/messages?receive_id_type=open_id"
    );
    let url2 = build_send_message_url(DEFAULT_BASE_URL, "chat_id");
    assert!(url2.contains("receive_id_type=chat_id"));
}

#[test]
fn mod_parse_feishu_response_succeeds_on_code_zero() {
    let resp = j(r#"{ "code": 0, "msg": "success", "data": {} }"#);
    let result = parse_feishu_response(&resp, "test_tool");
    assert!(result.is_ok());
}

#[test]
fn mod_parse_feishu_response_fails_on_nonzero_code() {
    let resp = j(r#"{ "code": 99991, "msg": "invalid token" }"#);
    let result = parse_feishu_response(&resp, "test_tool");
    assert!(result.is_err());
    let err_msg = result.unwrap_err().to_string();
    assert!(err_msg.contains("99991"));
    assert!(err_msg.contains("invalid token"));
}


#[test]
fn feishu_new_creates_adapter_with_defaults() {
    let adapter = FeishuAdapter::new("feishu-test");
    assert_eq!(adapter.id, "feishu-test");
    assert!(!adapter.connected);
    assert!(adapter.app_id.is_none());
    assert!(adapter.app_secret.is_none());
    assert!(adapter.tenant_access_token.is_none());
    assert_eq!(adapter.base_url, DEFAULT_BASE_URL);
}

#[test]
fn feishu_with_credentials_sets_app_id_and_secret() {
    let adapter = FeishuAdapter::with_credentials("feishu-test", "my_app_id", "my_app_secret");
    assert_eq!(adapter.id, "feishu-test");
    assert_eq!(adapter.app_id.as_deref(), Some("my_app_id"));
    assert_eq!(adapter.app_secret.as_deref(), Some("my_app_secret"));
    assert!(adapter.tenant_access_token.is_none());
    assert_eq!(adapter.base_url, DEFAULT_BASE_URL);
}

#[test]
fn feishu_adapter_id_returns_id() {
    let adapter = FeishuAdapter::new("my-feishu");
    assert_eq!(adapter.id(), "my-feishu");
}

#[test]
fn feishu_adapter_type_is_messaging() {
    let adapter = FeishuAdapter::new("feishu");
    assert_eq!(adapter.adapter_type(), AdapterType::Messaging);
}

#[test]
fn feishu_required_auth_returns_feishu_scopes() {
    let adapter = FeishuAdapter::new("feishu");
    let auth = adapter.required_auth().expect("should require auth");
    assert_eq!(auth.provider, "feishu");
    assert!(auth.scopes.contains(&"im:message".to_string()));
    assert!(auth.scopes.contains(&"im:chat".to_string()));
    assert!(auth.scopes.contains(&"contact:user.base".to_string()));
    assert!(auth.scopes.contains(&"docx:document".to_string()));
}

#[test]
fn feishu_tools_returns_exactly_six() {
    let adapter = FeishuAdapter::new("feishu");
    let tools = adapter.tools();
    assert_eq!(tools.len(), 6);
}

#[test]
fn feishu_tools_have_expected_names() {
    let adapter = FeishuAdapter::new("feishu");
    let names: Vec<String> = adapter.tools().iter().map(|t| t.name.clone()).collect();
    let expected = vec![
        "feishu_send_message",
        "feishu_list_chats",
        "feishu_get_chat_messages",
        "feishu_create_doc",
        "feishu_search_users",
        "feishu_get_user_info",
    ];
    assert_eq!(names, expected);
}

#[test]
fn feishu_tool_send_message_has_required_fields() {
    let adapter = FeishuAdapter::new("feishu");
    let tools = adapter.tools();
    let send_msg = tools
        .iter()
        .find(|t| t.name == "feishu_send_message")
        .expect("should have feishu_send_message");
    let pj = send_msg.parameters.to_json();
    let required = pj.get("required").unwrap()
        .as_array()
        .expect("required should be an array");
    assert!(required.iter().any(|v| v.as_str() == Some("receive_id")));
    assert!(required.iter().any(|v| v.as_str() == Some("receive_id_type")));
    assert!(required.iter().any(|v| v.as_str() == Some("msg_type")));
    assert!(required.iter().any(|v| v.as_str() == Some("content")));
}

#[test]
fn feishu_tool_list_chats_has_no_required_fields() {
    let adapter = FeishuAdapter::new("feishu");
    let tools = adapter.tools();
    let list_chats = tools
        .iter()
        .find(|t| t.name == "feishu_list_chats")
        .expect("should have feishu_list_chats");
    let pj = list_chats.parameters.to_json();
    let required = pj.get("required").unwrap()
        .as_array()
        .expect("required should be an array");
    assert!(required.is_empty());
}

#[test]
fn feishu_resolve_token_succeeds_with_token() {
    let mut adapter = FeishuAdapter::new("feishu");
    adapter.tenant_access_token = Some("my-token".into());
    let token = adapter.resolve_token().unwrap();
    assert_eq!(token, "my-token");
}

#[test]
fn feishu_resolve_token_fails_without_token() {
    let adapter = FeishuAdapter::new("feishu");
    let result = adapter.resolve_token();
    assert!(result.is_err());
}

#[test]
fn feishu_build_token_request_body_contains_credentials() {
    let body = build_token_request_body("app123", "secret456");
    assert_eq!(body.get("app_id").and_then(|v| v.as_str()).unwrap(), "app123");
    assert_eq!(body.get("app_secret").and_then(|v| v.as_str()).unwrap(), "secret456");
}

#[test]
fn feishu_build_message_body_has_correct_fields() {
    let body = build_message_body("ou_abc123", "text", r#"{"text":"hello"}"#);
    assert_eq!(body.get("receive_id").and_then(|v| v.as_str()).unwrap(), "ou_abc123");
    assert_eq!(body.get("msg_type").and_then(|v| v.as_str()).unwrap(), "text");
    assert_eq!(body.get("content").and_then(|v| v.as_str()).unwrap(), r#"{"text":"hello"}"#);
}

#[test]
fn feishu_api_url_constructs_correct_urls() {
    let adapter = FeishuAdapter::new("feishu");
    assert_eq!(
        adapter.api_url("/auth/v3/tenant_access_token/internal"),
        "https://open.feishu.cn/open-apis/auth/v3/tenant_access_token/internal"
    );
    assert_eq!(
        adapter.api_url("/im/v1/messages"),
        "https://open.feishu.cn/open-apis/im/v1/messages"
    );
}

#[test]
fn feishu_build_send_message_url_includes_receive_id_type() {
    let url = build_send_message_url(DEFAULT_BASE_URL, "open_id");
    assert_eq!(
        url,
        "https://open.feishu.cn/open-apis/im/v1/messages?receive_id_type=open_id"
    );
    let url2 = build_send_message_url(DEFAULT_BASE_URL, "chat_id");
    assert!(url2.contains("receive_id_type=chat_id"));
}

#[test]
fn feishu_parse_feishu_response_succeeds_on_code_zero() {
    let resp = j(r#"{ "code": 0, "msg": "success", "data": {} }"#);
    let result = parse_feishu_response(&resp, "test_tool");
    assert!(result.is_ok());
}

#[test]
fn feishu_parse_feishu_response_fails_on_nonzero_code() {
    let resp = j(r#"{ "code": 99991, "msg": "invalid token" }"#);
    let result = parse_feishu_response(&resp, "test_tool");
    assert!(result.is_err());
    let err_msg = result.unwrap_err().to_string();
    assert!(err_msg.contains("99991"));
    assert!(err_msg.contains("invalid token"));
}



use openintent_adapters::traits::HealthStatus;

#[test]
fn feishu_mod_connect_succeeds_without_credentials() {
    let mut adapter = FeishuAdapter::new("feishu");
    let result = adapter.complete_connect(None);
    assert!(result.is_ok());
    assert!(adapter.connected);
}

#[test]
fn feishu_mod_disconnect_clears_token_and_sets_disconnected() {
    let mut adapter = FeishuAdapter::new("feishu");
    adapter.connected = true;
    adapter.tenant_access_token = Some("test-token".into());
    adapter.disconnect().unwrap();
    assert!(!adapter.connected);
    assert!(adapter.tenant_access_token.is_none());
}

#[test]
fn feishu_mod_health_check_returns_unhealthy_when_disconnected() {
    let adapter = FeishuAdapter::new("feishu");
    let status = adapter.health_check().unwrap();
    assert_eq!(status, HealthStatus::Unhealthy);
}

#[test]
fn feishu_mod_health_check_returns_degraded_when_connected_without_token() {
    let mut adapter = FeishuAdapter::new("feishu");
    adapter.connected = true;
    let status = adapter.health_check().unwrap();
    assert_eq!(status, HealthStatus::Degraded);
}

#[test]
fn feishu_mod_health_check_returns_healthy_when_connected_with_token() {
    let mut adapter = FeishuAdapter::new("feishu");
    adapter.connected = true;
    adapter.tenant_access_token = Some("valid-token".into());
    let status = adapter.health_check().unwrap();
    assert_eq!(status, HealthStatus::Healthy);
}

#[test]
fn feishu_mod_execute_tool_rejects_when_not_connected() {
    let adapter = FeishuAdapter::with_credentials("feishu", "app", "secret");
    let result = adapter.plan_tool("feishu_send_message", &j(r#"{}"#));
    assert!(result.is_err());
    let err = result.unwrap_err();
    assert!(err.to_string().contains("not connected"));
}

#[test]
fn feishu_mod_execute_tool_rejects_unknown_tool() {
    let mut adapter = FeishuAdapter::new("feishu");
    adapter.connected = true;
    let result = adapter.plan_tool("nonexistent_tool", &j(r#"{}"#));
    assert!(result.is_err());
    let err = result.unwrap_err();
    assert!(err.to_string().contains("tool not found"));
}

#[test]
fn feishu_mod_send_message_rejects_missing_receive_id() {
    let mut adapter = FeishuAdapter::new("feishu");
    adapter.connected = true;
    adapter.tenant_access_token = Some("token".into());
    let result = adapter
        .plan_tool("feishu_send_message", &j(r#"{
                "receive_id_type": "open_id",
                "msg_type": "text",
                "content": "hello"
            }"#),
        );
    assert!(result.is_err());
    assert!(result.unwrap_err().to_string().contains("receive_id"));
}

#[test]
fn feishu_mod_get_chat_messages_rejects_missing_container_id() {
    let mut adapter = FeishuAdapter::new("feishu");
    adapter.connected = true;
    adapter.tenant_access_token = Some("token".into());
    let result = adapter
        .plan_tool("feishu_get_chat_messages", &j(r#"{}"#));
    assert!(result.is_err());
    assert!(result.unwrap_err().to_string().contains("container_id"));
}

#[test]
fn feishu_mod_create_doc_rejects_missing_title() {
    let mut adapter = FeishuAdapter::new("feishu");
    adapter.connected = true;
    adapter.tenant_access_token = Some("token".into());
    let result = adapter.plan_tool("feishu_create_doc", &j(r#"{}"#));
    assert!(result.is_err());
    assert!(result.unwrap_err().to_string().contains("title"));
}

#[test]
fn feishu_mod_search_users_rejects_missing_query() {
    let mut adapter = FeishuAdapter::new("feishu");
    adapter.connected = true;
    adapter.tenant_access_token = Some("token".into());
    let result = adapter.plan_tool("feishu_search_users", &j(r#"{}"#));
    assert!(result.is_err());
    assert!(result.unwrap_err().to_string().contains("query"));
}

#[test]
fn feishu_mod_get_user_info_rejects_missing_user_id() {
    let mut adapter = FeishuAdapter::new("feishu");
    adapter.connected = true;
    adapter.tenant_access_token = Some("token".into());
    let result = adapter
        .plan_tool("feishu_get_user_info", &j(r#"{}"#));
    assert!(result.is_err());
    assert!(result.unwrap_err().to_string().contains("user_id"));
}



#[test]
fn feishu_connect_succeeds_without_credentials() {
    let mut adapter = FeishuAdapter::new("feishu");
    let result = adapter.complete_connect(None);
    assert!(result.is_ok());
    assert!(adapter.connected);
}

#[test]
fn feishu_disconnect_clears_token_and_sets_disconnected() {
    let mut adapter = FeishuAdapter::new("feishu");
    adapter.connected = true;
    adapter.tenant_access_token = Some("test-token".into());
    adapter.disconnect().unwrap();
    assert!(!adapter.connected);
    assert!(adapter.tenant_access_token.is_none());
}

#[test]
fn feishu_health_check_returns_unhealthy_when_disconnected() {
    let adapter = FeishuAdapter::new("feishu");
    let status = adapter.health_check().unwrap();
    assert_eq!(status, HealthStatus::Unhealthy);
}

#[test]
fn feishu_health_check_returns_degraded_when_connected_without_token() {
    let mut adapter = FeishuAdapter::new("feishu");
    adapter.connected = true;
    let status = adapter.health_check().unwrap();
    assert_eq!(status, HealthStatus::Degraded);
}

#[test]
fn feishu_health_check_returns_healthy_when_connected_with_token() {
    let mut adapter = FeishuAdapter::new("feishu");
    adapter.connected = true;
    adapter.tenant_access_token = Some("valid-token".into());
    let status = adapter.health_check().unwrap();
    assert_eq!(status, HealthStatus::Healthy);
}

#[test]
fn feishu_execute_tool_rejects_when_not_connected() {
    let adapter = FeishuAdapter::with_credentials("feishu", "app", "secret");
    let result = adapter.plan_tool("feishu_send_message", &j(r#"{}"#));
    assert!(result.is_err());
    let err = result.unwrap_err();
    assert!(err.to_string().contains("not connected"));
}

#[test]
fn feishu_execute_tool_rejects_unknown_tool() {
    let mut adapter = FeishuAdapter::new("feishu");
    adapter.connected = true;
    let result = adapter.plan_tool("nonexistent_tool", &j(r#"{}"#));
    assert!(result.is_err());
    let err = result.unwrap_err();
    assert!(err.to_string().contains("tool not found"));
}

#[test]
fn feishu_send_message_rejects_missing_receive_id() {
    let mut adapter = FeishuAdapter::new("feishu");
    adapter.connected = true;
    adapter.tenant_access_token = Some("token".into());
    let result = adapter
        .plan_tool("feishu_send_message", &j(r#"{
                "receive_id_type": "open_id",
                "msg_type": "text",
                "content": "hello"
            }"#),
        );
    assert!(result.is_err());
    assert!(result.unwrap_err().to_string().contains("receive_id"));
}

#[test]
fn feishu_get_chat_messages_rejects_missing_container_id() {
    let mut adapter = FeishuAdapter::new("feishu");
    adapter.connected = true;
    adapter.tenant_access_token = Some("token".into());
    let result = adapter
        .plan_tool("feishu_get_chat_messages", &j(r#"{}"#));
    assert!(result.is_err());
    assert!(result.unwrap_err().to_string().contains("container_id"));
}

#[test]
fn feishu_create_doc_rejects_missing_title() {
    let mut adapter = FeishuAdapter::new("feishu");
    adapter.connected = true;
    adapter.tenant_access_token = Some("token".into());
    let result = adapter.plan_tool("feishu_create_doc", &j(r#"{}"#));
    assert!(result.is_err());
    assert!(result.unwrap_err().to_string().contains("title"));
}

#[test]
fn feishu_search_users_rejects_missing_query() {
    let mut adapter = FeishuAdapter::new("feishu");
    adapter.connected = true;
    adapter.tenant_access_token = Some("token".into());
    let result = adapter.plan_tool("feishu_search_users", &j(r#"{}"#));
    assert!(result.is_err());
    assert!(result.unwrap_err().to_string().contains("query"));
}

#[test]
fn feishu_get_user_info_rejects_missing_user_id() {
    let mut adapter = FeishuAdapter::new("feishu");
    adapter.connected = true;
    adapter.tenant_access_token = Some("token".into());
    let result = adapter
        .plan_tool("feishu_get_user_info", &j(r#"{}"#));
    assert!(result.is_err());
    assert!(result.unwrap_err().to_string().contains("user_id"));
}
