use openintent_adapters::browser::cdp::build_cdp_message;
use openintent_adapters::browser::tools::extract_runtime_value;
use openintent_adapters::browser::{BrowserAdapter, DEFAULT_DEBUG_PORT};
use openintent_adapters::json::{JsonNumber, JsonValue};
use openintent_adapters::traits::AdapterType;

fn conv(v: &serde_json::Value) -> JsonValue {
    match v {
        serde_json::Value::Null => JsonValue::Null,
        serde_json::Value::Bool(b) => JsonValue::Bool(*b),
        serde_json::Value::Number(n) => {
            if let Some(u) = n.as_u64() {
                JsonValue::Number(JsonNumber::PosInt(u))
            } else if let Some(i) = n.as_i64() {
                JsonValue::Number(JsonNumber::NegInt(i))
            } else {
                JsonValue::Number(JsonNumber::Fraction(n.to_string()))
            }
        }
        serde_json::Value::String(s) => JsonValue::Str(s.clone()),
        serde_json::Value::Array(a) => JsonValue::Array(a.iter().map(conv).collect()),
        serde_json::Value::Object(o) => {
            JsonValue::Object(o.iter().map(|(k, x)| (k.clone(), conv(x))).collect())
        }
    }
}

/// A JSON value from its text.
fn j(text: &str) -> JsonValue {
    conv(&serde_json::from_str(text).unwrap())
}

#[test]
fn mod_browser_adapter_new_default_port() {
    let adapter = BrowserAdapter::new("test-browser");
    assert_eq!(adapter.id(), "test-browser");
    assert_eq!(adapter.debug_port, DEFAULT_DEBUG_PORT);
    assert!(!adapter.connected);
    assert!(adapter.chrome_path.is_none());
}

#[test]
fn mod_browser_adapter_with_custom_port() {
    let adapter = BrowserAdapter::with_port("test-browser", 9333);
    assert_eq!(adapter.debug_port, 9333);
}

#[test]
fn mod_browser_adapter_with_chrome_path() {
    let adapter = BrowserAdapter::new("test-browser").with_chrome_path("/usr/bin/chromium");
    assert_eq!(adapter.chrome_path.as_deref(), Some("/usr/bin/chromium"));
}

#[test]
fn mod_browser_adapter_type_is_productivity() {
    let adapter = BrowserAdapter::new("test-browser");
    assert_eq!(adapter.adapter_type(), AdapterType::Productivity);
}

#[test]
fn mod_browser_adapter_no_auth_required() {
    let adapter = BrowserAdapter::new("test-browser");
    assert!(adapter.required_auth().is_none());
}

#[test]
fn mod_browser_adapter_tools_count() {
    let adapter = BrowserAdapter::new("test-browser");
    let tools = adapter.tools();
    assert_eq!(tools.len(), 6);
}

#[test]
fn mod_browser_adapter_tool_names() {
    let adapter = BrowserAdapter::new("test-browser");
    let tools = adapter.tools();
    let names: Vec<&str> = tools.iter().map(|t| t.name.as_str()).collect();
    assert!(names.contains(&"browser_navigate"));
    assert!(names.contains(&"browser_get_page_content"));
    assert!(names.contains(&"browser_screenshot"));
    assert!(names.contains(&"browser_click"));
    assert!(names.contains(&"browser_type_text"));
    assert!(names.contains(&"browser_evaluate"));
}

#[test]
fn mod_browser_adapter_tool_parameters_have_required_fields() {
    let adapter = BrowserAdapter::new("test-browser");
    let tools = adapter.tools();

    // browser_navigate requires "url".
    let nav = tools.iter().find(|t| t.name == "browser_navigate");
    assert!(nav.is_some());
    let nav = nav.expect("should exist in tests");
    let pj = nav.parameters.to_json();
    let required = pj.get("required").and_then(|v| v.as_array());
    assert!(required.is_some());
    assert!(
        required
            .expect("should exist in tests")
            .iter().any(|v| v.as_str() == Some("url"))
    );

    // browser_get_page_content has no required params.
    let content = tools
        .iter()
        .find(|t| t.name == "browser_get_page_content")
        .expect("should exist in tests");
    let pj = content.parameters.to_json();
    let required = pj
        .get("required")
        .and_then(|v| v.as_array())
        .expect("should exist in tests");
    assert!(required.is_empty());

    // browser_click requires "selector".
    let click = tools
        .iter()
        .find(|t| t.name == "browser_click")
        .expect("should exist in tests");
    let pj = click.parameters.to_json();
    let required = pj
        .get("required")
        .and_then(|v| v.as_array())
        .expect("should exist in tests");
    assert!(required.iter().any(|v| v.as_str() == Some("selector")));

    // browser_type_text requires "text".
    let type_text = tools
        .iter()
        .find(|t| t.name == "browser_type_text")
        .expect("should exist in tests");
    let pj = type_text.parameters.to_json();
    let required = pj
        .get("required")
        .and_then(|v| v.as_array())
        .expect("should exist in tests");
    assert!(required.iter().any(|v| v.as_str() == Some("text")));

    // browser_evaluate requires "expression".
    let evaluate = tools
        .iter()
        .find(|t| t.name == "browser_evaluate")
        .expect("should exist in tests");
    let pj = evaluate.parameters.to_json();
    let required = pj
        .get("required")
        .and_then(|v| v.as_array())
        .expect("should exist in tests");
    assert!(required.iter().any(|v| v.as_str() == Some("expression")));
}

#[test]
fn mod_cdp_message_construction() {
    let msg = build_cdp_message(1, "Page.navigate", j(r#"{"url": "https://example.com"}"#));
    assert_eq!(msg.get("id").and_then(|v| v.as_u64()), Some(1));
    assert_eq!(
        msg.get("method").and_then(|v| v.as_str()),
        Some("Page.navigate")
    );
    assert_eq!(
        msg.get("params")
            .and_then(|v| v.get("url"))
            .and_then(|v| v.as_str()),
        Some("https://example.com")
    );
}

#[test]
fn mod_cdp_message_runtime_evaluate() {
    let msg = build_cdp_message(
        42,
        "Runtime.evaluate",
        j(r#"{
            "expression": "document.title",
            "returnByValue": true
        }"#),
    );
    assert_eq!(msg.get("id").and_then(|v| v.as_u64()), Some(42));
    assert_eq!(
        msg.get("method").and_then(|v| v.as_str()),
        Some("Runtime.evaluate")
    );
    assert_eq!(
        msg.get("params")
            .and_then(|v| v.get("expression"))
            .and_then(|v| v.as_str()),
        Some("document.title")
    );
    assert_eq!(
        msg.get("params")
            .and_then(|v| v.get("returnByValue"))
            .and_then(|v| v.as_bool()),
        Some(true)
    );
}

#[test]
fn mod_cdp_message_screenshot() {
    let msg = build_cdp_message(5, "Page.captureScreenshot", j(r#"{"format": "png"}"#));
    assert_eq!(msg.get("id").and_then(|v| v.as_u64()), Some(5));
    assert_eq!(
        msg.get("method").and_then(|v| v.as_str()),
        Some("Page.captureScreenshot")
    );
    assert_eq!(
        msg.get("params")
            .and_then(|v| v.get("format"))
            .and_then(|v| v.as_str()),
        Some("png")
    );
}

#[test]
fn mod_extract_runtime_value_string() {
    let cdp_response = j(r#"{
        "result": {
            "type": "string",
            "value": "Hello, World!"
        }
    }"#);
    let value = extract_runtime_value(&cdp_response);
    assert!(value.is_ok());
    assert_eq!(value.expect("should be ok in tests"), "Hello, World!");
}

#[test]
fn mod_extract_runtime_value_number() {
    let cdp_response = j(r#"{
        "result": {
            "type": "number",
            "value": 42
        }
    }"#);
    let value = extract_runtime_value(&cdp_response);
    assert!(value.is_ok());
    assert_eq!(value.expect("should be ok in tests"), "42");
}

#[test]
fn mod_extract_runtime_value_undefined() {
    let cdp_response = j(r#"{
        "result": {
            "type": "undefined"
        }
    }"#);
    let value = extract_runtime_value(&cdp_response);
    assert!(value.is_ok());
    assert_eq!(value.expect("should be ok in tests"), "undefined");
}

#[test]
fn mod_extract_runtime_value_exception() {
    let cdp_response = j(r#"{
        "result": {
            "type": "object",
            "subtype": "error"
        },
        "exceptionDetails": {
            "text": "ReferenceError: foo is not defined"
        }
    }"#);
    let value = extract_runtime_value(&cdp_response);
    assert!(value.is_err());
    let err_str = value.unwrap_err().to_string();
    assert!(err_str.contains("JavaScript exception"));
}

#[test]
fn mod_extract_runtime_value_missing_result() {
    let cdp_response = j(r#"{}"#);
    let value = extract_runtime_value(&cdp_response);
    assert!(value.is_err());
}

#[test]
fn mod_devtools_base_url_default_port() {
    let adapter = BrowserAdapter::new("test");
    assert_eq!(adapter.devtools_base_url(), "http://localhost:9222");
}

#[test]
fn mod_devtools_base_url_custom_port() {
    let adapter = BrowserAdapter::with_port("test", 9333);
    assert_eq!(adapter.devtools_base_url(), "http://localhost:9333");
}

#[test]
fn mod_next_id_increments() {
    let mut adapter = BrowserAdapter::new("test");
    let id1 = adapter.next_id();
    let id2 = adapter.next_id();
    let id3 = adapter.next_id();
    assert_eq!(id1 + 1, id2);
    assert_eq!(id2 + 1, id3);
}


#[test]
fn browser_browser_adapter_new_default_port() {
    let adapter = BrowserAdapter::new("test-browser");
    assert_eq!(adapter.id(), "test-browser");
    assert_eq!(adapter.debug_port, DEFAULT_DEBUG_PORT);
    assert!(!adapter.connected);
    assert!(adapter.chrome_path.is_none());
}

#[test]
fn browser_browser_adapter_with_custom_port() {
    let adapter = BrowserAdapter::with_port("test-browser", 9333);
    assert_eq!(adapter.debug_port, 9333);
}

#[test]
fn browser_browser_adapter_with_chrome_path() {
    let adapter = BrowserAdapter::new("test-browser").with_chrome_path("/usr/bin/chromium");
    assert_eq!(adapter.chrome_path.as_deref(), Some("/usr/bin/chromium"));
}

#[test]
fn browser_browser_adapter_type_is_productivity() {
    let adapter = BrowserAdapter::new("test-browser");
    assert_eq!(adapter.adapter_type(), AdapterType::Productivity);
}

#[test]
fn browser_browser_adapter_no_auth_required() {
    let adapter = BrowserAdapter::new("test-browser");
    assert!(adapter.required_auth().is_none());
}

#[test]
fn browser_browser_adapter_tools_count() {
    let adapter = BrowserAdapter::new("test-browser");
    let tools = adapter.tools();
    assert_eq!(tools.len(), 6);
}

#[test]
fn browser_browser_adapter_tool_names() {
    let adapter = BrowserAdapter::new("test-browser");
    let tools = adapter.tools();
    let names: Vec<&str> = tools.iter().map(|t| t.name.as_str()).collect();
    assert!(names.contains(&"browser_navigate"));
    assert!(names.contains(&"browser_get_page_content"));
    assert!(names.contains(&"browser_screenshot"));
    assert!(names.contains(&"browser_click"));
    assert!(names.contains(&"browser_type_text"));
    assert!(names.contains(&"browser_evaluate"));
}

#[test]
fn browser_browser_adapter_tool_parameters_have_required_fields() {
    let adapter = BrowserAdapter::new("test-browser");
    let tools = adapter.tools();

    // browser_navigate requires "url".
    let nav = tools.iter().find(|t| t.name == "browser_navigate");
    assert!(nav.is_some());
    let nav = nav.expect("should exist in tests");
    let pj = nav.parameters.to_json();
    let required = pj.get("required").and_then(|v| v.as_array());
    assert!(required.is_some());
    assert!(
        required
            .expect("should exist in tests")
            .iter().any(|v| v.as_str() == Some("url"))
    );

    // browser_get_page_content has no required params.
    let content = tools
        .iter()
        .find(|t| t.name == "browser_get_page_content")
        .expect("should exist in tests");
    let pj = content.parameters.to_json();
    let required = pj
        .get("required")
        .and_then(|v| v.as_array())
        .expect("should exist in tests");
    assert!(required.is_empty());

    // browser_click requires "selector".
    let click = tools
        .iter()
        .find(|t| t.name == "browser_click")
        .expect("should exist in tests");
    let pj = click.parameters.to_json();
    let required = pj
        .get("required")
        .and_then(|v| v.as_array())
        .expect("should exist in tests");
    assert!(required.iter().any(|v| v.as_str() == Some("selector")));

    // browser_type_text requires "text".
    let type_text = tools
        .iter()
        .find(|t| t.name == "browser_type_text")
        .expect("should exist in tests");
    let pj = type_text.parameters.to_json();
    let required = pj
        .get("required")
        .and_then(|v| v.as_array())
        .expect("should exist in tests");
    assert!(required.iter().any(|v| v.as_str() == Some("text")));

    // browser_evaluate requires "expression".
    let evaluate = tools
        .iter()
        .find(|t| t.name == "browser_evaluate")
        .expect("should exist in tests");
    let pj = evaluate.parameters.to_json();
    let required = pj
        .get("required")
        .and_then(|v| v.as_array())
        .expect("should exist in tests");
    assert!(required.iter().any(|v| v.as_str() == Some("expression")));
}

#[test]
fn browser_cdp_message_construction() {
    let msg = build_cdp_message(1, "Page.navigate", j(r#"{"url": "https://example.com"}"#));
    assert_eq!(msg.get("id").and_then(|v| v.as_u64()), Some(1));
    assert_eq!(
        msg.get("method").and_then(|v| v.as_str()),
        Some("Page.navigate")
    );
    assert_eq!(
        msg.get("params")
            .and_then(|v| v.get("url"))
            .and_then(|v| v.as_str()),
        Some("https://example.com")
    );
}

#[test]
fn browser_cdp_message_runtime_evaluate() {
    let msg = build_cdp_message(
        42,
        "Runtime.evaluate",
        j(r#"{
            "expression": "document.title",
            "returnByValue": true
        }"#),
    );
    assert_eq!(msg.get("id").and_then(|v| v.as_u64()), Some(42));
    assert_eq!(
        msg.get("method").and_then(|v| v.as_str()),
        Some("Runtime.evaluate")
    );
    assert_eq!(
        msg.get("params")
            .and_then(|v| v.get("expression"))
            .and_then(|v| v.as_str()),
        Some("document.title")
    );
    assert_eq!(
        msg.get("params")
            .and_then(|v| v.get("returnByValue"))
            .and_then(|v| v.as_bool()),
        Some(true)
    );
}

#[test]
fn browser_cdp_message_screenshot() {
    let msg = build_cdp_message(5, "Page.captureScreenshot", j(r#"{"format": "png"}"#));
    assert_eq!(msg.get("id").and_then(|v| v.as_u64()), Some(5));
    assert_eq!(
        msg.get("method").and_then(|v| v.as_str()),
        Some("Page.captureScreenshot")
    );
    assert_eq!(
        msg.get("params")
            .and_then(|v| v.get("format"))
            .and_then(|v| v.as_str()),
        Some("png")
    );
}

#[test]
fn browser_extract_runtime_value_string() {
    let cdp_response = j(r#"{
        "result": {
            "type": "string",
            "value": "Hello, World!"
        }
    }"#);
    let value = extract_runtime_value(&cdp_response);
    assert!(value.is_ok());
    assert_eq!(value.expect("should be ok in tests"), "Hello, World!");
}

#[test]
fn browser_extract_runtime_value_number() {
    let cdp_response = j(r#"{
        "result": {
            "type": "number",
            "value": 42
        }
    }"#);
    let value = extract_runtime_value(&cdp_response);
    assert!(value.is_ok());
    assert_eq!(value.expect("should be ok in tests"), "42");
}

#[test]
fn browser_extract_runtime_value_undefined() {
    let cdp_response = j(r#"{
        "result": {
            "type": "undefined"
        }
    }"#);
    let value = extract_runtime_value(&cdp_response);
    assert!(value.is_ok());
    assert_eq!(value.expect("should be ok in tests"), "undefined");
}

#[test]
fn browser_extract_runtime_value_exception() {
    let cdp_response = j(r#"{
        "result": {
            "type": "object",
            "subtype": "error"
        },
        "exceptionDetails": {
            "text": "ReferenceError: foo is not defined"
        }
    }"#);
    let value = extract_runtime_value(&cdp_response);
    assert!(value.is_err());
    let err_str = value.unwrap_err().to_string();
    assert!(err_str.contains("JavaScript exception"));
}

#[test]
fn browser_extract_runtime_value_missing_result() {
    let cdp_response = j(r#"{}"#);
    let value = extract_runtime_value(&cdp_response);
    assert!(value.is_err());
}

#[test]
fn browser_devtools_base_url_default_port() {
    let adapter = BrowserAdapter::new("test");
    assert_eq!(adapter.devtools_base_url(), "http://localhost:9222");
}

#[test]
fn browser_devtools_base_url_custom_port() {
    let adapter = BrowserAdapter::with_port("test", 9333);
    assert_eq!(adapter.devtools_base_url(), "http://localhost:9333");
}

#[test]
fn browser_next_id_increments() {
    let mut adapter = BrowserAdapter::new("test");
    let id1 = adapter.next_id();
    let id2 = adapter.next_id();
    let id3 = adapter.next_id();
    assert_eq!(id1 + 1, id2);
    assert_eq!(id2 + 1, id3);
}



// ---------------------------------------------------------------------------
// Tool calls, replies and Chrome discovery
// ---------------------------------------------------------------------------

use openintent_adapters::browser::cdp::{
    cdp_step, chrome_launch_args, find_chrome_path, page_targets, startup_poll, ws_url_from_targets, CdpFrame, CdpStep,
    Platform, StartupPoll,
};
use openintent_adapters::browser::tools::{
    tool_browser_click, tool_browser_evaluate, tool_browser_get_page_content, tool_browser_navigate,
    tool_browser_screenshot, tool_browser_type_text,
};
use openintent_adapters::browser::{build_click_script, build_type_script, BrowserCall};
use openintent_adapters::error::AdapterError;
use openintent_adapters::json::to_json_text;
use openintent_adapters::traits::HealthStatus;

fn connected() -> BrowserAdapter {
    let mut adapter = BrowserAdapter::new("test-browser");
    adapter.complete_connect(Ok(())).unwrap();
    adapter
}

fn plan(adapter: &mut BrowserAdapter, name: &str, params: &str) -> Result<BrowserCall, AdapterError> {
    adapter.plan_tool(name, &j(params))
}

#[test]
fn browser_adapter_health_when_not_connected() {
    let adapter = BrowserAdapter::new("test-browser");
    assert_eq!(adapter.health_check(true).unwrap(), HealthStatus::Unhealthy);
    let adapter = connected();
    assert_eq!(adapter.health_check(true).unwrap(), HealthStatus::Healthy);
    assert_eq!(adapter.health_check(false).unwrap(), HealthStatus::Degraded);
}

#[test]
fn browser_adapter_rejects_tool_when_not_connected() {
    let mut adapter = BrowserAdapter::new("test-browser");
    let err = plan(&mut adapter, "browser_navigate", r#"{"url": "https://example.com"}"#).unwrap_err();
    assert!(err.to_string().contains("not connected"));
    assert_eq!(adapter.next_message_id, 1);
}

#[test]
fn browser_adapter_rejects_unknown_tool() {
    let mut adapter = connected();
    match plan(&mut adapter, "nonexistent_tool", "{}").unwrap_err() {
        AdapterError::ToolNotFound { adapter_id, tool_name } => {
            assert_eq!(adapter_id, "test-browser");
            assert_eq!(tool_name, "nonexistent_tool");
        }
        other => panic!("expected ToolNotFound, got: {other:?}"),
    }
}

#[test]
fn browser_adapter_connect_disconnect() {
    let mut adapter = BrowserAdapter::new("test-browser");
    assert!(!adapter.connected);
    let failed = adapter.complete_connect(Err(AdapterError::Internal("no chrome".to_string())));
    assert!(failed.is_err());
    assert!(!adapter.connected);
    adapter.complete_connect(Ok(())).unwrap();
    assert!(adapter.connected);
    adapter.disconnect().expect("disconnect should succeed in tests");
    assert!(!adapter.connected);
}

#[test]
fn browser_adapter_navigate_validates_url() {
    let mut adapter = connected();
    match plan(&mut adapter, "browser_navigate", r#"{"url": "not a valid url"}"#).unwrap_err() {
        AdapterError::InvalidParams { tool_name, reason } => {
            assert_eq!(tool_name, "browser_navigate");
            assert!(reason.contains("invalid URL"));
            assert!(reason.starts_with("invalid URL `not a valid url`: "));
        }
        other => panic!("expected InvalidParams, got: {other:?}"),
    }
    assert_eq!(adapter.next_message_id, 1);
}

#[test]
fn browser_adapter_navigate_requires_url_param() {
    let mut adapter = connected();
    match plan(&mut adapter, "browser_navigate", "{}").unwrap_err() {
        AdapterError::InvalidParams { tool_name, reason } => {
            assert_eq!(tool_name, "browser_navigate");
            assert_eq!(reason, "missing required string field `url`");
        }
        other => panic!("expected InvalidParams, got: {other:?}"),
    }
}

#[test]
fn browser_adapter_click_requires_selector_param() {
    let mut adapter = connected();
    match plan(&mut adapter, "browser_click", "{}").unwrap_err() {
        AdapterError::InvalidParams { tool_name, reason } => {
            assert_eq!(tool_name, "browser_click");
            assert!(reason.contains("selector"));
        }
        other => panic!("expected InvalidParams, got: {other:?}"),
    }
}

#[test]
fn browser_adapter_type_text_requires_text_param() {
    let mut adapter = connected();
    match plan(&mut adapter, "browser_type_text", "{}").unwrap_err() {
        AdapterError::InvalidParams { tool_name, reason } => {
            assert_eq!(tool_name, "browser_type_text");
            assert!(reason.contains("text"));
        }
        other => panic!("expected InvalidParams, got: {other:?}"),
    }
}

#[test]
fn browser_adapter_evaluate_requires_expression_param() {
    let mut adapter = connected();
    match plan(&mut adapter, "browser_evaluate", "{}").unwrap_err() {
        AdapterError::InvalidParams { tool_name, reason } => {
            assert_eq!(tool_name, "browser_evaluate");
            assert!(reason.contains("expression"));
        }
        other => panic!("expected InvalidParams, got: {other:?}"),
    }
}

#[test]
fn browser_adapter_screenshot_rejects_invalid_format() {
    let mut adapter = connected();
    match plan(&mut adapter, "browser_screenshot", r#"{"format": "bmp"}"#).unwrap_err() {
        AdapterError::InvalidParams { tool_name, reason } => {
            assert_eq!(tool_name, "browser_screenshot");
            assert_eq!(reason, "unsupported format `bmp`; use \"png\" or \"jpeg\"");
        }
        other => panic!("expected InvalidParams, got: {other:?}"),
    }
}

#[test]
fn browser_navigate_call_takes_message_ids_in_order() {
    let mut adapter = connected();
    let a = plan(&mut adapter, "browser_navigate", r#"{"url": "https://example.com/"}"#).unwrap();
    assert_eq!(a.msg_id, 1);
    assert_eq!(a.method, "Page.navigate");
    assert_eq!(a.timeout_secs, 30);
    assert_eq!(a.params.get("url").and_then(|v| v.as_str()), Some("https://example.com/"));
    let b = plan(&mut adapter, "browser_get_page_content", "{}").unwrap();
    assert_eq!(b.msg_id, 2);
    assert_eq!(b.method, "Runtime.evaluate");
    assert_eq!(b.params.get("expression").and_then(|v| v.as_str()), Some("document.body.innerText"));
    assert_eq!(b.params.get("returnByValue").and_then(|v| v.as_bool()), Some(true));
    assert_eq!(adapter.next_message_id, 3);
}

#[test]
fn browser_screenshot_defaults_to_png() {
    let mut adapter = connected();
    let call = plan(&mut adapter, "browser_screenshot", "{}").unwrap();
    assert_eq!(call.method, "Page.captureScreenshot");
    assert_eq!(call.params.get("format").and_then(|v| v.as_str()), Some("png"));
    let call = plan(&mut adapter, "browser_screenshot", r#"{"format": "jpeg"}"#).unwrap();
    assert_eq!(call.params.get("format").and_then(|v| v.as_str()), Some("jpeg"));
}

#[test]
fn browser_evaluate_call_awaits_promises_with_long_timeout() {
    let mut adapter = connected();
    let call = plan(&mut adapter, "browser_evaluate", r#"{"expression": "1 + 1"}"#).unwrap();
    assert_eq!(call.timeout_secs, 120);
    assert_eq!(call.params.get("expression").and_then(|v| v.as_str()), Some("1 + 1"));
    assert_eq!(call.params.get("awaitPromise").and_then(|v| v.as_bool()), Some(true));
}

#[test]
fn browser_click_script_quotes_the_selector() {
    let script = build_click_script("a[href=\"x\"]");
    assert!(script.contains("document.querySelector(\"a[href=\\\"x\\\"]\")"));
    assert_eq!(script.matches("\"a[href=\\\"x\\\"]\"").count(), 3);
    let mut adapter = connected();
    let call = plan(&mut adapter, "browser_click", r##"{"selector": "#go"}"##).unwrap();
    assert_eq!(call.params.get("expression").and_then(|v| v.as_str()), Some(build_click_script("#go").as_str()));
}

#[test]
fn browser_type_script_escapes_control_characters() {
    let script = build_type_script("line1\nline2\t\u{1}");
    assert!(script.contains("const text = \"line1\\nline2\\t\\u0001\";"));
}

#[test]
fn browser_next_id_wraps_around() {
    let mut adapter = BrowserAdapter::new("test");
    adapter.next_message_id = u64::MAX;
    assert_eq!(adapter.next_id(), u64::MAX);
    assert_eq!(adapter.next_id(), 0);
}

#[test]
fn browser_navigate_result_reports_frame() {
    let r = tool_browser_navigate("https://example.com", &j(r#"{"frameId": "F1"}"#));
    assert_eq!(r.get("success").and_then(|v| v.as_bool()), Some(true));
    assert_eq!(r.get("url").and_then(|v| v.as_str()), Some("https://example.com"));
    assert_eq!(r.get("frame_id").and_then(|v| v.as_str()), Some("F1"));
    let r = tool_browser_navigate("https://example.com", &j("{}"));
    assert_eq!(r.get("frame_id").and_then(|v| v.as_str()), Some("unknown"));
}

#[test]
fn browser_page_content_counts_bytes() {
    let r = tool_browser_get_page_content(&j(r#"{"result": {"type": "string", "value": "héllo"}}"#)).unwrap();
    assert_eq!(r.get("content").and_then(|v| v.as_str()), Some("héllo"));
    assert_eq!(r.get("length").and_then(|v| v.as_u64()), Some(6));
    assert!(tool_browser_get_page_content(&j("{}")).is_err());
}

#[test]
fn browser_screenshot_result_reports_data() {
    let r = tool_browser_screenshot("png", &j(r#"{"data": "aGVsbG8="}"#));
    assert_eq!(r.get("format").and_then(|v| v.as_str()), Some("png"));
    assert_eq!(r.get("data").and_then(|v| v.as_str()), Some("aGVsbG8="));
    assert_eq!(r.get("encoding").and_then(|v| v.as_str()), Some("base64"));
    assert_eq!(r.get("length").and_then(|v| v.as_u64()), Some(8));
    let r = tool_browser_screenshot("jpeg", &j("{}"));
    assert_eq!(r.get("data").and_then(|v| v.as_str()), Some(""));
    assert_eq!(r.get("length").and_then(|v| v.as_u64()), Some(0));
}

#[test]
fn browser_click_result_reads_the_report() {
    let text = r##"{"success":true,"tag":"BUTTON","selector":"#go"}"##.to_string();
    let r = tool_browser_click("#go", text.clone(), Some(j(&text))).unwrap();
    assert_eq!(r.get("tag").and_then(|v| v.as_str()), Some("BUTTON"));
    let text = r##"{"error":"element not found","selector":"#nope"}"##.to_string();
    match tool_browser_click("#nope", text.clone(), Some(j(&text))).unwrap_err() {
        AdapterError::ExecutionFailed { tool_name, reason } => {
            assert_eq!(tool_name, "browser_click");
            assert_eq!(reason, "element not found for selector `#nope`");
        }
        other => panic!("expected ExecutionFailed, got: {other:?}"),
    }
    let r = tool_browser_click("#go", "clicked".to_string(), None).unwrap();
    assert_eq!(r.get("result").and_then(|v| v.as_str()), Some("clicked"));
}

#[test]
fn browser_type_text_result_reads_the_report() {
    let text = r#"{"error":"no element focused"}"#.to_string();
    match tool_browser_type_text(text.clone(), Some(j(&text))).unwrap_err() {
        AdapterError::ExecutionFailed { tool_name, reason } => {
            assert_eq!(tool_name, "browser_type_text");
            assert_eq!(reason, "no element focused to receive text input");
        }
        other => panic!("expected ExecutionFailed, got: {other:?}"),
    }
    let text = r#"{"success":true,"typed_length":3}"#.to_string();
    let r = tool_browser_type_text(text.clone(), Some(j(&text))).unwrap();
    assert_eq!(r.get("typed_length").and_then(|v| v.as_u64()), Some(3));
}

#[test]
fn browser_evaluate_result_wraps_value() {
    let r = tool_browser_evaluate(j(r#"{"result": {"type": "number", "value": 2}}"#)).unwrap();
    let inner = r.get("result").unwrap();
    assert_eq!(inner.get("value").and_then(|v| v.as_u64()), Some(2));
    let r = tool_browser_evaluate(j("{}")).unwrap();
    assert!(r.get("result").unwrap().is_null());
    let err = tool_browser_evaluate(j(r#"{"exceptionDetails": {}}"#)).unwrap_err();
    assert_eq!(err.to_string(), "execution failed for tool `browser_evaluate`: JavaScript exception: unknown exception");
}

#[test]
fn extract_runtime_value_renders_non_string_values() {
    let v = extract_runtime_value(&j(r#"{"result": {"value": {"b": [1, true, null], "a": "x\"y"}}}"#)).unwrap();
    assert_eq!(v, r#"{"a":"x\"y","b":[1,true,null]}"#);
    let v = extract_runtime_value(&j(r#"{"result": {"value": -3}}"#)).unwrap();
    assert_eq!(v, "-3");
    let v = extract_runtime_value(&j(r#"{"result": {"value": 1.5}}"#)).unwrap();
    assert_eq!(v, "1.5");
    let v = extract_runtime_value(&j(r#"{"result": {}}"#)).unwrap();
    assert_eq!(v, "undefined");
}

#[test]
fn json_text_matches_serde_json() {
    let text = r#"{"k":["a\nb",{"x":false}],"n":null,"z":-7}"#;
    let parsed: serde_json::Value = serde_json::from_str(text).unwrap();
    assert_eq!(to_json_text(&j(text)), serde_json::to_string(&parsed).unwrap());
}

#[test]
fn cdp_step_reads_matching_reply() {
    let reply = j(r#"{"id": 7, "result": {"frameId": "F"}}"#);
    match cdp_step(CdpFrame::Text { len: 40, parsed: Ok(reply) }, 7) {
        CdpStep::Done(Ok(r)) => assert_eq!(r.get("frameId").and_then(|v| v.as_str()), Some("F")),
        other => panic!("unexpected {other:?}"),
    }
    let other = j(r#"{"id": 6, "result": {}}"#);
    assert!(matches!(cdp_step(CdpFrame::Text { len: 20, parsed: Ok(other) }, 7), CdpStep::Continue));
    assert!(matches!(cdp_step(CdpFrame::Other, 7), CdpStep::Continue));
    let no_result = j(r#"{"id": 7}"#);
    match cdp_step(CdpFrame::Text { len: 8, parsed: Ok(no_result) }, 7) {
        CdpStep::Done(Ok(r)) => assert_eq!(to_json_text(&r), "{}"),
        other => panic!("unexpected {other:?}"),
    }
}

#[test]
fn cdp_step_reports_errors() {
    let err = j(r#"{"id": 7, "error": {"message": "No target"}}"#);
    match cdp_step(CdpFrame::Text { len: 40, parsed: Ok(err) }, 7) {
        CdpStep::Done(Err(e)) => assert_eq!(e.to_string(), "execution failed for tool `browser`: CDP error: No target"),
        other => panic!("unexpected {other:?}"),
    }
    match cdp_step(CdpFrame::Text { len: 5_242_881, parsed: Ok(j("{}")) }, 7) {
        CdpStep::Done(Err(e)) => {
            assert!(e.to_string().contains("CDP response too large: 5242881 bytes (max 5242880)"))
        }
        other => panic!("unexpected {other:?}"),
    }
    match cdp_step(CdpFrame::Close, 7) {
        CdpStep::Done(Err(e)) => assert!(e.to_string().contains("WebSocket closed before receiving CDP response")),
        other => panic!("unexpected {other:?}"),
    }
    match cdp_step(CdpFrame::Text { len: 3, parsed: Err("expected value".to_string()) }, 7) {
        CdpStep::Done(Err(AdapterError::SerializationError(m))) => assert_eq!(m, "expected value"),
        other => panic!("unexpected {other:?}"),
    }
}

#[test]
fn page_targets_keeps_pages_in_order() {
    let targets = vec![
        j(r#"{"type": "service_worker", "webSocketDebuggerUrl": "ws://sw"}"#),
        j(r#"{"type": "page", "webSocketDebuggerUrl": "ws://p1"}"#),
        j(r#"{"type": "page", "webSocketDebuggerUrl": "ws://p2"}"#),
    ];
    let pages = page_targets(targets).unwrap();
    assert_eq!(pages.len(), 2);
    assert_eq!(pages[0].get("webSocketDebuggerUrl").and_then(|v| v.as_str()), Some("ws://p1"));
    let targets = vec![
        j(r#"{"type": "worker"}"#),
        j(r#"{"type": "page", "webSocketDebuggerUrl": "ws://p1"}"#),
    ];
    assert_eq!(ws_url_from_targets(targets).unwrap(), "ws://p1");
    let err = page_targets(vec![j(r#"{"type": "worker"}"#)]).unwrap_err();
    assert!(err.to_string().contains("no page targets available in Chrome"));
    let err = ws_url_from_targets(vec![j(r#"{"type": "page"}"#)]).unwrap_err();
    assert!(err.to_string().contains("page target has no webSocketDebuggerUrl"));
}

#[test]
fn find_chrome_path_prefers_configured_then_first_present() {
    assert_eq!(find_chrome_path(Some("/opt/chrome"), Platform::Linux, &[]).unwrap(), "/opt/chrome");
    assert_eq!(find_chrome_path(None, Platform::Linux, &[false, true, true]).unwrap(), "google-chrome-stable");
    assert_eq!(
        find_chrome_path(None, Platform::MacOs, &[true]).unwrap(),
        "/Applications/Google Chrome.app/Contents/MacOS/Google Chrome"
    );
    let err = find_chrome_path(None, Platform::Other, &[true]).unwrap_err();
    assert!(err.to_string().contains("could not find Chrome/Chromium executable"));
    let launch = BrowserAdapter::with_port("b", 9333).chrome_launch(Platform::Linux, &[false, false, true]).unwrap();
    assert_eq!(launch.program, "chromium");
    assert_eq!(launch.args, chrome_launch_args(9333));
    assert_eq!(launch.args[0], "--remote-debugging-port=9333");
}

#[test]
fn startup_poll_waits_then_times_out() {
    assert!(matches!(startup_poll(true, true), StartupPoll::Ready));
    assert!(matches!(startup_poll(false, false), StartupPoll::Wait));
    match startup_poll(false, true) {
        StartupPoll::Failed(AdapterError::Timeout { seconds, reason }) => {
            assert_eq!(seconds, 10);
            assert_eq!(reason, "Chrome did not start in time");
        }
        other => panic!("unexpected {other:?}"),
    }
}
