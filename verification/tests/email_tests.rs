use base64::Engine;
use openintent_adapters::email::imap::{
    imap_fetch_body_command, imap_fetch_envelope_command, imap_login_command, imap_logout_command,
    imap_search_command, imap_select_command, parse_exists_count, parse_fetch_body, parse_search_results,
};
use openintent_adapters::email::smtp::{
    smtp_auth_login_command, smtp_base64_encode, smtp_data_command, smtp_ehlo_command, smtp_mail_from_command,
    smtp_message_body, smtp_quit_command, smtp_rcpt_to_command,
};
use openintent_adapters::email::EmailAdapter;
use openintent_adapters::json::{JsonNumber, JsonValue};
use openintent_adapters::traits::AdapterType;

fn conv(v: &serde_json::Value) -> JsonValue {
    match v {
        serde_json::Value::Null => JsonValue::Null,
        serde_json::Value::Bool(b) => JsonValue::Bool(*b),
        serde_json::Value::Number(n) => {
            if let Some(u) = n.as_u64() {
                JsonValue::Number(JsonNumber::PosInt(u))
            } else if let Some(i) = n.as_i64() {
                JsonValue::Number(JsonNumber::NegInt(i))
            } else {
                JsonValue::Number(JsonNumber::Fraction(n.to_string()))
            }
        }
        serde_json::Value::String(s) => JsonValue::Str(s.clone()),
        serde_json::Value::Array(a) => JsonValue::Array(a.iter().map(conv).collect()),
        serde_json::Value::Object(o) => {
            JsonValue::Object(o.iter().map(|(k, x)| (k.clone(), conv(x))).collect())
        }
    }
}

/// A JSON value from its text.
fn j(text: &str) -> JsonValue {
    conv(&serde_json::from_str(text).unwrap())
}

#[test]
fn email_email_adapter_new_default_ports() {
    let adapter = EmailAdapter::new("email-test");
    assert_eq!(adapter.id, "email-test");
    assert_eq!(adapter.imap_port, 993);
    assert_eq!(adapter.smtp_port, 465);
    assert!(!adapter.connected);
    assert!(adapter.imap_host.is_empty());
    assert!(adapter.smtp_host.is_empty());
}

#[test]
fn email_email_adapter_with_config() {
    let adapter = EmailAdapter::with_config(
        "email-cfg",
        "imap.example.com",
        1993,
        "smtp.example.com",
        1465,
    );
    assert_eq!(adapter.id, "email-cfg");
    assert_eq!(adapter.imap_host, "imap.example.com");
    assert_eq!(adapter.imap_port, 1993);
    assert_eq!(adapter.smtp_host, "smtp.example.com");
    assert_eq!(adapter.smtp_port, 1465);
    assert!(!adapter.connected);
}

#[test]
fn email_email_adapter_id() {
    let adapter = EmailAdapter::new("my-email");
    assert_eq!(adapter.id(), "my-email");
}

#[test]
fn email_email_adapter_type() {
    let adapter = EmailAdapter::new("email-test");
    assert_eq!(adapter.adapter_type(), AdapterType::Productivity);
}

#[test]
fn email_email_adapter_required_auth_is_none() {
    let adapter = EmailAdapter::new("email-test");
    assert!(adapter.required_auth().is_none());
}

#[test]
fn email_email_adapter_tools_count() {
    let adapter = EmailAdapter::new("email-test");
    let tools = adapter.tools();
    assert_eq!(tools.len(), 4);
}

#[test]
fn email_email_adapter_tool_names() {
    let adapter = EmailAdapter::new("email-test");
    let tools = adapter.tools();
    let names: Vec<&str> = tools.iter().map(|t| t.name.as_str()).collect();
    assert!(names.contains(&"email_list_inbox"));
    assert!(names.contains(&"email_read"));
    assert!(names.contains(&"email_send"));
    assert!(names.contains(&"email_search"));
}

#[test]
fn email_email_adapter_tool_definitions_have_parameters() {
    let adapter = EmailAdapter::new("email-test");
    for tool in adapter.tools() {
        let params = tool.parameters.to_json();
        assert_eq!(
            params.get("type").and_then(|v| v.as_str()),
            Some("object"),
            "tool {} parameters should be an object schema",
            tool.name
        );
        assert!(
            params.get("properties").is_some(),
            "tool {} should have properties",
            tool.name
        );
        assert!(
            params.get("required").is_some(),
            "tool {} should have required fields",
            tool.name
        );
    }
}

#[test]
fn email_list_inbox_tool_has_correct_required_params() {
    let adapter = EmailAdapter::new("email-test");
    let tool = adapter
        .tools()
        .into_iter()
        .find(|t| t.name == "email_list_inbox")
        .expect("email_list_inbox tool should exist");

    let pj = tool.parameters.to_json();
    let required = pj.get("required").and_then(|v| v.as_array());
    assert!(required.is_some());
    let required: Vec<&str> = required
        .expect("required should be an array")
        .iter()
        .filter_map(|v| v.as_str())
        .collect();
    assert!(required.contains(&"username"));
    assert!(required.contains(&"password"));
}

#[test]
fn email_send_tool_has_correct_required_params() {
    let adapter = EmailAdapter::new("email-test");
    let tool = adapter
        .tools()
        .into_iter()
        .find(|t| t.name == "email_send")
        .expect("email_send tool should exist");

    let pj = tool.parameters.to_json();
    let required = pj.get("required").and_then(|v| v.as_array());
    assert!(required.is_some());
    let required: Vec<&str> = required
        .expect("required should be an array")
        .iter()
        .filter_map(|v| v.as_str())
        .collect();
    assert!(required.contains(&"to"));
    assert!(required.contains(&"subject"));
    assert!(required.contains(&"body"));
    assert!(required.contains(&"username"));
    assert!(required.contains(&"password"));
}

#[test]
fn email_search_tool_has_correct_required_params() {
    let adapter = EmailAdapter::new("email-test");
    let tool = adapter
        .tools()
        .into_iter()
        .find(|t| t.name == "email_search")
        .expect("email_search tool should exist");

    let pj = tool.parameters.to_json();
    let required = pj.get("required").and_then(|v| v.as_array());
    assert!(required.is_some());
    let required: Vec<&str> = required
        .expect("required should be an array")
        .iter()
        .filter_map(|v| v.as_str())
        .collect();
    assert!(required.contains(&"query"));
    assert!(required.contains(&"username"));
    assert!(required.contains(&"password"));
}

#[test]
fn email_imap_login_command_format() {
    let cmd = imap_login_command("A001", "user@example.com", "secret");
    assert_eq!(cmd, "A001 LOGIN \"user@example.com\" \"secret\"\r\n");
}

#[test]
fn email_imap_select_command_format() {
    let cmd = imap_select_command("A002", "INBOX");
    assert_eq!(cmd, "A002 SELECT \"INBOX\"\r\n");
}

#[test]
fn email_imap_fetch_envelope_command_format() {
    let cmd = imap_fetch_envelope_command("A003", "1:10");
    assert_eq!(
        cmd,
        "A003 FETCH 1:10 (FLAGS ENVELOPE BODY.PEEK[HEADER.FIELDS (MESSAGE-ID)])\r\n"
    );
}

#[test]
fn email_imap_fetch_body_command_format() {
    let cmd = imap_fetch_body_command("A003", "5");
    assert_eq!(
        cmd,
        "A003 FETCH 5 (FLAGS ENVELOPE BODY[TEXT] BODY[HEADER])\r\n"
    );
}

#[test]
fn email_imap_search_command_format() {
    let cmd = imap_search_command("A003", "FROM \"user@example.com\"");
    assert_eq!(cmd, "A003 SEARCH FROM \"user@example.com\"\r\n");
}

#[test]
fn email_imap_logout_command_format() {
    let cmd = imap_logout_command("A004");
    assert_eq!(cmd, "A004 LOGOUT\r\n");
}

#[test]
fn email_smtp_ehlo_command_format() {
    let cmd = smtp_ehlo_command("openintentos.local");
    assert_eq!(cmd, "EHLO openintentos.local\r\n");
}

#[test]
fn email_smtp_auth_login_command_format() {
    let cmd = smtp_auth_login_command();
    assert_eq!(cmd, "AUTH LOGIN\r\n");
}

#[test]
fn email_smtp_mail_from_command_format() {
    let cmd = smtp_mail_from_command("sender@example.com");
    assert_eq!(cmd, "MAIL FROM:<sender@example.com>\r\n");
}

#[test]
fn email_smtp_rcpt_to_command_format() {
    let cmd = smtp_rcpt_to_command("recipient@example.com");
    assert_eq!(cmd, "RCPT TO:<recipient@example.com>\r\n");
}

#[test]
fn email_smtp_data_command_format() {
    let cmd = smtp_data_command();
    assert_eq!(cmd, "DATA\r\n");
}

#[test]
fn email_smtp_quit_command_format() {
    let cmd = smtp_quit_command();
    assert_eq!(cmd, "QUIT\r\n");
}

#[test]
fn email_smtp_message_body_format() {
    let msg = smtp_message_body("from@x.com", "to@y.com", "Hello", "Test body");
    assert!(msg.contains("From: from@x.com\r\n"));
    assert!(msg.contains("To: to@y.com\r\n"));
    assert!(msg.contains("Subject: Hello\r\n"));
    assert!(msg.contains("MIME-Version: 1.0\r\n"));
    assert!(msg.contains("Content-Type: text/plain; charset=UTF-8\r\n"));
    assert!(msg.contains("Test body\r\n.\r\n"));
}

#[test]
fn email_smtp_base64_encode_username() {
    let encoded = smtp_base64_encode("user@example.com");
    let decoded_bytes = base64::engine::general_purpose::STANDARD
        .decode(&encoded)
        .unwrap();
    let decoded = String::from_utf8(decoded_bytes).unwrap();
    assert_eq!(decoded, "user@example.com");
}

#[test]
fn smtp_base64_encode_password() {
    let encoded = smtp_base64_encode("my-secret-password");
    let decoded_bytes = base64::engine::general_purpose::STANDARD
        .decode(&encoded)
        .unwrap();
    let decoded = String::from_utf8(decoded_bytes).unwrap();
    assert_eq!(decoded, "my-secret-password");
}

#[test]
fn email_smtp_base64_encode_empty() {
    let encoded = smtp_base64_encode("");
    assert_eq!(encoded, "");
}

#[test]
fn smtp_base64_encode_special_chars() {
    let encoded = smtp_base64_encode("p@$$w0rd!#%&");
    let decoded_bytes = base64::engine::general_purpose::STANDARD
        .decode(&encoded)
        .unwrap();
    let decoded = String::from_utf8(decoded_bytes).unwrap();
    assert_eq!(decoded, "p@$$w0rd!#%&");
}

#[test]
fn email_parse_exists_count_from_select_response() {
    let lines = vec![
        "* FLAGS (\\Answered \\Flagged \\Deleted \\Seen \\Draft)".to_string(),
        "* OK [PERMANENTFLAGS (\\Answered \\Flagged \\Deleted \\Seen \\Draft \\*)]".to_string(),
        "* 42 EXISTS".to_string(),
        "* 0 RECENT".to_string(),
        "A002 OK [READ-WRITE] SELECT completed".to_string(),
    ];
    assert_eq!(parse_exists_count(&lines), Some(42));
}

#[test]
fn email_parse_exists_count_empty_mailbox() {
    let lines = vec![
        "* 0 EXISTS".to_string(),
        "* 0 RECENT".to_string(),
        "A002 OK SELECT completed".to_string(),
    ];
    assert_eq!(parse_exists_count(&lines), Some(0));
}

#[test]
fn parse_exists_count_missing() {
    let lines = vec!["A002 OK SELECT completed".to_string()];
    assert_eq!(parse_exists_count(&lines), None);
}

#[test]
fn email_parse_search_results_with_matches() {
    let lines = vec![
        "* SEARCH 1 4 7 12 15".to_string(),
        "A003 OK SEARCH completed".to_string(),
    ];
    let results = parse_search_results(&lines);
    assert_eq!(results, vec![1, 4, 7, 12, 15]);
}

#[test]
fn email_parse_search_results_no_matches() {
    let lines = vec![
        "* SEARCH".to_string(),
        "A003 OK SEARCH completed".to_string(),
    ];
    let results = parse_search_results(&lines);
    assert!(results.is_empty());
}

#[test]
fn parse_search_results_single_match() {
    let lines = vec![
        "* SEARCH 42".to_string(),
        "A003 OK SEARCH completed".to_string(),
    ];
    let results = parse_search_results(&lines);
    assert_eq!(results, vec![42]);
}

#[test]
fn email_resolve_imap_host_from_params() {
    let adapter = EmailAdapter::new("test");
    let params = j(r#"{"host": "imap.gmail.com"}"#);
    let host = adapter.resolve_imap_host(&params, "test_tool").unwrap();
    assert_eq!(host, "imap.gmail.com");
}

#[test]
fn email_resolve_imap_host_from_config() {
    let adapter = EmailAdapter::with_config(
        "test",
        "imap.configured.com",
        993,
        "smtp.configured.com",
        465,
    );
    let params = j(r#"{}"#);
    let host = adapter.resolve_imap_host(&params, "test_tool").unwrap();
    assert_eq!(host, "imap.configured.com");
}

#[test]
fn email_resolve_imap_host_params_override_config() {
    let adapter = EmailAdapter::with_config(
        "test",
        "imap.configured.com",
        993,
        "smtp.configured.com",
        465,
    );
    let params = j(r#"{"host": "imap.override.com"}"#);
    let host = adapter.resolve_imap_host(&params, "test_tool").unwrap();
    assert_eq!(host, "imap.override.com");
}

#[test]
fn email_resolve_imap_host_fails_when_no_host_available() {
    let adapter = EmailAdapter::new("test");
    let params = j(r#"{}"#);
    let result = adapter.resolve_imap_host(&params, "test_tool");
    assert!(result.is_err());
}

#[test]
fn resolve_smtp_host_from_params() {
    let adapter = EmailAdapter::new("test");
    let params = j(r#"{"host": "smtp.gmail.com"}"#);
    let host = adapter.resolve_smtp_host(&params, "test_tool").unwrap();
    assert_eq!(host, "smtp.gmail.com");
}

#[test]
fn resolve_smtp_host_from_config() {
    let adapter = EmailAdapter::with_config(
        "test",
        "imap.configured.com",
        993,
        "smtp.configured.com",
        465,
    );
    let params = j(r#"{}"#);
    let host = adapter.resolve_smtp_host(&params, "test_tool").unwrap();
    assert_eq!(host, "smtp.configured.com");
}

#[test]
fn resolve_smtp_host_fails_when_no_host_available() {
    let adapter = EmailAdapter::new("test");
    let params = j(r#"{}"#);
    let result = adapter.resolve_smtp_host(&params, "test_tool");
    assert!(result.is_err());
}

#[test]
fn email_parse_fetch_body_extracts_text() {
    let lines = vec![
        "* 1 FETCH (FLAGS (\\Seen) BODY[HEADER] {200}".to_string(),
        "From: sender@example.com".to_string(),
        "To: recipient@example.com".to_string(),
        "Subject: Test Email".to_string(),
        "Date: Mon, 01 Jan 2024 12:00:00 +0000".to_string(),
        "".to_string(),
        " BODY[TEXT] {50}".to_string(),
        "Hello, this is a test email body.".to_string(),
        ")".to_string(),
        "A003 OK FETCH completed".to_string(),
    ];
    let (_headers, body) = parse_fetch_body(&lines);
    assert!(
        body.contains("test email body"),
        "body should contain message text: {body}"
    );
}


#[test]
fn mod_email_adapter_new_default_ports() {
    let adapter = EmailAdapter::new("email-test");
    assert_eq!(adapter.id, "email-test");
    assert_eq!(adapter.imap_port, 993);
    assert_eq!(adapter.smtp_port, 465);
    assert!(!adapter.connected);
    assert!(adapter.imap_host.is_empty());
    assert!(adapter.smtp_host.is_empty());
}

#[test]
fn mod_email_adapter_with_config() {
    let adapter = EmailAdapter::with_config(
        "email-cfg",
        "imap.example.com",
        1993,
        "smtp.example.com",
        1465,
    );
    assert_eq!(adapter.id, "email-cfg");
    assert_eq!(adapter.imap_host, "imap.example.com");
    assert_eq!(adapter.imap_port, 1993);
    assert_eq!(adapter.smtp_host, "smtp.example.com");
    assert_eq!(adapter.smtp_port, 1465);
    assert!(!adapter.connected);
}

#[test]
fn mod_email_adapter_id() {
    let adapter = EmailAdapter::new("my-email");
    assert_eq!(adapter.id(), "my-email");
}

#[test]
fn mod_email_adapter_type() {
    let adapter = EmailAdapter::new("email-test");
    assert_eq!(adapter.adapter_type(), AdapterType::Productivity);
}

#[test]
fn mod_email_adapter_required_auth_is_none() {
    let adapter = EmailAdapter::new("email-test");
    assert!(adapter.required_auth().is_none());
}

#[test]
fn mod_email_adapter_tools_count() {
    let adapter = EmailAdapter::new("email-test");
    let tools = adapter.tools();
    assert_eq!(tools.len(), 4);
}

#[test]
fn mod_email_adapter_tool_names() {
    let adapter = EmailAdapter::new("email-test");
    let tools = adapter.tools();
    let names: Vec<&str> = tools.iter().map(|t| t.name.as_str()).collect();
    assert!(names.contains(&"email_list_inbox"));
    assert!(names.contains(&"email_read"));
    assert!(names.contains(&"email_send"));
    assert!(names.contains(&"email_search"));
}

#[test]
fn mod_email_adapter_tool_definitions_have_parameters() {
    let adapter = EmailAdapter::new("email-test");
    for tool in adapter.tools() {
        let params = tool.parameters.to_json();
        assert_eq!(params.get("type").and_then(|v| v.as_str()), Some("object"));
        assert!(params.get("properties").is_some());
        assert!(params.get("required").is_some());
    }
}

#[test]
fn mod_imap_login_command_format() {
    let cmd = imap_login_command("A001", "user@example.com", "secret");
    assert_eq!(cmd, "A001 LOGIN \"user@example.com\" \"secret\"\r\n");
}

#[test]
fn mod_imap_select_command_format() {
    let cmd = imap_select_command("A002", "INBOX");
    assert_eq!(cmd, "A002 SELECT \"INBOX\"\r\n");
}

#[test]
fn mod_imap_fetch_envelope_command_format() {
    let cmd = imap_fetch_envelope_command("A003", "1:10");
    assert_eq!(cmd, "A003 FETCH 1:10 (FLAGS ENVELOPE BODY.PEEK[HEADER.FIELDS (MESSAGE-ID)])\r\n");
}

#[test]
fn mod_imap_fetch_body_command_format() {
    let cmd = imap_fetch_body_command("A003", "5");
    assert_eq!(cmd, "A003 FETCH 5 (FLAGS ENVELOPE BODY[TEXT] BODY[HEADER])\r\n");
}

#[test]
fn mod_imap_search_command_format() {
    let cmd = imap_search_command("A003", "FROM \"user@example.com\"");
    assert_eq!(cmd, "A003 SEARCH FROM \"user@example.com\"\r\n");
}

#[test]
fn mod_imap_logout_command_format() {
    let cmd = imap_logout_command("A004");
    assert_eq!(cmd, "A004 LOGOUT\r\n");
}

#[test]
fn mod_smtp_ehlo_command_format() {
    let cmd = smtp_ehlo_command("openintentos.local");
    assert_eq!(cmd, "EHLO openintentos.local\r\n");
}

#[test]
fn mod_smtp_auth_login_command_format() {
    let cmd = smtp_auth_login_command();
    assert_eq!(cmd, "AUTH LOGIN\r\n");
}

#[test]
fn mod_smtp_mail_from_command_format() {
    let cmd = smtp_mail_from_command("sender@example.com");
    assert_eq!(cmd, "MAIL FROM:<sender@example.com>\r\n");
}

#[test]
fn mod_smtp_rcpt_to_command_format() {
    let cmd = smtp_rcpt_to_command("recipient@example.com");
    assert_eq!(cmd, "RCPT TO:<recipient@example.com>\r\n");
}

#[test]
fn mod_smtp_data_command_format() {
    let cmd = smtp_data_command();
    assert_eq!(cmd, "DATA\r\n");
}

#[test]
fn mod_smtp_quit_command_format() {
    let cmd = smtp_quit_command();
    assert_eq!(cmd, "QUIT\r\n");
}

#[test]
fn mod_smtp_message_body_format() {
    let msg = smtp_message_body("from@x.com", "to@y.com", "Hello", "Test body");
    assert!(msg.contains("From: from@x.com\r\n"));
    assert!(msg.contains("To: to@y.com\r\n"));
    assert!(msg.contains("Subject: Hello\r\n"));
    assert!(msg.contains("MIME-Version: 1.0\r\n"));
    assert!(msg.contains("Content-Type: text/plain; charset=UTF-8\r\n"));
    assert!(msg.contains("Test body\r\n.\r\n"));
}

#[test]
fn mod_smtp_base64_encode_username() {
    let encoded = smtp_base64_encode("user@example.com");
    let decoded_bytes = base64::engine::general_purpose::STANDARD
        .decode(&encoded)
        .unwrap();
    let decoded = String::from_utf8(decoded_bytes).unwrap();
    assert_eq!(decoded, "user@example.com");
}

#[test]
fn mod_smtp_base64_encode_empty() {
    let encoded = smtp_base64_encode("");
    assert_eq!(encoded, "");
}

#[test]
fn mod_parse_exists_count_from_select_response() {
    let lines = vec![
        "* FLAGS (\\Answered \\Flagged \\Deleted \\Seen \\Draft)".to_string(),
        "* 42 EXISTS".to_string(),
        "* 0 RECENT".to_string(),
        "A002 OK [READ-WRITE] SELECT completed".to_string(),
    ];
    assert_eq!(parse_exists_count(&lines), Some(42));
}

#[test]
fn mod_parse_exists_count_empty_mailbox() {
    let lines = vec![
        "* 0 EXISTS".to_string(),
        "A002 OK SELECT completed".to_string(),
    ];
    assert_eq!(parse_exists_count(&lines), Some(0));
}

#[test]
fn mod_parse_search_results_with_matches() {
    let lines = vec![
        "* SEARCH 1 4 7 12 15".to_string(),
        "A003 OK SEARCH completed".to_string(),
    ];
    let results = parse_search_results(&lines);
    assert_eq!(results, vec![1, 4, 7, 12, 15]);
}

#[test]
fn mod_parse_search_results_no_matches() {
    let lines = vec![
        "* SEARCH".to_string(),
        "A003 OK SEARCH completed".to_string(),
    ];
    let results = parse_search_results(&lines);
    assert!(results.is_empty());
}

#[test]
fn mod_resolve_imap_host_from_params() {
    let adapter = EmailAdapter::new("test");
    let params = j(r#"{"host": "imap.gmail.com"}"#);
    let host = adapter.resolve_imap_host(&params, "test_tool").unwrap();
    assert_eq!(host, "imap.gmail.com");
}

#[test]
fn mod_resolve_imap_host_from_config() {
    let adapter = EmailAdapter::with_config(
        "test", "imap.configured.com", 993, "smtp.configured.com", 465,
    );
    let params = j(r#"{}"#);
    let host = adapter.resolve_imap_host(&params, "test_tool").unwrap();
    assert_eq!(host, "imap.configured.com");
}

#[test]
fn mod_resolve_imap_host_params_override_config() {
    let adapter = EmailAdapter::with_config(
        "test", "imap.configured.com", 993, "smtp.configured.com", 465,
    );
    let params = j(r#"{"host": "imap.override.com"}"#);
    let host = adapter.resolve_imap_host(&params, "test_tool").unwrap();
    assert_eq!(host, "imap.override.com");
}

#[test]
fn mod_resolve_imap_host_fails_when_no_host_available() {
    let adapter = EmailAdapter::new("test");
    let params = j(r#"{}"#);
    let result = adapter.resolve_imap_host(&params, "test_tool");
    assert!(result.is_err());
}

#[test]
fn mod_parse_fetch_body_extracts_text() {
    let lines = vec![
        "* 1 FETCH (FLAGS (\\Seen) BODY[HEADER] {200}".to_string(),
        "From: sender@example.com".to_string(),
        "To: recipient@example.com".to_string(),
        "Subject: Test Email".to_string(),
        "".to_string(),
        " BODY[TEXT] {50}".to_string(),
        "Hello, this is a test email body.".to_string(),
        ")".to_string(),
        "A003 OK FETCH completed".to_string(),
    ];
    let (_headers, body) = parse_fetch_body(&lines);
    assert!(body.contains("test email body"), "body should contain message text: {body}");
}



use openintent_adapters::traits::HealthStatus;

#[test]
fn mod_email_adapter_connect_disconnect() {
    let mut adapter = EmailAdapter::new("email-test");
    assert!(!adapter.connected);
    adapter.connect().unwrap();
    assert!(adapter.connected);
    adapter.disconnect().unwrap();
    assert!(!adapter.connected);
}

#[test]
fn mod_email_adapter_health_when_disconnected() {
    let adapter = EmailAdapter::new("email-test");
    let status = adapter.health_check().unwrap();
    assert_eq!(status, HealthStatus::Unhealthy);
}

#[test]
fn mod_email_adapter_health_when_connected() {
    let mut adapter = EmailAdapter::new("email-test");
    adapter.connect().unwrap();
    let status = adapter.health_check().unwrap();
    assert_eq!(status, HealthStatus::Healthy);
}

#[test]
fn mod_email_adapter_rejects_when_not_connected() {
    let adapter = EmailAdapter::new("email-test");
    let result = adapter
        .plan_tool("email_list_inbox", &j(r#"{"username": "a", "password": "b", "host": "imap.example.com"}"#),
        );
    assert!(result.is_err());
    let err = result.unwrap_err().to_string();
    assert!(err.contains("not connected"), "error should mention not connected: {err:?}");
}

#[test]
fn mod_email_adapter_rejects_unknown_tool() {
    let mut adapter = EmailAdapter::new("email-test");
    adapter.connect().unwrap();
    let result = adapter.plan_tool("nonexistent", &j(r#"{}"#));
    assert!(result.is_err());
    let err = result.unwrap_err().to_string();
    assert!(err.contains("nonexistent"), "error should mention the tool name: {err:?}");
}

#[test]
fn mod_email_list_inbox_missing_username_fails() {
    let mut adapter = EmailAdapter::with_config(
        "email-test", "imap.example.com", 993, "smtp.example.com", 465,
    );
    adapter.connect().unwrap();
    let result = adapter.plan_tool("email_list_inbox", &j(r#"{"password": "secret"}"#));
    assert!(result.is_err());
    let err = result.unwrap_err().to_string();
    assert!(err.contains("username"), "error should mention username: {err:?}");
}

#[test]
fn mod_email_list_inbox_missing_password_fails() {
    let mut adapter = EmailAdapter::with_config(
        "email-test", "imap.example.com", 993, "smtp.example.com", 465,
    );
    adapter.connect().unwrap();
    let result = adapter.plan_tool("email_list_inbox", &j(r#"{"username": "user"}"#));
    assert!(result.is_err());
    let err = result.unwrap_err().to_string();
    assert!(err.contains("password"), "error should mention password: {err:?}");
}

#[test]
fn mod_email_send_missing_to_field_fails() {
    let mut adapter = EmailAdapter::with_config(
        "email-test", "imap.example.com", 993, "smtp.example.com", 465,
    );
    adapter.connect().unwrap();
    let result = adapter
        .plan_tool("email_send", &j(r#"{"subject": "Test", "body": "Hello", "username": "user", "password": "pass"}"#));
    assert!(result.is_err());
    let err = result.unwrap_err().to_string();
    assert!(err.contains("to"), "error should mention 'to': {err:?}");
}

#[test]
fn mod_email_search_missing_query_fails() {
    let mut adapter = EmailAdapter::with_config(
        "email-test", "imap.example.com", 993, "smtp.example.com", 465,
    );
    adapter.connect().unwrap();
    let result = adapter
        .plan_tool("email_search", &j(r#"{"username": "user", "password": "pass"}"#));
    assert!(result.is_err());
    let err = result.unwrap_err().to_string();
    assert!(err.contains("query"), "error should mention 'query': {err:?}");
}

#[test]
fn mod_email_read_missing_message_id_fails() {
    let mut adapter = EmailAdapter::with_config(
        "email-test", "imap.example.com", 993, "smtp.example.com", 465,
    );
    adapter.connect().unwrap();
    let result = adapter
        .plan_tool("email_read", &j(r#"{"username": "user", "password": "pass"}"#));
    assert!(result.is_err());
    let err = result.unwrap_err().to_string();
    assert!(err.contains("message_id"), "error should mention 'message_id': {err:?}");
}



#[test]
fn email_email_adapter_connect_disconnect() {
    let mut adapter = EmailAdapter::new("email-test");
    assert!(!adapter.connected);
    adapter.connect().unwrap();
    assert!(adapter.connected);
    adapter.disconnect().unwrap();
    assert!(!adapter.connected);
}

#[test]
fn email_email_adapter_health_when_disconnected() {
    let adapter = EmailAdapter::new("email-test");
    let status = adapter.health_check().unwrap();
    assert_eq!(status, HealthStatus::Unhealthy);
}

#[test]
fn email_email_adapter_health_when_connected() {
    let mut adapter = EmailAdapter::new("email-test");
    adapter.connect().unwrap();
    let status = adapter.health_check().unwrap();
    assert_eq!(status, HealthStatus::Healthy);
}


#[test]
fn email_email_adapter_rejects_when_not_connected() {
    let adapter = EmailAdapter::new("email-test");
    let result = adapter
        .plan_tool("email_list_inbox", &j(r#"{"username": "a", "password": "b", "host": "imap.example.com"}"#),
        );
    assert!(result.is_err());
    let err = result.unwrap_err().to_string();
    assert!(err.contains("not connected"), "error should mention not connected: {err:?}");
}

#[test]
fn email_email_adapter_rejects_unknown_tool() {
    let mut adapter = EmailAdapter::new("email-test");
    adapter.connect().unwrap();
    let result = adapter.plan_tool("nonexistent", &j(r#"{}"#));
    assert!(result.is_err());
    let err = result.unwrap_err().to_string();
    assert!(err.contains("nonexistent"), "error should mention the tool name: {err:?}");
}

#[test]
fn email_email_list_inbox_missing_username_fails() {
    let mut adapter = EmailAdapter::with_config(
        "email-test", "imap.example.com", 993, "smtp.example.com", 465,
    );
    adapter.connect().unwrap();
    let result = adapter.plan_tool("email_list_inbox", &j(r#"{"password": "secret"}"#));
    assert!(result.is_err());
    let err = result.unwrap_err().to_string();
    assert!(err.contains("username"), "error should mention username: {err:?}");
}

#[test]
fn email_email_list_inbox_missing_password_fails() {
    let mut adapter = EmailAdapter::with_config(
        "email-test", "imap.example.com", 993, "smtp.example.com", 465,
    );
    adapter.connect().unwrap();
    let result = adapter.plan_tool("email_list_inbox", &j(r#"{"username": "user"}"#));
    assert!(result.is_err());
    let err = result.unwrap_err().to_string();
    assert!(err.contains("password"), "error should mention password: {err:?}");
}

#[test]
fn email_email_send_missing_to_field_fails() {
    let mut adapter = EmailAdapter::with_config(
        "email-test", "imap.example.com", 993, "smtp.example.com", 465,
    );
    adapter.connect().unwrap();
    let result = adapter
        .plan_tool("email_send", &j(r#"{"subject": "Test", "body": "Hello", "username": "user", "password": "pass"}"#));
    assert!(result.is_err());
    let err = result.unwrap_err().to_string();
    assert!(err.contains("to"), "error should mention 'to': {err:?}");
}

#[test]
fn email_email_search_missing_query_fails() {
    let mut adapter = EmailAdapter::with_config(
        "email-test", "imap.example.com", 993, "smtp.example.com", 465,
    );
    adapter.connect().unwrap();
    let result = adapter
        .plan_tool("email_search", &j(r#"{"username": "user", "password": "pass"}"#));
    assert!(result.is_err());
    let err = result.unwrap_err().to_string();
    assert!(err.contains("query"), "error should mention 'query': {err:?}");
}

#[test]
fn email_email_read_missing_message_id_fails() {
    let mut adapter = EmailAdapter::with_config(
        "email-test", "imap.example.com", 993, "smtp.example.com", 465,
    );
    adapter.connect().unwrap();
    let result = adapter
        .plan_tool("email_read", &j(r#"{"username": "user", "password": "pass"}"#));
    assert!(result.is_err());
    let err = result.unwrap_err().to_string();
    assert!(err.contains("message_id"), "error should mention 'message_id': {err:?}");
}

#[test]
fn email_send_missing_subject_fails() {
    let mut adapter = EmailAdapter::with_config(
        "email-test", "imap.example.com", 993, "smtp.example.com", 465,
    );
    adapter.connect().unwrap();
    let result = adapter.plan_tool(
        "email_send",
        &j(r#"{"to": "recipient@example.com", "body": "Hello", "username": "user", "password": "pass"}"#),
    );
    assert!(result.is_err());
    let err = result.unwrap_err().to_string();
    assert!(err.contains("subject"), "error should mention 'subject': {err:?}");
}
