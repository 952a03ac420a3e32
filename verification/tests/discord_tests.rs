use openintent_adapters::discord::DiscordAdapter;
use openintent_adapters::traits::AdapterType;

#[test]
fn discord_new_creates_adapter_with_defaults() {
    let adapter = DiscordAdapter::new("discord-test");
    assert_eq!(adapter.id, "discord-test");
    assert!(!adapter.connected);
    assert!(adapter.bot_token.is_none());
}

#[test]
fn with_token_sets_bot_token() {
    let adapter = DiscordAdapter::with_token("discord-test", "my-bot-token");
    assert_eq!(adapter.id, "discord-test");
    assert_eq!(adapter.bot_token.as_deref(), Some("my-bot-token"));
}

#[test]
fn discord_adapter_id_returns_id() {
    let adapter = DiscordAdapter::new("my-discord");
    assert_eq!(adapter.id(), "my-discord");
}

#[test]
fn discord_adapter_type_is_messaging() {
    let adapter = DiscordAdapter::new("discord");
    assert_eq!(adapter.adapter_type(), AdapterType::Messaging);
}

#[test]
fn required_auth_returns_discord_scopes() {
    let adapter = DiscordAdapter::new("discord");
    let auth = adapter.required_auth().expect("should require auth");
    assert_eq!(auth.provider, "discord");
    assert!(auth.scopes.contains(&"bot".to_string()));
    assert!(auth.scopes.contains(&"messages.read".to_string()));
    assert!(auth.scopes.contains(&"messages.write".to_string()));
    assert!(auth.scopes.contains(&"guilds.read".to_string()));
    assert!(auth.scopes.contains(&"reactions.write".to_string()));
}

#[test]
fn discord_tools_returns_exactly_five() {
    let adapter = DiscordAdapter::new("discord");
    let tools = adapter.tools();
    assert_eq!(tools.len(), 5);
}

#[test]
fn discord_tools_have_expected_names() {
    let adapter = DiscordAdapter::new("discord");
    let names: Vec<String> = adapter.tools().iter().map(|t| t.name.clone()).collect();
    let expected = vec![
        "discord_send_message",
        "discord_get_messages",
        "discord_get_channel",
        "discord_get_guild",
        "discord_create_reaction",
    ];
    assert_eq!(names, expected);
}

#[test]
fn discord_tool_send_message_has_required_fields() {
    let adapter = DiscordAdapter::new("discord");
    let tools = adapter.tools();
    let send_msg = tools
        .iter()
        .find(|t| t.name == "discord_send_message")
        .expect("should have discord_send_message");
    let pj = send_msg.parameters.to_json();
    let required = pj.get("required").unwrap()
        .as_array()
        .expect("required should be an array");
    assert!(required.iter().any(|v| v.as_str() == Some("channel_id")));
    assert!(required.iter().any(|v| v.as_str() == Some("content")));
}

#[test]
fn tool_get_messages_requires_channel_id_only() {
    let adapter = DiscordAdapter::new("discord");
    let tools = adapter.tools();
    let get_msgs = tools
        .iter()
        .find(|t| t.name == "discord_get_messages")
        .expect("should have discord_get_messages");
    let pj = get_msgs.parameters.to_json();
    let required = pj.get("required").unwrap()
        .as_array()
        .expect("required should be an array");
    assert_eq!(required.len(), 1);
    assert!(required.iter().any(|v| v.as_str() == Some("channel_id")));
}

#[test]
fn tool_create_reaction_has_required_fields() {
    let adapter = DiscordAdapter::new("discord");
    let tools = adapter.tools();
    let react = tools
        .iter()
        .find(|t| t.name == "discord_create_reaction")
        .expect("should have discord_create_reaction");
    let pj = react.parameters.to_json();
    let required = pj.get("required").unwrap()
        .as_array()
        .expect("required should be an array");
    assert!(required.iter().any(|v| v.as_str() == Some("channel_id")));
    assert!(required.iter().any(|v| v.as_str() == Some("message_id")));
    assert!(required.iter().any(|v| v.as_str() == Some("emoji")));
}

#[test]
fn discord_resolve_token_succeeds_with_token() {
    let mut adapter = DiscordAdapter::new("discord");
    adapter.bot_token = Some("my-token".into());
    let token = adapter.resolve_token().unwrap();
    assert_eq!(token, "my-token");
}

#[test]
fn discord_resolve_token_fails_without_token() {
    let adapter = DiscordAdapter::new("discord");
    let result = adapter.resolve_token();
    assert!(result.is_err());
}

#[test]
fn discord_api_url_constructs_correct_urls() {
    assert_eq!(
        DiscordAdapter::api_url("/channels/123/messages"),
        "https://discord.com/api/v10/channels/123/messages"
    );
    assert_eq!(
        DiscordAdapter::api_url("/guilds/456"),
        "https://discord.com/api/v10/guilds/456"
    );
}



use openintent_adapters::json::{JsonNumber, JsonValue};
use openintent_adapters::traits::HealthStatus;

fn conv(v: &serde_json::Value) -> JsonValue {
    match v {
        serde_json::Value::Null => JsonValue::Null,
        serde_json::Value::Bool(b) => JsonValue::Bool(*b),
        serde_json::Value::Number(n) => {
            if let Some(u) = n.as_u64() {
                JsonValue::Number(JsonNumber::PosInt(u))
            } else if let Some(i) = n.as_i64() {
                JsonValue::Number(JsonNumber::NegInt(i))
            } else {
                JsonValue::Number(JsonNumber::Fraction(n.to_string()))
            }
        }
        serde_json::Value::String(s) => JsonValue::Str(s.clone()),
        serde_json::Value::Array(a) => JsonValue::Array(a.iter().map(conv).collect()),
        serde_json::Value::Object(o) => {
            JsonValue::Object(o.iter().map(|(k, x)| (k.clone(), conv(x))).collect())
        }
    }
}

/// A JSON value from its text.
fn j(text: &str) -> JsonValue {
    conv(&serde_json::from_str(text).unwrap())
}

#[test]
fn connect_succeeds_without_env_token() {
    let mut adapter = DiscordAdapter::new("discord");
    let result = adapter.complete_connect(None);
    assert!(result.is_ok());
    assert!(adapter.connected);
}

#[test]
fn connect_uses_preexisting_token() {
    let mut adapter = DiscordAdapter::with_token("discord", "preexisting-token");
    adapter.complete_connect(None).unwrap();
    assert!(adapter.connected);
    assert_eq!(adapter.bot_token.as_deref(), Some("preexisting-token"));
}

#[test]
fn discord_disconnect_clears_token_and_sets_disconnected() {
    let mut adapter = DiscordAdapter::new("discord");
    adapter.connected = true;
    adapter.bot_token = Some("test-token".into());
    adapter.disconnect().unwrap();
    assert!(!adapter.connected);
    assert!(adapter.bot_token.is_none());
}

#[test]
fn discord_health_check_returns_unhealthy_when_disconnected() {
    let adapter = DiscordAdapter::new("discord");
    let status = adapter.health_check().unwrap();
    assert_eq!(status, HealthStatus::Unhealthy);
}

#[test]
fn discord_health_check_returns_degraded_when_connected_without_token() {
    let mut adapter = DiscordAdapter::new("discord");
    adapter.connected = true;
    let status = adapter.health_check().unwrap();
    assert_eq!(status, HealthStatus::Degraded);
}

#[test]
fn discord_health_check_returns_healthy_when_connected_with_token() {
    let mut adapter = DiscordAdapter::new("discord");
    adapter.connected = true;
    adapter.bot_token = Some("valid-token".into());
    let status = adapter.health_check().unwrap();
    assert_eq!(status, HealthStatus::Healthy);
}

#[test]
fn discord_execute_tool_rejects_when_not_connected() {
    let adapter = DiscordAdapter::with_token("discord", "token");
    let result = adapter
        .plan_tool("discord_send_message", &j(r#"{}"#));
    assert!(result.is_err());
    let err = result.unwrap_err();
    assert!(err.to_string().contains("not connected"));
}

#[test]
fn discord_execute_tool_rejects_unknown_tool() {
    let mut adapter = DiscordAdapter::new("discord");
    adapter.connected = true;
    let result = adapter.plan_tool("nonexistent_tool", &j(r#"{}"#));
    assert!(result.is_err());
    let err = result.unwrap_err();
    assert!(err.to_string().contains("tool not found"));
}

#[test]
fn send_message_rejects_missing_channel_id() {
    let mut adapter = DiscordAdapter::new("discord");
    adapter.connected = true;
    adapter.bot_token = Some("token".into());
    let result = adapter
        .plan_tool("discord_send_message", &j(r#"{ "content": "hello" }"#));
    assert!(result.is_err());
    assert!(result.unwrap_err().to_string().contains("channel_id"));
}

#[test]
fn send_message_rejects_missing_content() {
    let mut adapter = DiscordAdapter::new("discord");
    adapter.connected = true;
    adapter.bot_token = Some("token".into());
    let result = adapter
        .plan_tool("discord_send_message", &j(r#"{ "channel_id": "123" }"#));
    assert!(result.is_err());
    assert!(result.unwrap_err().to_string().contains("content"));
}

#[test]
fn get_messages_rejects_missing_channel_id() {
    let mut adapter = DiscordAdapter::new("discord");
    adapter.connected = true;
    adapter.bot_token = Some("token".into());
    let result = adapter
        .plan_tool("discord_get_messages", &j(r#"{}"#));
    assert!(result.is_err());
    assert!(result.unwrap_err().to_string().contains("channel_id"));
}

#[test]
fn get_channel_rejects_missing_channel_id() {
    let mut adapter = DiscordAdapter::new("discord");
    adapter.connected = true;
    adapter.bot_token = Some("token".into());
    let result = adapter.plan_tool("discord_get_channel", &j(r#"{}"#));
    assert!(result.is_err());
    assert!(result.unwrap_err().to_string().contains("channel_id"));
}

#[test]
fn get_guild_rejects_missing_guild_id() {
    let mut adapter = DiscordAdapter::new("discord");
    adapter.connected = true;
    adapter.bot_token = Some("token".into());
    let result = adapter.plan_tool("discord_get_guild", &j(r#"{}"#));
    assert!(result.is_err());
    assert!(result.unwrap_err().to_string().contains("guild_id"));
}

#[test]
fn create_reaction_rejects_missing_channel_id() {
    let mut adapter = DiscordAdapter::new("discord");
    adapter.connected = true;
    adapter.bot_token = Some("token".into());
    let result = adapter
        .plan_tool("discord_create_reaction", &j(r#"{ "message_id": "123", "emoji": "thumbsup" }"#),
        );
    assert!(result.is_err());
    assert!(result.unwrap_err().to_string().contains("channel_id"));
}

#[test]
fn create_reaction_rejects_missing_message_id() {
    let mut adapter = DiscordAdapter::new("discord");
    adapter.connected = true;
    adapter.bot_token = Some("token".into());
    let result = adapter
        .plan_tool("discord_create_reaction", &j(r#"{ "channel_id": "123", "emoji": "thumbsup" }"#),
        );
    assert!(result.is_err());
    assert!(result.unwrap_err().to_string().contains("message_id"));
}

#[test]
fn create_reaction_rejects_missing_emoji() {
    let mut adapter = DiscordAdapter::new("discord");
    adapter.connected = true;
    adapter.bot_token = Some("token".into());
    let result = adapter
        .plan_tool("discord_create_reaction", &j(r#"{ "channel_id": "123", "message_id": "456" }"#),
        );
    assert!(result.is_err());
    assert!(result.unwrap_err().to_string().contains("emoji"));
}

