use openintent_adapters::cron::CronAdapter;
use openintent_adapters::json::{to_json_text, JsonNumber, JsonValue};
use openintent_adapters::traits::HealthStatus;

fn conv(v: &serde_json::Value) -> JsonValue {
    match v {
        serde_json::Value::Null => JsonValue::Null,
        serde_json::Value::Bool(b) => JsonValue::Bool(*b),
        serde_json::Value::Number(n) => {
            if let Some(u) = n.as_u64() {
                JsonValue::Number(JsonNumber::PosInt(u))
            } else if let Some(i) = n.as_i64() {
                JsonValue::Number(JsonNumber::NegInt(i))
            } else {
                JsonValue::Number(JsonNumber::Fraction(n.to_string()))
            }
        }
        serde_json::Value::String(s) => JsonValue::Str(s.clone()),
        serde_json::Value::Array(a) => JsonValue::Array(a.iter().map(conv).collect()),
        serde_json::Value::Object(o) => {
            JsonValue::Object(o.iter().map(|(k, x)| (k.clone(), conv(x))).collect())
        }
    }
}

/// A JSON value from its text.
fn j(text: &str) -> JsonValue {
    conv(&serde_json::from_str(text).unwrap())
}

fn setup() -> CronAdapter {
    let mut adapter = CronAdapter::new("cron-test");
    adapter.connect().unwrap_or_else(|e| panic!("failed to connect cron adapter: {}", e.to_string()));
    adapter
}

fn field_str(v: &JsonValue, key: &str) -> String {
    v.get(key).and_then(|x| x.as_str()).unwrap().to_string()
}

fn jobs_of(list: &JsonValue) -> Vec<String> {
    list.get("jobs").and_then(|v| v.as_array()).unwrap().iter().map(|j| field_str(j, "id")).collect()
}

#[test]
fn cron_adapter_has_four_tools() {
    let adapter = setup();
    assert_eq!(adapter.tools().len(), 4);
}

#[test]
fn cron_adapter_health_when_disconnected() {
    let adapter = CronAdapter::new("cron-test");
    let status = adapter.health_check().unwrap();
    assert_eq!(status, HealthStatus::Unhealthy);
}

#[test]
fn cron_adapter_rejects_when_not_connected() {
    let mut adapter = CronAdapter::new("cron-test");
    let result = adapter.execute_tool(
        "cron_create",
        &j(r#"{"name": "test", "schedule": "* * * * *", "command": "echo hi"}"#),
    );
    assert!(result.is_err());
    assert!(result.unwrap_err().to_string().contains("not connected"));
}

#[test]
fn cron_create_and_list() {
    let mut adapter = setup();
    let create_result = adapter
        .execute_tool(
            "cron_create",
            &j(r#"{"name": "hourly backup", "schedule": "0 * * * *", "command": "backup_all"}"#),
        )
        .unwrap();
    assert_eq!(create_result.get("created").and_then(|v| v.as_bool()), Some(true));
    let job_id = field_str(&create_result, "id");
    assert!(!job_id.is_empty());

    let list_result = adapter.execute_tool("cron_list", &j("{}")).unwrap();
    let jobs = list_result.get("jobs").and_then(|v| v.as_array()).unwrap();
    assert_eq!(jobs.len(), 1);
    assert_eq!(field_str(&jobs[0], "name"), "hourly backup");
    assert_eq!(field_str(&jobs[0], "schedule"), "0 * * * *");
    assert_eq!(jobs[0].get("enabled").and_then(|v| v.as_bool()), Some(true));
}

#[test]
fn cron_create_and_delete() {
    let mut adapter = setup();
    let create_result = adapter
        .execute_tool("cron_create", &j(r#"{"name": "temp job", "schedule": "* * * * *", "command": "noop"}"#))
        .unwrap();
    let job_id = field_str(&create_result, "id");
    let delete_result = adapter
        .execute_tool("cron_delete", &j(&format!(r#"{{"id": "{}"}}"#, job_id)))
        .unwrap();
    assert_eq!(delete_result.get("deleted").and_then(|v| v.as_bool()), Some(true));
    let list_result = adapter.execute_tool("cron_list", &j("{}")).unwrap();
    assert!(jobs_of(&list_result).is_empty());
}

#[test]
fn cron_delete_nonexistent_fails() {
    let mut adapter = setup();
    let result = adapter.execute_tool("cron_delete", &j(r#"{"id": "nonexistent-id"}"#));
    assert!(result.is_err());
}

#[test]
fn cron_toggle_enable_disable() {
    let mut adapter = setup();
    let create_result = adapter
        .execute_tool(
            "cron_create",
            &j(r#"{"name": "toggle test", "schedule": "0 0 * * *", "command": "daily_report"}"#),
        )
        .unwrap();
    let job_id = field_str(&create_result, "id");
    let toggle_result = adapter
        .execute_tool("cron_toggle", &j(&format!(r#"{{"id": "{}", "enabled": false}}"#, job_id)))
        .unwrap();
    assert_eq!(toggle_result.get("enabled").and_then(|v| v.as_bool()), Some(false));
    let list_result = adapter.execute_tool("cron_list", &j("{}")).unwrap();
    let jobs = list_result.get("jobs").and_then(|v| v.as_array()).unwrap();
    assert_eq!(jobs[0].get("enabled").and_then(|v| v.as_bool()), Some(false));
    let toggle_result = adapter
        .execute_tool("cron_toggle", &j(&format!(r#"{{"id": "{}", "enabled": true}}"#, job_id)))
        .unwrap();
    assert_eq!(toggle_result.get("enabled").and_then(|v| v.as_bool()), Some(true));
}

#[test]
fn cron_toggle_nonexistent_fails() {
    let mut adapter = setup();
    let result = adapter.execute_tool("cron_toggle", &j(r#"{"id": "nope", "enabled": true}"#));
    assert!(result.is_err());
}

#[test]
fn cron_create_missing_name_fails() {
    let mut adapter = setup();
    let result = adapter.execute_tool("cron_create", &j(r#"{"schedule": "* * * * *", "command": "echo hi"}"#));
    assert!(result.is_err());
    assert!(result.unwrap_err().to_string().contains("name"));
}

#[test]
fn unknown_tool_returns_error() {
    let mut adapter = setup();
    let result = adapter.execute_tool("cron_nonexistent", &j("{}"));
    assert!(result.is_err());
}

#[test]
fn cron_create_with_given_id_then_delete_restores_registry() {
    let mut adapter = setup();
    adapter
        .create_job(&j(r#"{"name": "a", "schedule": "* * * * *", "command": "x"}"#), "job-a".to_string(), 100)
        .unwrap();
    let before = jobs_of(&adapter.list_jobs());
    adapter
        .create_job(&j(r#"{"name": "b", "schedule": "* * * * *", "command": "y"}"#), "job-b".to_string(), 200)
        .unwrap();
    assert_eq!(jobs_of(&adapter.list_jobs()), vec!["job-a".to_string(), "job-b".to_string()]);
    adapter.execute_tool("cron_delete", &j(r#"{"id": "job-b"}"#)).unwrap();
    assert_eq!(jobs_of(&adapter.list_jobs()), before);
}

#[test]
fn cron_create_with_same_id_replaces_job() {
    let mut adapter = setup();
    adapter
        .create_job(&j(r#"{"name": "a", "schedule": "* * * * *", "command": "x"}"#), "job-a".to_string(), 100)
        .unwrap();
    adapter
        .create_job(&j(r#"{"name": "a2", "schedule": "0 * * * *", "command": "z"}"#), "job-a".to_string(), 200)
        .unwrap();
    let list = adapter.list_jobs();
    let jobs = list.get("jobs").and_then(|v| v.as_array()).unwrap();
    assert_eq!(jobs.len(), 1);
    assert_eq!(field_str(&jobs[0], "name"), "a2");
    assert_eq!(field_str(&jobs[0], "command"), "z");
}

#[test]
fn cron_fresh_ids_are_distinct() {
    let mut adapter = setup();
    let params = j(r#"{"name": "n", "schedule": "* * * * *", "command": "c"}"#);
    let a = field_str(&adapter.execute_tool("cron_create", &params).unwrap(), "id");
    let b = field_str(&adapter.execute_tool("cron_create", &params).unwrap(), "id");
    assert_eq!(a.len(), 36);
    assert_ne!(a, b);
    assert_eq!(jobs_of(&adapter.list_jobs()).len(), 2);
}

#[test]
fn cron_toggle_missing_enabled_fails() {
    let mut adapter = setup();
    adapter
        .create_job(&j(r#"{"name": "a", "schedule": "* * * * *", "command": "x"}"#), "job-a".to_string(), 100)
        .unwrap();
    let result = adapter.execute_tool("cron_toggle", &j(r#"{"id": "job-a"}"#));
    assert!(result.is_err());
}

#[test]
fn cron_disconnect_keeps_jobs() {
    let mut adapter = setup();
    adapter
        .create_job(&j(r#"{"name": "a", "schedule": "* * * * *", "command": "x"}"#), "job-a".to_string(), 100)
        .unwrap();
    adapter.disconnect().unwrap();
    assert!(!adapter.connected());
    adapter.connect().unwrap();
    assert_eq!(jobs_of(&adapter.list_jobs()), vec!["job-a".to_string()]);
}

#[test]
fn execute_tool_runs_each_cron_tool() {
    let mut a = CronAdapter::new("cron-test");
    a.connect().unwrap();
    let listed = a.execute_tool("cron_list", &j("{}")).unwrap();
    assert_eq!(to_json_text(&listed), r#"{"jobs":[]}"#);
    let created = a
        .execute_tool("cron_create", &j(r#"{"name": "n", "schedule": "* * * * *", "command": "c"}"#))
        .unwrap();
    let text = to_json_text(&created);
    assert!(text.starts_with(r#"{"id":""#) && text.ends_with(r#"","created":true}"#), "{text}");
    let id = created.get("id").and_then(|v| v.as_str()).unwrap().to_string();
    assert_eq!(id.len(), 36);
    let listed = a.execute_tool("cron_list", &j("{}")).unwrap();
    assert!(to_json_text(&listed).contains(&id));
    let toggled = a
        .execute_tool("cron_toggle", &JsonValue::Object(vec![
            ("enabled".to_string(), JsonValue::Bool(false)),
            ("id".to_string(), JsonValue::Str(id.clone())),
        ]))
        .unwrap();
    assert_eq!(to_json_text(&toggled), format!(r#"{{"id":"{id}","enabled":false}}"#));
    let deleted = a.execute_tool("cron_delete", &JsonValue::Object(vec![("id".to_string(), JsonValue::Str(id))])).unwrap();
    assert_eq!(to_json_text(&deleted), r#"{"deleted":true}"#);
    assert_eq!(to_json_text(&a.execute_tool("cron_list", &j("{}")).unwrap()), r#"{"jobs":[]}"#);
    let err = a.execute_tool("cron_create", &j(r#"{"name": "n"}"#)).unwrap_err();
    assert!(err.to_string().contains("schedule"));
}
