use openintent_adapters::calendar::caldav::{
    build_calendar_query_xml, build_propfind_xml, format_caldav_datetime, format_ical_datetime, generate_ical_event,
    parse_ical_events,
};
use openintent_adapters::calendar::CalendarAdapter;
use openintent_adapters::json::{JsonNumber, JsonValue};
use openintent_adapters::traits::AdapterType;

fn conv(v: &serde_json::Value) -> JsonValue {
    match v {
        serde_json::Value::Null => JsonValue::Null,
        serde_json::Value::Bool(b) => JsonValue::Bool(*b),
        serde_json::Value::Number(n) => {
            if let Some(u) = n.as_u64() {
                JsonValue::Number(JsonNumber::PosInt(u))
            } else if let Some(i) = n.as_i64() {
                JsonValue::Number(JsonNumber::NegInt(i))
            } else {
                JsonValue::Number(JsonNumber::Fraction(n.to_string()))
            }
        }
        serde_json::Value::String(s) => JsonValue::Str(s.clone()),
        serde_json::Value::Array(a) => JsonValue::Array(a.iter().map(conv).collect()),
        serde_json::Value::Object(o) => {
            JsonValue::Object(o.iter().map(|(k, x)| (k.clone(), conv(x))).collect())
        }
    }
}

/// A JSON value from its text.
fn j(text: &str) -> JsonValue {
    conv(&serde_json::from_str(text).unwrap())
}

#[test]
fn mod_new_creates_adapter_with_defaults() {
    let adapter = CalendarAdapter::new("cal-test");
    assert_eq!(adapter.id, "cal-test");
    assert!(!adapter.connected);
    assert!(adapter.caldav_url.is_none());
    assert!(adapter.username.is_none());
    assert!(adapter.password.is_none());
}

#[test]
fn mod_with_caldav_sets_credentials() {
    let adapter = CalendarAdapter::with_caldav(
        "cal-test",
        "https://caldav.example.com/cal",
        "user",
        "pass",
    );
    assert_eq!(adapter.id, "cal-test");
    assert_eq!(
        adapter.caldav_url.as_deref(),
        Some("https://caldav.example.com/cal")
    );
    assert_eq!(adapter.username.as_deref(), Some("user"));
    assert_eq!(adapter.password.as_deref(), Some("pass"));
}

#[test]
fn mod_adapter_id_returns_id() {
    let adapter = CalendarAdapter::new("my-cal");
    assert_eq!(adapter.id(), "my-cal");
}

#[test]
fn mod_adapter_type_is_productivity() {
    let adapter = CalendarAdapter::new("cal");
    assert_eq!(adapter.adapter_type(), AdapterType::Productivity);
}

#[test]
fn mod_required_auth_returns_caldav_scopes() {
    let adapter = CalendarAdapter::new("cal");
    let auth = adapter.required_auth().expect("should require auth");
    assert_eq!(auth.provider, "caldav");
    assert!(auth.scopes.contains(&"calendar:read".to_string()));
    assert!(auth.scopes.contains(&"calendar:write".to_string()));
}

#[test]
fn mod_tools_returns_exactly_five() {
    let adapter = CalendarAdapter::new("cal");
    let tools = adapter.tools();
    assert_eq!(tools.len(), 5);
}

#[test]
fn mod_tools_have_expected_names() {
    let adapter = CalendarAdapter::new("cal");
    let names: Vec<String> = adapter.tools().iter().map(|t| t.name.clone()).collect();
    let expected = vec![
        "calendar_list_events",
        "calendar_create_event",
        "calendar_delete_event",
        "calendar_search_events",
        "calendar_get_event",
    ];
    assert_eq!(names, expected);
}

#[test]
fn mod_tool_create_event_has_required_fields() {
    let adapter = CalendarAdapter::new("cal");
    let tools = adapter.tools();
    let create_event = tools
        .iter()
        .find(|t| t.name == "calendar_create_event")
        .expect("should have calendar_create_event");
    let pj = create_event.parameters.to_json();
    let required = pj.get("required").unwrap()
        .as_array()
        .expect("required should be an array");
    assert!(required.iter().any(|v| v.as_str() == Some("summary")));
    assert!(required.iter().any(|v| v.as_str() == Some("start")));
    assert!(required.iter().any(|v| v.as_str() == Some("end")));
}

#[test]
fn mod_tool_list_events_has_no_required_fields() {
    let adapter = CalendarAdapter::new("cal");
    let tools = adapter.tools();
    let list_events = tools
        .iter()
        .find(|t| t.name == "calendar_list_events")
        .expect("should have calendar_list_events");
    let pj = list_events.parameters.to_json();
    let required = pj.get("required").unwrap()
        .as_array()
        .expect("required should be an array");
    assert!(required.is_empty());
}

#[test]
fn mod_generate_ical_event_basic() {
    let ical = generate_ical_event(
        "test-uid-123",
        "Team Meeting",
        "2026-02-24T10:00:00Z",
        "2026-02-24T11:00:00Z",
        None,
        None,
    );
    assert!(ical.contains("BEGIN:VCALENDAR"));
    assert!(ical.contains("END:VCALENDAR"));
    assert!(ical.contains("BEGIN:VEVENT"));
    assert!(ical.contains("END:VEVENT"));
    assert!(ical.contains("UID:test-uid-123"));
    assert!(ical.contains("SUMMARY:Team Meeting"));
    assert!(ical.contains("DTSTART:20260224T100000Z"));
    assert!(ical.contains("DTEND:20260224T110000Z"));
    assert!(ical.contains("PRODID:-//OpenIntentOS//Calendar//EN"));
    assert!(!ical.contains("DESCRIPTION:"));
    assert!(!ical.contains("LOCATION:"));
}

#[test]
fn mod_generate_ical_event_with_description_and_location() {
    let ical = generate_ical_event(
        "uid-456",
        "Lunch",
        "2026-03-01T12:00:00Z",
        "2026-03-01T13:00:00Z",
        Some("Team lunch at the cafe"),
        Some("Downtown Cafe"),
    );
    assert!(ical.contains("DESCRIPTION:Team lunch at the cafe"));
    assert!(ical.contains("LOCATION:Downtown Cafe"));
}

#[test]
fn mod_format_ical_datetime_rfc3339() {
    let result = format_ical_datetime("2026-02-24T10:00:00Z");
    assert_eq!(result, "20260224T100000Z");
}

#[test]
fn mod_format_ical_datetime_naive() {
    let result = format_ical_datetime("2026-02-24T10:00:00");
    assert_eq!(result, "20260224T100000");
}

#[test]
fn mod_format_ical_datetime_date_only() {
    let result = format_ical_datetime("2026-02-24");
    assert_eq!(result, "20260224");
}

#[test]
fn mod_format_ical_datetime_fallback() {
    let result = format_ical_datetime("invalid-date");
    assert_eq!(result, "invalid-date");
}

#[test]
fn mod_build_calendar_query_xml_contains_time_range() {
    let xml = build_calendar_query_xml("20260224T000000Z", "20260301T000000Z");
    assert!(xml.contains("calendar-query"));
    assert!(xml.contains("VCALENDAR"));
    assert!(xml.contains("VEVENT"));
    assert!(xml.contains(r#"start="20260224T000000Z""#));
    assert!(xml.contains(r#"end="20260301T000000Z""#));
    assert!(xml.contains("getetag"));
    assert!(xml.contains("calendar-data"));
}

#[test]
fn mod_build_propfind_xml_contains_required_elements() {
    let xml = build_propfind_xml();
    assert!(xml.contains("propfind"));
    assert!(xml.contains("displayname"));
    assert!(xml.contains("resourcetype"));
    assert!(xml.contains("supported-calendar-component-set"));
}

#[test]
fn mod_format_caldav_datetime_formats_correctly() {
    let dt = chrono::DateTime::parse_from_rfc3339("2026-02-24T15:30:00Z")
        .unwrap()
        .with_timezone(&chrono::Utc);
    let result = format_caldav_datetime(dt.timestamp());
    assert_eq!(result, Some("20260224T153000Z".to_string()));
}

#[test]
fn mod_parse_ical_events_extracts_single_event() {
    let ical_data = "\
BEGIN:VCALENDAR\r\n\
VERSION:2.0\r\n\
BEGIN:VEVENT\r\n\
 UID:abc-123\r\n\
SUMMARY:Test Event\r\n\
DTSTART:20260224T100000Z\r\n\
DTEND:20260224T110000Z\r\n\
DESCRIPTION:A test event\r\n\
END:VEVENT\r\n\
END:VCALENDAR\r\n";

    let events = parse_ical_events(ical_data);
    assert_eq!(events.len(), 1);
    assert_eq!(events[0].get("uid").and_then(|v| v.as_str()).unwrap(), "abc-123");
    assert_eq!(events[0].get("summary").and_then(|v| v.as_str()).unwrap(), "Test Event");
    assert_eq!(events[0].get("dtstart").and_then(|v| v.as_str()).unwrap(), "20260224T100000Z");
    assert_eq!(events[0].get("dtend").and_then(|v| v.as_str()).unwrap(), "20260224T110000Z");
    assert_eq!(events[0].get("description").and_then(|v| v.as_str()).unwrap(), "A test event");
}

#[test]
fn mod_parse_ical_events_extracts_multiple_events() {
    let ical_data = "\
BEGIN:VCALENDAR\r\n\
BEGIN:VEVENT\r\n\
 UID:event-1\r\n\
SUMMARY:First\r\n\
END:VEVENT\r\n\
BEGIN:VEVENT\r\n\
 UID:event-2\r\n\
SUMMARY:Second\r\n\
END:VEVENT\r\n\
END:VCALENDAR\r\n";

    let events = parse_ical_events(ical_data);
    assert_eq!(events.len(), 2);
    assert_eq!(events[0].get("uid").and_then(|v| v.as_str()).unwrap(), "event-1");
    assert_eq!(events[1].get("uid").and_then(|v| v.as_str()).unwrap(), "event-2");
}

#[test]
fn mod_parse_ical_events_handles_empty_input() {
    let events = parse_ical_events("");
    assert!(events.is_empty());
}

#[test]
fn mod_parse_ical_events_strips_parameter_parts() {
    let ical_data = "\
BEGIN:VEVENT\r\n\
DTSTART;VALUE=DATE:20260224\r\n\
SUMMARY:Date-only Event\r\n\
END:VEVENT\r\n";

    let events = parse_ical_events(ical_data);
    assert_eq!(events.len(), 1);
    assert_eq!(events[0].get("dtstart").and_then(|v| v.as_str()).unwrap(), "20260224");
}

#[test]
fn mod_resolve_caldav_url_uses_configured() {
    let adapter = CalendarAdapter::with_caldav("cal", "https://caldav.example.com", "u", "p");
    let url = adapter.resolve_caldav_url(&j(r#"{}"#)).unwrap();
    assert_eq!(url, "https://caldav.example.com");
}

#[test]
fn mod_resolve_caldav_url_per_call_overrides() {
    let adapter = CalendarAdapter::with_caldav("cal", "https://caldav.example.com", "u", "p");
    let url = adapter
        .resolve_caldav_url(&j(r#"{"caldav_url": "https://other.example.com"}"#))
        .unwrap();
    assert_eq!(url, "https://other.example.com");
}

#[test]
fn mod_resolve_caldav_url_fails_when_none() {
    let adapter = CalendarAdapter::new("cal");
    let result = adapter.resolve_caldav_url(&j(r#"{}"#));
    assert!(result.is_err());
}


#[test]
fn calendar_new_creates_adapter_with_defaults() {
    let adapter = CalendarAdapter::new("cal-test");
    assert_eq!(adapter.id, "cal-test");
    assert!(!adapter.connected);
    assert!(adapter.caldav_url.is_none());
    assert!(adapter.username.is_none());
    assert!(adapter.password.is_none());
}

#[test]
fn calendar_with_caldav_sets_credentials() {
    let adapter = CalendarAdapter::with_caldav(
        "cal-test",
        "https://caldav.example.com/cal",
        "user",
        "pass",
    );
    assert_eq!(adapter.id, "cal-test");
    assert_eq!(
        adapter.caldav_url.as_deref(),
        Some("https://caldav.example.com/cal")
    );
    assert_eq!(adapter.username.as_deref(), Some("user"));
    assert_eq!(adapter.password.as_deref(), Some("pass"));
}

#[test]
fn calendar_adapter_id_returns_id() {
    let adapter = CalendarAdapter::new("my-cal");
    assert_eq!(adapter.id(), "my-cal");
}

#[test]
fn calendar_adapter_type_is_productivity() {
    let adapter = CalendarAdapter::new("cal");
    assert_eq!(adapter.adapter_type(), AdapterType::Productivity);
}

#[test]
fn calendar_required_auth_returns_caldav_scopes() {
    let adapter = CalendarAdapter::new("cal");
    let auth = adapter.required_auth().expect("should require auth");
    assert_eq!(auth.provider, "caldav");
    assert!(auth.scopes.contains(&"calendar:read".to_string()));
    assert!(auth.scopes.contains(&"calendar:write".to_string()));
}

#[test]
fn calendar_tools_returns_exactly_five() {
    let adapter = CalendarAdapter::new("cal");
    let tools = adapter.tools();
    assert_eq!(tools.len(), 5);
}

#[test]
fn calendar_tools_have_expected_names() {
    let adapter = CalendarAdapter::new("cal");
    let names: Vec<String> = adapter.tools().iter().map(|t| t.name.clone()).collect();
    let expected = vec![
        "calendar_list_events",
        "calendar_create_event",
        "calendar_delete_event",
        "calendar_search_events",
        "calendar_get_event",
    ];
    assert_eq!(names, expected);
}

#[test]
fn calendar_tool_create_event_has_required_fields() {
    let adapter = CalendarAdapter::new("cal");
    let tools = adapter.tools();
    let create_event = tools
        .iter()
        .find(|t| t.name == "calendar_create_event")
        .expect("should have calendar_create_event");
    let pj = create_event.parameters.to_json();
    let required = pj.get("required").unwrap()
        .as_array()
        .expect("required should be an array");
    assert!(required.iter().any(|v| v.as_str() == Some("summary")));
    assert!(required.iter().any(|v| v.as_str() == Some("start")));
    assert!(required.iter().any(|v| v.as_str() == Some("end")));
}

#[test]
fn calendar_tool_list_events_has_no_required_fields() {
    let adapter = CalendarAdapter::new("cal");
    let tools = adapter.tools();
    let list_events = tools
        .iter()
        .find(|t| t.name == "calendar_list_events")
        .expect("should have calendar_list_events");
    let pj = list_events.parameters.to_json();
    let required = pj.get("required").unwrap()
        .as_array()
        .expect("required should be an array");
    assert!(required.is_empty());
}

#[test]
fn calendar_generate_ical_event_basic() {
    let ical = generate_ical_event(
        "test-uid-123",
        "Team Meeting",
        "2026-02-24T10:00:00Z",
        "2026-02-24T11:00:00Z",
        None,
        None,
    );
    assert!(ical.contains("BEGIN:VCALENDAR"));
    assert!(ical.contains("END:VCALENDAR"));
    assert!(ical.contains("BEGIN:VEVENT"));
    assert!(ical.contains("END:VEVENT"));
    assert!(ical.contains("UID:test-uid-123"));
    assert!(ical.contains("SUMMARY:Team Meeting"));
    assert!(ical.contains("DTSTART:20260224T100000Z"));
    assert!(ical.contains("DTEND:20260224T110000Z"));
    assert!(ical.contains("PRODID:-//OpenIntentOS//Calendar//EN"));
    assert!(!ical.contains("DESCRIPTION:"));
    assert!(!ical.contains("LOCATION:"));
}

#[test]
fn calendar_generate_ical_event_with_description_and_location() {
    let ical = generate_ical_event(
        "uid-456",
        "Lunch",
        "2026-03-01T12:00:00Z",
        "2026-03-01T13:00:00Z",
        Some("Team lunch at the cafe"),
        Some("Downtown Cafe"),
    );
    assert!(ical.contains("DESCRIPTION:Team lunch at the cafe"));
    assert!(ical.contains("LOCATION:Downtown Cafe"));
}

#[test]
fn calendar_format_ical_datetime_rfc3339() {
    let result = format_ical_datetime("2026-02-24T10:00:00Z");
    assert_eq!(result, "20260224T100000Z");
}

#[test]
fn calendar_format_ical_datetime_naive() {
    let result = format_ical_datetime("2026-02-24T10:00:00");
    assert_eq!(result, "20260224T100000");
}

#[test]
fn calendar_format_ical_datetime_date_only() {
    let result = format_ical_datetime("2026-02-24");
    assert_eq!(result, "20260224");
}

#[test]
fn calendar_format_ical_datetime_fallback() {
    let result = format_ical_datetime("invalid-date");
    assert_eq!(result, "invalid-date");
}

#[test]
fn calendar_build_calendar_query_xml_contains_time_range() {
    let xml = build_calendar_query_xml("20260224T000000Z", "20260301T000000Z");
    assert!(xml.contains("calendar-query"));
    assert!(xml.contains("VCALENDAR"));
    assert!(xml.contains("VEVENT"));
    assert!(xml.contains(r#"start="20260224T000000Z""#));
    assert!(xml.contains(r#"end="20260301T000000Z""#));
    assert!(xml.contains("getetag"));
    assert!(xml.contains("calendar-data"));
}

#[test]
fn calendar_build_propfind_xml_contains_required_elements() {
    let xml = build_propfind_xml();
    assert!(xml.contains("propfind"));
    assert!(xml.contains("displayname"));
    assert!(xml.contains("resourcetype"));
    assert!(xml.contains("supported-calendar-component-set"));
}

#[test]
fn calendar_format_caldav_datetime_formats_correctly() {
    let dt = chrono::DateTime::parse_from_rfc3339("2026-02-24T15:30:00Z")
        .unwrap()
        .with_timezone(&chrono::Utc);
    let result = format_caldav_datetime(dt.timestamp());
    assert_eq!(result, Some("20260224T153000Z".to_string()));
}

#[test]
fn calendar_parse_ical_events_extracts_single_event() {
    let ical_data = "\
BEGIN:VCALENDAR\r\n\
VERSION:2.0\r\n\
BEGIN:VEVENT\r\n\
UID:abc-123\r\n\
SUMMARY:Test Event\r\n\
DTSTART:20260224T100000Z\r\n\
DTEND:20260224T110000Z\r\n\
DESCRIPTION:A test event\r\n\
END:VEVENT\r\n\
END:VCALENDAR\r\n";

    let events = parse_ical_events(ical_data);
    assert_eq!(events.len(), 1);
    assert_eq!(events[0].get("uid").and_then(|v| v.as_str()).unwrap(), "abc-123");
    assert_eq!(events[0].get("summary").and_then(|v| v.as_str()).unwrap(), "Test Event");
    assert_eq!(events[0].get("dtstart").and_then(|v| v.as_str()).unwrap(), "20260224T100000Z");
    assert_eq!(events[0].get("dtend").and_then(|v| v.as_str()).unwrap(), "20260224T110000Z");
    assert_eq!(events[0].get("description").and_then(|v| v.as_str()).unwrap(), "A test event");
}

#[test]
fn calendar_parse_ical_events_extracts_multiple_events() {
    let ical_data = "\
BEGIN:VCALENDAR\r\n\
BEGIN:VEVENT\r\n\
UID:event-1\r\n\
SUMMARY:First\r\n\
END:VEVENT\r\n\
BEGIN:VEVENT\r\n\
UID:event-2\r\n\
SUMMARY:Second\r\n\
END:VEVENT\r\n\
END:VCALENDAR\r\n";

    let events = parse_ical_events(ical_data);
    assert_eq!(events.len(), 2);
    assert_eq!(events[0].get("uid").and_then(|v| v.as_str()).unwrap(), "event-1");
    assert_eq!(events[1].get("uid").and_then(|v| v.as_str()).unwrap(), "event-2");
}

#[test]
fn calendar_parse_ical_events_handles_empty_input() {
    let events = parse_ical_events("");
    assert!(events.is_empty());
}

#[test]
fn calendar_parse_ical_events_strips_parameter_parts() {
    let ical_data = "\
BEGIN:VEVENT\r\n\
DTSTART;VALUE=DATE:20260224\r\n\
SUMMARY:Date-only Event\r\n\
END:VEVENT\r\n";

    let events = parse_ical_events(ical_data);
    assert_eq!(events.len(), 1);
    assert_eq!(events[0].get("dtstart").and_then(|v| v.as_str()).unwrap(), "20260224");
}

#[test]
fn calendar_resolve_caldav_url_uses_configured() {
    let adapter = CalendarAdapter::with_caldav("cal", "https://caldav.example.com", "u", "p");
    let url = adapter.resolve_caldav_url(&j(r#"{}"#)).unwrap();
    assert_eq!(url, "https://caldav.example.com");
}

#[test]
fn calendar_resolve_caldav_url_per_call_overrides() {
    let adapter = CalendarAdapter::with_caldav("cal", "https://caldav.example.com", "u", "p");
    let url = adapter
        .resolve_caldav_url(&j(r#"{"caldav_url": "https://other.example.com"}"#))
        .unwrap();
    assert_eq!(url, "https://other.example.com");
}

#[test]
fn calendar_resolve_caldav_url_fails_when_none() {
    let adapter = CalendarAdapter::new("cal");
    let result = adapter.resolve_caldav_url(&j(r#"{}"#));
    assert!(result.is_err());
}



use openintent_adapters::traits::HealthStatus;

#[test]
fn calendar_mod_connect_succeeds_without_caldav_url() {
    let mut adapter = CalendarAdapter::new("cal");
    let result = adapter.connect();
    assert!(result.is_ok());
    assert!(adapter.connected);
}

#[test]
fn calendar_mod_connect_succeeds_with_caldav_url() {
    let mut adapter =
        CalendarAdapter::with_caldav("cal", "https://caldav.example.com", "u", "p");
    let result = adapter.connect();
    assert!(result.is_ok());
    assert!(adapter.connected);
}

#[test]
fn calendar_mod_disconnect_sets_connected_false() {
    let mut adapter = CalendarAdapter::new("cal");
    adapter.connected = true;
    adapter.disconnect().unwrap();
    assert!(!adapter.connected);
}

#[test]
fn calendar_mod_health_check_returns_unhealthy_when_disconnected() {
    let adapter = CalendarAdapter::new("cal");
    let status = adapter.health_check().unwrap();
    assert_eq!(status, HealthStatus::Unhealthy);
}

#[test]
fn calendar_mod_health_check_returns_degraded_when_connected_without_url() {
    let mut adapter = CalendarAdapter::new("cal");
    adapter.connected = true;
    let status = adapter.health_check().unwrap();
    assert_eq!(status, HealthStatus::Degraded);
}

#[test]
fn calendar_mod_health_check_returns_healthy_when_connected_with_url() {
    let mut adapter =
        CalendarAdapter::with_caldav("cal", "https://caldav.example.com", "u", "p");
    adapter.connected = true;
    let status = adapter.health_check().unwrap();
    assert_eq!(status, HealthStatus::Healthy);
}

#[test]
fn calendar_mod_execute_tool_rejects_when_not_connected() {
    let adapter = CalendarAdapter::with_caldav("cal", "https://caldav.example.com", "u", "p");
    let result = adapter
        .plan_tool("calendar_list_events", &j(r#"{}"#));
    assert!(result.is_err());
    let err = result.unwrap_err();
    assert!(err.to_string().contains("not connected"));
}

#[test]
fn calendar_mod_execute_tool_rejects_unknown_tool() {
    let mut adapter = CalendarAdapter::new("cal");
    adapter.connected = true;
    let result = adapter.plan_tool("nonexistent_tool", &j(r#"{}"#));
    assert!(result.is_err());
    let err = result.unwrap_err();
    assert!(err.to_string().contains("tool not found"));
}

#[test]
fn calendar_mod_create_event_rejects_missing_summary() {
    let mut adapter =
        CalendarAdapter::with_caldav("cal", "https://caldav.example.com", "u", "p");
    adapter.connected = true;
    let result = adapter
        .plan_tool("calendar_create_event", &j(r#"{
                "start": "2026-02-24T10:00:00Z",
                "end": "2026-02-24T11:00:00Z"
            }"#),
        );
    assert!(result.is_err());
    assert!(result.unwrap_err().to_string().contains("summary"));
}

#[test]
fn calendar_mod_create_event_rejects_missing_start() {
    let mut adapter =
        CalendarAdapter::with_caldav("cal", "https://caldav.example.com", "u", "p");
    adapter.connected = true;
    let result = adapter
        .plan_tool("calendar_create_event", &j(r#"{
                "summary": "Test",
                "end": "2026-02-24T11:00:00Z"
            }"#),
        );
    assert!(result.is_err());
    assert!(result.unwrap_err().to_string().contains("start"));
}

#[test]
fn calendar_mod_delete_event_rejects_missing_uid() {
    let mut adapter =
        CalendarAdapter::with_caldav("cal", "https://caldav.example.com", "u", "p");
    adapter.connected = true;
    let result = adapter
        .plan_tool("calendar_delete_event", &j(r#"{}"#));
    assert!(result.is_err());
    assert!(result.unwrap_err().to_string().contains("uid"));
}

#[test]
fn calendar_mod_search_events_rejects_missing_query() {
    let mut adapter =
        CalendarAdapter::with_caldav("cal", "https://caldav.example.com", "u", "p");
    adapter.connected = true;
    let result = adapter
        .plan_tool("calendar_search_events", &j(r#"{}"#));
    assert!(result.is_err());
    assert!(result.unwrap_err().to_string().contains("query"));
}

#[test]
fn calendar_mod_get_event_rejects_missing_uid() {
    let mut adapter =
        CalendarAdapter::with_caldav("cal", "https://caldav.example.com", "u", "p");
    adapter.connected = true;
    let result = adapter.plan_tool("calendar_get_event", &j(r#"{}"#));
    assert!(result.is_err());
    assert!(result.unwrap_err().to_string().contains("uid"));
}



#[test]
fn calendar_connect_succeeds_without_caldav_url() {
    let mut adapter = CalendarAdapter::new("cal");
    let result = adapter.connect();
    assert!(result.is_ok());
    assert!(adapter.connected);
}

#[test]
fn calendar_connect_succeeds_with_caldav_url() {
    let mut adapter =
        CalendarAdapter::with_caldav("cal", "https://caldav.example.com", "u", "p");
    let result = adapter.connect();
    assert!(result.is_ok());
    assert!(adapter.connected);
}

#[test]
fn calendar_disconnect_sets_connected_false() {
    let mut adapter = CalendarAdapter::new("cal");
    adapter.connected = true;
    adapter.disconnect().unwrap();
    assert!(!adapter.connected);
}

#[test]
fn calendar_health_check_returns_unhealthy_when_disconnected() {
    let adapter = CalendarAdapter::new("cal");
    let status = adapter.health_check().unwrap();
    assert_eq!(status, HealthStatus::Unhealthy);
}

#[test]
fn calendar_health_check_returns_degraded_when_connected_without_url() {
    let mut adapter = CalendarAdapter::new("cal");
    adapter.connected = true;
    let status = adapter.health_check().unwrap();
    assert_eq!(status, HealthStatus::Degraded);
}

#[test]
fn calendar_health_check_returns_healthy_when_connected_with_url() {
    let mut adapter =
        CalendarAdapter::with_caldav("cal", "https://caldav.example.com", "u", "p");
    adapter.connected = true;
    let status = adapter.health_check().unwrap();
    assert_eq!(status, HealthStatus::Healthy);
}

#[test]
fn calendar_execute_tool_rejects_when_not_connected() {
    let adapter = CalendarAdapter::with_caldav("cal", "https://caldav.example.com", "u", "p");
    let result = adapter
        .plan_tool("calendar_list_events", &j(r#"{}"#));
    assert!(result.is_err());
    let err = result.unwrap_err();
    assert!(err.to_string().contains("not connected"));
}

#[test]
fn calendar_execute_tool_rejects_unknown_tool() {
    let mut adapter = CalendarAdapter::new("cal");
    adapter.connected = true;
    let result = adapter.plan_tool("nonexistent_tool", &j(r#"{}"#));
    assert!(result.is_err());
    let err = result.unwrap_err();
    assert!(err.to_string().contains("tool not found"));
}

#[test]
fn calendar_create_event_rejects_missing_summary() {
    let mut adapter =
        CalendarAdapter::with_caldav("cal", "https://caldav.example.com", "u", "p");
    adapter.connected = true;
    let result = adapter
        .plan_tool("calendar_create_event", &j(r#"{
                "start": "2026-02-24T10:00:00Z",
                "end": "2026-02-24T11:00:00Z"
            }"#),
        );
    assert!(result.is_err());
    assert!(result.unwrap_err().to_string().contains("summary"));
}

#[test]
fn calendar_create_event_rejects_missing_start() {
    let mut adapter =
        CalendarAdapter::with_caldav("cal", "https://caldav.example.com", "u", "p");
    adapter.connected = true;
    let result = adapter
        .plan_tool("calendar_create_event", &j(r#"{
                "summary": "Test",
                "end": "2026-02-24T11:00:00Z"
            }"#),
        );
    assert!(result.is_err());
    assert!(result.unwrap_err().to_string().contains("start"));
}

#[test]
fn calendar_delete_event_rejects_missing_uid() {
    let mut adapter =
        CalendarAdapter::with_caldav("cal", "https://caldav.example.com", "u", "p");
    adapter.connected = true;
    let result = adapter
        .plan_tool("calendar_delete_event", &j(r#"{}"#));
    assert!(result.is_err());
    assert!(result.unwrap_err().to_string().contains("uid"));
}

#[test]
fn calendar_search_events_rejects_missing_query() {
    let mut adapter =
        CalendarAdapter::with_caldav("cal", "https://caldav.example.com", "u", "p");
    adapter.connected = true;
    let result = adapter
        .plan_tool("calendar_search_events", &j(r#"{}"#));
    assert!(result.is_err());
    assert!(result.unwrap_err().to_string().contains("query"));
}

#[test]
fn calendar_get_event_rejects_missing_uid() {
    let mut adapter =
        CalendarAdapter::with_caldav("cal", "https://caldav.example.com", "u", "p");
    adapter.connected = true;
    let result = adapter.plan_tool("calendar_get_event", &j(r#"{}"#));
    assert!(result.is_err());
    assert!(result.unwrap_err().to_string().contains("uid"));
}

#[test]
fn generated_event_reads_back() {
    let ical = generate_ical_event(
        "round-trip-1",
        "Design review: phase 2",
        "2026-03-05T09:30:00Z",
        "2026-03-05T10:00:00Z",
        Some("Bring the numbers"),
        None,
    );
    let events = parse_ical_events(&ical);
    assert_eq!(events.len(), 1);
    let ev = &events[0];
    assert_eq!(ev.get("uid").and_then(|v| v.as_str()).unwrap(), "round-trip-1");
    assert_eq!(ev.get("summary").and_then(|v| v.as_str()).unwrap(), "Design review: phase 2");
    assert_eq!(ev.get("dtstart").and_then(|v| v.as_str()).unwrap(), "20260305T093000Z");
    assert_eq!(ev.get("dtend").and_then(|v| v.as_str()).unwrap(), "20260305T100000Z");
    assert_eq!(ev.get("description").and_then(|v| v.as_str()).unwrap(), "Bring the numbers");
    assert!(ev.get("location").is_none());
}
