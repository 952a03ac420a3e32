use openintent_adapters::daily_briefing::{BriefingConfig, DailyBriefingAdapter};

#[test]
fn default_config_reads_env() {
    let config = BriefingConfig::from_settings(None, None, "0.1.0");
    // Default time is "07:00" unless overridden.
    assert!(!config.briefing_time.is_empty());
}

#[test]
fn system_status_includes_version() {
    let adapter = DailyBriefingAdapter::with_config(BriefingConfig::from_settings(None, None, "0.1.0"));
    let status = adapter.system_status();
    assert!(status.contains("OpenIntentOS"));
}

use openintent_adapters::daily_briefing::{email_section, news_section, render_briefing, true_setting, BriefingSections};
use openintent_adapters::json::{JsonNumber, JsonValue};

fn conv(v: &serde_json::Value) -> JsonValue {
    match v {
        serde_json::Value::Null => JsonValue::Null,
        serde_json::Value::Bool(b) => JsonValue::Bool(*b),
        serde_json::Value::Number(n) => match n.as_u64() {
            Some(u) => JsonValue::Number(JsonNumber::PosInt(u)),
            None => JsonValue::Number(JsonNumber::Fraction(n.to_string())),
        },
        serde_json::Value::String(s) => JsonValue::Str(s.clone()),
        serde_json::Value::Array(a) => JsonValue::Array(a.iter().map(conv).collect()),
        serde_json::Value::Object(o) => JsonValue::Object(o.iter().map(|(k, x)| (k.clone(), conv(x))).collect()),
    }
}

fn sections() -> BriefingSections {
    BriefingSections {
        calendar: "No events today".to_string(),
        email: email_section(None),
        tasks: "All clear".to_string(),
        news: news_section(None),
    }
}

#[test]
fn compose_briefing_returns_ok() {
    let adapter = DailyBriefingAdapter::with_config(BriefingConfig::from_settings(None, None, "0.1.0"));
    let text = adapter.compose_briefing(2026, 1, 1, &sections()).unwrap();
    assert!(text.contains("Morning Briefing"));
    assert!(text.contains("Calendar"));
    assert!(text.contains("Email"));
    assert!(text.contains("Tasks"));
    assert!(text.contains("System"));
    assert!(text.starts_with("# Morning Briefing \u{2014} Thursday, January 1, 2026\n\n## Calendar\nNo events today\n"));
    assert!(text.ends_with("## System\nOpenIntentOS v0.1.0 \u{2014} memory OK\n"));
}

#[test]
fn compose_briefing_rejects_impossible_date() {
    let adapter = DailyBriefingAdapter::with_config(BriefingConfig::from_settings(None, None, "0.1.0"));
    assert!(adapter.compose_briefing(2026, 2, 30, &sections()).is_err());
}

#[test]
fn render_briefing_lays_out_sections() {
    let s = BriefingSections {
        calendar: "c".to_string(),
        email: "e".to_string(),
        tasks: "t".to_string(),
        news: "n".to_string(),
    };
    assert_eq!(
        render_briefing("Day", &s, "sys"),
        "# Morning Briefing \u{2014} Day\n\n## Calendar\nc\n\n## Email\ne\n\n## Tasks\nt\n\n## News\nn\n\n## System\nsys\n"
    );
}

#[test]
fn briefing_settings_are_read() {
    let c = BriefingConfig::from_settings(Some("06:30".to_string()), Some("  TRUE ".to_string()), "1.2.3");
    assert_eq!(c.briefing_time, "06:30");
    assert!(c.enabled);
    assert_eq!(c.version, "1.2.3");
    let c = BriefingConfig::from_settings(None, Some("yes".to_string()), "1.2.3");
    assert_eq!(c.briefing_time, "07:00");
    assert!(!c.enabled);
    assert!(true_setting("True"));
    assert!(!true_setting("truee"));
    let adapter = DailyBriefingAdapter::with_config(BriefingConfig::from_settings(None, Some("true".to_string()), "1"));
    assert!(adapter.is_enabled());
    assert_eq!(adapter.briefing_time(), "07:00");
}

#[test]
fn email_section_depends_on_address() {
    assert_eq!(email_section(None), "Email not configured");
    assert_eq!(email_section(Some("   ".to_string())), "Email not configured");
    assert_eq!(email_section(Some("me@example.com".to_string())), "Email unavailable");
}

#[test]
fn news_section_numbers_first_three_headlines() {
    let reply: serde_json::Value = serde_json::from_str(
        r#"{"RelatedTopics": [{"Text": "One"}, {"Icon": {}}, {"Text": "Two"}, {"Text": "Three"}, {"Text": "Four"}]}"#,
    )
    .unwrap();
    assert_eq!(news_section(Some(conv(&reply))), "1. One\n2. Two\n3. Three");
    let empty: serde_json::Value = serde_json::from_str(r#"{"RelatedTopics": []}"#).unwrap();
    assert_eq!(news_section(Some(conv(&empty))), "No headlines available");
    assert_eq!(news_section(None), "No headlines available");
}
