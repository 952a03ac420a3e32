use openintent_adapters::bilibili::BilibiliAdapter;
use openintent_adapters::browser::BrowserAdapter;
use openintent_adapters::calendar::CalendarAdapter;
use openintent_adapters::cron::CronAdapter;
use openintent_adapters::dingtalk::webhook_body;
use openintent_adapters::dingtalk::DingTalkAdapter;
use openintent_adapters::discord::DiscordAdapter;
use openintent_adapters::douyin::DouyinAdapter;
use openintent_adapters::email::EmailAdapter;
use openintent_adapters::error::AdapterError;
use openintent_adapters::feishu::FeishuAdapter;
use openintent_adapters::filesystem::FilesystemAdapter;
use openintent_adapters::github::GitHubAdapter;
use openintent_adapters::json::JsonValue;

fn empty() -> JsonValue {
    JsonValue::Object(Vec::new())
}

fn unknown<T>(r: &Result<T, AdapterError>) -> bool {
    matches!(r, Err(AdapterError::ToolNotFound { .. }))
}

#[test]
fn email_listed_tools_are_executed() {
    let mut a = EmailAdapter::new("e");
    a.connect().unwrap();
    let tools = a.tools();
    assert_eq!(tools.len(), 4);
    for t in &tools {
        assert!(!unknown(&a.plan_tool(&t.name, &empty())), "{}", t.name);
    }
    assert!(unknown(&a.plan_tool("email_delete", &empty())));
}

#[test]
fn calendar_listed_tools_are_executed() {
    let mut a = CalendarAdapter::new("c");
    a.connect().unwrap();
    for t in &a.tools() {
        assert!(!unknown(&a.plan_tool(&t.name, &empty())), "{}", t.name);
    }
    assert!(unknown(&a.plan_tool("calendar_share", &empty())));
}

#[test]
fn discord_listed_tools_are_executed() {
    let mut a = DiscordAdapter::with_token("d", "tok");
    a.connected = true;
    for t in &a.tools() {
        assert!(!unknown(&a.plan_tool(&t.name, &empty())), "{}", t.name);
    }
    assert!(unknown(&a.plan_tool("discord_ban", &empty())));
}

#[test]
fn feishu_listed_tools_are_executed() {
    let mut a = FeishuAdapter::new("f");
    a.connected = true;
    for t in &a.tools() {
        assert!(!unknown(&a.plan_tool(&t.name, &empty())), "{}", t.name);
    }
    assert!(unknown(&a.plan_tool("feishu_call", &empty())));
}

#[test]
fn github_listed_tools_are_executed() {
    let mut a = GitHubAdapter::with_token("g", "tok");
    a.connected = true;
    let tools = a.tools();
    assert_eq!(tools.len(), 10);
    for t in &tools {
        assert!(!unknown(&a.plan_tool(&t.name, empty())), "{}", t.name);
    }
    assert!(unknown(&a.plan_tool("github_fork", empty())));
}

#[test]
fn filesystem_listed_tools_are_executed() {
    let mut a = FilesystemAdapter::new("fs", "/srv/data");
    a.connected = true;
    for t in &a.tools() {
        assert!(!unknown(&a.plan_tool(&t.name, &empty(), "/srv/data")), "{}", t.name);
    }
    assert!(unknown(&a.plan_tool("fs_chmod", &empty(), "/srv/data")));
}

#[test]
fn bilibili_listed_tools_are_executed() {
    let a = BilibiliAdapter::with_credentials(
        "b",
        Some("kid".to_string()),
        Some("ksecret".to_string()),
        Some("1001".to_string()),
    );
    for t in &a.tools() {
        assert!(!unknown(&a.plan_tool(&t.name, &empty())), "{}", t.name);
    }
    assert!(unknown(&a.plan_tool("bili_follow", &empty())));
}

#[test]
fn douyin_listed_tools_are_executed() {
    let a = DouyinAdapter::with_settings(
        "dy",
        Some("ck".to_string()),
        Some("cs".to_string()),
        Some("at".to_string()),
        Some("oid".to_string()),
    );
    for t in &a.tools() {
        assert!(!unknown(&a.plan_tool(&t.name, &empty())), "{}", t.name);
    }
    assert!(unknown(&a.plan_tool("douyin_like", &empty())));
}

#[test]
fn dingtalk_listed_tools_are_executed() {
    let a = DingTalkAdapter::with_settings("dt", None, None, Some("https://oapi.dingtalk.com/robot/send?access_token=x".to_string()), None);
    for t in &a.tools() {
        assert!(!unknown(&webhook_body(&t.name, &empty())), "{}", t.name);
    }
    assert!(unknown(&webhook_body("dingtalk_call", &empty())));
}

#[test]
fn browser_listed_tools_are_executed() {
    let mut a = BrowserAdapter::new("br");
    a.connected = true;
    for t in &a.tools() {
        let r = a.plan_tool(&t.name, &empty());
        assert!(!unknown(&r), "{}", t.name);
    }
    assert!(unknown(&a.plan_tool("browser_print", &empty())));
}

#[test]
fn cron_listed_tools_are_executed() {
    let mut a = CronAdapter::new("cr");
    a.connect().unwrap();
    for t in &a.tools() {
        let r = a.execute_tool(&t.name, &empty());
        assert!(!unknown(&r), "{}", t.name);
    }
    assert!(unknown(&a.execute_tool("cron_pause", &empty())));
}
