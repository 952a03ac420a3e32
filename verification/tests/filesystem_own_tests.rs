use openintent_adapters::filesystem::{
    count_matches, join_path, read_file_result, str_replace_plan, str_replace_result, truncate_content, FilesystemAdapter,
    FsRequest,
};
use openintent_adapters::json::{JsonNumber, JsonValue};
use openintent_adapters::traits::HealthStatus;

fn conv(v: &serde_json::Value) -> JsonValue {
    match v {
        serde_json::Value::Null => JsonValue::Null,
        serde_json::Value::Bool(b) => JsonValue::Bool(*b),
        serde_json::Value::Number(n) => {
            if let Some(u) = n.as_u64() {
                JsonValue::Number(JsonNumber::PosInt(u))
            } else if let Some(i) = n.as_i64() {
                JsonValue::Number(JsonNumber::NegInt(i))
            } else {
                JsonValue::Number(JsonNumber::Fraction(n.to_string()))
            }
        }
        serde_json::Value::String(s) => JsonValue::Str(s.clone()),
        serde_json::Value::Array(a) => JsonValue::Array(a.iter().map(conv).collect()),
        serde_json::Value::Object(o) => {
            JsonValue::Object(o.iter().map(|(k, x)| (k.clone(), conv(x))).collect())
        }
    }
}

/// A JSON value from its text.
fn j(text: &str) -> JsonValue {
    conv(&serde_json::from_str(text).unwrap())
}

#[test]
fn filesystem_adapter_tools_not_empty() {
    let adapter = FilesystemAdapter::new("fs-test", "/tmp");
    assert_eq!(adapter.tools().len(), 7);
}

#[test]
fn filesystem_adapter_health_when_disconnected() {
    let adapter = FilesystemAdapter::new("fs-test", "/tmp");
    assert_eq!(adapter.health_from(Some(true)), HealthStatus::Unhealthy);
    let mut adapter = adapter;
    adapter.connect().unwrap();
    assert_eq!(adapter.health_from(Some(true)), HealthStatus::Healthy);
    assert_eq!(adapter.health_from(Some(false)), HealthStatus::Degraded);
    assert_eq!(adapter.health_from(None), HealthStatus::Unhealthy);
}

#[test]
fn filesystem_adapter_rejects_when_not_connected() {
    let adapter = FilesystemAdapter::new("fs-test", "/tmp");
    let result = adapter.plan_tool("fs_read_file", &j(r#"{"path": "/tmp/test.txt"}"#), "/tmp");
    assert!(result.is_err());
}

#[test]
fn path_traversal_is_blocked() {
    let adapter = FilesystemAdapter::new("fs-test", "/tmp/sandbox");
    let result = adapter.safe_resolve("../../etc/passwd", "/tmp/sandbox", "fs_read_file");
    assert!(result.is_err());
    let err_msg = result.unwrap_err().to_string();
    assert!(err_msg.contains("outside the root directory"));
    assert!(err_msg.contains("resolves to `/etc/passwd`"));
}

#[test]
fn safe_resolve_keeps_paths_inside_root() {
    let adapter = FilesystemAdapter::new("fs-test", "/tmp/sandbox");
    assert_eq!(adapter.safe_resolve("notes/a.txt", "/tmp/sandbox", "fs_read_file").unwrap(), "/tmp/sandbox/notes/a.txt");
    assert_eq!(adapter.safe_resolve("x/../y.txt", "/tmp/sandbox", "fs_read_file").unwrap(), "/tmp/sandbox/y.txt");
    assert_eq!(adapter.safe_resolve("/tmp/sandbox/z", "/tmp/sandbox", "fs_read_file").unwrap(), "/tmp/sandbox/z");
    assert!(adapter.safe_resolve("/etc/hosts", "/tmp/sandbox", "fs_read_file").is_err());
    assert!(adapter.safe_resolve("/tmp/sandboxed/file", "/tmp/sandbox", "fs_read_file").is_err());
}

#[test]
fn join_path_replaces_root_for_absolute_paths() {
    assert_eq!(join_path("/tmp/root", "a/b"), "/tmp/root/a/b");
    assert_eq!(join_path("/tmp/root/", "a"), "/tmp/root/a");
    assert_eq!(join_path("/tmp/root", "/etc"), "/etc");
}

#[test]
fn fs_plan_resolves_and_reads_parameters() {
    let mut adapter = FilesystemAdapter::new("fs-test", "/srv/data");
    adapter.connect().unwrap();
    match adapter.plan_tool("fs_write_file", &j(r#"{"path": "out/x.txt", "content": "hi"}"#), "/srv/data").unwrap() {
        FsRequest::WriteFile { path, content } => {
            assert_eq!(path, "/srv/data/out/x.txt");
            assert_eq!(content, "hi");
        }
        other => panic!("unexpected {other:?}"),
    }
    let err = adapter.plan_tool("fs_write_file", &j(r#"{"path": "x"}"#), "/srv/data").unwrap_err();
    assert!(err.to_string().contains("content"));
    let err = adapter.plan_tool("fs_bogus", &j("{}"), "/srv/data").unwrap_err();
    assert!(err.to_string().contains("fs_bogus"));
}

#[test]
fn fs_str_replace_success() {
    let content = str_replace_plan("Hello, World!", "World", "Rust", "/tmp/replace_test.txt").unwrap();
    assert_eq!(content, "Hello, Rust!");
    let result = str_replace_result("/tmp/replace_test.txt");
    assert_eq!(result.get("success").and_then(|v| v.as_bool()), Some(true));
    assert_eq!(result.get("match_count").and_then(|v| v.as_u64()), Some(1));
}

#[test]
fn fs_str_replace_not_found() {
    let result = str_replace_plan("Hello, World!", "does_not_exist", "anything", "/tmp/replace_test.txt");
    assert!(result.is_err());
    let err_msg = result.unwrap_err().to_string();
    assert!(err_msg.contains("old_string not found"));
}

#[test]
fn fs_str_replace_ambiguous() {
    let result = str_replace_plan("aaa bbb aaa", "aaa", "ccc", "/tmp/replace_test.txt");
    assert!(result.is_err());
    let err_msg = result.unwrap_err().to_string();
    assert!(err_msg.contains("matches 2 times"));
}

#[test]
fn count_matches_counts_non_overlapping() {
    assert_eq!(count_matches("aaaa", "aa"), 2);
    assert_eq!(count_matches("abcabc", "abc"), 2);
    assert_eq!(count_matches("abc", "x"), 0);
}

#[test]
fn truncate_content_keeps_small_files() {
    let (c, t) = truncate_content("short text");
    assert_eq!(c, "short text");
    assert!(!t);
    let r = read_file_result("/tmp/a", "short text");
    assert_eq!(r.get("size_bytes").and_then(|v| v.as_u64()), Some(10));
    assert_eq!(r.get("truncated").and_then(|v| v.as_bool()), Some(false));
}

#[test]
fn truncate_content_cuts_large_files_on_char_boundary() {
    let big = "é".repeat(9000);
    let (c, t) = truncate_content(&big);
    assert!(t);
    assert!(c.starts_with(&"é".repeat(8000)));
    assert!(c.ends_with("[... file truncated at 16000 chars (18000 total). Use offset param to read more.]"));
}

#[test]
fn normalizing_twice_changes_nothing() {
    for p in [
        "/tmp/sandbox/sub/../other",
        "../a/./b/../c",
        "/x/../../y",
        "a//b/",
        "",
        "/",
        "./..",
        "../../z/./",
        "/a/b/c/../../d/./e",
    ] {
        let once = openintent_adapters::filesystem::normalize_path(p);
        let twice = openintent_adapters::filesystem::normalize_path(&once);
        assert_eq!(once, twice, "path {p:?}");
    }
}

#[test]
fn resolved_paths_are_normal_and_under_root() {
    let adapter = openintent_adapters::filesystem::FilesystemAdapter::new("fs", "/srv/data");
    for raw in ["notes/a.txt", "./x/../y.txt", "/srv/data/deep/./file", "sub/dir/../../k"] {
        let p = adapter.safe_resolve(raw, "/srv/data", "fs_read_file").unwrap();
        assert_eq!(openintent_adapters::filesystem::normalize_path(&p), p);
        assert!(p.starts_with("/srv/data/"), "{p}");
    }
    assert!(adapter.safe_resolve("../etc/passwd", "/srv/data", "fs_read_file").is_err());
}

#[test]
fn canonical_request_uses_the_canonical_path_inside_the_root() {
    let adapter = FilesystemAdapter::new("fs", "/srv/data");
    let q = FsRequest::ReadFile { path: "/srv/data/link/a.txt".to_string() };
    match adapter.canonical_request(q, Some("/srv/data/real/a.txt".to_string()), "/srv/data", "fs_read_file") {
        Ok(FsRequest::ReadFile { path }) => assert_eq!(path, "/srv/data/real/a.txt"),
        other => panic!("unexpected {other:?}"),
    }
    let q = FsRequest::WriteFile { path: "/srv/data/new.txt".to_string(), content: "x".to_string() };
    match adapter.canonical_request(q, None, "/srv/data", "fs_write_file") {
        Ok(FsRequest::WriteFile { path, content }) => {
            assert_eq!(path, "/srv/data/new.txt");
            assert_eq!(content, "x");
        }
        other => panic!("unexpected {other:?}"),
    }
    let q = FsRequest::ReadFile { path: "/srv/data/escape".to_string() };
    let err = adapter
        .canonical_request(q, Some("/etc/passwd".to_string()), "/srv/data", "fs_read_file")
        .unwrap_err()
        .to_string();
    assert!(err.contains("outside the root directory"), "{err}");
}
