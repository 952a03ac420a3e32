use openintent_adapters::github::{GitHubAdapter, DEFAULT_BASE_URL};
use openintent_adapters::json::{JsonNumber, JsonValue};
use openintent_adapters::traits::AdapterType;
use openintent_adapters::urlencoding;

fn conv(v: &serde_json::Value) -> JsonValue {
    match v {
        serde_json::Value::Null => JsonValue::Null,
        serde_json::Value::Bool(b) => JsonValue::Bool(*b),
        serde_json::Value::Number(n) => {
            if let Some(u) = n.as_u64() {
                JsonValue::Number(JsonNumber::PosInt(u))
            } else if let Some(i) = n.as_i64() {
                JsonValue::Number(JsonNumber::NegInt(i))
            } else {
                JsonValue::Number(JsonNumber::Fraction(n.to_string()))
            }
        }
        serde_json::Value::String(s) => JsonValue::Str(s.clone()),
        serde_json::Value::Array(a) => JsonValue::Array(a.iter().map(conv).collect()),
        serde_json::Value::Object(o) => {
            JsonValue::Object(o.iter().map(|(k, x)| (k.clone(), conv(x))).collect())
        }
    }
}

/// A JSON value from its text.
fn j(text: &str) -> JsonValue {
    conv(&serde_json::from_str(text).unwrap())
}

#[test]
fn github_mod_new_creates_adapter_with_defaults() {
    let adapter = GitHubAdapter::new("gh-test");
    assert_eq!(adapter.id, "gh-test");
    assert!(!adapter.connected);
    assert!(adapter.token.is_none());
    assert_eq!(adapter.base_url, DEFAULT_BASE_URL);
}

#[test]
fn mod_with_token_sets_token() {
    let adapter = GitHubAdapter::with_token("gh-test", "ghp_abc123");
    assert_eq!(adapter.id, "gh-test");
    assert_eq!(adapter.token.as_deref(), Some("ghp_abc123"));
    assert_eq!(adapter.base_url, DEFAULT_BASE_URL);
}

#[test]
fn mod_with_base_url_sets_custom_url() {
    let adapter = GitHubAdapter::with_base_url("gh-ent", "https://github.example.com/api/v3/");
    assert_eq!(adapter.base_url, "https://github.example.com/api/v3");
    assert!(adapter.token.is_none());
}

#[test]
fn github_mod_adapter_id_returns_id() {
    let adapter = GitHubAdapter::new("my-gh");
    assert_eq!(adapter.id(), "my-gh");
}

#[test]
fn mod_adapter_type_is_devtools() {
    let adapter = GitHubAdapter::new("gh");
    assert_eq!(adapter.adapter_type(), AdapterType::DevTools);
}

#[test]
fn mod_required_auth_returns_github_scopes() {
    let adapter = GitHubAdapter::new("gh");
    let auth = adapter.required_auth().expect("should require auth");
    assert_eq!(auth.provider, "github");
    assert!(auth.scopes.contains(&"repo".to_string()));
    assert!(auth.scopes.contains(&"read:org".to_string()));
}

#[test]
fn mod_tools_returns_exactly_ten() {
    let adapter = GitHubAdapter::new("gh");
    let tools = adapter.tools();
    assert_eq!(tools.len(), 10);
}

#[test]
fn github_mod_tools_have_expected_names() {
    let adapter = GitHubAdapter::new("gh");
    let names: Vec<String> = adapter.tools().iter().map(|t| t.name.clone()).collect();
    let expected = vec![
        "github_list_repos",
        "github_get_repo",
        "github_list_issues",
        "github_create_issue",
        "github_get_issue",
        "github_list_pull_requests",
        "github_get_pull_request",
        "github_create_pull_request",
        "github_search_code",
        "github_get_file_content",
    ];
    assert_eq!(names, expected);
}

#[test]
fn mod_tool_parameters_have_required_fields() {
    let adapter = GitHubAdapter::new("gh");
    let tools = adapter.tools();

    let get_repo = tools.iter().find(|t| t.name == "github_get_repo").unwrap();
    let pj = get_repo.parameters.to_json();
    let required = pj.get("required").unwrap().as_array().expect("required should be an array");
    assert!(required.iter().any(|v| v.as_str() == Some("owner")));
    assert!(required.iter().any(|v| v.as_str() == Some("repo")));

    let create_issue = tools.iter().find(|t| t.name == "github_create_issue").unwrap();
    let pj = create_issue.parameters.to_json();
    let required = pj.get("required").unwrap().as_array().expect("required should be an array");
    assert!(required.iter().any(|v| v.as_str() == Some("owner")));
    assert!(required.iter().any(|v| v.as_str() == Some("repo")));
    assert!(required.iter().any(|v| v.as_str() == Some("title")));

    let create_pr = tools.iter().find(|t| t.name == "github_create_pull_request").unwrap();
    let pj = create_pr.parameters.to_json();
    let required = pj.get("required").unwrap().as_array().expect("required should be an array");
    assert_eq!(required.len(), 5);
    assert!(required.iter().any(|v| v.as_str() == Some("head")));
    assert!(required.iter().any(|v| v.as_str() == Some("base")));

    let search = tools.iter().find(|t| t.name == "github_search_code").unwrap();
    let pj = search.parameters.to_json();
    let required = pj.get("required").unwrap().as_array().expect("required should be an array");
    assert!(required.iter().any(|v| v.as_str() == Some("query")));
}

#[test]
fn mod_resolve_token_uses_configured_token() {
    let adapter = GitHubAdapter::with_token("gh", "configured-token");
    let token = adapter.resolve_token(&j(r#"{}"#)).unwrap();
    assert_eq!(token, "configured-token");
}

#[test]
fn mod_resolve_token_per_call_overrides_configured() {
    let adapter = GitHubAdapter::with_token("gh", "configured-token");
    let token = adapter.resolve_token(&j(r#"{"token": "per-call-token"}"#)).unwrap();
    assert_eq!(token, "per-call-token");
}

#[test]
fn mod_resolve_token_fails_when_none_available() {
    let adapter = GitHubAdapter::new("gh");
    let result = adapter.resolve_token(&j(r#"{}"#));
    assert!(result.is_err());
}

#[test]
fn mod_resolve_token_ignores_empty_per_call_token() {
    let adapter = GitHubAdapter::with_token("gh", "configured-token");
    let token = adapter.resolve_token(&j(r#"{"token": ""}"#)).unwrap();
    assert_eq!(token, "configured-token");
}


#[test]
fn github_new_creates_adapter_with_defaults() {
    let adapter = GitHubAdapter::new("gh-test");
    assert_eq!(adapter.id, "gh-test");
    assert!(!adapter.connected);
    assert!(adapter.token.is_none());
    assert_eq!(adapter.base_url, DEFAULT_BASE_URL);
}

#[test]
fn github_with_token_sets_token() {
    let adapter = GitHubAdapter::with_token("gh-test", "ghp_abc123");
    assert_eq!(adapter.id, "gh-test");
    assert_eq!(adapter.token.as_deref(), Some("ghp_abc123"));
    assert_eq!(adapter.base_url, DEFAULT_BASE_URL);
}

#[test]
fn github_with_base_url_sets_custom_url() {
    let adapter = GitHubAdapter::with_base_url("gh-ent", "https://github.example.com/api/v3/");
    assert_eq!(adapter.base_url, "https://github.example.com/api/v3");
    assert!(adapter.token.is_none());
}

#[test]
fn github_adapter_id_returns_id() {
    let adapter = GitHubAdapter::new("my-gh");
    assert_eq!(adapter.id(), "my-gh");
}

#[test]
fn github_adapter_type_is_devtools() {
    let adapter = GitHubAdapter::new("gh");
    assert_eq!(adapter.adapter_type(), AdapterType::DevTools);
}

#[test]
fn github_required_auth_returns_github_scopes() {
    let adapter = GitHubAdapter::new("gh");
    let auth = adapter.required_auth().expect("should require auth");
    assert_eq!(auth.provider, "github");
    assert!(auth.scopes.contains(&"repo".to_string()));
    assert!(auth.scopes.contains(&"read:org".to_string()));
}

#[test]
fn github_tools_returns_exactly_ten() {
    let adapter = GitHubAdapter::new("gh");
    let tools = adapter.tools();
    assert_eq!(tools.len(), 10);
}

#[test]
fn github_tools_have_expected_names() {
    let adapter = GitHubAdapter::new("gh");
    let names: Vec<String> = adapter.tools().iter().map(|t| t.name.clone()).collect();
    let expected = vec![
        "github_list_repos",
        "github_get_repo",
        "github_list_issues",
        "github_create_issue",
        "github_get_issue",
        "github_list_pull_requests",
        "github_get_pull_request",
        "github_create_pull_request",
        "github_search_code",
        "github_get_file_content",
    ];
    assert_eq!(names, expected);
}

#[test]
fn github_tool_parameters_have_required_fields() {
    let adapter = GitHubAdapter::new("gh");
    let tools = adapter.tools();

    // github_get_repo requires owner and repo
    let get_repo = tools.iter().find(|t| t.name == "github_get_repo").unwrap();
    let pj = get_repo.parameters.to_json();
    let required = pj.get("required").unwrap()
        .as_array()
        .expect("required should be an array");
    assert!(required.iter().any(|v| v.as_str() == Some("owner")));
    assert!(required.iter().any(|v| v.as_str() == Some("repo")));

    // github_create_issue requires owner, repo, title
    let create_issue = tools
        .iter()
        .find(|t| t.name == "github_create_issue")
        .unwrap();
    let pj = create_issue.parameters.to_json();
    let required = pj.get("required").unwrap()
        .as_array()
        .expect("required should be an array");
    assert!(required.iter().any(|v| v.as_str() == Some("owner")));
    assert!(required.iter().any(|v| v.as_str() == Some("repo")));
    assert!(required.iter().any(|v| v.as_str() == Some("title")));

    // github_create_pull_request requires owner, repo, title, head, base
    let create_pr = tools
        .iter()
        .find(|t| t.name == "github_create_pull_request")
        .unwrap();
    let pj = create_pr.parameters.to_json();
    let required = pj.get("required").unwrap()
        .as_array()
        .expect("required should be an array");
    assert_eq!(required.len(), 5);
    assert!(required.iter().any(|v| v.as_str() == Some("head")));
    assert!(required.iter().any(|v| v.as_str() == Some("base")));

    // github_search_code requires query
    let search = tools
        .iter()
        .find(|t| t.name == "github_search_code")
        .unwrap();
    let pj = search.parameters.to_json();
    let required = pj.get("required").unwrap()
        .as_array()
        .expect("required should be an array");
    assert!(required.iter().any(|v| v.as_str() == Some("query")));
}

#[test]
fn tool_parameters_list_repos_has_no_required_fields() {
    let adapter = GitHubAdapter::new("gh");
    let tools = adapter.tools();
    let list_repos = tools
        .iter()
        .find(|t| t.name == "github_list_repos")
        .unwrap();
    let pj = list_repos.parameters.to_json();
    let required = pj.get("required").unwrap()
        .as_array()
        .expect("required should be an array");
    assert!(required.is_empty());
}

#[test]
fn github_resolve_token_uses_configured_token() {
    let adapter = GitHubAdapter::with_token("gh", "configured-token");
    let token = adapter.resolve_token(&j(r#"{}"#)).unwrap();
    assert_eq!(token, "configured-token");
}

#[test]
fn github_resolve_token_per_call_overrides_configured() {
    let adapter = GitHubAdapter::with_token("gh", "configured-token");
    let token = adapter
        .resolve_token(&j(r#"{"token": "per-call-token"}"#))
        .unwrap();
    assert_eq!(token, "per-call-token");
}

#[test]
fn github_resolve_token_fails_when_none_available() {
    let adapter = GitHubAdapter::new("gh");
    let result = adapter.resolve_token(&j(r#"{}"#));
    assert!(result.is_err());
}

#[test]
fn github_resolve_token_ignores_empty_per_call_token() {
    let adapter = GitHubAdapter::with_token("gh", "configured-token");
    let token = adapter.resolve_token(&j(r#"{"token": ""}"#)).unwrap();
    assert_eq!(token, "configured-token");
}

#[test]
fn github_api_url_constructs_correct_urls() {
    let adapter = GitHubAdapter::new("gh");
    assert_eq!(adapter.api_url("/user"), "https://api.github.com/user");
    assert_eq!(
        adapter.api_url("/repos/octocat/hello-world"),
        "https://api.github.com/repos/octocat/hello-world"
    );
}

#[test]
fn api_url_works_with_custom_base_url() {
    let adapter = GitHubAdapter::with_base_url("gh-ent", "https://github.example.com/api/v3");
    assert_eq!(
        adapter.api_url("/user"),
        "https://github.example.com/api/v3/user"
    );
}

#[test]
fn urlencoding_encodes_spaces_and_special_chars() {
    assert_eq!(urlencoding::encode("hello world"), "hello%20world");
    assert_eq!(urlencoding::encode("a+b"), "a%2Bb");
    assert_eq!(urlencoding::encode("foo/bar"), "foo%2Fbar");
    assert_eq!(
        urlencoding::encode("safe-string_v1.0~beta"),
        "safe-string_v1.0~beta"
    );
}



use openintent_adapters::traits::HealthStatus;

#[test]
fn github_mod_health_check_returns_unhealthy_when_disconnected() {
    let adapter = GitHubAdapter::new("gh");
    let status = adapter.health_precheck().unwrap();
    assert_eq!(status, HealthStatus::Unhealthy);
}

#[test]
fn github_mod_execute_tool_rejects_when_not_connected() {
    let adapter = GitHubAdapter::with_token("gh", "some-token");
    let result = adapter.plan_tool("github_list_repos", j(r#"{}"#));
    assert!(result.is_err());
    let err = result.unwrap_err();
    assert!(err.to_string().contains("not connected"), "error should mention not connected: {err:?}");
}

#[test]
fn github_mod_execute_tool_rejects_unknown_tool() {
    let mut adapter = GitHubAdapter::with_token("gh", "some-token");
    adapter.connected = true;
    let result = adapter.plan_tool("nonexistent_tool", j(r#"{}"#));
    assert!(result.is_err());
    let err = result.unwrap_err();
    assert!(err.to_string().contains("tool not found"), "error should mention tool not found: {err:?}");
}

#[test]
fn github_mod_get_repo_rejects_missing_owner() {
    let mut adapter = GitHubAdapter::with_token("gh", "token");
    adapter.connected = true;
    let result = adapter.plan_tool("github_get_repo", j(r#"{"repo": "test"}"#));
    assert!(result.is_err());
    assert!(result.unwrap_err().to_string().contains("owner"));
}

#[test]
fn github_mod_get_repo_rejects_missing_repo() {
    let mut adapter = GitHubAdapter::with_token("gh", "token");
    adapter.connected = true;
    let result = adapter.plan_tool("github_get_repo", j(r#"{"owner": "test"}"#));
    assert!(result.is_err());
    assert!(result.unwrap_err().to_string().contains("repo"));
}

#[test]
fn github_mod_create_issue_rejects_missing_title() {
    let mut adapter = GitHubAdapter::with_token("gh", "token");
    adapter.connected = true;
    let result = adapter
        .plan_tool("github_create_issue", j(r#"{"owner": "test", "repo": "test"}"#));
    assert!(result.is_err());
    assert!(result.unwrap_err().to_string().contains("title"));
}

#[test]
fn github_mod_search_code_rejects_missing_query() {
    let mut adapter = GitHubAdapter::with_token("gh", "token");
    adapter.connected = true;
    let result = adapter.plan_tool("github_search_code", j(r#"{}"#));
    assert!(result.is_err());
    assert!(result.unwrap_err().to_string().contains("query"));
}

#[test]
fn github_mod_get_file_content_rejects_missing_path() {
    let mut adapter = GitHubAdapter::with_token("gh", "token");
    adapter.connected = true;
    let result = adapter
        .plan_tool("github_get_file_content", j(r#"{"owner": "test", "repo": "test"}"#));
    assert!(result.is_err());
    assert!(result.unwrap_err().to_string().contains("path"));
}

#[test]
fn github_mod_create_pr_rejects_missing_head() {
    let mut adapter = GitHubAdapter::with_token("gh", "token");
    adapter.connected = true;
    let result = adapter
        .plan_tool("github_create_pull_request", j(r#"{"owner": "o", "repo": "r", "title": "t", "base": "main"}"#),
        );
    assert!(result.is_err());
    assert!(result.unwrap_err().to_string().contains("head"));
}

#[test]
fn github_mod_connect_succeeds_without_token() {
    let mut adapter = GitHubAdapter::new("gh");
    let result = adapter.complete_connect(None);
    assert!(result.is_ok());
    assert!(adapter.connected);
}

#[test]
fn github_mod_disconnect_sets_connected_false() {
    let mut adapter = GitHubAdapter::new("gh");
    adapter.connected = true;
    adapter.disconnect().unwrap();
    assert!(!adapter.connected);
}



#[test]
fn github_health_check_returns_unhealthy_when_disconnected() {
    let adapter = GitHubAdapter::new("gh");
    let status = adapter.health_precheck().unwrap();
    assert_eq!(status, HealthStatus::Unhealthy);
}

#[test]
fn github_search_code_rejects_missing_query() {
    let mut adapter = GitHubAdapter::with_token("gh", "token");
    adapter.connected = true;
    let result = adapter.plan_tool("github_search_code", j(r#"{}"#));
    assert!(result.is_err());
    assert!(result.unwrap_err().to_string().contains("query"));
}

#[test]
fn github_create_pr_rejects_missing_head() {
    let mut adapter = GitHubAdapter::with_token("gh", "token");
    adapter.connected = true;
    let result = adapter
        .plan_tool("github_create_pull_request", j(r#"{"owner": "o", "repo": "r", "title": "t", "base": "main"}"#),
        );
    assert!(result.is_err());
    assert!(result.unwrap_err().to_string().contains("head"));
}

#[test]
fn github_connect_succeeds_without_token() {
    let mut adapter = GitHubAdapter::new("gh");
    let result = adapter.complete_connect(None);
    assert!(result.is_ok());
    assert!(adapter.connected);
}

#[test]
fn github_disconnect_sets_connected_false() {
    let mut adapter = GitHubAdapter::new("gh");
    adapter.connected = true;
    adapter.disconnect().unwrap();
    assert!(!adapter.connected);
}


#[test]
fn github_execute_tool_rejects_when_not_connected() {
    let adapter = GitHubAdapter::with_token("gh", "some-token");
    let result = adapter.plan_tool("github_list_repos", j(r#"{}"#));
    assert!(result.is_err());
    let err = result.unwrap_err();
    assert!(err.to_string().contains("not connected"), "error should mention not connected: {err:?}");
}

#[test]
fn github_execute_tool_rejects_unknown_tool() {
    let mut adapter = GitHubAdapter::with_token("gh", "some-token");
    adapter.connected = true;
    let result = adapter.plan_tool("nonexistent_tool", j(r#"{}"#));
    assert!(result.is_err());
    let err = result.unwrap_err();
    assert!(err.to_string().contains("tool not found"), "error should mention tool not found: {err:?}");
}

#[test]
fn github_get_repo_rejects_missing_owner() {
    let mut adapter = GitHubAdapter::with_token("gh", "token");
    adapter.connected = true;
    let result = adapter.plan_tool("github_get_repo", j(r#"{"repo": "test"}"#));
    assert!(result.is_err());
    assert!(result.unwrap_err().to_string().contains("owner"));
}

#[test]
fn github_get_repo_rejects_missing_repo() {
    let mut adapter = GitHubAdapter::with_token("gh", "token");
    adapter.connected = true;
    let result = adapter.plan_tool("github_get_repo", j(r#"{"owner": "test"}"#));
    assert!(result.is_err());
    assert!(result.unwrap_err().to_string().contains("repo"));
}

#[test]
fn github_create_issue_rejects_missing_title() {
    let mut adapter = GitHubAdapter::with_token("gh", "token");
    adapter.connected = true;
    let result = adapter
        .plan_tool("github_create_issue", j(r#"{"owner": "test", "repo": "test"}"#));
    assert!(result.is_err());
    assert!(result.unwrap_err().to_string().contains("title"));
}

#[test]
fn github_get_file_content_rejects_missing_path() {
    let mut adapter = GitHubAdapter::with_token("gh", "token");
    adapter.connected = true;
    let result = adapter
        .plan_tool("github_get_file_content", j(r#"{"owner": "test", "repo": "test"}"#));
    assert!(result.is_err());
    assert!(result.unwrap_err().to_string().contains("path"));
}
