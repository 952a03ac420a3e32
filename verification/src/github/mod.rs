//! GitHub REST API v3 adapter.
//!
//! Ten tools over repositories, issues, pull requests, code search and file
//! contents, for github.com or a GitHub Enterprise base URL.  A call is
//! checked and turned into a [`GitHubRequest`]; sending it is left to the
//! caller, and the reply is judged by [`github_response_error`].

pub mod issues;
pub mod repos;
pub mod tools;

use vstd::prelude::*;
use vstd::string::*;

use crate::error::{AdapterError, invalid_params, is_auth_required, is_execution_failed, is_invalid_params, missing_field, missing_field_reason};
use crate::github::issues::{issue_body, pull_body};
use crate::github::repos::{repo_path, url_encode};
use crate::github::tools::{build_tool_definitions, github_tool_shapes};
use crate::json::{
    JsonValue, field, first_absent, first_missing, get_str, get_u64, lemma_first_absent, nonempty_str_field,
    str_field, str_of, u64_field,
};
use crate::text::{decimal, same_text, trim_end_slashes, trim_slashes, u64_to_decimal};
use crate::traits::{
    AdapterType, AuthRequirement, HealthStatus, HttpMethod, ToolDefinition, auth_requirement,
    ensure_connected, is_not_connected_error, is_tool_not_found, str_views, tool_not_found, views, is_unknown_tool, lists_tool};
use crate::urlencoding::percent_encoded;

verus! {

/// Default GitHub API base URL.
pub const DEFAULT_BASE_URL: &'static str = "https://api.github.com";

/// GitHub REST API v3 adapter.
#[derive(Debug)]
pub struct GitHubAdapter {
    pub id: String,
    pub connected: bool,
    pub token: Option<String>,
    pub base_url: String,
}

/// A request for the GitHub API.
#[derive(Debug)]
pub struct GitHubRequest {
    /// The tool the request serves (named in errors).
    pub tool: String,
    pub method: HttpMethod,
    pub url: String,
    /// Bearer token.
    pub token: String,
    /// JSON body of a POST.
    pub body: Option<JsonValue>,
}

/// Whether `name` is one of the ten GitHub tools.
pub open spec fn is_github_tool(name: Seq<char>) -> bool {
    name == "github_list_repos"@ || name == "github_get_repo"@ || name == "github_list_issues"@ || name
        == "github_create_issue"@ || name == "github_get_issue"@ || name == "github_list_pull_requests"@
        || name == "github_get_pull_request"@ || name == "github_create_pull_request"@ || name
        == "github_search_code"@ || name == "github_get_file_content"@
}

/// The string parameters a tool requires, in the order they are checked.
pub open spec fn gh_fields(name: Seq<char>) -> Seq<Seq<char>> {
    if name == "github_list_repos"@ {
        Seq::empty()
    } else if name == "github_create_issue"@ {
        seq!["owner"@, "repo"@, "title"@]
    } else if name == "github_create_pull_request"@ {
        seq!["owner"@, "repo"@, "title"@, "head"@, "base"@]
    } else if name == "github_search_code"@ {
        seq!["query"@]
    } else if name == "github_get_file_content"@ {
        seq!["owner"@, "repo"@, "path"@]
    } else {
        seq!["owner"@, "repo"@]
    }
}

/// Whether a tool requires the integer parameter `number`.
pub open spec fn needs_number(name: Seq<char>) -> bool {
    name == "github_get_issue"@ || name == "github_get_pull_request"@
}

/// The reason a call is refused for a missing parameter, if it is.
pub open spec fn gh_missing(name: Seq<char>, params: JsonValue) -> Option<Seq<char>> {
    match first_absent(params, gh_fields(name)) {
        Some(k) => Some(missing_field_reason(k)),
        None => if needs_number(name) && u64_field(params, "number"@) is None {
            Some("missing required integer field `number`"@)
        } else {
            None
        },
    }
}

/// An integer parameter, or a default.
pub open spec fn u64_or(params: JsonValue, key: Seq<char>, d: u64) -> u64 {
    match u64_field(params, key) {
        Some(n) => n,
        None => d,
    }
}

/// A string parameter, or a default.
pub open spec fn str_or(params: JsonValue, key: Seq<char>, d: Seq<char>) -> Seq<char> {
    match str_field(params, key) {
        Some(s) => s,
        None => d,
    }
}

/// `<base>/repos/<owner>/<repo>`.
pub open spec fn repo_url(base: Seq<char>, params: JsonValue) -> Seq<char> {
    base + "/repos/"@ + str_or(params, "owner"@, Seq::empty()) + "/"@ + str_or(params, "repo"@, Seq::empty())
}

/// The URL a tool asks for.
pub open spec fn gh_url(base: Seq<char>, name: Seq<char>, params: JsonValue) -> Seq<char> {
    let page = decimal(u64_or(params, "page"@, 1) as nat);
    let state = str_or(params, "state"@, "open"@);
    let number = decimal(u64_or(params, "number"@, 0) as nat);
    if name == "github_list_repos"@ {
        let tail = "/repos?page="@ + page + "&per_page="@ + decimal(u64_or(params, "per_page"@, 30) as nat);
        match str_field(params, "org"@) {
            Some(org) => base + "/orgs/"@ + org + tail,
            None => base + "/user"@ + tail,
        }
    } else if name == "github_get_repo"@ {
        repo_url(base, params)
    } else if name == "github_list_issues"@ {
        repo_url(base, params) + "/issues?state="@ + state + "&page="@ + page
    } else if name == "github_create_issue"@ {
        repo_url(base, params) + "/issues"@
    } else if name == "github_get_issue"@ {
        repo_url(base, params) + "/issues/"@ + number
    } else if name == "github_list_pull_requests"@ {
        repo_url(base, params) + "/pulls?state="@ + state + "&page="@ + page
    } else if name == "github_get_pull_request"@ {
        repo_url(base, params) + "/pulls/"@ + number
    } else if name == "github_create_pull_request"@ {
        repo_url(base, params) + "/pulls"@
    } else if name == "github_search_code"@ {
        base + "/search/code?q="@ + percent_encoded(vstd::utf8::encode_utf8(str_or(params, "query"@, Seq::empty())))
            + "&page="@ + page
    } else {
        repo_url(base, params) + "/contents/"@ + str_or(params, "path"@, Seq::empty()) + match str_field(
            params,
            "ref"@,
        ) {
            Some(g) => "?ref="@ + g,
            None => Seq::empty(),
        }
    }
}

/// The token of a call: a non-empty `token` parameter, else the configured one.
pub open spec fn token_of(a: GitHubAdapter, params: JsonValue) -> Option<Seq<char>> {
    match nonempty_str_field(params, "token"@) {
        Some(t) => Some(t),
        None => match a.token {
            Some(t) => Some(t@),
            None => None,
        },
    }
}

/// Whether the body of a POST is what the tool sends (see [`issue_body`]
/// and [`pull_body`]).
pub open spec fn gh_body_ok(name: Seq<char>, params: JsonValue, body: Option<JsonValue>) -> bool {
    if name == "github_create_issue"@ {
        body matches Some(b) && crate::github::issues::is_issue_body(b, params)
    } else if name == "github_create_pull_request"@ {
        body matches Some(b) && crate::github::issues::is_pull_body(b, params)
    } else {
        body is None
    }
}

/// What a GitHub call gives: the checks in order (connection, token, tool
/// name, parameters), then the request.
pub open spec fn github_plan_outcome(a: GitHubAdapter, name: Seq<char>, params: JsonValue, r: Result<GitHubRequest, AdapterError>) -> bool {
    if !a.connected {
        r matches Err(e) && is_not_connected_error(e, a.id@, name)
    } else {
        match token_of(a, params) {
            None => r matches Err(e) && is_auth_required(e, a.id@, "github"@),
            Some(t) => if !is_github_tool(name) {
                r matches Err(e) && is_tool_not_found(e, a.id@, name)
            } else {
                match gh_missing(name, params) {
                    Some(reason) => r matches Err(e) && is_invalid_params(e, name, reason),
                    None => r matches Ok(q) && q.tool@ == name && q.token@ == t && q.url@ == gh_url(
                        a.base_url@,
                        name,
                        params,
                    ) && q.method == (if name == "github_create_issue"@ || name == "github_create_pull_request"@ {
                        HttpMethod::Post
                    } else {
                        HttpMethod::Get
                    }) && gh_body_ok(name, params, q.body),
                }
            },
        }
    }
}

fn str_param_or(params: &JsonValue, key: &str, d: &str) -> (r: String)
    ensures
        r@ == str_or(*params, key@, d@),
{
    match get_str(params, key) {
        Some(s) => s,
        None => String::from_str(d),
    }
}

fn u64_param_or(params: &JsonValue, key: &str, d: u64) -> (r: u64)
    ensures
        r == u64_or(*params, key@, d),
{
    match get_u64(params, key) {
        Some(n) => n,
        None => d,
    }
}

/// The tools the adapter lists are exactly those it executes: once connected and with a token, a
/// call is answered "tool not found" exactly when `tools` does not list its
/// name.
pub proof fn law_listed_tools_are_executed(a: GitHubAdapter, ts: Seq<ToolDefinition>, name: Seq<char>, params: JsonValue, r: Result<GitHubRequest, AdapterError>)
    requires
        github_tool_shapes(ts),
        a.connected,
        token_of(a, params) is Some,
        github_plan_outcome(a, name, params, r),
    ensures
        is_unknown_tool(r) <==> !lists_tool(ts, name),
{
    if name == "github_list_repos"@ {
        assert(ts[0].name@ == name);
    } else if name == "github_get_repo"@ {
        assert(ts[1].name@ == name);
    } else if name == "github_list_issues"@ {
        assert(ts[2].name@ == name);
    } else if name == "github_create_issue"@ {
        assert(ts[3].name@ == name);
    } else if name == "github_get_issue"@ {
        assert(ts[4].name@ == name);
    } else if name == "github_list_pull_requests"@ {
        assert(ts[5].name@ == name);
    } else if name == "github_get_pull_request"@ {
        assert(ts[6].name@ == name);
    } else if name == "github_create_pull_request"@ {
        assert(ts[7].name@ == name);
    } else if name == "github_search_code"@ {
        assert(ts[8].name@ == name);
    } else if name == "github_get_file_content"@ {
        assert(ts[9].name@ == name);
    }
}

/// The ten tool names have these lengths, and the two pairs of equal length
/// differ at these places; so no two of them are equal.
proof fn lemma_tool_names()
    ensures
        "github_list_repos"@.len() == 17,
        "github_get_repo"@.len() == 15,
        "github_list_issues"@.len() == 18,
        "github_create_issue"@.len() == 19,
        "github_get_issue"@.len() == 16,
        "github_list_pull_requests"@.len() == 25,
        "github_get_pull_request"@.len() == 23,
        "github_create_pull_request"@.len() == 26,
        "github_search_code"@.len() == 18,
        "github_get_file_content"@.len() == 23,
        "github_list_issues"@ != "github_search_code"@,
        "github_get_pull_request"@ != "github_get_file_content"@,
{
    reveal_strlit("github_list_repos");
    reveal_strlit("github_get_repo");
    reveal_strlit("github_list_issues");
    reveal_strlit("github_create_issue");
    reveal_strlit("github_get_issue");
    reveal_strlit("github_list_pull_requests");
    reveal_strlit("github_get_pull_request");
    reveal_strlit("github_create_pull_request");
    reveal_strlit("github_search_code");
    reveal_strlit("github_get_file_content");
    assert("github_list_issues"@[7] != "github_search_code"@[7]);
    assert("github_get_pull_request"@[11] != "github_get_file_content"@[11]);
}

/// The decimals of the default page (1) and page size (30).
proof fn lemma_default_numbers()
    ensures
        decimal(1) == "1"@,
        decimal(30) == "30"@,
{
    reveal_strlit("1");
    reveal_strlit("30");
    reveal_with_fuel(decimal, 2);
    assert(decimal(1) =~= "1"@);
    assert(decimal(30) =~= "30"@);
}

/// Listing issues or pull requests asks for the requested state and page:
/// once connected and with a token, `github_list_issues` (and
/// `github_list_pull_requests`) with string `owner` and `repo` is a GET of
/// `<base>/repos/<owner>/<repo>/issues?state=<state>&page=<page>` (`/pulls`
/// for pull requests), where `state` is the string `state` parameter or
/// `open`, and `page` the integer `page` parameter or 1.
pub proof fn law_listing_state_and_page(a: GitHubAdapter, name: Seq<char>, params: JsonValue, r: Result<GitHubRequest, AdapterError>, owner: Seq<char>, repo: Seq<char>)
    requires
        a.connected,
        token_of(a, params) is Some,
        name == "github_list_issues"@ || name == "github_list_pull_requests"@,
        str_field(params, "owner"@) == Some(owner),
        str_field(params, "repo"@) == Some(repo),
        github_plan_outcome(a, name, params, r),
    ensures
        r matches Ok(q) && q.method == HttpMethod::Get && q.url@ == a.base_url@ + "/repos/"@ + owner + "/"@ + repo
            + (if name == "github_list_issues"@ {
            "/issues?state="@
        } else {
            "/pulls?state="@
        }) + match str_field(params, "state"@) {
            Some(st) => st,
            None => "open"@,
        } + "&page="@ + match u64_field(params, "page"@) {
            Some(n) => decimal(n as nat),
            None => "1"@,
        },
{
    lemma_tool_names();
    lemma_default_numbers();
    reveal_with_fuel(first_absent, 3);
    let fields = gh_fields(name);
    assert(fields == seq!["owner"@, "repo"@]);
    assert(fields.drop_first() =~= seq!["repo"@]);
    assert(fields.drop_first().drop_first() =~= Seq::<Seq<char>>::empty());
    assert(first_absent(params, fields) is None);
}

/// Reading one issue or pull request asks for the requested number: once
/// connected and with a token, `github_get_issue` (and
/// `github_get_pull_request`) with string `owner` and `repo` is refused when
/// `number` is not an integer, and is otherwise a GET of
/// `<base>/repos/<owner>/<repo>/issues/<number>` (`/pulls/` for pull requests).
pub proof fn law_item_number(a: GitHubAdapter, name: Seq<char>, params: JsonValue, r: Result<GitHubRequest, AdapterError>, owner: Seq<char>, repo: Seq<char>)
    requires
        a.connected,
        token_of(a, params) is Some,
        name == "github_get_issue"@ || name == "github_get_pull_request"@,
        str_field(params, "owner"@) == Some(owner),
        str_field(params, "repo"@) == Some(repo),
        github_plan_outcome(a, name, params, r),
    ensures
        u64_field(params, "number"@) is None ==> (r matches Err(e) && is_invalid_params(
            e,
            name,
            "missing required integer field `number`"@,
        )),
        forall|n: u64| u64_field(params, "number"@) == Some(n) ==> (r matches Ok(q) && q.method == HttpMethod::Get
            && q.url@ == a.base_url@ + "/repos/"@ + owner + "/"@ + repo + (if name == "github_get_issue"@ {
            "/issues/"@
        } else {
            "/pulls/"@
        }) + decimal(n as nat)),
{
    lemma_tool_names();
    reveal_with_fuel(first_absent, 3);
    let fields = gh_fields(name);
    assert(fields == seq!["owner"@, "repo"@]);
    assert(fields.drop_first() =~= seq!["repo"@]);
    assert(fields.drop_first().drop_first() =~= Seq::<Seq<char>>::empty());
    assert(first_absent(params, fields) is None);
}

/// Listing repositories asks for the requested organisation and page: once
/// connected and with a token, `github_list_repos` is a GET of
/// `<base>/orgs/<org>/repos?page=<page>&per_page=<per_page>` when `org` is a
/// string, and of `<base>/user/repos?...` otherwise, where `page` is the
/// integer `page` parameter or 1 and `per_page` the integer `per_page`
/// parameter or 30.
pub proof fn law_repository_listing(a: GitHubAdapter, params: JsonValue, r: Result<GitHubRequest, AdapterError>)
    requires
        a.connected,
        token_of(a, params) is Some,
        github_plan_outcome(a, "github_list_repos"@, params, r),
    ensures
        ({
            let tail = "/repos?page="@ + match u64_field(params, "page"@) {
                Some(n) => decimal(n as nat),
                None => "1"@,
            } + "&per_page="@ + match u64_field(params, "per_page"@) {
                Some(n) => decimal(n as nat),
                None => "30"@,
            };
            r matches Ok(q) && q.method == HttpMethod::Get && q.url@ == match str_field(params, "org"@) {
                Some(org) => a.base_url@ + "/orgs/"@ + org + tail,
                None => a.base_url@ + "/user"@ + tail,
            }
        }),
{
    lemma_tool_names();
    lemma_default_numbers();
    assert(gh_fields("github_list_repos"@) =~= Seq::<Seq<char>>::empty());
    assert(first_absent(params, gh_fields("github_list_repos"@)) is None);
}

/// Searching code asks for the requested query and page: once connected and
/// with a token, `github_search_code` with a string `query` is a GET of
/// `<base>/search/code?q=<query>&page=<page>`, the query percent-encoded as
/// UTF-8 and `page` the integer `page` parameter or 1.
pub proof fn law_code_search(a: GitHubAdapter, params: JsonValue, r: Result<GitHubRequest, AdapterError>, query: Seq<char>)
    requires
        a.connected,
        token_of(a, params) is Some,
        str_field(params, "query"@) == Some(query),
        github_plan_outcome(a, "github_search_code"@, params, r),
    ensures
        r matches Ok(q) && q.method == HttpMethod::Get && q.url@ == a.base_url@ + "/search/code?q="@
            + percent_encoded(vstd::utf8::encode_utf8(query)) + "&page="@ + match u64_field(params, "page"@) {
            Some(n) => decimal(n as nat),
            None => "1"@,
        },
{
    lemma_tool_names();
    lemma_default_numbers();
    reveal_with_fuel(first_absent, 2);
    let fields = gh_fields("github_search_code"@);
    assert(fields == seq!["query"@]);
    assert(fields.drop_first() =~= Seq::<Seq<char>>::empty());
    assert(first_absent(params, fields) is None);
}

/// Opening an issue or a pull request posts it to the requested repository:
/// once connected and with a token, `github_create_issue` with string
/// `owner`, `repo` and `title` is a POST to `<base>/repos/<owner>/<repo>/issues`
/// whose body starts with that title; `github_create_pull_request` with string
/// `owner`, `repo`, `title`, `head` and `base` is a POST to
/// `<base>/repos/<owner>/<repo>/pulls` whose body gives that title, head and
/// base, in that order.
pub proof fn law_creation_requests(a: GitHubAdapter, name: Seq<char>, params: JsonValue, r: Result<GitHubRequest, AdapterError>, owner: Seq<char>, repo: Seq<char>, title: Seq<char>)
    requires
        a.connected,
        token_of(a, params) is Some,
        name == "github_create_issue"@ || (name == "github_create_pull_request"@ && str_field(params, "head"@) is Some
            && str_field(params, "base"@) is Some),
        str_field(params, "owner"@) == Some(owner),
        str_field(params, "repo"@) == Some(repo),
        str_field(params, "title"@) == Some(title),
        github_plan_outcome(a, name, params, r),
    ensures
        r matches Ok(q) && q.method == HttpMethod::Post && (q.body matches Some(b) && str_of(
            crate::json::value_at(b, 0),
        ) == Some(title) && (name == "github_create_issue"@ ==> q.url@ == a.base_url@ + "/repos/"@ + owner + "/"@
            + repo + "/issues"@) && (name == "github_create_pull_request"@ ==> q.url@ == a.base_url@ + "/repos/"@
            + owner + "/"@ + repo + "/pulls"@ && crate::json::keys_of(b).subrange(0, 3) == seq![
            "title"@,
            "head"@,
            "base"@,
        ] && str_of(crate::json::value_at(b, 1)) == str_field(params, "head"@) && str_of(
            crate::json::value_at(b, 2),
        ) == str_field(params, "base"@))),
{
    lemma_tool_names();
    if name == "github_create_issue"@ {
        reveal_with_fuel(first_absent, 4);
        let fields = gh_fields(name);
        assert(fields == seq!["owner"@, "repo"@, "title"@]);
        assert(fields.drop_first() =~= seq!["repo"@, "title"@]);
        assert(fields.drop_first().drop_first() =~= seq!["title"@]);
        assert(fields.drop_first().drop_first().drop_first() =~= Seq::<Seq<char>>::empty());
        assert(first_absent(params, fields) is None);
    } else {
        reveal_with_fuel(first_absent, 6);
        let fields = gh_fields(name);
        assert(fields == seq!["owner"@, "repo"@, "title"@, "head"@, "base"@]);
        assert(fields.drop_first() =~= seq!["repo"@, "title"@, "head"@, "base"@]);
        assert(fields.drop_first().drop_first() =~= seq!["title"@, "head"@, "base"@]);
        assert(fields.drop_first().drop_first().drop_first() =~= seq!["head"@, "base"@]);
        assert(fields.drop_first().drop_first().drop_first().drop_first() =~= seq!["base"@]);
        assert(fields.drop_first().drop_first().drop_first().drop_first().drop_first()
            =~= Seq::<Seq<char>>::empty());
        assert(first_absent(params, fields) is None);
        let q = r->Ok_0;
        let b = q.body->Some_0;
        assert(crate::json::keys_of(b).subrange(0, 3) =~= seq!["title"@, "head"@, "base"@]);
    }
}

/// Reading a file asks for it at the requested git ref: once connected and
/// with a token, `github_get_file_content` with string `owner`, `repo` and
/// `path` is a GET of `<base>/repos/<owner>/<repo>/contents/<path>`,
/// followed by `?ref=<ref>` exactly when `ref` is a string.
pub proof fn law_file_content_at_ref(a: GitHubAdapter, params: JsonValue, r: Result<GitHubRequest, AdapterError>, owner: Seq<char>, repo: Seq<char>, path: Seq<char>)
    requires
        a.connected,
        token_of(a, params) is Some,
        str_field(params, "owner"@) == Some(owner),
        str_field(params, "repo"@) == Some(repo),
        str_field(params, "path"@) == Some(path),
        github_plan_outcome(a, "github_get_file_content"@, params, r),
    ensures
        r is Ok,
        r matches Ok(q) && q.method == HttpMethod::Get,
        forall|g: Seq<char>| str_field(params, "ref"@) == Some(g) ==> (r matches Ok(q) && q.url@ == a.base_url@
            + "/repos/"@ + owner + "/"@ + repo + "/contents/"@ + path + "?ref="@ + g),
        str_field(params, "ref"@) is None ==> (r matches Ok(q) && q.url@ == a.base_url@ + "/repos/"@ + owner + "/"@
            + repo + "/contents/"@ + path),
{
    lemma_tool_names();
    let fields = gh_fields("github_get_file_content"@);
    assert(fields == seq!["owner"@, "repo"@, "path"@]);
    reveal_with_fuel(first_absent, 4);
    assert(fields.drop_first() =~= seq!["repo"@, "path"@]);
    assert(fields.drop_first().drop_first() =~= seq!["path"@]);
    assert(fields.drop_first().drop_first().drop_first() =~= Seq::<Seq<char>>::empty());
    assert(first_absent(params, fields) is None);
    assert(gh_missing("github_get_file_content"@, params) is None);
}

impl GitHubAdapter {
    /// A new adapter for github.com with no token.
    pub fn new(id: &str) -> (r: Self)
        ensures
            r.id@ == id@,
            !r.connected,
            r.token is None,
            r.base_url@ == DEFAULT_BASE_URL@,
    {
        GitHubAdapter { id: String::from_str(id), connected: false, token: None, base_url: String::from_str(DEFAULT_BASE_URL) }
    }

    /// A new adapter with a configured token.
    pub fn with_token(id: &str, token: &str) -> (r: Self)
        ensures
            r.id@ == id@,
            !r.connected,
            r.token matches Some(t) && t@ == token@,
            r.base_url@ == DEFAULT_BASE_URL@,
    {
        let mut a = Self::new(id);
        a.token = Some(String::from_str(token));
        a
    }

    /// A new adapter for a GitHub Enterprise API, trailing slashes removed.
    pub fn with_base_url(id: &str, base_url: &str) -> (r: Self)
        ensures
            r.id@ == id@,
            !r.connected,
            r.token is None,
            r.base_url@ == trim_slashes(base_url@),
    {
        let mut a = Self::new(id);
        a.base_url = trim_end_slashes(base_url);
        a
    }

    /// The adapter's id.
    pub fn id(&self) -> (r: &str)
        ensures
            r@ == self.id@,
    {
        self.id.as_str()
    }

    /// The adapter's category.
    pub fn adapter_type(&self) -> (r: AdapterType)
        ensures
            r == AdapterType::DevTools,
    {
        AdapterType::DevTools
    }

    /// GitHub credentials with the `repo` and `read:org` scopes.
    pub fn required_auth(&self) -> (r: Option<AuthRequirement>)
        ensures
            r matches Some(a) && a.provider@ == "github"@ && views(a.scopes@) == seq!["repo"@, "read:org"@],
    {
        let a = auth_requirement("github", &["repo", "read:org"]);
        Some(a)
    }

    /// The ten GitHub tools.
    pub fn tools(&self) -> (r: Vec<ToolDefinition>)
        ensures
            github_tool_shapes(r@),
    {
        build_tool_definitions()
    }

    /// The token of a call, or `AuthRequired` when there is none.
    pub fn resolve_token(&self, params: &JsonValue) -> (r: Result<String, AdapterError>)
        ensures
            match token_of(*self, *params) {
                Some(t) => r matches Ok(x) && x@ == t,
                None => r matches Err(e) && is_auth_required(e, self.id@, "github"@),
            },
    {
        match crate::json::get_nonempty_str(params, "token") {
            Some(t) => Ok(t),
            None => match &self.token {
                Some(t) => Ok(t.clone()),
                None => Err(crate::error::auth_required(self.id.as_str(), "github")),
            },
        }
    }

    /// A full API URL: the base URL followed by `path`.
    pub fn api_url(&self, path: &str) -> (r: String)
        ensures
            r@ == self.base_url@ + path@,
    {
        let mut s = self.base_url.clone();
        s.append(path);
        s
    }

    /// The URL that verifies the configured token (`<base>/user`).
    pub fn user_url(&self) -> (r: String)
        ensures
            r@ == self.base_url@ + "/user"@,
    {
        let mut s = self.base_url.clone();
        s.append("/user");
        s
    }

    /// Completes a connection: `token_accepted` is `None` when no token is
    /// configured (nothing to verify), else whether `<base>/user` accepted
    /// it.  A refused token leaves the adapter disconnected.
    pub fn complete_connect(&mut self, token_accepted: Option<bool>) -> (r: Result<(), AdapterError>)
        ensures
            final(self).id == old(self).id,
            final(self).token == old(self).token,
            final(self).base_url == old(self).base_url,
            token_accepted == Some(false) ==> (r matches Err(e) && is_auth_required(e, old(self).id@, "github"@)
                && final(self).connected == old(self).connected),
            token_accepted != Some(false) ==> (r is Ok && final(self).connected),
    {
        match token_accepted {
            Some(false) => Err(crate::error::auth_required(self.id.as_str(), "github")),
            _ => {
                self.connected = true;
                Ok(())
            },
        }
    }

    /// Marks the adapter disconnected.
    pub fn disconnect(&mut self) -> (r: Result<(), AdapterError>)
        ensures
            r is Ok,
            !final(self).connected,
            final(self).id == old(self).id,
            final(self).token == old(self).token,
            final(self).base_url == old(self).base_url,
    {
        self.connected = false;
        Ok(())
    }

    /// The health known without asking the server: unhealthy when
    /// disconnected, degraded without a token; `None` when the rate limit
    /// must be read from `<base>/rate_limit`.
    pub fn health_precheck(&self) -> (r: Option<HealthStatus>)
        ensures
            !self.connected ==> r == Some(HealthStatus::Unhealthy),
            self.connected && self.token is None ==> r == Some(HealthStatus::Degraded),
            self.connected && self.token is Some ==> r is None,
    {
        if !self.connected {
            Some(HealthStatus::Unhealthy)
        } else if self.token.is_none() {
            Some(HealthStatus::Degraded)
        } else {
            None
        }
    }

    /// The rate-limit URL (`<base>/rate_limit`).
    pub fn rate_limit_url(&self) -> (r: String)
        ensures
            r@ == self.base_url@ + "/rate_limit"@,
    {
        let mut s = self.base_url.clone();
        s.append("/rate_limit");
        s
    }

    /// Checks a call and turns it into a request.
    #[verifier::rlimit(50)]
    pub fn plan_tool(&self, name: &str, params: JsonValue) -> (r: Result<GitHubRequest, AdapterError>)
        ensures
            github_plan_outcome(*self, name@, params, r),
    {
        match ensure_connected(self.connected, self.id.as_str(), name) {
            Ok(()) => {},
            Err(e) => {
                return Err(e);
            },
        }
        let token = match self.resolve_token(&params) {
            Ok(t) => t,
            Err(e) => {
                return Err(e);
            },
        };
        let n0 = same_text(name, "github_list_repos");
        let n1 = same_text(name, "github_get_repo");
        let n2 = same_text(name, "github_list_issues");
        let n3 = same_text(name, "github_create_issue");
        let n4 = same_text(name, "github_get_issue");
        let n5 = same_text(name, "github_list_pull_requests");
        let n6 = same_text(name, "github_get_pull_request");
        let n7 = same_text(name, "github_create_pull_request");
        let n8 = same_text(name, "github_search_code");
        let n9 = same_text(name, "github_get_file_content");
        if !(n0 || n1 || n2 || n3 || n4 || n5 || n6 || n7 || n8 || n9) {
            return Err(tool_not_found(self.id.as_str(), name));
        }
        proof {
            reveal_strlit("github_list_repos");
            reveal_strlit("github_get_repo");
            reveal_strlit("github_list_issues");
            reveal_strlit("github_create_issue");
            reveal_strlit("github_get_issue");
            reveal_strlit("github_list_pull_requests");
            reveal_strlit("github_get_pull_request");
            reveal_strlit("github_create_pull_request");
            reveal_strlit("github_search_code");
            reveal_strlit("github_get_file_content");
            assert("github_list_repos"@.len() == 17 && "github_get_repo"@.len() == 15);
            assert("github_list_issues"@.len() == 18 && "github_create_issue"@.len() == 19);
            assert("github_get_issue"@.len() == 16 && "github_list_pull_requests"@.len() == 25);
            assert("github_get_pull_request"@.len() == 23 && "github_create_pull_request"@.len() == 26);
            assert("github_search_code"@.len() == 18 && "github_get_file_content"@.len() == 23);
            assert("github_list_issues"@[7] != "github_search_code"@[7]);
            assert("github_get_pull_request"@[11] != "github_get_file_content"@[11]);
        }
        let fields: &[&str] = if n0 {
            &[]
        } else if n3 {
            &["owner", "repo", "title"]
        } else if n7 {
            &["owner", "repo", "title", "head", "base"]
        } else if n8 {
            &["query"]
        } else if n9 {
            &["owner", "repo", "path"]
        } else {
            &["owner", "repo"]
        };
        assert(fields@.map_values(|k: &str| k@) =~= gh_fields(name@));
        match first_missing(&params, fields) {
            Some(i) => {
                return Err(invalid_params(name, missing_field(fields[i])));
            },
            None => {},
        }
        proof {
            lemma_first_absent(params, gh_fields(name@));
        }
        let number = get_u64(&params, "number");
        if (n4 || n6) && number.is_none() {
            return Err(invalid_params(name, String::from_str("missing required integer field `number`")));
        }
        let base = self.base_url.as_str();
        let page = u64_param_or(&params, "page", 1);
        let page_text = u64_to_decimal(page);
        let mut method = HttpMethod::Get;
        let mut body: Option<JsonValue> = None;
        let url = if n0 {
            let mut tail = String::from_str("/repos?page=");
            tail.append(page_text.as_str());
            tail.append("&per_page=");
            let per = u64_to_decimal(u64_param_or(&params, "per_page", 30));
            tail.append(per.as_str());
            let mut u = String::from_str(base);
            match get_str(&params, "org") {
                Some(org) => {
                    u.append("/orgs/");
                    u.append(org.as_str());
                },
                None => {
                    u.append("/user");
                },
            }
            u.append(tail.as_str());
            u
        } else if n8 {
            let q = str_param_or(&params, "query", "");
            let enc = url_encode(q.as_str());
            let mut u = String::from_str(base);
            u.append("/search/code?q=");
            u.append(enc.as_str());
            u.append("&page=");
            u.append(page_text.as_str());
            u
        } else {
            let owner = str_param_or(&params, "owner", "");
            let repo = str_param_or(&params, "repo", "");
            let mut u = repo_path(base, owner.as_str(), repo.as_str());
            if n2 || n5 {
                let state = str_param_or(&params, "state", "open");
                if n2 {
                    u.append("/issues?state=");
                } else {
                    u.append("/pulls?state=");
                }
                u.append(state.as_str());
                u.append("&page=");
                u.append(page_text.as_str());
            } else if n3 {
                u.append("/issues");
                method = HttpMethod::Post;
                body = Some(issue_body(params));
            } else if n4 || n6 {
                let num = u64_to_decimal(u64_param_or(&params, "number", 0));
                if n4 {
                    u.append("/issues/");
                } else {
                    u.append("/pulls/");
                }
                u.append(num.as_str());
            } else if n7 {
                u.append("/pulls");
                method = HttpMethod::Post;
                body = Some(pull_body(&params));
            } else if n9 {
                let path = str_param_or(&params, "path", "");
                u.append("/contents/");
                u.append(path.as_str());
                match get_str(&params, "ref") {
                    Some(g) => {
                        u.append("?ref=");
                        u.append(g.as_str());
                    },
                    None => {},
                }
            }
            u
        };
        assert(gh_missing(name@, params) is None);
        assert(url@ == gh_url(self.base_url@, name@, params));
        assert(gh_body_ok(name@, params, body));
        Ok(GitHubRequest { tool: String::from_str(name), method, url, token, body })
    }
}

/// The reason given for an unsuccessful GitHub reply: the status and the
/// reply's `message` (the raw text when the reply is not a JSON object with
/// a string `message`).
pub open spec fn github_error_reason(status: u16, parsed: Option<JsonValue>, body_text: Seq<char>) -> Seq<char> {
    let message = match parsed {
        Some(v) => match str_field(v, "message"@) {
            Some(m) => m,
            None => body_text,
        },
        None => body_text,
    };
    "GitHub API returned "@ + decimal(status as nat) + ": "@ + message
}

/// The error for an unsuccessful reply; `parsed` is the reply parsed as
/// JSON, if it parses.
pub fn github_response_error(tool_name: &str, status: u16, parsed: &Option<JsonValue>, body_text: &str) -> (e: AdapterError)
    ensures
        is_execution_failed(e, tool_name@, github_error_reason(status, *parsed, body_text@)),
{
    let message = match parsed {
        Some(v) => match get_str(v, "message") {
            Some(m) => m,
            None => String::from_str(body_text),
        },
        None => String::from_str(body_text),
    };
    let mut reason = String::from_str("GitHub API returned ");
    let st = u64_to_decimal(status as u64);
    reason.append(st.as_str());
    reason.append(": ");
    reason.append(message.as_str());
    AdapterError::ExecutionFailed { tool_name: String::from_str(tool_name), reason }
}

/// The health read from a rate-limit reply: degraded when the reply is not
/// a success; otherwise by `resources.core.remaining` (0 when absent):
/// healthy above 100, degraded above 0, unhealthy at 0.
pub open spec fn rate_limit_health(success: bool, body: JsonValue) -> HealthStatus {
    if !success {
        HealthStatus::Degraded
    } else {
        let remaining = match field(body, "resources"@) {
            Some(r) => match field(r, "core"@) {
                Some(c) => match u64_field(c, "remaining"@) {
                    Some(n) => n,
                    None => 0,
                },
                None => 0,
            },
            None => 0,
        };
        if remaining > 100 {
            HealthStatus::Healthy
        } else if remaining > 0 {
            HealthStatus::Degraded
        } else {
            HealthStatus::Unhealthy
        }
    }
}

/// Judges a rate-limit reply.
pub fn health_from_rate_limit(success: bool, body: &JsonValue) -> (r: HealthStatus)
    ensures
        r == rate_limit_health(success, *body),
{
    if !success {
        return HealthStatus::Degraded;
    }
    let remaining = match body.get("resources") {
        Some(r) => match r.get("core") {
            Some(c) => match get_u64(c, "remaining") {
                Some(n) => n,
                None => 0,
            },
            None => 0,
        },
        None => 0,
    };
    if remaining > 100 {
        HealthStatus::Healthy
    } else if remaining > 0 {
        HealthStatus::Degraded
    } else {
        HealthStatus::Unhealthy
    }
}

} // verus!
