//! Tool definitions for the GitHub adapter.

use vstd::prelude::*;
use vstd::string::*;

use crate::traits::{ParamSchema, SchemaKind, ToolDefinition, bare_schema, params_of, strings_of, tool, tool_shape, views, ParamDoc, param_docs, tool_doc};

verus! {

/// The ten GitHub tools, in order: names, descriptions, parameters with JSON types
/// and documentation, and required parameters.
pub open spec fn github_tool_shapes(ts: Seq<ToolDefinition>) -> bool {
    &&& ts.len() == 10
    &&& tool_shape(ts[0], "github_list_repos"@, seq![("org"@, SchemaKind::Str), ("page"@, SchemaKind::Integer), ("per_page"@, SchemaKind::Integer), ("token"@, SchemaKind::Str)], Some(Seq::<Seq<char>>::empty()))
    &&& tool_shape(ts[1], "github_get_repo"@, seq![("owner"@, SchemaKind::Str), ("repo"@, SchemaKind::Str), ("token"@, SchemaKind::Str)], Some(seq!["owner"@, "repo"@]))
    &&& tool_shape(ts[2], "github_list_issues"@, seq![("owner"@, SchemaKind::Str), ("repo"@, SchemaKind::Str), ("state"@, SchemaKind::Str), ("page"@, SchemaKind::Integer), ("token"@, SchemaKind::Str)], Some(seq!["owner"@, "repo"@]))
    &&& tool_shape(ts[3], "github_create_issue"@, seq![("owner"@, SchemaKind::Str), ("repo"@, SchemaKind::Str), ("title"@, SchemaKind::Str), ("body"@, SchemaKind::Str), ("labels"@, SchemaKind::Array), ("token"@, SchemaKind::Str)], Some(seq!["owner"@, "repo"@, "title"@]))
    &&& tool_shape(ts[4], "github_get_issue"@, seq![("owner"@, SchemaKind::Str), ("repo"@, SchemaKind::Str), ("number"@, SchemaKind::Integer), ("token"@, SchemaKind::Str)], Some(seq!["owner"@, "repo"@, "number"@]))
    &&& tool_shape(ts[5], "github_list_pull_requests"@, seq![("owner"@, SchemaKind::Str), ("repo"@, SchemaKind::Str), ("state"@, SchemaKind::Str), ("page"@, SchemaKind::Integer), ("token"@, SchemaKind::Str)], Some(seq!["owner"@, "repo"@]))
    &&& tool_shape(ts[6], "github_get_pull_request"@, seq![("owner"@, SchemaKind::Str), ("repo"@, SchemaKind::Str), ("number"@, SchemaKind::Integer), ("token"@, SchemaKind::Str)], Some(seq!["owner"@, "repo"@, "number"@]))
    &&& tool_shape(ts[7], "github_create_pull_request"@, seq![("owner"@, SchemaKind::Str), ("repo"@, SchemaKind::Str), ("title"@, SchemaKind::Str), ("body"@, SchemaKind::Str), ("head"@, SchemaKind::Str), ("base"@, SchemaKind::Str), ("token"@, SchemaKind::Str)], Some(seq!["owner"@, "repo"@, "title"@, "head"@, "base"@]))
    &&& tool_shape(ts[8], "github_search_code"@, seq![("query"@, SchemaKind::Str), ("page"@, SchemaKind::Integer), ("token"@, SchemaKind::Str)], Some(seq!["query"@]))
    &&& tool_shape(ts[9], "github_get_file_content"@, seq![("owner"@, SchemaKind::Str), ("repo"@, SchemaKind::Str), ("path"@, SchemaKind::Str), ("ref"@, SchemaKind::Str), ("token"@, SchemaKind::Str)], Some(seq!["owner"@, "repo"@, "path"@]))
    &&& tool_doc(ts[0], "List repositories for the authenticated user or an organization"@, seq![(Some("Optional organization name. If omitted, lists repos for the authenticated user."@), Seq::<Seq<char>>::empty(), None, None), (Some("Page number for pagination (default: 1)"@), Seq::<Seq<char>>::empty(), None, None), (Some("Number of results per page (default: 30, max: 100)"@), Seq::<Seq<char>>::empty(), None, None), (Some("Optional per-call GitHub token (overrides configured token)"@), Seq::<Seq<char>>::empty(), None, None)])
    &&& tool_doc(ts[1], "Get detailed information about a specific repository"@, seq![(Some("Repository owner (user or organization)"@), Seq::<Seq<char>>::empty(), None, None), (Some("Repository name"@), Seq::<Seq<char>>::empty(), None, None), (Some("Optional per-call GitHub token (overrides configured token)"@), Seq::<Seq<char>>::empty(), None, None)])
    &&& tool_doc(ts[2], "List issues for a repository"@, seq![(Some("Repository owner (user or organization)"@), Seq::<Seq<char>>::empty(), None, None), (Some("Repository name"@), Seq::<Seq<char>>::empty(), None, None), (Some("Issue state filter: open, closed, or all (default: open)"@), seq!["open"@, "closed"@, "all"@], None, None), (Some("Page number for pagination (default: 1)"@), Seq::<Seq<char>>::empty(), None, None), (Some("Optional per-call GitHub token (overrides configured token)"@), Seq::<Seq<char>>::empty(), None, None)])
    &&& tool_doc(ts[3], "Create a new issue in a repository"@, seq![(Some("Repository owner (user or organization)"@), Seq::<Seq<char>>::empty(), None, None), (Some("Repository name"@), Seq::<Seq<char>>::empty(), None, None), (Some("Issue title"@), Seq::<Seq<char>>::empty(), None, None), (Some("Optional issue body (Markdown supported)"@), Seq::<Seq<char>>::empty(), None, None), (Some("Optional list of label names to apply"@), Seq::<Seq<char>>::empty(), None, Some(SchemaKind::Str)), (Some("Optional per-call GitHub token (overrides configured token)"@), Seq::<Seq<char>>::empty(), None, None)])
    &&& tool_doc(ts[4], "Get a specific issue by number"@, seq![(Some("Repository owner (user or organization)"@), Seq::<Seq<char>>::empty(), None, None), (Some("Repository name"@), Seq::<Seq<char>>::empty(), None, None), (Some("Issue number"@), Seq::<Seq<char>>::empty(), None, None), (Some("Optional per-call GitHub token (overrides configured token)"@), Seq::<Seq<char>>::empty(), None, None)])
    &&& tool_doc(ts[5], "List pull requests for a repository"@, seq![(Some("Repository owner (user or organization)"@), Seq::<Seq<char>>::empty(), None, None), (Some("Repository name"@), Seq::<Seq<char>>::empty(), None, None), (Some("PR state filter: open, closed, or all (default: open)"@), seq!["open"@, "closed"@, "all"@], None, None), (Some("Page number for pagination (default: 1)"@), Seq::<Seq<char>>::empty(), None, None), (Some("Optional per-call GitHub token (overrides configured token)"@), Seq::<Seq<char>>::empty(), None, None)])
    &&& tool_doc(ts[6], "Get a specific pull request by number"@, seq![(Some("Repository owner (user or organization)"@), Seq::<Seq<char>>::empty(), None, None), (Some("Repository name"@), Seq::<Seq<char>>::empty(), None, None), (Some("Pull request number"@), Seq::<Seq<char>>::empty(), None, None), (Some("Optional per-call GitHub token (overrides configured token)"@), Seq::<Seq<char>>::empty(), None, None)])
    &&& tool_doc(ts[7], "Create a new pull request"@, seq![(Some("Repository owner (user or organization)"@), Seq::<Seq<char>>::empty(), None, None), (Some("Repository name"@), Seq::<Seq<char>>::empty(), None, None), (Some("Pull request title"@), Seq::<Seq<char>>::empty(), None, None), (Some("Optional pull request body (Markdown supported)"@), Seq::<Seq<char>>::empty(), None, None), (Some("The branch containing the changes (e.g. `feature-branch`)"@), Seq::<Seq<char>>::empty(), None, None), (Some("The branch to merge into (e.g. `main`)"@), Seq::<Seq<char>>::empty(), None, None), (Some("Optional per-call GitHub token (overrides configured token)"@), Seq::<Seq<char>>::empty(), None, None)])
    &&& tool_doc(ts[8], "Search code across GitHub repositories"@, seq![(Some("Search query (supports GitHub search syntax)"@), Seq::<Seq<char>>::empty(), None, None), (Some("Page number for pagination (default: 1)"@), Seq::<Seq<char>>::empty(), None, None), (Some("Optional per-call GitHub token (overrides configured token)"@), Seq::<Seq<char>>::empty(), None, None)])
    &&& tool_doc(ts[9], "Get the content of a file from a repository"@, seq![(Some("Repository owner (user or organization)"@), Seq::<Seq<char>>::empty(), None, None), (Some("Repository name"@), Seq::<Seq<char>>::empty(), None, None), (Some("Path to the file within the repository"@), Seq::<Seq<char>>::empty(), None, None), (Some("Optional git ref (branch, tag, or commit SHA)"@), Seq::<Seq<char>>::empty(), None, None), (Some("Optional per-call GitHub token (overrides configured token)"@), Seq::<Seq<char>>::empty(), None, None)])
}

/// Builds the definitions of the ten GitHub tools.
#[verifier::rlimit(40)]
pub fn build_tool_definitions() -> (r: Vec<ToolDefinition>)
    ensures
        github_tool_shapes(r@),
{
    let mut ts: Vec<ToolDefinition> = Vec::new();
    let mut s1 = bare_schema(SchemaKind::Object);
    let mut p1: Vec<(String, ParamSchema)> = Vec::new();
    let mut s2 = bare_schema(SchemaKind::Str);
    s2.description = Some(String::from_str("Optional organization name. If omitted, lists repos for the authenticated user."));
    p1.push((String::from_str("org"), s2));
    let mut s3 = bare_schema(SchemaKind::Integer);
    s3.description = Some(String::from_str("Page number for pagination (default: 1)"));
    p1.push((String::from_str("page"), s3));
    let mut s4 = bare_schema(SchemaKind::Integer);
    s4.description = Some(String::from_str("Number of results per page (default: 30, max: 100)"));
    p1.push((String::from_str("per_page"), s4));
    let mut s5 = bare_schema(SchemaKind::Str);
    s5.description = Some(String::from_str("Optional per-call GitHub token (overrides configured token)"));
    p1.push((String::from_str("token"), s5));
    s1.properties = p1;
    s1.has_properties = true;
    s1.required = Some(Vec::new());
    ts.push(tool("github_list_repos", "List repositories for the authenticated user or an organization", s1));
    let mut s6 = bare_schema(SchemaKind::Object);
    let mut p6: Vec<(String, ParamSchema)> = Vec::new();
    let mut s7 = bare_schema(SchemaKind::Str);
    s7.description = Some(String::from_str("Repository owner (user or organization)"));
    p6.push((String::from_str("owner"), s7));
    let mut s8 = bare_schema(SchemaKind::Str);
    s8.description = Some(String::from_str("Repository name"));
    p6.push((String::from_str("repo"), s8));
    let mut s9 = bare_schema(SchemaKind::Str);
    s9.description = Some(String::from_str("Optional per-call GitHub token (overrides configured token)"));
    p6.push((String::from_str("token"), s9));
    s6.properties = p6;
    s6.has_properties = true;
    s6.required = Some(strings_of(&["owner", "repo"]));
    ts.push(tool("github_get_repo", "Get detailed information about a specific repository", s6));
    let mut s10 = bare_schema(SchemaKind::Object);
    let mut p10: Vec<(String, ParamSchema)> = Vec::new();
    let mut s11 = bare_schema(SchemaKind::Str);
    s11.description = Some(String::from_str("Repository owner (user or organization)"));
    p10.push((String::from_str("owner"), s11));
    let mut s12 = bare_schema(SchemaKind::Str);
    s12.description = Some(String::from_str("Repository name"));
    p10.push((String::from_str("repo"), s12));
    let mut s13 = bare_schema(SchemaKind::Str);
    s13.description = Some(String::from_str("Issue state filter: open, closed, or all (default: open)"));
    s13.allowed = strings_of(&["open", "closed", "all"]);
    p10.push((String::from_str("state"), s13));
    let mut s14 = bare_schema(SchemaKind::Integer);
    s14.description = Some(String::from_str("Page number for pagination (default: 1)"));
    p10.push((String::from_str("page"), s14));
    let mut s15 = bare_schema(SchemaKind::Str);
    s15.description = Some(String::from_str("Optional per-call GitHub token (overrides configured token)"));
    p10.push((String::from_str("token"), s15));
    s10.properties = p10;
    s10.has_properties = true;
    s10.required = Some(strings_of(&["owner", "repo"]));
    ts.push(tool("github_list_issues", "List issues for a repository", s10));
    let mut s16 = bare_schema(SchemaKind::Object);
    let mut p16: Vec<(String, ParamSchema)> = Vec::new();
    let mut s17 = bare_schema(SchemaKind::Str);
    s17.description = Some(String::from_str("Repository owner (user or organization)"));
    p16.push((String::from_str("owner"), s17));
    let mut s18 = bare_schema(SchemaKind::Str);
    s18.description = Some(String::from_str("Repository name"));
    p16.push((String::from_str("repo"), s18));
    let mut s19 = bare_schema(SchemaKind::Str);
    s19.description = Some(String::from_str("Issue title"));
    p16.push((String::from_str("title"), s19));
    let mut s20 = bare_schema(SchemaKind::Str);
    s20.description = Some(String::from_str("Optional issue body (Markdown supported)"));
    p16.push((String::from_str("body"), s20));
    let mut s21 = bare_schema(SchemaKind::Array);
    s21.description = Some(String::from_str("Optional list of label names to apply"));
    let mut s22 = bare_schema(SchemaKind::Str);
    s21.items = Some(Box::new(s22));
    p16.push((String::from_str("labels"), s21));
    let mut s23 = bare_schema(SchemaKind::Str);
    s23.description = Some(String::from_str("Optional per-call GitHub token (overrides configured token)"));
    p16.push((String::from_str("token"), s23));
    s16.properties = p16;
    s16.has_properties = true;
    s16.required = Some(strings_of(&["owner", "repo", "title"]));
    ts.push(tool("github_create_issue", "Create a new issue in a repository", s16));
    let mut s24 = bare_schema(SchemaKind::Object);
    let mut p24: Vec<(String, ParamSchema)> = Vec::new();
    let mut s25 = bare_schema(SchemaKind::Str);
    s25.description = Some(String::from_str("Repository owner (user or organization)"));
    p24.push((String::from_str("owner"), s25));
    let mut s26 = bare_schema(SchemaKind::Str);
    s26.description = Some(String::from_str("Repository name"));
    p24.push((String::from_str("repo"), s26));
    let mut s27 = bare_schema(SchemaKind::Integer);
    s27.description = Some(String::from_str("Issue number"));
    p24.push((String::from_str("number"), s27));
    let mut s28 = bare_schema(SchemaKind::Str);
    s28.description = Some(String::from_str("Optional per-call GitHub token (overrides configured token)"));
    p24.push((String::from_str("token"), s28));
    s24.properties = p24;
    s24.has_properties = true;
    s24.required = Some(strings_of(&["owner", "repo", "number"]));
    ts.push(tool("github_get_issue", "Get a specific issue by number", s24));
    let mut s29 = bare_schema(SchemaKind::Object);
    let mut p29: Vec<(String, ParamSchema)> = Vec::new();
    let mut s30 = bare_schema(SchemaKind::Str);
    s30.description = Some(String::from_str("Repository owner (user or organization)"));
    p29.push((String::from_str("owner"), s30));
    let mut s31 = bare_schema(SchemaKind::Str);
    s31.description = Some(String::from_str("Repository name"));
    p29.push((String::from_str("repo"), s31));
    let mut s32 = bare_schema(SchemaKind::Str);
    s32.description = Some(String::from_str("PR state filter: open, closed, or all (default: open)"));
    s32.allowed = strings_of(&["open", "closed", "all"]);
    p29.push((String::from_str("state"), s32));
    let mut s33 = bare_schema(SchemaKind::Integer);
    s33.description = Some(String::from_str("Page number for pagination (default: 1)"));
    p29.push((String::from_str("page"), s33));
    let mut s34 = bare_schema(SchemaKind::Str);
    s34.description = Some(String::from_str("Optional per-call GitHub token (overrides configured token)"));
    p29.push((String::from_str("token"), s34));
    s29.properties = p29;
    s29.has_properties = true;
    s29.required = Some(strings_of(&["owner", "repo"]));
    ts.push(tool("github_list_pull_requests", "List pull requests for a repository", s29));
    let mut s35 = bare_schema(SchemaKind::Object);
    let mut p35: Vec<(String, ParamSchema)> = Vec::new();
    let mut s36 = bare_schema(SchemaKind::Str);
    s36.description = Some(String::from_str("Repository owner (user or organization)"));
    p35.push((String::from_str("owner"), s36));
    let mut s37 = bare_schema(SchemaKind::Str);
    s37.description = Some(String::from_str("Repository name"));
    p35.push((String::from_str("repo"), s37));
    let mut s38 = bare_schema(SchemaKind::Integer);
    s38.description = Some(String::from_str("Pull request number"));
    p35.push((String::from_str("number"), s38));
    let mut s39 = bare_schema(SchemaKind::Str);
    s39.description = Some(String::from_str("Optional per-call GitHub token (overrides configured token)"));
    p35.push((String::from_str("token"), s39));
    s35.properties = p35;
    s35.has_properties = true;
    s35.required = Some(strings_of(&["owner", "repo", "number"]));
    ts.push(tool("github_get_pull_request", "Get a specific pull request by number", s35));
    let mut s40 = bare_schema(SchemaKind::Object);
    let mut p40: Vec<(String, ParamSchema)> = Vec::new();
    let mut s41 = bare_schema(SchemaKind::Str);
    s41.description = Some(String::from_str("Repository owner (user or organization)"));
    p40.push((String::from_str("owner"), s41));
    let mut s42 = bare_schema(SchemaKind::Str);
    s42.description = Some(String::from_str("Repository name"));
    p40.push((String::from_str("repo"), s42));
    let mut s43 = bare_schema(SchemaKind::Str);
    s43.description = Some(String::from_str("Pull request title"));
    p40.push((String::from_str("title"), s43));
    let mut s44 = bare_schema(SchemaKind::Str);
    s44.description = Some(String::from_str("Optional pull request body (Markdown supported)"));
    p40.push((String::from_str("body"), s44));
    let mut s45 = bare_schema(SchemaKind::Str);
    s45.description = Some(String::from_str("The branch containing the changes (e.g. `feature-branch`)"));
    p40.push((String::from_str("head"), s45));
    let mut s46 = bare_schema(SchemaKind::Str);
    s46.description = Some(String::from_str("The branch to merge into (e.g. `main`)"));
    p40.push((String::from_str("base"), s46));
    let mut s47 = bare_schema(SchemaKind::Str);
    s47.description = Some(String::from_str("Optional per-call GitHub token (overrides configured token)"));
    p40.push((String::from_str("token"), s47));
    s40.properties = p40;
    s40.has_properties = true;
    s40.required = Some(strings_of(&["owner", "repo", "title", "head", "base"]));
    ts.push(tool("github_create_pull_request", "Create a new pull request", s40));
    let mut s48 = bare_schema(SchemaKind::Object);
    let mut p48: Vec<(String, ParamSchema)> = Vec::new();
    let mut s49 = bare_schema(SchemaKind::Str);
    s49.description = Some(String::from_str("Search query (supports GitHub search syntax)"));
    p48.push((String::from_str("query"), s49));
    let mut s50 = bare_schema(SchemaKind::Integer);
    s50.description = Some(String::from_str("Page number for pagination (default: 1)"));
    p48.push((String::from_str("page"), s50));
    let mut s51 = bare_schema(SchemaKind::Str);
    s51.description = Some(String::from_str("Optional per-call GitHub token (overrides configured token)"));
    p48.push((String::from_str("token"), s51));
    s48.properties = p48;
    s48.has_properties = true;
    s48.required = Some(strings_of(&["query"]));
    ts.push(tool("github_search_code", "Search code across GitHub repositories", s48));
    let mut s52 = bare_schema(SchemaKind::Object);
    let mut p52: Vec<(String, ParamSchema)> = Vec::new();
    let mut s53 = bare_schema(SchemaKind::Str);
    s53.description = Some(String::from_str("Repository owner (user or organization)"));
    p52.push((String::from_str("owner"), s53));
    let mut s54 = bare_schema(SchemaKind::Str);
    s54.description = Some(String::from_str("Repository name"));
    p52.push((String::from_str("repo"), s54));
    let mut s55 = bare_schema(SchemaKind::Str);
    s55.description = Some(String::from_str("Path to the file within the repository"));
    p52.push((String::from_str("path"), s55));
    let mut s56 = bare_schema(SchemaKind::Str);
    s56.description = Some(String::from_str("Optional git ref (branch, tag, or commit SHA)"));
    p52.push((String::from_str("ref"), s56));
    let mut s57 = bare_schema(SchemaKind::Str);
    s57.description = Some(String::from_str("Optional per-call GitHub token (overrides configured token)"));
    p52.push((String::from_str("token"), s57));
    s52.properties = p52;
    s52.has_properties = true;
    s52.required = Some(strings_of(&["owner", "repo", "path"]));
    ts.push(tool("github_get_file_content", "Get the content of a file from a repository", s52));
    proof {
        assert(param_docs(ts@[0]) =~~= seq![(Some("Optional organization name. If omitted, lists repos for the authenticated user."@), Seq::<Seq<char>>::empty(), None, None), (Some("Page number for pagination (default: 1)"@), Seq::<Seq<char>>::empty(), None, None), (Some("Number of results per page (default: 30, max: 100)"@), Seq::<Seq<char>>::empty(), None, None), (Some("Optional per-call GitHub token (overrides configured token)"@), Seq::<Seq<char>>::empty(), None, None)]);
        assert(param_docs(ts@[1]) =~~= seq![(Some("Repository owner (user or organization)"@), Seq::<Seq<char>>::empty(), None, None), (Some("Repository name"@), Seq::<Seq<char>>::empty(), None, None), (Some("Optional per-call GitHub token (overrides configured token)"@), Seq::<Seq<char>>::empty(), None, None)]);
        assert(param_docs(ts@[2]) =~~= seq![(Some("Repository owner (user or organization)"@), Seq::<Seq<char>>::empty(), None, None), (Some("Repository name"@), Seq::<Seq<char>>::empty(), None, None), (Some("Issue state filter: open, closed, or all (default: open)"@), seq!["open"@, "closed"@, "all"@], None, None), (Some("Page number for pagination (default: 1)"@), Seq::<Seq<char>>::empty(), None, None), (Some("Optional per-call GitHub token (overrides configured token)"@), Seq::<Seq<char>>::empty(), None, None)]);
        assert(param_docs(ts@[3]) =~~= seq![(Some("Repository owner (user or organization)"@), Seq::<Seq<char>>::empty(), None, None), (Some("Repository name"@), Seq::<Seq<char>>::empty(), None, None), (Some("Issue title"@), Seq::<Seq<char>>::empty(), None, None), (Some("Optional issue body (Markdown supported)"@), Seq::<Seq<char>>::empty(), None, None), (Some("Optional list of label names to apply"@), Seq::<Seq<char>>::empty(), None, Some(SchemaKind::Str)), (Some("Optional per-call GitHub token (overrides configured token)"@), Seq::<Seq<char>>::empty(), None, None)]);
        assert(param_docs(ts@[4]) =~~= seq![(Some("Repository owner (user or organization)"@), Seq::<Seq<char>>::empty(), None, None), (Some("Repository name"@), Seq::<Seq<char>>::empty(), None, None), (Some("Issue number"@), Seq::<Seq<char>>::empty(), None, None), (Some("Optional per-call GitHub token (overrides configured token)"@), Seq::<Seq<char>>::empty(), None, None)]);
        assert(param_docs(ts@[5]) =~~= seq![(Some("Repository owner (user or organization)"@), Seq::<Seq<char>>::empty(), None, None), (Some("Repository name"@), Seq::<Seq<char>>::empty(), None, None), (Some("PR state filter: open, closed, or all (default: open)"@), seq!["open"@, "closed"@, "all"@], None, None), (Some("Page number for pagination (default: 1)"@), Seq::<Seq<char>>::empty(), None, None), (Some("Optional per-call GitHub token (overrides configured token)"@), Seq::<Seq<char>>::empty(), None, None)]);
        assert(param_docs(ts@[6]) =~~= seq![(Some("Repository owner (user or organization)"@), Seq::<Seq<char>>::empty(), None, None), (Some("Repository name"@), Seq::<Seq<char>>::empty(), None, None), (Some("Pull request number"@), Seq::<Seq<char>>::empty(), None, None), (Some("Optional per-call GitHub token (overrides configured token)"@), Seq::<Seq<char>>::empty(), None, None)]);
        assert(param_docs(ts@[7]) =~~= seq![(Some("Repository owner (user or organization)"@), Seq::<Seq<char>>::empty(), None, None), (Some("Repository name"@), Seq::<Seq<char>>::empty(), None, None), (Some("Pull request title"@), Seq::<Seq<char>>::empty(), None, None), (Some("Optional pull request body (Markdown supported)"@), Seq::<Seq<char>>::empty(), None, None), (Some("The branch containing the changes (e.g. `feature-branch`)"@), Seq::<Seq<char>>::empty(), None, None), (Some("The branch to merge into (e.g. `main`)"@), Seq::<Seq<char>>::empty(), None, None), (Some("Optional per-call GitHub token (overrides configured token)"@), Seq::<Seq<char>>::empty(), None, None)]);
        assert(param_docs(ts@[8]) =~~= seq![(Some("Search query (supports GitHub search syntax)"@), Seq::<Seq<char>>::empty(), None, None), (Some("Page number for pagination (default: 1)"@), Seq::<Seq<char>>::empty(), None, None), (Some("Optional per-call GitHub token (overrides configured token)"@), Seq::<Seq<char>>::empty(), None, None)]);
        assert(param_docs(ts@[9]) =~~= seq![(Some("Repository owner (user or organization)"@), Seq::<Seq<char>>::empty(), None, None), (Some("Repository name"@), Seq::<Seq<char>>::empty(), None, None), (Some("Path to the file within the repository"@), Seq::<Seq<char>>::empty(), None, None), (Some("Optional git ref (branch, tag, or commit SHA)"@), Seq::<Seq<char>>::empty(), None, None), (Some("Optional per-call GitHub token (overrides configured token)"@), Seq::<Seq<char>>::empty(), None, None)]);
        assert(params_of(ts@[0]) =~= seq![("org"@, SchemaKind::Str), ("page"@, SchemaKind::Integer), ("per_page"@, SchemaKind::Integer), ("token"@, SchemaKind::Str)]);
        assert(views(ts@[0].parameters.required->Some_0@) =~= Seq::<Seq<char>>::empty());
        assert(params_of(ts@[1]) =~= seq![("owner"@, SchemaKind::Str), ("repo"@, SchemaKind::Str), ("token"@, SchemaKind::Str)]);
        assert(views(ts@[1].parameters.required->Some_0@) =~= seq!["owner"@, "repo"@]);
        assert(params_of(ts@[2]) =~= seq![("owner"@, SchemaKind::Str), ("repo"@, SchemaKind::Str), ("state"@, SchemaKind::Str), ("page"@, SchemaKind::Integer), ("token"@, SchemaKind::Str)]);
        assert(views(ts@[2].parameters.required->Some_0@) =~= seq!["owner"@, "repo"@]);
        assert(params_of(ts@[3]) =~= seq![("owner"@, SchemaKind::Str), ("repo"@, SchemaKind::Str), ("title"@, SchemaKind::Str), ("body"@, SchemaKind::Str), ("labels"@, SchemaKind::Array), ("token"@, SchemaKind::Str)]);
        assert(views(ts@[3].parameters.required->Some_0@) =~= seq!["owner"@, "repo"@, "title"@]);
        assert(params_of(ts@[4]) =~= seq![("owner"@, SchemaKind::Str), ("repo"@, SchemaKind::Str), ("number"@, SchemaKind::Integer), ("token"@, SchemaKind::Str)]);
        assert(views(ts@[4].parameters.required->Some_0@) =~= seq!["owner"@, "repo"@, "number"@]);
        assert(params_of(ts@[5]) =~= seq![("owner"@, SchemaKind::Str), ("repo"@, SchemaKind::Str), ("state"@, SchemaKind::Str), ("page"@, SchemaKind::Integer), ("token"@, SchemaKind::Str)]);
        assert(views(ts@[5].parameters.required->Some_0@) =~= seq!["owner"@, "repo"@]);
        assert(params_of(ts@[6]) =~= seq![("owner"@, SchemaKind::Str), ("repo"@, SchemaKind::Str), ("number"@, SchemaKind::Integer), ("token"@, SchemaKind::Str)]);
        assert(views(ts@[6].parameters.required->Some_0@) =~= seq!["owner"@, "repo"@, "number"@]);
        assert(params_of(ts@[7]) =~= seq![("owner"@, SchemaKind::Str), ("repo"@, SchemaKind::Str), ("title"@, SchemaKind::Str), ("body"@, SchemaKind::Str), ("head"@, SchemaKind::Str), ("base"@, SchemaKind::Str), ("token"@, SchemaKind::Str)]);
        assert(views(ts@[7].parameters.required->Some_0@) =~= seq!["owner"@, "repo"@, "title"@, "head"@, "base"@]);
        assert(params_of(ts@[8]) =~= seq![("query"@, SchemaKind::Str), ("page"@, SchemaKind::Integer), ("token"@, SchemaKind::Str)]);
        assert(views(ts@[8].parameters.required->Some_0@) =~= seq!["query"@]);
        assert(params_of(ts@[9]) =~= seq![("owner"@, SchemaKind::Str), ("repo"@, SchemaKind::Str), ("path"@, SchemaKind::Str), ("ref"@, SchemaKind::Str), ("token"@, SchemaKind::Str)]);
        assert(views(ts@[9].parameters.required->Some_0@) =~= seq!["owner"@, "repo"@, "path"@]);
    }
    ts
}

} // verus!
