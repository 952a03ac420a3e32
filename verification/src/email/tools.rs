//! Tool definitions for the email adapter.

use vstd::prelude::*;
use vstd::string::*;

use crate::traits::{ParamSchema, SchemaKind, ToolDefinition, bare_schema, params_of, strings_of, tool, tool_shape, views, ParamDoc, param_docs, tool_doc};

verus! {

/// The four email tools, in order: names, descriptions, parameters with JSON types
/// and documentation, and required parameters.
pub open spec fn email_tool_shapes(ts: Seq<ToolDefinition>) -> bool {
    &&& ts.len() == 4
    &&& tool_shape(ts[0], "email_list_inbox"@, seq![("count"@, SchemaKind::Integer), ("username"@, SchemaKind::Str), ("password"@, SchemaKind::Str), ("host"@, SchemaKind::Str)], Some(seq!["username"@, "password"@]))
    &&& tool_shape(ts[1], "email_read"@, seq![("message_id"@, SchemaKind::Str), ("username"@, SchemaKind::Str), ("password"@, SchemaKind::Str), ("host"@, SchemaKind::Str)], Some(seq!["message_id"@, "username"@, "password"@]))
    &&& tool_shape(ts[2], "email_send"@, seq![("to"@, SchemaKind::Str), ("subject"@, SchemaKind::Str), ("body"@, SchemaKind::Str), ("username"@, SchemaKind::Str), ("password"@, SchemaKind::Str), ("host"@, SchemaKind::Str)], Some(seq!["to"@, "subject"@, "body"@, "username"@, "password"@]))
    &&& tool_shape(ts[3], "email_search"@, seq![("query"@, SchemaKind::Str), ("count"@, SchemaKind::Integer), ("username"@, SchemaKind::Str), ("password"@, SchemaKind::Str), ("host"@, SchemaKind::Str)], Some(seq!["query"@, "username"@, "password"@]))
    &&& tool_doc(ts[0], "List recent emails from the inbox via IMAP"@, seq![(Some("Number of recent emails to list (default: 10)"@), Seq::<Seq<char>>::empty(), None, None), (Some("Email account username"@), Seq::<Seq<char>>::empty(), None, None), (Some("Email account password or app-specific password"@), Seq::<Seq<char>>::empty(), None, None), (Some("IMAP server hostname (optional if configured on adapter)"@), Seq::<Seq<char>>::empty(), None, None)])
    &&& tool_doc(ts[1], "Read a specific email by sequence number via IMAP"@, seq![(Some("The email sequence number to read"@), Seq::<Seq<char>>::empty(), None, None), (Some("Email account username"@), Seq::<Seq<char>>::empty(), None, None), (Some("Email account password or app-specific password"@), Seq::<Seq<char>>::empty(), None, None), (Some("IMAP server hostname (optional if configured on adapter)"@), Seq::<Seq<char>>::empty(), None, None)])
    &&& tool_doc(ts[2], "Send an email via SMTP"@, seq![(Some("Recipient email address"@), Seq::<Seq<char>>::empty(), None, None), (Some("Email subject line"@), Seq::<Seq<char>>::empty(), None, None), (Some("Email body text"@), Seq::<Seq<char>>::empty(), None, None), (Some("SMTP account username (usually email address)"@), Seq::<Seq<char>>::empty(), None, None), (Some("SMTP account password or app-specific password"@), Seq::<Seq<char>>::empty(), None, None), (Some("SMTP server hostname (optional if configured on adapter)"@), Seq::<Seq<char>>::empty(), None, None)])
    &&& tool_doc(ts[3], "Search emails by IMAP SEARCH query"@, seq![(Some("IMAP SEARCH query (e.g., 'FROM \"user@example.com\"', 'SUBJECT \"hello\"', 'UNSEEN')"@), Seq::<Seq<char>>::empty(), None, None), (Some("Maximum number of results to return (default: 10)"@), Seq::<Seq<char>>::empty(), None, None), (Some("Email account username"@), Seq::<Seq<char>>::empty(), None, None), (Some("Email account password or app-specific password"@), Seq::<Seq<char>>::empty(), None, None), (Some("IMAP server hostname (optional if configured on adapter)"@), Seq::<Seq<char>>::empty(), None, None)])
}

/// Builds the definitions of the four email tools.
pub fn build_tool_definitions() -> (r: Vec<ToolDefinition>)
    ensures
        email_tool_shapes(r@),
{
    let mut ts: Vec<ToolDefinition> = Vec::new();
    let mut s1 = bare_schema(SchemaKind::Object);
    let mut p1: Vec<(String, ParamSchema)> = Vec::new();
    let mut s2 = bare_schema(SchemaKind::Integer);
    s2.description = Some(String::from_str("Number of recent emails to list (default: 10)"));
    p1.push((String::from_str("count"), s2));
    let mut s3 = bare_schema(SchemaKind::Str);
    s3.description = Some(String::from_str("Email account username"));
    p1.push((String::from_str("username"), s3));
    let mut s4 = bare_schema(SchemaKind::Str);
    s4.description = Some(String::from_str("Email account password or app-specific password"));
    p1.push((String::from_str("password"), s4));
    let mut s5 = bare_schema(SchemaKind::Str);
    s5.description = Some(String::from_str("IMAP server hostname (optional if configured on adapter)"));
    p1.push((String::from_str("host"), s5));
    s1.properties = p1;
    s1.has_properties = true;
    s1.required = Some(strings_of(&["username", "password"]));
    ts.push(tool("email_list_inbox", "List recent emails from the inbox via IMAP", s1));
    let mut s6 = bare_schema(SchemaKind::Object);
    let mut p6: Vec<(String, ParamSchema)> = Vec::new();
    let mut s7 = bare_schema(SchemaKind::Str);
    s7.description = Some(String::from_str("The email sequence number to read"));
    p6.push((String::from_str("message_id"), s7));
    let mut s8 = bare_schema(SchemaKind::Str);
    s8.description = Some(String::from_str("Email account username"));
    p6.push((String::from_str("username"), s8));
    let mut s9 = bare_schema(SchemaKind::Str);
    s9.description = Some(String::from_str("Email account password or app-specific password"));
    p6.push((String::from_str("password"), s9));
    let mut s10 = bare_schema(SchemaKind::Str);
    s10.description = Some(String::from_str("IMAP server hostname (optional if configured on adapter)"));
    p6.push((String::from_str("host"), s10));
    s6.properties = p6;
    s6.has_properties = true;
    s6.required = Some(strings_of(&["message_id", "username", "password"]));
    ts.push(tool("email_read", "Read a specific email by sequence number via IMAP", s6));
    let mut s11 = bare_schema(SchemaKind::Object);
    let mut p11: Vec<(String, ParamSchema)> = Vec::new();
    let mut s12 = bare_schema(SchemaKind::Str);
    s12.description = Some(String::from_str("Recipient email address"));
    p11.push((String::from_str("to"), s12));
    let mut s13 = bare_schema(SchemaKind::Str);
    s13.description = Some(String::from_str("Email subject line"));
    p11.push((String::from_str("subject"), s13));
    let mut s14 = bare_schema(SchemaKind::Str);
    s14.description = Some(String::from_str("Email body text"));
    p11.push((String::from_str("body"), s14));
    let mut s15 = bare_schema(SchemaKind::Str);
    s15.description = Some(String::from_str("SMTP account username (usually email address)"));
    p11.push((String::from_str("username"), s15));
    let mut s16 = bare_schema(SchemaKind::Str);
    s16.description = Some(String::from_str("SMTP account password or app-specific password"));
    p11.push((String::from_str("password"), s16));
    let mut s17 = bare_schema(SchemaKind::Str);
    s17.description = Some(String::from_str("SMTP server hostname (optional if configured on adapter)"));
    p11.push((String::from_str("host"), s17));
    s11.properties = p11;
    s11.has_properties = true;
    s11.required = Some(strings_of(&["to", "subject", "body", "username", "password"]));
    ts.push(tool("email_send", "Send an email via SMTP", s11));
    let mut s18 = bare_schema(SchemaKind::Object);
    let mut p18: Vec<(String, ParamSchema)> = Vec::new();
    let mut s19 = bare_schema(SchemaKind::Str);
    s19.description = Some(String::from_str("IMAP SEARCH query (e.g., 'FROM \"user@example.com\"', 'SUBJECT \"hello\"', 'UNSEEN')"));
    p18.push((String::from_str("query"), s19));
    let mut s20 = bare_schema(SchemaKind::Integer);
    s20.description = Some(String::from_str("Maximum number of results to return (default: 10)"));
    p18.push((String::from_str("count"), s20));
    let mut s21 = bare_schema(SchemaKind::Str);
    s21.description = Some(String::from_str("Email account username"));
    p18.push((String::from_str("username"), s21));
    let mut s22 = bare_schema(SchemaKind::Str);
    s22.description = Some(String::from_str("Email account password or app-specific password"));
    p18.push((String::from_str("password"), s22));
    let mut s23 = bare_schema(SchemaKind::Str);
    s23.description = Some(String::from_str("IMAP server hostname (optional if configured on adapter)"));
    p18.push((String::from_str("host"), s23));
    s18.properties = p18;
    s18.has_properties = true;
    s18.required = Some(strings_of(&["query", "username", "password"]));
    ts.push(tool("email_search", "Search emails by IMAP SEARCH query", s18));
    proof {
        assert(param_docs(ts@[0]) =~~= seq![(Some("Number of recent emails to list (default: 10)"@), Seq::<Seq<char>>::empty(), None, None), (Some("Email account username"@), Seq::<Seq<char>>::empty(), None, None), (Some("Email account password or app-specific password"@), Seq::<Seq<char>>::empty(), None, None), (Some("IMAP server hostname (optional if configured on adapter)"@), Seq::<Seq<char>>::empty(), None, None)]);
        assert(param_docs(ts@[1]) =~~= seq![(Some("The email sequence number to read"@), Seq::<Seq<char>>::empty(), None, None), (Some("Email account username"@), Seq::<Seq<char>>::empty(), None, None), (Some("Email account password or app-specific password"@), Seq::<Seq<char>>::empty(), None, None), (Some("IMAP server hostname (optional if configured on adapter)"@), Seq::<Seq<char>>::empty(), None, None)]);
        assert(param_docs(ts@[2]) =~~= seq![(Some("Recipient email address"@), Seq::<Seq<char>>::empty(), None, None), (Some("Email subject line"@), Seq::<Seq<char>>::empty(), None, None), (Some("Email body text"@), Seq::<Seq<char>>::empty(), None, None), (Some("SMTP account username (usually email address)"@), Seq::<Seq<char>>::empty(), None, None), (Some("SMTP account password or app-specific password"@), Seq::<Seq<char>>::empty(), None, None), (Some("SMTP server hostname (optional if configured on adapter)"@), Seq::<Seq<char>>::empty(), None, None)]);
        assert(param_docs(ts@[3]) =~~= seq![(Some("IMAP SEARCH query (e.g., 'FROM \"user@example.com\"', 'SUBJECT \"hello\"', 'UNSEEN')"@), Seq::<Seq<char>>::empty(), None, None), (Some("Maximum number of results to return (default: 10)"@), Seq::<Seq<char>>::empty(), None, None), (Some("Email account username"@), Seq::<Seq<char>>::empty(), None, None), (Some("Email account password or app-specific password"@), Seq::<Seq<char>>::empty(), None, None), (Some("IMAP server hostname (optional if configured on adapter)"@), Seq::<Seq<char>>::empty(), None, None)]);
        assert(params_of(ts@[0]) =~= seq![("count"@, SchemaKind::Integer), ("username"@, SchemaKind::Str), ("password"@, SchemaKind::Str), ("host"@, SchemaKind::Str)]);
        assert(views(ts@[0].parameters.required->Some_0@) =~= seq!["username"@, "password"@]);
        assert(params_of(ts@[1]) =~= seq![("message_id"@, SchemaKind::Str), ("username"@, SchemaKind::Str), ("password"@, SchemaKind::Str), ("host"@, SchemaKind::Str)]);
        assert(views(ts@[1].parameters.required->Some_0@) =~= seq!["message_id"@, "username"@, "password"@]);
        assert(params_of(ts@[2]) =~= seq![("to"@, SchemaKind::Str), ("subject"@, SchemaKind::Str), ("body"@, SchemaKind::Str), ("username"@, SchemaKind::Str), ("password"@, SchemaKind::Str), ("host"@, SchemaKind::Str)]);
        assert(views(ts@[2].parameters.required->Some_0@) =~= seq!["to"@, "subject"@, "body"@, "username"@, "password"@]);
        assert(params_of(ts@[3]) =~= seq![("query"@, SchemaKind::Str), ("count"@, SchemaKind::Integer), ("username"@, SchemaKind::Str), ("password"@, SchemaKind::Str), ("host"@, SchemaKind::Str)]);
        assert(views(ts@[3].parameters.required->Some_0@) =~= seq!["query"@, "username"@, "password"@]);
    }
    ts
}

} // verus!
