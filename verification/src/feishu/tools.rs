//! Tool definitions for the Feishu adapter.

use vstd::prelude::*;
use vstd::string::*;

use crate::traits::{ParamSchema, SchemaKind, ToolDefinition, bare_schema, params_of, strings_of, tool, tool_shape, views, ParamDoc, param_docs, tool_doc};

verus! {

/// The six Feishu tools, in order: names, descriptions, parameters with JSON types
/// and documentation, and required parameters.
pub open spec fn feishu_tool_shapes(ts: Seq<ToolDefinition>) -> bool {
    &&& ts.len() == 6
    &&& tool_shape(ts[0], "feishu_send_message"@, seq![("receive_id"@, SchemaKind::Str), ("receive_id_type"@, SchemaKind::Str), ("msg_type"@, SchemaKind::Str), ("content"@, SchemaKind::Str)], Some(seq!["receive_id"@, "receive_id_type"@, "msg_type"@, "content"@]))
    &&& tool_shape(ts[1], "feishu_list_chats"@, seq![("page_size"@, SchemaKind::Integer), ("page_token"@, SchemaKind::Str)], Some(Seq::<Seq<char>>::empty()))
    &&& tool_shape(ts[2], "feishu_get_chat_messages"@, seq![("container_id"@, SchemaKind::Str), ("page_size"@, SchemaKind::Integer)], Some(seq!["container_id"@]))
    &&& tool_shape(ts[3], "feishu_create_doc"@, seq![("title"@, SchemaKind::Str), ("folder_token"@, SchemaKind::Str)], Some(seq!["title"@]))
    &&& tool_shape(ts[4], "feishu_search_users"@, seq![("query"@, SchemaKind::Str), ("page_size"@, SchemaKind::Integer)], Some(seq!["query"@]))
    &&& tool_shape(ts[5], "feishu_get_user_info"@, seq![("user_id"@, SchemaKind::Str), ("user_id_type"@, SchemaKind::Str)], Some(seq!["user_id"@]))
    &&& tool_doc(ts[0], "Send a text or interactive message to a Feishu user or group chat"@, seq![(Some("The ID of the message recipient (user or chat)"@), Seq::<Seq<char>>::empty(), None, None), (Some("Type of receive_id: open_id, user_id, or chat_id"@), seq!["open_id"@, "user_id"@, "chat_id"@], None, None), (Some("Message type: text or interactive"@), seq!["text"@, "interactive"@], None, None), (Some("Message content as JSON string"@), Seq::<Seq<char>>::empty(), None, None)])
    &&& tool_doc(ts[1], "List available group chats the bot has joined"@, seq![(Some("Number of chats per page (default: 20)"@), Seq::<Seq<char>>::empty(), None, None), (Some("Pagination token for the next page"@), Seq::<Seq<char>>::empty(), None, None)])
    &&& tool_doc(ts[2], "Get recent messages from a Feishu group chat"@, seq![(Some("The chat ID to retrieve messages from"@), Seq::<Seq<char>>::empty(), None, None), (Some("Number of messages to retrieve (default: 20)"@), Seq::<Seq<char>>::empty(), None, None)])
    &&& tool_doc(ts[3], "Create a new document in Feishu Docs"@, seq![(Some("Title of the document"@), Seq::<Seq<char>>::empty(), None, None), (Some("Optional folder token to create the document in"@), Seq::<Seq<char>>::empty(), None, None)])
    &&& tool_doc(ts[4], "Search for Feishu users by name or email"@, seq![(Some("Search query (name, email, etc.)"@), Seq::<Seq<char>>::empty(), None, None), (Some("Number of results per page (default: 20)"@), Seq::<Seq<char>>::empty(), None, None)])
    &&& tool_doc(ts[5], "Get detailed information about a Feishu user"@, seq![(Some("The user ID to look up"@), Seq::<Seq<char>>::empty(), None, None), (Some("Type of user_id: open_id or user_id (default: open_id)"@), seq!["open_id"@, "user_id"@], None, None)])
}

/// Builds the definitions of the six Feishu tools.
#[verifier::rlimit(30)]
pub fn build_tool_definitions() -> (r: Vec<ToolDefinition>)
    ensures
        feishu_tool_shapes(r@),
{
    let mut ts: Vec<ToolDefinition> = Vec::new();
    let mut s1 = bare_schema(SchemaKind::Object);
    let mut p1: Vec<(String, ParamSchema)> = Vec::new();
    let mut s2 = bare_schema(SchemaKind::Str);
    s2.description = Some(String::from_str("The ID of the message recipient (user or chat)"));
    p1.push((String::from_str("receive_id"), s2));
    let mut s3 = bare_schema(SchemaKind::Str);
    s3.description = Some(String::from_str("Type of receive_id: open_id, user_id, or chat_id"));
    s3.allowed = strings_of(&["open_id", "user_id", "chat_id"]);
    p1.push((String::from_str("receive_id_type"), s3));
    let mut s4 = bare_schema(SchemaKind::Str);
    s4.description = Some(String::from_str("Message type: text or interactive"));
    s4.allowed = strings_of(&["text", "interactive"]);
    p1.push((String::from_str("msg_type"), s4));
    let mut s5 = bare_schema(SchemaKind::Str);
    s5.description = Some(String::from_str("Message content as JSON string"));
    p1.push((String::from_str("content"), s5));
    s1.properties = p1;
    s1.has_properties = true;
    s1.required = Some(strings_of(&["receive_id", "receive_id_type", "msg_type", "content"]));
    ts.push(tool("feishu_send_message", "Send a text or interactive message to a Feishu user or group chat", s1));
    let mut s6 = bare_schema(SchemaKind::Object);
    let mut p6: Vec<(String, ParamSchema)> = Vec::new();
    let mut s7 = bare_schema(SchemaKind::Integer);
    s7.description = Some(String::from_str("Number of chats per page (default: 20)"));
    p6.push((String::from_str("page_size"), s7));
    let mut s8 = bare_schema(SchemaKind::Str);
    s8.description = Some(String::from_str("Pagination token for the next page"));
    p6.push((String::from_str("page_token"), s8));
    s6.properties = p6;
    s6.has_properties = true;
    s6.required = Some(Vec::new());
    ts.push(tool("feishu_list_chats", "List available group chats the bot has joined", s6));
    let mut s9 = bare_schema(SchemaKind::Object);
    let mut p9: Vec<(String, ParamSchema)> = Vec::new();
    let mut s10 = bare_schema(SchemaKind::Str);
    s10.description = Some(String::from_str("The chat ID to retrieve messages from"));
    p9.push((String::from_str("container_id"), s10));
    let mut s11 = bare_schema(SchemaKind::Integer);
    s11.description = Some(String::from_str("Number of messages to retrieve (default: 20)"));
    p9.push((String::from_str("page_size"), s11));
    s9.properties = p9;
    s9.has_properties = true;
    s9.required = Some(strings_of(&["container_id"]));
    ts.push(tool("feishu_get_chat_messages", "Get recent messages from a Feishu group chat", s9));
    let mut s12 = bare_schema(SchemaKind::Object);
    let mut p12: Vec<(String, ParamSchema)> = Vec::new();
    let mut s13 = bare_schema(SchemaKind::Str);
    s13.description = Some(String::from_str("Title of the document"));
    p12.push((String::from_str("title"), s13));
    let mut s14 = bare_schema(SchemaKind::Str);
    s14.description = Some(String::from_str("Optional folder token to create the document in"));
    p12.push((String::from_str("folder_token"), s14));
    s12.properties = p12;
    s12.has_properties = true;
    s12.required = Some(strings_of(&["title"]));
    ts.push(tool("feishu_create_doc", "Create a new document in Feishu Docs", s12));
    let mut s15 = bare_schema(SchemaKind::Object);
    let mut p15: Vec<(String, ParamSchema)> = Vec::new();
    let mut s16 = bare_schema(SchemaKind::Str);
    s16.description = Some(String::from_str("Search query (name, email, etc.)"));
    p15.push((String::from_str("query"), s16));
    let mut s17 = bare_schema(SchemaKind::Integer);
    s17.description = Some(String::from_str("Number of results per page (default: 20)"));
    p15.push((String::from_str("page_size"), s17));
    s15.properties = p15;
    s15.has_properties = true;
    s15.required = Some(strings_of(&["query"]));
    ts.push(tool("feishu_search_users", "Search for Feishu users by name or email", s15));
    let mut s18 = bare_schema(SchemaKind::Object);
    let mut p18: Vec<(String, ParamSchema)> = Vec::new();
    let mut s19 = bare_schema(SchemaKind::Str);
    s19.description = Some(String::from_str("The user ID to look up"));
    p18.push((String::from_str("user_id"), s19));
    let mut s20 = bare_schema(SchemaKind::Str);
    s20.description = Some(String::from_str("Type of user_id: open_id or user_id (default: open_id)"));
    s20.allowed = strings_of(&["open_id", "user_id"]);
    p18.push((String::from_str("user_id_type"), s20));
    s18.properties = p18;
    s18.has_properties = true;
    s18.required = Some(strings_of(&["user_id"]));
    ts.push(tool("feishu_get_user_info", "Get detailed information about a Feishu user", s18));
    proof {
        assert(param_docs(ts@[0]) =~~= seq![(Some("The ID of the message recipient (user or chat)"@), Seq::<Seq<char>>::empty(), None, None), (Some("Type of receive_id: open_id, user_id, or chat_id"@), seq!["open_id"@, "user_id"@, "chat_id"@], None, None), (Some("Message type: text or interactive"@), seq!["text"@, "interactive"@], None, None), (Some("Message content as JSON string"@), Seq::<Seq<char>>::empty(), None, None)]);
        assert(param_docs(ts@[1]) =~~= seq![(Some("Number of chats per page (default: 20)"@), Seq::<Seq<char>>::empty(), None, None), (Some("Pagination token for the next page"@), Seq::<Seq<char>>::empty(), None, None)]);
        assert(param_docs(ts@[2]) =~~= seq![(Some("The chat ID to retrieve messages from"@), Seq::<Seq<char>>::empty(), None, None), (Some("Number of messages to retrieve (default: 20)"@), Seq::<Seq<char>>::empty(), None, None)]);
        assert(param_docs(ts@[3]) =~~= seq![(Some("Title of the document"@), Seq::<Seq<char>>::empty(), None, None), (Some("Optional folder token to create the document in"@), Seq::<Seq<char>>::empty(), None, None)]);
        assert(param_docs(ts@[4]) =~~= seq![(Some("Search query (name, email, etc.)"@), Seq::<Seq<char>>::empty(), None, None), (Some("Number of results per page (default: 20)"@), Seq::<Seq<char>>::empty(), None, None)]);
        assert(param_docs(ts@[5]) =~~= seq![(Some("The user ID to look up"@), Seq::<Seq<char>>::empty(), None, None), (Some("Type of user_id: open_id or user_id (default: open_id)"@), seq!["open_id"@, "user_id"@], None, None)]);
        assert(params_of(ts@[0]) =~= seq![("receive_id"@, SchemaKind::Str), ("receive_id_type"@, SchemaKind::Str), ("msg_type"@, SchemaKind::Str), ("content"@, SchemaKind::Str)]);
        assert(views(ts@[0].parameters.required->Some_0@) =~= seq!["receive_id"@, "receive_id_type"@, "msg_type"@, "content"@]);
        assert(params_of(ts@[1]) =~= seq![("page_size"@, SchemaKind::Integer), ("page_token"@, SchemaKind::Str)]);
        assert(views(ts@[1].parameters.required->Some_0@) =~= Seq::<Seq<char>>::empty());
        assert(params_of(ts@[2]) =~= seq![("container_id"@, SchemaKind::Str), ("page_size"@, SchemaKind::Integer)]);
        assert(views(ts@[2].parameters.required->Some_0@) =~= seq!["container_id"@]);
        assert(params_of(ts@[3]) =~= seq![("title"@, SchemaKind::Str), ("folder_token"@, SchemaKind::Str)]);
        assert(views(ts@[3].parameters.required->Some_0@) =~= seq!["title"@]);
        assert(params_of(ts@[4]) =~= seq![("query"@, SchemaKind::Str), ("page_size"@, SchemaKind::Integer)]);
        assert(views(ts@[4].parameters.required->Some_0@) =~= seq!["query"@]);
        assert(params_of(ts@[5]) =~= seq![("user_id"@, SchemaKind::Str), ("user_id_type"@, SchemaKind::Str)]);
        assert(views(ts@[5].parameters.required->Some_0@) =~= seq!["user_id"@]);
    }
    ts
}

} // verus!
