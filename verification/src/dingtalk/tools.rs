//! Tool definitions for the DingTalk adapter.

use vstd::prelude::*;
use vstd::string::*;

use crate::traits::{ParamSchema, SchemaKind, ToolDefinition, bare_schema, params_of, strings_of, tool, tool_shape, views, ParamDoc, param_docs, tool_doc};
use crate::json::{JsonNumber, JsonValue, json_text};

verus! {

/// The three DingTalk tools, in order: names, descriptions, parameters with JSON types
/// and documentation, and required parameters.
pub open spec fn dingtalk_tool_shapes(ts: Seq<ToolDefinition>) -> bool {
    &&& ts.len() == 3
    &&& tool_shape(ts[0], "dingtalk_send_text"@, seq![("content"@, SchemaKind::Str), ("at_all"@, SchemaKind::Boolean), ("at_mobiles"@, SchemaKind::Array)], Some(seq!["content"@]))
    &&& tool_shape(ts[1], "dingtalk_send_markdown"@, seq![("title"@, SchemaKind::Str), ("text"@, SchemaKind::Str), ("at_all"@, SchemaKind::Boolean)], Some(seq!["title"@, "text"@]))
    &&& tool_shape(ts[2], "dingtalk_send_card"@, seq![("title"@, SchemaKind::Str), ("text"@, SchemaKind::Str), ("buttons"@, SchemaKind::Array)], Some(seq!["title"@, "text"@, "buttons"@]))
    &&& tool_doc(ts[0], "Send a text message to a DingTalk group via robot webhook. Use @all to notify everyone."@, seq![(Some("Message text"@), Seq::<Seq<char>>::empty(), None, None), (Some("Notify all group members"@), Seq::<Seq<char>>::empty(), Some(json_text(JsonValue::Bool(false))), None), (Some("Phone numbers to @ in the message"@), Seq::<Seq<char>>::empty(), None, Some(SchemaKind::Str))])
    &&& tool_doc(ts[1], "Send a Markdown message to a DingTalk group (supports bold, headers, links)."@, seq![(Some("Notification preview title"@), Seq::<Seq<char>>::empty(), None, None), (Some("Markdown content"@), Seq::<Seq<char>>::empty(), None, None), (Some("Notify all"@), Seq::<Seq<char>>::empty(), Some(json_text(JsonValue::Bool(false))), None)])
    &&& tool_doc(ts[2], "Send an action card with clickable buttons to a DingTalk group."@, seq![(Some("Card title"@), Seq::<Seq<char>>::empty(), None, None), (Some("Card body (Markdown)"@), Seq::<Seq<char>>::empty(), None, None), (Some("Action buttons"@), Seq::<Seq<char>>::empty(), None, Some(SchemaKind::Object))])
    &&& ts[2].parameters.properties@[2].1.items matches Some(b) && {
        &&& b.kind == SchemaKind::Object
        &&& b.has_properties
        &&& b.properties@.map_values(|p: (String, ParamSchema)| (p.0@, p.1.kind)) == seq![("title"@, SchemaKind::Str), ("action_url"@, SchemaKind::Str)]
        &&& b.required matches Some(q) && views(q@) == seq!["title"@, "action_url"@]
    }
}

/// Builds the definitions of the three DingTalk tools.
pub fn build_tool_definitions() -> (r: Vec<ToolDefinition>)
    ensures
        dingtalk_tool_shapes(r@),
{
    let mut ts: Vec<ToolDefinition> = Vec::new();
    let mut s1 = bare_schema(SchemaKind::Object);
    let mut p1: Vec<(String, ParamSchema)> = Vec::new();
    let mut s2 = bare_schema(SchemaKind::Str);
    s2.description = Some(String::from_str("Message text"));
    p1.push((String::from_str("content"), s2));
    let mut s3 = bare_schema(SchemaKind::Boolean);
    s3.description = Some(String::from_str("Notify all group members"));
    s3.default_value = Some(JsonValue::Bool(false));
    p1.push((String::from_str("at_all"), s3));
    let mut s4 = bare_schema(SchemaKind::Array);
    s4.description = Some(String::from_str("Phone numbers to @ in the message"));
    let mut s5 = bare_schema(SchemaKind::Str);
    s4.items = Some(Box::new(s5));
    p1.push((String::from_str("at_mobiles"), s4));
    s1.properties = p1;
    s1.has_properties = true;
    s1.required = Some(strings_of(&["content"]));
    ts.push(tool("dingtalk_send_text", "Send a text message to a DingTalk group via robot webhook. Use @all to notify everyone.", s1));
    let mut s6 = bare_schema(SchemaKind::Object);
    let mut p6: Vec<(String, ParamSchema)> = Vec::new();
    let mut s7 = bare_schema(SchemaKind::Str);
    s7.description = Some(String::from_str("Notification preview title"));
    p6.push((String::from_str("title"), s7));
    let mut s8 = bare_schema(SchemaKind::Str);
    s8.description = Some(String::from_str("Markdown content"));
    p6.push((String::from_str("text"), s8));
    let mut s9 = bare_schema(SchemaKind::Boolean);
    s9.description = Some(String::from_str("Notify all"));
    s9.default_value = Some(JsonValue::Bool(false));
    p6.push((String::from_str("at_all"), s9));
    s6.properties = p6;
    s6.has_properties = true;
    s6.required = Some(strings_of(&["title", "text"]));
    ts.push(tool("dingtalk_send_markdown", "Send a Markdown message to a DingTalk group (supports bold, headers, links).", s6));
    let mut s10 = bare_schema(SchemaKind::Object);
    let mut p10: Vec<(String, ParamSchema)> = Vec::new();
    let mut s11 = bare_schema(SchemaKind::Str);
    s11.description = Some(String::from_str("Card title"));
    p10.push((String::from_str("title"), s11));
    let mut s12 = bare_schema(SchemaKind::Str);
    s12.description = Some(String::from_str("Card body (Markdown)"));
    p10.push((String::from_str("text"), s12));
    let mut s13 = bare_schema(SchemaKind::Array);
    s13.description = Some(String::from_str("Action buttons"));
    let mut s14 = bare_schema(SchemaKind::Object);
    let mut p14: Vec<(String, ParamSchema)> = Vec::new();
    let mut s15 = bare_schema(SchemaKind::Str);
    p14.push((String::from_str("title"), s15));
    let mut s16 = bare_schema(SchemaKind::Str);
    p14.push((String::from_str("action_url"), s16));
    s14.properties = p14;
    s14.has_properties = true;
    s14.required = Some(strings_of(&["title", "action_url"]));
    s13.items = Some(Box::new(s14));
    p10.push((String::from_str("buttons"), s13));
    s10.properties = p10;
    s10.has_properties = true;
    s10.required = Some(strings_of(&["title", "text", "buttons"]));
    ts.push(tool("dingtalk_send_card", "Send an action card with clickable buttons to a DingTalk group.", s10));
    proof {
        assert(ts@[2].parameters.properties@[2].1.items->Some_0.properties@.map_values(
            |p: (String, ParamSchema)| (p.0@, p.1.kind),
        ) =~= seq![("title"@, SchemaKind::Str), ("action_url"@, SchemaKind::Str)]);
        assert(views(ts@[2].parameters.properties@[2].1.items->Some_0.required->Some_0@) =~= seq![
            "title"@,
            "action_url"@,
        ]);
        assert(param_docs(ts@[0]) =~~= seq![(Some("Message text"@), Seq::<Seq<char>>::empty(), None, None), (Some("Notify all group members"@), Seq::<Seq<char>>::empty(), Some(json_text(JsonValue::Bool(false))), None), (Some("Phone numbers to @ in the message"@), Seq::<Seq<char>>::empty(), None, Some(SchemaKind::Str))]);
        assert(param_docs(ts@[1]) =~~= seq![(Some("Notification preview title"@), Seq::<Seq<char>>::empty(), None, None), (Some("Markdown content"@), Seq::<Seq<char>>::empty(), None, None), (Some("Notify all"@), Seq::<Seq<char>>::empty(), Some(json_text(JsonValue::Bool(false))), None)]);
        assert(param_docs(ts@[2]) =~~= seq![(Some("Card title"@), Seq::<Seq<char>>::empty(), None, None), (Some("Card body (Markdown)"@), Seq::<Seq<char>>::empty(), None, None), (Some("Action buttons"@), Seq::<Seq<char>>::empty(), None, Some(SchemaKind::Object))]);
        assert(params_of(ts@[0]) =~= seq![("content"@, SchemaKind::Str), ("at_all"@, SchemaKind::Boolean), ("at_mobiles"@, SchemaKind::Array)]);
        assert(views(ts@[0].parameters.required->Some_0@) =~= seq!["content"@]);
        assert(params_of(ts@[1]) =~= seq![("title"@, SchemaKind::Str), ("text"@, SchemaKind::Str), ("at_all"@, SchemaKind::Boolean)]);
        assert(views(ts@[1].parameters.required->Some_0@) =~= seq!["title"@, "text"@]);
        assert(params_of(ts@[2]) =~= seq![("title"@, SchemaKind::Str), ("text"@, SchemaKind::Str), ("buttons"@, SchemaKind::Array)]);
        assert(views(ts@[2].parameters.required->Some_0@) =~= seq!["title"@, "text"@, "buttons"@]);
    }
    ts
}

} // verus!
