//! Tool definitions for the Bilibili adapter.

use vstd::prelude::*;
use vstd::string::*;

use crate::traits::{ParamSchema, SchemaKind, ToolDefinition, bare_schema, params_of, strings_of, tool, tool_shape, views, ParamDoc, param_docs, tool_doc};

verus! {

/// The three Bilibili tools, in order: names, descriptions, parameters with JSON types
/// and documentation, and required parameters.
pub open spec fn bili_tool_shapes(ts: Seq<ToolDefinition>) -> bool {
    &&& ts.len() == 3
    &&& tool_shape(ts[0], "bili_get_live_info"@, seq![("room_id"@, SchemaKind::Str)], Some(Seq::<Seq<char>>::empty()))
    &&& tool_shape(ts[1], "bili_send_danmaku"@, seq![("room_id"@, SchemaKind::Str), ("content"@, SchemaKind::Str)], Some(seq!["room_id"@, "content"@]))
    &&& tool_shape(ts[2], "bili_get_danmaku_history"@, seq![("room_id"@, SchemaKind::Str), ("count"@, SchemaKind::Str)], Some(seq!["room_id"@]))
    &&& tool_doc(ts[0], "Get Bilibili live room status and information."@, seq![(Some("Live room ID. If omitted, uses the Open Live platform default."@), Seq::<Seq<char>>::empty(), None, None)])
    &&& tool_doc(ts[1], "Send a danmaku (弹幕) comment to a Bilibili live room via the Open Live Platform."@, seq![(Some("Target live room ID"@), Seq::<Seq<char>>::empty(), None, None), (Some("Danmaku text, max 30 chars"@), Seq::<Seq<char>>::empty(), None, None)])
    &&& tool_doc(ts[2], "Get recent danmaku history for a Bilibili live room."@, seq![(Some("Target live room ID"@), Seq::<Seq<char>>::empty(), None, None), (Some("Number of danmaku to fetch, default 20"@), Seq::<Seq<char>>::empty(), None, None)])
}

/// Builds the definitions of the three Bilibili tools.
pub fn build_tool_definitions() -> (r: Vec<ToolDefinition>)
    ensures
        bili_tool_shapes(r@),
{
    let mut ts: Vec<ToolDefinition> = Vec::new();
    let mut s1 = bare_schema(SchemaKind::Object);
    let mut p1: Vec<(String, ParamSchema)> = Vec::new();
    let mut s2 = bare_schema(SchemaKind::Str);
    s2.description = Some(String::from_str("Live room ID. If omitted, uses the Open Live platform default."));
    p1.push((String::from_str("room_id"), s2));
    s1.properties = p1;
    s1.has_properties = true;
    s1.required = Some(Vec::new());
    ts.push(tool("bili_get_live_info", "Get Bilibili live room status and information.", s1));
    let mut s3 = bare_schema(SchemaKind::Object);
    let mut p3: Vec<(String, ParamSchema)> = Vec::new();
    let mut s4 = bare_schema(SchemaKind::Str);
    s4.description = Some(String::from_str("Target live room ID"));
    p3.push((String::from_str("room_id"), s4));
    let mut s5 = bare_schema(SchemaKind::Str);
    s5.description = Some(String::from_str("Danmaku text, max 30 chars"));
    p3.push((String::from_str("content"), s5));
    s3.properties = p3;
    s3.has_properties = true;
    s3.required = Some(strings_of(&["room_id", "content"]));
    ts.push(tool("bili_send_danmaku", "Send a danmaku (弹幕) comment to a Bilibili live room via the Open Live Platform.", s3));
    let mut s6 = bare_schema(SchemaKind::Object);
    let mut p6: Vec<(String, ParamSchema)> = Vec::new();
    let mut s7 = bare_schema(SchemaKind::Str);
    s7.description = Some(String::from_str("Target live room ID"));
    p6.push((String::from_str("room_id"), s7));
    let mut s8 = bare_schema(SchemaKind::Str);
    s8.description = Some(String::from_str("Number of danmaku to fetch, default 20"));
    p6.push((String::from_str("count"), s8));
    s6.properties = p6;
    s6.has_properties = true;
    s6.required = Some(strings_of(&["room_id"]));
    ts.push(tool("bili_get_danmaku_history", "Get recent danmaku history for a Bilibili live room.", s6));
    proof {
        assert(param_docs(ts@[0]) =~~= seq![(Some("Live room ID. If omitted, uses the Open Live platform default."@), Seq::<Seq<char>>::empty(), None, None)]);
        assert(param_docs(ts@[1]) =~~= seq![(Some("Target live room ID"@), Seq::<Seq<char>>::empty(), None, None), (Some("Danmaku text, max 30 chars"@), Seq::<Seq<char>>::empty(), None, None)]);
        assert(param_docs(ts@[2]) =~~= seq![(Some("Target live room ID"@), Seq::<Seq<char>>::empty(), None, None), (Some("Number of danmaku to fetch, default 20"@), Seq::<Seq<char>>::empty(), None, None)]);
        assert(params_of(ts@[0]) =~= seq![("room_id"@, SchemaKind::Str)]);
        assert(views(ts@[0].parameters.required->Some_0@) =~= Seq::<Seq<char>>::empty());
        assert(params_of(ts@[1]) =~= seq![("room_id"@, SchemaKind::Str), ("content"@, SchemaKind::Str)]);
        assert(views(ts@[1].parameters.required->Some_0@) =~= seq!["room_id"@, "content"@]);
        assert(params_of(ts@[2]) =~= seq![("room_id"@, SchemaKind::Str), ("count"@, SchemaKind::Str)]);
        assert(views(ts@[2].parameters.required->Some_0@) =~= seq!["room_id"@]);
    }
    ts
}

} // verus!
