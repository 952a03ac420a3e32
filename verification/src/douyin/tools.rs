//! Tool definitions for the Douyin adapter.

use vstd::prelude::*;
use vstd::string::*;

use crate::traits::{ParamSchema, SchemaKind, ToolDefinition, bare_schema, params_of, strings_of, tool, tool_shape, views, ParamDoc, param_docs, tool_doc};
use crate::json::{JsonNumber, JsonValue, json_quoted};

verus! {

/// The four Douyin tools, in order: names, descriptions, parameters with JSON types
/// and documentation, and required parameters.
pub open spec fn douyin_tool_shapes(ts: Seq<ToolDefinition>) -> bool {
    &&& ts.len() == 4
    &&& tool_shape(ts[0], "douyin_get_auth_url"@, seq![("redirect_uri"@, SchemaKind::Str)], Some(seq!["redirect_uri"@]))
    &&& tool_shape(ts[1], "douyin_publish_video"@, seq![("file_path"@, SchemaKind::Str), ("caption"@, SchemaKind::Str)], Some(seq!["file_path"@, "caption"@]))
    &&& tool_shape(ts[2], "douyin_get_video_list"@, seq![("count"@, SchemaKind::Str)], None)
    &&& tool_shape(ts[3], "douyin_get_video_stats"@, seq![("item_id"@, SchemaKind::Str)], Some(seq!["item_id"@]))
    &&& tool_doc(ts[0], "Generate the Douyin OAuth2 authorization URL. Direct the user to this URL to grant access. No token required."@, seq![(Some("The redirect URI registered in your Douyin app settings"@), Seq::<Seq<char>>::empty(), None, None)])
    &&& tool_doc(ts[1], "Upload and publish a video to Douyin. Returns the item_id of the published post."@, seq![(Some("Absolute local path to the video file to upload"@), Seq::<Seq<char>>::empty(), None, None), (Some("Video caption/description text"@), Seq::<Seq<char>>::empty(), None, None)])
    &&& tool_doc(ts[2], "Get the list of videos for the authenticated Douyin user."@, seq![(Some("Number of videos to return (default: 10)"@), Seq::<Seq<char>>::empty(), Some(json_quoted("10"@)), None)])
    &&& tool_doc(ts[3], "Get performance statistics (plays, likes, comments, shares) for a specific Douyin video by item_id."@, seq![(Some("The item_id of the Douyin video to get stats for"@), Seq::<Seq<char>>::empty(), None, None)])
}

/// Builds the definitions of the four Douyin tools.
pub fn build_tool_definitions() -> (r: Vec<ToolDefinition>)
    ensures
        douyin_tool_shapes(r@),
{
    let mut ts: Vec<ToolDefinition> = Vec::new();
    let mut s1 = bare_schema(SchemaKind::Object);
    let mut p1: Vec<(String, ParamSchema)> = Vec::new();
    let mut s2 = bare_schema(SchemaKind::Str);
    s2.description = Some(String::from_str("The redirect URI registered in your Douyin app settings"));
    p1.push((String::from_str("redirect_uri"), s2));
    s1.properties = p1;
    s1.has_properties = true;
    s1.required = Some(strings_of(&["redirect_uri"]));
    ts.push(tool("douyin_get_auth_url", "Generate the Douyin OAuth2 authorization URL. Direct the user to this URL to grant access. No token required.", s1));
    let mut s3 = bare_schema(SchemaKind::Object);
    let mut p3: Vec<(String, ParamSchema)> = Vec::new();
    let mut s4 = bare_schema(SchemaKind::Str);
    s4.description = Some(String::from_str("Absolute local path to the video file to upload"));
    p3.push((String::from_str("file_path"), s4));
    let mut s5 = bare_schema(SchemaKind::Str);
    s5.description = Some(String::from_str("Video caption/description text"));
    p3.push((String::from_str("caption"), s5));
    s3.properties = p3;
    s3.has_properties = true;
    s3.required = Some(strings_of(&["file_path", "caption"]));
    ts.push(tool("douyin_publish_video", "Upload and publish a video to Douyin. Returns the item_id of the published post.", s3));
    let mut s6 = bare_schema(SchemaKind::Object);
    let mut p6: Vec<(String, ParamSchema)> = Vec::new();
    let mut s7 = bare_schema(SchemaKind::Str);
    s7.description = Some(String::from_str("Number of videos to return (default: 10)"));
    s7.default_value = Some(JsonValue::from_str_value("10"));
    p6.push((String::from_str("count"), s7));
    s6.properties = p6;
    s6.has_properties = true;
    ts.push(tool("douyin_get_video_list", "Get the list of videos for the authenticated Douyin user.", s6));
    let mut s8 = bare_schema(SchemaKind::Object);
    let mut p8: Vec<(String, ParamSchema)> = Vec::new();
    let mut s9 = bare_schema(SchemaKind::Str);
    s9.description = Some(String::from_str("The item_id of the Douyin video to get stats for"));
    p8.push((String::from_str("item_id"), s9));
    s8.properties = p8;
    s8.has_properties = true;
    s8.required = Some(strings_of(&["item_id"]));
    ts.push(tool("douyin_get_video_stats", "Get performance statistics (plays, likes, comments, shares) for a specific Douyin video by item_id.", s8));
    proof {
        assert(param_docs(ts@[0]) =~~= seq![(Some("The redirect URI registered in your Douyin app settings"@), Seq::<Seq<char>>::empty(), None, None)]);
        assert(param_docs(ts@[1]) =~~= seq![(Some("Absolute local path to the video file to upload"@), Seq::<Seq<char>>::empty(), None, None), (Some("Video caption/description text"@), Seq::<Seq<char>>::empty(), None, None)]);
        assert(param_docs(ts@[2]) =~~= seq![(Some("Number of videos to return (default: 10)"@), Seq::<Seq<char>>::empty(), Some(json_quoted("10"@)), None)]);
        assert(param_docs(ts@[3]) =~~= seq![(Some("The item_id of the Douyin video to get stats for"@), Seq::<Seq<char>>::empty(), None, None)]);
        assert(params_of(ts@[0]) =~= seq![("redirect_uri"@, SchemaKind::Str)]);
        assert(views(ts@[0].parameters.required->Some_0@) =~= seq!["redirect_uri"@]);
        assert(params_of(ts@[1]) =~= seq![("file_path"@, SchemaKind::Str), ("caption"@, SchemaKind::Str)]);
        assert(views(ts@[1].parameters.required->Some_0@) =~= seq!["file_path"@, "caption"@]);
        assert(params_of(ts@[2]) =~= seq![("count"@, SchemaKind::Str)]);
        assert(params_of(ts@[3]) =~= seq![("item_id"@, SchemaKind::Str)]);
        assert(views(ts@[3].parameters.required->Some_0@) =~= seq!["item_id"@]);
    }
    ts
}

} // verus!
