//! Tool definitions for the calendar adapter.

use vstd::prelude::*;
use vstd::string::*;

use crate::traits::{ParamSchema, SchemaKind, ToolDefinition, bare_schema, params_of, strings_of, tool, tool_shape, views, ParamDoc, param_docs, tool_doc};

verus! {

/// The five calendar tools, in order: names, descriptions, parameters with JSON types
/// and documentation, and required parameters.
pub open spec fn calendar_tool_shapes(ts: Seq<ToolDefinition>) -> bool {
    &&& ts.len() == 5
    &&& tool_shape(ts[0], "calendar_list_events"@, seq![("days_ahead"@, SchemaKind::Integer), ("caldav_url"@, SchemaKind::Str), ("username"@, SchemaKind::Str), ("password"@, SchemaKind::Str)], Some(Seq::<Seq<char>>::empty()))
    &&& tool_shape(ts[1], "calendar_create_event"@, seq![("summary"@, SchemaKind::Str), ("start"@, SchemaKind::Str), ("end"@, SchemaKind::Str), ("description"@, SchemaKind::Str), ("location"@, SchemaKind::Str)], Some(seq!["summary"@, "start"@, "end"@]))
    &&& tool_shape(ts[2], "calendar_delete_event"@, seq![("uid"@, SchemaKind::Str)], Some(seq!["uid"@]))
    &&& tool_shape(ts[3], "calendar_search_events"@, seq![("query"@, SchemaKind::Str), ("days_ahead"@, SchemaKind::Integer)], Some(seq!["query"@]))
    &&& tool_shape(ts[4], "calendar_get_event"@, seq![("uid"@, SchemaKind::Str)], Some(seq!["uid"@]))
    &&& tool_doc(ts[0], "List upcoming calendar events from a CalDAV server"@, seq![(Some("Number of days ahead to look (default: 7)"@), Seq::<Seq<char>>::empty(), None, None), (Some("CalDAV server URL (overrides configured URL)"@), Seq::<Seq<char>>::empty(), None, None), (Some("CalDAV username (overrides configured)"@), Seq::<Seq<char>>::empty(), None, None), (Some("CalDAV password (overrides configured)"@), Seq::<Seq<char>>::empty(), None, None)])
    &&& tool_doc(ts[1], "Create a new calendar event on a CalDAV server"@, seq![(Some("Event title/summary"@), Seq::<Seq<char>>::empty(), None, None), (Some("Event start time in ISO 8601 format"@), Seq::<Seq<char>>::empty(), None, None), (Some("Event end time in ISO 8601 format"@), Seq::<Seq<char>>::empty(), None, None), (Some("Optional event description"@), Seq::<Seq<char>>::empty(), None, None), (Some("Optional event location"@), Seq::<Seq<char>>::empty(), None, None)])
    &&& tool_doc(ts[2], "Delete a calendar event by its UID"@, seq![(Some("The UID of the event to delete"@), Seq::<Seq<char>>::empty(), None, None)])
    &&& tool_doc(ts[3], "Search calendar events by text query"@, seq![(Some("Text to search for in event summaries and descriptions"@), Seq::<Seq<char>>::empty(), None, None), (Some("Number of days ahead to search (default: 7)"@), Seq::<Seq<char>>::empty(), None, None)])
    &&& tool_doc(ts[4], "Get detailed information about a calendar event by UID"@, seq![(Some("The UID of the event to retrieve"@), Seq::<Seq<char>>::empty(), None, None)])
}

/// Builds the definitions of the five calendar tools.
pub fn build_tool_definitions() -> (r: Vec<ToolDefinition>)
    ensures
        calendar_tool_shapes(r@),
{
    let mut ts: Vec<ToolDefinition> = Vec::new();
    let mut s1 = bare_schema(SchemaKind::Object);
    let mut p1: Vec<(String, ParamSchema)> = Vec::new();
    let mut s2 = bare_schema(SchemaKind::Integer);
    s2.description = Some(String::from_str("Number of days ahead to look (default: 7)"));
    p1.push((String::from_str("days_ahead"), s2));
    let mut s3 = bare_schema(SchemaKind::Str);
    s3.description = Some(String::from_str("CalDAV server URL (overrides configured URL)"));
    p1.push((String::from_str("caldav_url"), s3));
    let mut s4 = bare_schema(SchemaKind::Str);
    s4.description = Some(String::from_str("CalDAV username (overrides configured)"));
    p1.push((String::from_str("username"), s4));
    let mut s5 = bare_schema(SchemaKind::Str);
    s5.description = Some(String::from_str("CalDAV password (overrides configured)"));
    p1.push((String::from_str("password"), s5));
    s1.properties = p1;
    s1.has_properties = true;
    s1.required = Some(Vec::new());
    ts.push(tool("calendar_list_events", "List upcoming calendar events from a CalDAV server", s1));
    let mut s6 = bare_schema(SchemaKind::Object);
    let mut p6: Vec<(String, ParamSchema)> = Vec::new();
    let mut s7 = bare_schema(SchemaKind::Str);
    s7.description = Some(String::from_str("Event title/summary"));
    p6.push((String::from_str("summary"), s7));
    let mut s8 = bare_schema(SchemaKind::Str);
    s8.description = Some(String::from_str("Event start time in ISO 8601 format"));
    p6.push((String::from_str("start"), s8));
    let mut s9 = bare_schema(SchemaKind::Str);
    s9.description = Some(String::from_str("Event end time in ISO 8601 format"));
    p6.push((String::from_str("end"), s9));
    let mut s10 = bare_schema(SchemaKind::Str);
    s10.description = Some(String::from_str("Optional event description"));
    p6.push((String::from_str("description"), s10));
    let mut s11 = bare_schema(SchemaKind::Str);
    s11.description = Some(String::from_str("Optional event location"));
    p6.push((String::from_str("location"), s11));
    s6.properties = p6;
    s6.has_properties = true;
    s6.required = Some(strings_of(&["summary", "start", "end"]));
    ts.push(tool("calendar_create_event", "Create a new calendar event on a CalDAV server", s6));
    let mut s12 = bare_schema(SchemaKind::Object);
    let mut p12: Vec<(String, ParamSchema)> = Vec::new();
    let mut s13 = bare_schema(SchemaKind::Str);
    s13.description = Some(String::from_str("The UID of the event to delete"));
    p12.push((String::from_str("uid"), s13));
    s12.properties = p12;
    s12.has_properties = true;
    s12.required = Some(strings_of(&["uid"]));
    ts.push(tool("calendar_delete_event", "Delete a calendar event by its UID", s12));
    let mut s14 = bare_schema(SchemaKind::Object);
    let mut p14: Vec<(String, ParamSchema)> = Vec::new();
    let mut s15 = bare_schema(SchemaKind::Str);
    s15.description = Some(String::from_str("Text to search for in event summaries and descriptions"));
    p14.push((String::from_str("query"), s15));
    let mut s16 = bare_schema(SchemaKind::Integer);
    s16.description = Some(String::from_str("Number of days ahead to search (default: 7)"));
    p14.push((String::from_str("days_ahead"), s16));
    s14.properties = p14;
    s14.has_properties = true;
    s14.required = Some(strings_of(&["query"]));
    ts.push(tool("calendar_search_events", "Search calendar events by text query", s14));
    let mut s17 = bare_schema(SchemaKind::Object);
    let mut p17: Vec<(String, ParamSchema)> = Vec::new();
    let mut s18 = bare_schema(SchemaKind::Str);
    s18.description = Some(String::from_str("The UID of the event to retrieve"));
    p17.push((String::from_str("uid"), s18));
    s17.properties = p17;
    s17.has_properties = true;
    s17.required = Some(strings_of(&["uid"]));
    ts.push(tool("calendar_get_event", "Get detailed information about a calendar event by UID", s17));
    proof {
        assert(param_docs(ts@[0]) =~~= seq![(Some("Number of days ahead to look (default: 7)"@), Seq::<Seq<char>>::empty(), None, None), (Some("CalDAV server URL (overrides configured URL)"@), Seq::<Seq<char>>::empty(), None, None), (Some("CalDAV username (overrides configured)"@), Seq::<Seq<char>>::empty(), None, None), (Some("CalDAV password (overrides configured)"@), Seq::<Seq<char>>::empty(), None, None)]);
        assert(param_docs(ts@[1]) =~~= seq![(Some("Event title/summary"@), Seq::<Seq<char>>::empty(), None, None), (Some("Event start time in ISO 8601 format"@), Seq::<Seq<char>>::empty(), None, None), (Some("Event end time in ISO 8601 format"@), Seq::<Seq<char>>::empty(), None, None), (Some("Optional event description"@), Seq::<Seq<char>>::empty(), None, None), (Some("Optional event location"@), Seq::<Seq<char>>::empty(), None, None)]);
        assert(param_docs(ts@[2]) =~~= seq![(Some("The UID of the event to delete"@), Seq::<Seq<char>>::empty(), None, None)]);
        assert(param_docs(ts@[3]) =~~= seq![(Some("Text to search for in event summaries and descriptions"@), Seq::<Seq<char>>::empty(), None, None), (Some("Number of days ahead to search (default: 7)"@), Seq::<Seq<char>>::empty(), None, None)]);
        assert(param_docs(ts@[4]) =~~= seq![(Some("The UID of the event to retrieve"@), Seq::<Seq<char>>::empty(), None, None)]);
        assert(params_of(ts@[0]) =~= seq![("days_ahead"@, SchemaKind::Integer), ("caldav_url"@, SchemaKind::Str), ("username"@, SchemaKind::Str), ("password"@, SchemaKind::Str)]);
        assert(views(ts@[0].parameters.required->Some_0@) =~= Seq::<Seq<char>>::empty());
        assert(params_of(ts@[1]) =~= seq![("summary"@, SchemaKind::Str), ("start"@, SchemaKind::Str), ("end"@, SchemaKind::Str), ("description"@, SchemaKind::Str), ("location"@, SchemaKind::Str)]);
        assert(views(ts@[1].parameters.required->Some_0@) =~= seq!["summary"@, "start"@, "end"@]);
        assert(params_of(ts@[2]) =~= seq![("uid"@, SchemaKind::Str)]);
        assert(views(ts@[2].parameters.required->Some_0@) =~= seq!["uid"@]);
        assert(params_of(ts@[3]) =~= seq![("query"@, SchemaKind::Str), ("days_ahead"@, SchemaKind::Integer)]);
        assert(views(ts@[3].parameters.required->Some_0@) =~= seq!["query"@]);
        assert(params_of(ts@[4]) =~= seq![("uid"@, SchemaKind::Str)]);
        assert(views(ts@[4].parameters.required->Some_0@) =~= seq!["uid"@]);
    }
    ts
}

} // verus!
