//! Tool definitions for the browser adapter.

use vstd::prelude::*;
use vstd::string::*;

use crate::error::{AdapterError, execution_failed, is_execution_failed};
use crate::json::{JsonNumber, JsonValue, field, get_str, json_text, keys_of, str_field, str_of, take_field, to_json_text, uint, value_at};
use crate::traits::{ParamSchema, SchemaKind, ToolDefinition, bare_schema, params_of, strings_of, tool, tool_shape, views, ParamDoc, param_docs, tool_doc};

verus! {

/// The six browser tools, in order: names, descriptions, parameters with JSON types
/// and documentation, and required parameters.
pub open spec fn browser_tool_shapes(ts: Seq<ToolDefinition>) -> bool {
    &&& ts.len() == 6
    &&& tool_shape(ts[0], "browser_navigate"@, seq![("url"@, SchemaKind::Str)], Some(seq!["url"@]))
    &&& tool_shape(ts[1], "browser_get_page_content"@, Seq::empty(), Some(Seq::<Seq<char>>::empty()))
    &&& tool_shape(ts[2], "browser_screenshot"@, seq![("format"@, SchemaKind::Str)], Some(Seq::<Seq<char>>::empty()))
    &&& tool_shape(ts[3], "browser_click"@, seq![("selector"@, SchemaKind::Str)], Some(seq!["selector"@]))
    &&& tool_shape(ts[4], "browser_type_text"@, seq![("text"@, SchemaKind::Str)], Some(seq!["text"@]))
    &&& tool_shape(ts[5], "browser_evaluate"@, seq![("expression"@, SchemaKind::Str)], Some(seq!["expression"@]))
    &&& tool_doc(ts[0], "Navigate the browser to a URL"@, seq![(Some("The URL to navigate to"@), Seq::<Seq<char>>::empty(), None, None)])
    &&& tool_doc(ts[1], "Get the current page's text content (innerText of body)"@, Seq::<ParamDoc>::empty())
    &&& tool_doc(ts[2], "Take a screenshot of the current page (returns base64-encoded image)"@, seq![(Some("Image format: \"png\" (default) or \"jpeg\""@), seq!["png"@, "jpeg"@], None, None)])
    &&& tool_doc(ts[3], "Click an element identified by CSS selector"@, seq![(Some("CSS selector for the element to click"@), Seq::<Seq<char>>::empty(), None, None)])
    &&& tool_doc(ts[4], "Type text into the currently focused element"@, seq![(Some("The text to type"@), Seq::<Seq<char>>::empty(), None, None)])
    &&& tool_doc(ts[5], "Evaluate a JavaScript expression in the page context"@, seq![(Some("The JavaScript expression to evaluate"@), Seq::<Seq<char>>::empty(), None, None)])
}

/// Builds the definitions of the six browser tools.
pub fn build_tool_definitions() -> (r: Vec<ToolDefinition>)
    ensures
        browser_tool_shapes(r@),
{
    let mut ts: Vec<ToolDefinition> = Vec::new();
    let mut s1 = bare_schema(SchemaKind::Object);
    let mut p1: Vec<(String, ParamSchema)> = Vec::new();
    let mut s2 = bare_schema(SchemaKind::Str);
    s2.description = Some(String::from_str("The URL to navigate to"));
    p1.push((String::from_str("url"), s2));
    s1.properties = p1;
    s1.has_properties = true;
    s1.required = Some(strings_of(&["url"]));
    ts.push(tool("browser_navigate", "Navigate the browser to a URL", s1));
    let mut s3 = bare_schema(SchemaKind::Object);
    let mut p3: Vec<(String, ParamSchema)> = Vec::new();
    s3.properties = p3;
    s3.has_properties = true;
    s3.required = Some(Vec::new());
    ts.push(tool("browser_get_page_content", "Get the current page's text content (innerText of body)", s3));
    let mut s4 = bare_schema(SchemaKind::Object);
    let mut p4: Vec<(String, ParamSchema)> = Vec::new();
    let mut s5 = bare_schema(SchemaKind::Str);
    s5.description = Some(String::from_str("Image format: \"png\" (default) or \"jpeg\""));
    s5.allowed = strings_of(&["png", "jpeg"]);
    p4.push((String::from_str("format"), s5));
    s4.properties = p4;
    s4.has_properties = true;
    s4.required = Some(Vec::new());
    ts.push(tool("browser_screenshot", "Take a screenshot of the current page (returns base64-encoded image)", s4));
    let mut s6 = bare_schema(SchemaKind::Object);
    let mut p6: Vec<(String, ParamSchema)> = Vec::new();
    let mut s7 = bare_schema(SchemaKind::Str);
    s7.description = Some(String::from_str("CSS selector for the element to click"));
    p6.push((String::from_str("selector"), s7));
    s6.properties = p6;
    s6.has_properties = true;
    s6.required = Some(strings_of(&["selector"]));
    ts.push(tool("browser_click", "Click an element identified by CSS selector", s6));
    let mut s8 = bare_schema(SchemaKind::Object);
    let mut p8: Vec<(String, ParamSchema)> = Vec::new();
    let mut s9 = bare_schema(SchemaKind::Str);
    s9.description = Some(String::from_str("The text to type"));
    p8.push((String::from_str("text"), s9));
    s8.properties = p8;
    s8.has_properties = true;
    s8.required = Some(strings_of(&["text"]));
    ts.push(tool("browser_type_text", "Type text into the currently focused element", s8));
    let mut s10 = bare_schema(SchemaKind::Object);
    let mut p10: Vec<(String, ParamSchema)> = Vec::new();
    let mut s11 = bare_schema(SchemaKind::Str);
    s11.description = Some(String::from_str("The JavaScript expression to evaluate"));
    p10.push((String::from_str("expression"), s11));
    s10.properties = p10;
    s10.has_properties = true;
    s10.required = Some(strings_of(&["expression"]));
    ts.push(tool("browser_evaluate", "Evaluate a JavaScript expression in the page context", s10));
    proof {
        assert(param_docs(ts@[0]) =~~= seq![(Some("The URL to navigate to"@), Seq::<Seq<char>>::empty(), None, None)]);
        assert(param_docs(ts@[1]) =~~= Seq::<ParamDoc>::empty());
        assert(param_docs(ts@[2]) =~~= seq![(Some("Image format: \"png\" (default) or \"jpeg\""@), seq!["png"@, "jpeg"@], None, None)]);
        assert(param_docs(ts@[3]) =~~= seq![(Some("CSS selector for the element to click"@), Seq::<Seq<char>>::empty(), None, None)]);
        assert(param_docs(ts@[4]) =~~= seq![(Some("The text to type"@), Seq::<Seq<char>>::empty(), None, None)]);
        assert(param_docs(ts@[5]) =~~= seq![(Some("The JavaScript expression to evaluate"@), Seq::<Seq<char>>::empty(), None, None)]);
        assert(params_of(ts@[0]) =~= seq![("url"@, SchemaKind::Str)]);
        assert(views(ts@[0].parameters.required->Some_0@) =~= seq!["url"@]);
        assert(params_of(ts@[1]) =~= Seq::<(Seq<char>, SchemaKind)>::empty());
        assert(views(ts@[1].parameters.required->Some_0@) =~= Seq::<Seq<char>>::empty());
        assert(params_of(ts@[2]) =~= seq![("format"@, SchemaKind::Str)]);
        assert(views(ts@[2].parameters.required->Some_0@) =~= Seq::<Seq<char>>::empty());
        assert(params_of(ts@[3]) =~= seq![("selector"@, SchemaKind::Str)]);
        assert(views(ts@[3].parameters.required->Some_0@) =~= seq!["selector"@]);
        assert(params_of(ts@[4]) =~= seq![("text"@, SchemaKind::Str)]);
        assert(views(ts@[4].parameters.required->Some_0@) =~= seq!["text"@]);
        assert(params_of(ts@[5]) =~= seq![("expression"@, SchemaKind::Str)]);
        assert(views(ts@[5].parameters.required->Some_0@) =~= seq!["expression"@]);
    }
    ts
}


// ---------------------------------------------------------------------------
// Reading the results of CDP commands
// ---------------------------------------------------------------------------

/// The message of a `JavaScript exception` error: the exception's `text`,
/// or `unknown exception`.
pub open spec fn exception_reason(details: JsonValue) -> Seq<char> {
    "JavaScript exception: "@ + match str_field(details, "text"@) {
        Some(t) => t,
        None => "unknown exception"@,
    }
}

/// What a `Runtime.evaluate` result reads as text: the missing `result` and
/// a thrown exception are errors; a string value is itself, another value is
/// its compact JSON text, and no value gives the result's `type` (or
/// `undefined`).
pub open spec fn runtime_value_outcome(cdp_result: JsonValue, r: Result<String, AdapterError>) -> bool {
    match field(cdp_result, "result"@) {
        None => r matches Err(e) && is_execution_failed(e, "browser"@, "CDP response missing `result` field"@),
        Some(obj) => match field(cdp_result, "exceptionDetails"@) {
            Some(x) => r matches Err(e) && is_execution_failed(e, "browser"@, exception_reason(x)),
            None => r matches Ok(t) && t@ == match field(obj, "value"@) {
                Some(JsonValue::Str(s)) => s@,
                Some(v) => json_text(v),
                None => match str_field(obj, "type"@) {
                    Some(ty) => ty,
                    None => "undefined"@,
                },
            },
        },
    }
}

fn exception_error(tool_name: &str, details: &JsonValue) -> (e: AdapterError)
    ensures
        is_execution_failed(e, tool_name@, exception_reason(*details)),
{
    let text = match get_str(details, "text") {
        Some(t) => t,
        None => String::from_str("unknown exception"),
    };
    let mut reason = String::from_str("JavaScript exception: ");
    reason.append(text.as_str());
    execution_failed(tool_name, reason)
}

/// The value of a `Runtime.evaluate` result, as text.
pub fn extract_runtime_value(cdp_result: &JsonValue) -> (r: Result<String, AdapterError>)
    ensures
        runtime_value_outcome(*cdp_result, r),
{
    let obj = match cdp_result.get("result") {
        Some(o) => o,
        None => {
            return Err(execution_failed("browser", String::from_str("CDP response missing `result` field")));
        },
    };
    match cdp_result.get("exceptionDetails") {
        Some(x) => {
            return Err(exception_error("browser", x));
        },
        None => {},
    }
    match obj.get("value") {
        Some(v) => match v {
            JsonValue::Str(s) => Ok(s.clone()),
            _ => Ok(to_json_text(v)),
        },
        None => match get_str(obj, "type") {
            Some(t) => Ok(t),
            None => Ok(String::from_str("undefined")),
        },
    }
}

/// The length in bytes of a text, as `str::len` gives it.
pub open spec fn byte_length(s: Seq<char>) -> u64 {
    (vstd::utf8::encode_utf8(s).len() as usize) as u64
}

/// The result of `browser_navigate`: success, the URL, and the frame id of
/// the navigation (`unknown` when the reply has none).
pub fn tool_browser_navigate(url: &str, result: &JsonValue) -> (r: JsonValue)
    ensures
        keys_of(r) == seq!["success"@, "url"@, "frame_id"@],
        value_at(r, 0) == JsonValue::Bool(true),
        str_of(value_at(r, 1)) == Some(url@),
        str_of(value_at(r, 2)) == Some(
            match str_field(*result, "frameId"@) {
                Some(f) => f,
                None => "unknown"@,
            },
        ),
{
    let frame = match get_str(result, "frameId") {
        Some(f) => f,
        None => String::from_str("unknown"),
    };
    let mut es: Vec<(String, JsonValue)> = Vec::new();
    es.push((String::from_str("success"), JsonValue::Bool(true)));
    es.push((String::from_str("url"), JsonValue::from_str_value(url)));
    es.push((String::from_str("frame_id"), JsonValue::Str(frame)));
    let r = JsonValue::Object(es);
    assert(keys_of(r) =~= seq!["success"@, "url"@, "frame_id"@]);
    r
}

/// The result of `browser_get_page_content`: the page text and its length
/// in bytes.
pub fn tool_browser_get_page_content(result: &JsonValue) -> (r: Result<JsonValue, AdapterError>)
    ensures
        match r {
            Ok(j) => exists|t: String| #[trigger] runtime_value_outcome(*result, Ok::<String, AdapterError>(t))
                && keys_of(j) == seq!["content"@, "length"@] && str_of(value_at(j, 0)) == Some(t@)
                && value_at(j, 1) == uint(byte_length(t@)),
            Err(e) => runtime_value_outcome(*result, Err::<String, AdapterError>(e)),
        },
{
    let content = match extract_runtime_value(result) {
        Ok(c) => c,
        Err(e) => {
            return Err(e);
        },
    };
    let ghost t = content;
    let n = content.as_str().len();
    let mut es: Vec<(String, JsonValue)> = Vec::new();
    es.push((String::from_str("content"), JsonValue::Str(content)));
    es.push((String::from_str("length"), JsonValue::Number(JsonNumber::PosInt(n as u64))));
    let j = JsonValue::Object(es);
    assert(keys_of(j) =~= seq!["content"@, "length"@]);
    assert(runtime_value_outcome(*result, Ok::<String, AdapterError>(t)));
    Ok(j)
}

/// The result of `browser_screenshot`: the format, the base64 image data
/// (empty when the reply has none), its encoding and its length.
pub fn tool_browser_screenshot(format: &str, result: &JsonValue) -> (r: JsonValue)
    ensures
        keys_of(r) == seq!["format"@, "data"@, "encoding"@, "length"@],
        str_of(value_at(r, 0)) == Some(format@),
        str_of(value_at(r, 1)) == Some(
            match str_field(*result, "data"@) {
                Some(d) => d,
                None => Seq::<char>::empty(),
            },
        ),
        str_of(value_at(r, 2)) == Some("base64"@),
        value_at(r, 3) == uint(
            byte_length(
                match str_field(*result, "data"@) {
                    Some(d) => d,
                    None => Seq::<char>::empty(),
                },
            ),
        ),
{
    let data = match get_str(result, "data") {
        Some(d) => d,
        None => String::new(),
    };
    let n = data.as_str().len();
    let mut es: Vec<(String, JsonValue)> = Vec::new();
    es.push((String::from_str("format"), JsonValue::from_str_value(format)));
    es.push((String::from_str("data"), JsonValue::Str(data)));
    es.push((String::from_str("encoding"), JsonValue::from_str_value("base64")));
    es.push((String::from_str("length"), JsonValue::Number(JsonNumber::PosInt(n as u64))));
    let r = JsonValue::Object(es);
    assert(keys_of(r) =~= seq!["format"@, "data"@, "encoding"@, "length"@]);
    r
}

/// What an in-page script reported: its parsed JSON value, or, when its text
/// is not JSON, `{"result": text}`.
pub open spec fn script_report(text: Seq<char>, parsed: Option<JsonValue>, r: JsonValue) -> bool {
    match parsed {
        Some(p) => r == p,
        None => keys_of(r) == seq!["result"@] && str_of(value_at(r, 0)) == Some(text),
    }
}

fn report_of(text: String, parsed: Option<JsonValue>) -> (r: JsonValue)
    ensures
        script_report(text@, parsed, r),
        parsed is None ==> field(r, "error"@) is None,
{
    match parsed {
        Some(p) => p,
        None => {
            let mut es: Vec<(String, JsonValue)> = Vec::new();
            es.push((String::from_str("result"), JsonValue::Str(text)));
            let r = JsonValue::Object(es);
            assert(keys_of(r) =~= seq!["result"@]);
            proof {
                reveal_strlit("result");
                reveal_strlit("error");
                assert("result"@.len() != "error"@.len());
                assert(es@[0].0@ != "error"@);
                assert(es@.drop_first().len() == 0);
                assert(crate::json::lookup(es@.drop_first(), "error"@) is None);
                assert(field(r, "error"@) == crate::json::lookup(es@, "error"@));
            }
            r
        },
    }
}

/// The result of `browser_click`, from the text the click script returned
/// and that text parsed as JSON (`None` when it is not JSON): a report with
/// an `error` field means the element was not found.
pub fn tool_browser_click(selector: &str, text: String, parsed: Option<JsonValue>) -> (r: Result<JsonValue, AdapterError>)
    ensures
        match parsed {
            Some(p) if field(p, "error"@) is Some => r matches Err(e) && is_execution_failed(
                e,
                "browser_click"@,
                "element not found for selector `"@ + selector@ + "`"@,
            ),
            _ => r matches Ok(j) && script_report(text@, parsed, j),
        },
{
    let report = report_of(text, parsed);
    if report.get("error").is_some() {
        let mut reason = String::from_str("element not found for selector `");
        reason.append(selector);
        reason.append("`");
        return Err(execution_failed("browser_click", reason));
    }
    Ok(report)
}

/// The result of `browser_type_text`, from the text the typing script
/// returned and that text parsed as JSON: a report with an `error` field
/// means no element had the focus.
pub fn tool_browser_type_text(text: String, parsed: Option<JsonValue>) -> (r: Result<JsonValue, AdapterError>)
    ensures
        match parsed {
            Some(p) if field(p, "error"@) is Some => r matches Err(e) && is_execution_failed(
                e,
                "browser_type_text"@,
                "no element focused to receive text input"@,
            ),
            _ => r matches Ok(j) && script_report(text@, parsed, j),
        },
{
    let report = report_of(text, parsed);
    if report.get("error").is_some() {
        return Err(execution_failed("browser_type_text", String::from_str("no element focused to receive text input")));
    }
    Ok(report)
}

/// The result of `browser_evaluate`: a thrown exception is an error;
/// otherwise `{"result": r}` with the evaluation's `result` (null when
/// absent).
pub fn tool_browser_evaluate(result: JsonValue) -> (r: Result<JsonValue, AdapterError>)
    ensures
        match field(result, "exceptionDetails"@) {
            Some(x) => r matches Err(e) && is_execution_failed(e, "browser_evaluate"@, exception_reason(x)),
            None => r matches Ok(j) && keys_of(j) == seq!["result"@] && value_at(j, 0) == match field(
                result,
                "result"@,
            ) {
                Some(v) => v,
                None => JsonValue::Null,
            },
        },
{
    match result.get("exceptionDetails") {
        Some(x) => {
            return Err(exception_error("browser_evaluate", x));
        },
        None => {},
    }
    let value = match take_field(result, "result") {
        Some(v) => v,
        None => JsonValue::Null,
    };
    let mut es: Vec<(String, JsonValue)> = Vec::new();
    es.push((String::from_str("result"), value));
    let j = JsonValue::Object(es);
    assert(keys_of(j) =~= seq!["result"@]);
    Ok(j)
}

} // verus!
