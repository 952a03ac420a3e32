//! The shape every adapter shares: its kind, health, authentication needs
//! and the JSON-schema definitions of its tools.

use vstd::prelude::*;
use vstd::string::*;

use crate::error::AdapterError;
use crate::json::{JsonValue, entries_text, items_text, json_quoted, json_text, lemma_entries_text_congruent, lemma_items_text_congruent, str_field, str_of};

verus! {

/// The broad category an adapter belongs to.
#[derive(Debug, Clone, Copy, PartialEq, Eq, Structural)]
pub enum AdapterType {
    System,
    Productivity,
    Messaging,
    DevTools,
}

/// The result of an adapter health check.
#[derive(Debug, Clone, Copy, PartialEq, Eq, Structural)]
pub enum HealthStatus {
    Healthy,
    Degraded,
    Unhealthy,
}

/// The HTTP method of a request an adapter asks the caller to send.
#[derive(Debug, Clone, Copy, PartialEq, Eq, Structural)]
pub enum HttpMethod {
    Get,
    Post,
    Put,
    Delete,
}

/// The credentials an adapter needs: a provider and its scopes.
#[derive(Debug)]
pub struct AuthRequirement {
    pub provider: String,
    pub scopes: Vec<String>,
}

/// The JSON type of a schema node.
#[derive(Debug, Clone, Copy, PartialEq, Eq, Structural)]
pub enum SchemaKind {
    Object,
    Str,
    Integer,
    Boolean,
    Array,
}

/// A JSON-schema node describing a tool parameter or a parameter object.
#[derive(Debug)]
pub struct ParamSchema {
    /// The JSON type (`"type"`).
    pub kind: SchemaKind,
    /// The description (`"description"`), if any.
    pub description: Option<String>,
    /// Named properties of an object (`"properties"`), in order.
    pub properties: Vec<(String, ParamSchema)>,
    /// Whether the node lists `"properties"` at all.
    pub has_properties: bool,
    /// The required property names (`"required"`), if the node lists them.
    pub required: Option<Vec<String>>,
    /// The element schema of an array (`"items"`).
    pub items: Option<Box<ParamSchema>>,
    /// The permitted values (`"enum"`); empty when unrestricted.
    pub allowed: Vec<String>,
    /// The default value (`"default"`), if any.
    pub default_value: Option<JsonValue>,
}

/// The definition of one tool an adapter offers.
#[derive(Debug)]
pub struct ToolDefinition {
    pub name: String,
    pub description: String,
    pub parameters: ParamSchema,
}

/// The views of a sequence of strings.
pub open spec fn views(v: Seq<String>) -> Seq<Seq<char>> {
    v.map_values(|s: String| s@)
}

/// The views of a sequence of string slices.
pub open spec fn str_views(v: Seq<&str>) -> Seq<Seq<char>> {
    v.map_values(|s: &str| s@)
}

/// The required parameter names of a tool, if it lists them.
pub open spec fn required_of(t: ToolDefinition) -> Option<Seq<Seq<char>>> {
    match t.parameters.required {
        Some(v) => Some(views(v@)),
        None => None,
    }
}

/// Whether a tool list holds a tool of the given name.
pub open spec fn lists_tool(ts: Seq<ToolDefinition>, name: Seq<char>) -> bool {
    exists|i: int| 0 <= i < ts.len() && (#[trigger] ts[i]).name@ == name
}

/// Whether a result is the error for a tool the adapter does not have.
pub open spec fn is_unknown_tool<T>(r: Result<T, AdapterError>) -> bool {
    r matches Err(e) && e is ToolNotFound
}

/// The parameter names of a tool, with their JSON types, in order.
pub open spec fn params_of(t: ToolDefinition) -> Seq<(Seq<char>, SchemaKind)> {
    t.parameters.properties@.map_values(|p: (String, ParamSchema)| (p.0@, p.1.kind))
}

/// Whether a tool is an object schema whose parameters and required names
/// are exactly those given.
pub open spec fn tool_shape(t: ToolDefinition, name: Seq<char>, params: Seq<(Seq<char>, SchemaKind)>, required: Option<Seq<Seq<char>>>) -> bool {
    &&& t.name@ == name
    &&& t.parameters.kind == SchemaKind::Object
    &&& t.parameters.has_properties
    &&& params_of(t) == params
    &&& required_of(t) == required
}

/// The text of an optional string.
pub open spec fn opt_text(o: Option<String>) -> Option<Seq<char>> {
    match o {
        Some(s) => Some(s@),
        None => None,
    }
}

/// What documents one parameter: its description, its permitted values,
/// the JSON text of its default and the type of its array elements.
pub type ParamDoc = (Option<Seq<char>>, Seq<Seq<char>>, Option<Seq<char>>, Option<SchemaKind>);

/// The documentation of a parameter schema.
pub open spec fn param_doc(p: ParamSchema) -> ParamDoc {
    (
        opt_text(p.description),
        views(p.allowed@),
        match p.default_value {
            Some(v) => Some(json_text(v)),
            None => None,
        },
        match p.items {
            Some(b) => Some(b.kind),
            None => None,
        },
    )
}

/// The documentation of a tool's parameters, in order.
pub open spec fn param_docs(t: ToolDefinition) -> Seq<ParamDoc> {
    t.parameters.properties@.map_values(|p: (String, ParamSchema)| param_doc(p.1))
}

/// Whether a tool carries the given description and parameter documentation.
pub open spec fn tool_doc(t: ToolDefinition, description: Seq<char>, docs: Seq<ParamDoc>) -> bool {
    t.description@ == description && param_docs(t) == docs
}

/// The schema name of a JSON type.
pub open spec fn kind_name(k: SchemaKind) -> Seq<char> {
    match k {
        SchemaKind::Object => "object"@,
        SchemaKind::Str => "string"@,
        SchemaKind::Integer => "integer"@,
        SchemaKind::Boolean => "boolean"@,
        SchemaKind::Array => "array"@,
    }
}

/// Copies a list of string slices into owned strings.
pub fn strings_of(v: &[&str]) -> (r: Vec<String>)
    ensures
        views(r@) == str_views(v@),
{
    let mut r: Vec<String> = Vec::new();
    let mut i: usize = 0;
    while i < v.len()
        invariant
            i <= v.len(),
            views(r@) == str_views(v@.take(i as int)),
        decreases v.len() - i,
    {
        let ghost before = r@;
        let item = String::from_str(v[i]);
        r.push(item);
        assert(r@ == before.push(item));
        assert(views(r@) =~= views(before).push(item@));
        assert(str_views(v@.take(i + 1)) =~= str_views(v@.take(i as int)).push(v@[i as int]@));
        i = i + 1;
    }
    assert(v@.take(v.len() as int) =~= v@);
    r
}

/// The schema name of a JSON type.
pub fn kind_text(k: SchemaKind) -> (r: &'static str)
    ensures
        r@ == kind_name(k),
{
    match k {
        SchemaKind::Object => "object",
        SchemaKind::Str => "string",
        SchemaKind::Integer => "integer",
        SchemaKind::Boolean => "boolean",
        SchemaKind::Array => "array",
    }
}

/// A schema node of a bare type with no description.
pub fn bare_schema(kind: SchemaKind) -> (r: ParamSchema)
    ensures
        r.kind == kind,
        r.description is None,
        r.properties@.len() == 0,
        !r.has_properties,
        r.required is None,
        r.items is None,
        r.allowed@.len() == 0,
        r.default_value is None,
{
    ParamSchema {
        kind,
        description: None,
        properties: Vec::new(),
        has_properties: false,
        required: None,
        items: None,
        allowed: Vec::new(),
        default_value: None,
    }
}

/// A tool definition.
pub fn tool(name: &str, description: &str, parameters: ParamSchema) -> (r: ToolDefinition)
    ensures
        r.name@ == name@,
        r.description@ == description@,
        r.parameters == parameters,
{
    ToolDefinition { name: String::from_str(name), description: String::from_str(description), parameters }
}

/// The health of an adapter that needs nothing beyond being connected.
pub open spec fn basic_health(connected: bool) -> HealthStatus {
    if connected {
        HealthStatus::Healthy
    } else {
        HealthStatus::Unhealthy
    }
}

/// The health of an adapter that works best with a credential: unhealthy
/// when disconnected, degraded when connected without the credential.
pub open spec fn credential_health(connected: bool, has_credential: bool) -> HealthStatus {
    if !connected {
        HealthStatus::Unhealthy
    } else if has_credential {
        HealthStatus::Healthy
    } else {
        HealthStatus::Degraded
    }
}

/// The reason given when a tool is called on a disconnected adapter.
pub open spec fn not_connected_reason(adapter_id: Seq<char>) -> Seq<char> {
    "adapter `"@ + adapter_id + "` is not connected"@
}

/// The error for a tool call on a disconnected adapter.
pub open spec fn is_not_connected_error(e: AdapterError, adapter_id: Seq<char>, tool: Seq<char>) -> bool {
    e matches AdapterError::ExecutionFailed { tool_name, reason } && tool_name@ == tool && reason@
        == not_connected_reason(adapter_id)
}

/// The error for a call of a tool the adapter does not have.
pub open spec fn is_tool_not_found(e: AdapterError, adapter_id: Seq<char>, tool: Seq<char>) -> bool {
    e matches AdapterError::ToolNotFound { adapter_id: a, tool_name } && a@ == adapter_id
        && tool_name@ == tool
}

/// Rejects a tool call when the adapter is not connected.
pub fn ensure_connected(connected: bool, adapter_id: &str, tool_name: &str) -> (r: Result<(), AdapterError>)
    ensures
        connected ==> r is Ok,
        !connected ==> (r matches Err(e) && is_not_connected_error(e, adapter_id@, tool_name@)),
{
    if connected {
        Ok(())
    } else {
        let mut reason = String::from_str("adapter `");
        reason.append(adapter_id);
        reason.append("` is not connected");
        Err(AdapterError::ExecutionFailed { tool_name: String::from_str(tool_name), reason })
    }
}

/// The error for a call of an unknown tool.
pub fn tool_not_found(adapter_id: &str, tool_name: &str) -> (e: AdapterError)
    ensures
        is_tool_not_found(e, adapter_id@, tool_name@),
{
    AdapterError::ToolNotFound {
        adapter_id: String::from_str(adapter_id),
        tool_name: String::from_str(tool_name),
    }
}

/// An authentication requirement for a provider and its scopes.
pub fn auth_requirement(provider: &str, scopes: &[&str]) -> (r: AuthRequirement)
    ensures
        r.provider@ == provider@,
        views(r.scopes@) == str_views(scopes@),
{
    AuthRequirement { provider: String::from_str(provider), scopes: strings_of(scopes) }
}

/// A `"key":value` text.
pub open spec fn entry_text(key: Seq<char>, value: Seq<char>) -> Seq<char> {
    json_quoted(key) + seq![':'] + value
}

/// A further entry of an object text: a comma, then the entry.
pub open spec fn more_entry(key: Seq<char>, value: Seq<char>) -> Seq<char> {
    seq![','] + entry_text(key, value)
}

/// A list of strings as JSON string literals separated by commas.
pub open spec fn strings_text(ss: Seq<Seq<char>>) -> Seq<char>
    decreases ss.len(),
{
    if ss.len() == 0 {
        Seq::empty()
    } else if ss.len() == 1 {
        json_quoted(ss[0])
    } else {
        strings_text(ss.drop_last()) + seq![','] + json_quoted(ss.last())
    }
}

/// The compact JSON text of a schema node: an object whose entries are, in
/// order, `type`, then `description`, `enum` (when there are permitted
/// values), `default`, `items`, `properties` (when the node lists them) and
/// `required`, each when present.
pub open spec fn schema_text(p: ParamSchema) -> Seq<char>
    decreases p,
{
    seq!['{'] + entry_text("type"@, json_quoted(kind_name(p.kind))) + match p.description {
        Some(d) => more_entry("description"@, json_quoted(d@)),
        None => Seq::empty(),
    } + if p.allowed@.len() > 0 {
        more_entry("enum"@, seq!['['] + strings_text(views(p.allowed@)) + seq![']'])
    } else {
        Seq::empty()
    } + match p.default_value {
        Some(v) => more_entry("default"@, json_text(v)),
        None => Seq::empty(),
    } + match p.items {
        Some(b) => {
            proof {
                assert(decreases_to!(p => p.items));
            }
            more_entry("items"@, schema_text(*b))
        },
        None => Seq::empty(),
    } + if p.has_properties {
        proof {
            assert(decreases_to!(p => p.properties));
            assert(decreases_to!(p.properties => p.properties@));
        }
        more_entry("properties"@, seq!['{'] + props_text(p.properties@) + seq!['}'])
    } else {
        Seq::empty()
    } + match p.required {
        Some(q) => more_entry("required"@, seq!['['] + strings_text(views(q@)) + seq![']']),
        None => Seq::empty(),
    } + seq!['}']
}

/// The texts of named schema properties, separated by commas.
pub open spec fn props_text(ps: Seq<(String, ParamSchema)>) -> Seq<char>
    decreases ps,
{
    if ps.len() == 0 {
        Seq::empty()
    } else if ps.len() == 1 {
        proof {
            assert(decreases_to!(ps => ps[0]));
            assert(decreases_to!(ps[0] => ps[0].1));
        }
        entry_text(ps[0].0@, schema_text(ps[0].1))
    } else {
        proof {
            assert(decreases_to!(ps => ps[ps.len() - 1]));
            assert(decreases_to!(ps[ps.len() - 1] => ps[ps.len() - 1].1));
        }
        props_text(ps.drop_last()) + seq![','] + entry_text(ps.last().0@, schema_text(ps.last().1))
    }
}

proof fn lemma_entries_push(s: Seq<(String, JsonValue)>, e: (String, JsonValue))
    requires
        s.len() >= 1,
    ensures
        entries_text(s.push(e)) == entries_text(s) + more_entry(e.0@, json_text(e.1)),
{
    assert(s.push(e).drop_last() =~= s);
    assert(entries_text(s.push(e)) =~= entries_text(s) + more_entry(e.0@, json_text(e.1)));
}

/// A list of strings as a JSON array.
fn strings_json(v: &Vec<String>) -> (r: JsonValue)
    ensures
        json_text(r) == seq!['['] + strings_text(views(v@)) + seq![']'],
{
    let mut vals: Vec<JsonValue> = Vec::new();
    let mut i: usize = 0;
    while i < v.len()
        invariant
            i <= v.len(),
            vals@.len() == i,
            items_text(vals@) == strings_text(views(v@).take(i as int)),
        decreases v.len() - i,
    {
        let ghost before = vals@;
        let x = JsonValue::Str(v[i].clone());
        assert(json_text(x) == json_quoted(v@[i as int]@));
        vals.push(x);
        proof {
            let ss = views(v@).take(i + 1);
            assert(ss.drop_last() =~= views(v@).take(i as int));
            assert(vals@.drop_last() =~= before);
            assert(ss.last() == v@[i as int]@);
            assert(vals@.last() == x);
            if i == 0 {
                assert(ss.len() == 1 && ss[0] == v@[0]@);
                assert(vals@.len() == 1 && vals@[0] == x);
            }
        }
        i = i + 1;
    }
    assert(views(v@).take(v@.len() as int) =~= views(v@));
    JsonValue::Array(vals)
}

/// Appends an entry to a non-empty object's entries.
fn push_entry(es: &mut Vec<(String, JsonValue)>, key: &str, v: JsonValue)
    requires
        old(es)@.len() >= 1,
    ensures
        final(es)@.len() >= 1,
        entries_text(final(es)@) == entries_text(old(es)@) + more_entry(key@, json_text(v)),
{
    let e = (String::from_str(key), v);
    proof {
        lemma_entries_push(es@, e);
    }
    es.push(e);
}

proof fn lemma_braced(a: Seq<char>, b: Seq<char>, c: Seq<char>, d: Seq<char>, e: Seq<char>, f: Seq<char>, g: Seq<char>)
    ensures
        seq!['{'] + (a + b + c + d + e + f + g) + seq!['}'] == seq!['{'] + a + b + c + d + e + f + g + seq!['}'],
{
    let x = a + b + c + d + e + f + g;
    assert(seq!['{'] + a + b =~= seq!['{'] + (a + b));
    assert(seq!['{'] + (a + b) + c =~= seq!['{'] + (a + b + c));
    assert(seq!['{'] + (a + b + c) + d =~= seq!['{'] + (a + b + c + d));
    assert(seq!['{'] + (a + b + c + d) + e =~= seq!['{'] + (a + b + c + d + e));
    assert(seq!['{'] + (a + b + c + d + e) + f =~= seq!['{'] + (a + b + c + d + e + f));
    assert(seq!['{'] + (a + b + c + d + e + f) + g =~= seq!['{'] + x);
}

impl ParamSchema {
    /// The schema as a JSON value (`"type"`, `"description"`, `"enum"`,
    /// `"default"`, `"items"`, `"properties"`, `"required"`, in that order).
    pub fn to_json(&self) -> (r: JsonValue)
        ensures
            json_text(r) == schema_text(*self),
        decreases self,
    {
        let ghost t = entry_text("type"@, json_quoted(kind_name(self.kind)));
        let ghost pd = match &self.description {
            Some(d) => more_entry("description"@, json_quoted(d@)),
            None => Seq::empty(),
        };
        let ghost pe = if self.allowed@.len() > 0 {
            more_entry("enum"@, seq!['['] + strings_text(views(self.allowed@)) + seq![']'])
        } else {
            Seq::empty()
        };
        let ghost pf = match &self.default_value {
            Some(v) => more_entry("default"@, json_text(*v)),
            None => Seq::empty(),
        };
        let ghost pi = match &self.items {
            Some(b) => more_entry("items"@, schema_text(**b)),
            None => Seq::empty(),
        };
        let ghost pp = if self.has_properties {
            more_entry("properties"@, seq!['{'] + props_text(self.properties@) + seq!['}'])
        } else {
            Seq::empty()
        };
        let ghost pr = match &self.required {
            Some(q) => more_entry("required"@, seq!['['] + strings_text(views(q@)) + seq![']']),
            None => Seq::empty(),
        };
        let mut es: Vec<(String, JsonValue)> = Vec::new();
        es.push((String::from_str("type"), JsonValue::Str(String::from_str(kind_text(self.kind)))));
        proof {
            let e0 = es@[0];
            assert(es@.len() == 1);
            assert(json_text(e0.1) == json_quoted(kind_name(self.kind)));
            assert(entries_text(es@) == json_quoted(e0.0@) + seq![':'] + json_text(e0.1));
        }
        assert(entries_text(es@) == t);
        if let Some(d) = &self.description {
            push_entry(&mut es, "description", JsonValue::Str(d.clone()));
        }
        assert(es@.len() >= 1 && entries_text(es@) == t + pd);
        if self.allowed.len() > 0 {
            push_entry(&mut es, "enum", strings_json(&self.allowed));
        }
        assert(es@.len() >= 1 && entries_text(es@) == t + pd + pe);
        if let Some(dv) = &self.default_value {
            push_entry(&mut es, "default", copy_json(dv));
        }
        assert(es@.len() >= 1 && entries_text(es@) == t + pd + pe + pf);
        if let Some(it) = &self.items {
            let inner: &ParamSchema = &**it;
            assert(decreases_to!(*self => *inner));
            let v = inner.to_json();
            push_entry(&mut es, "items", v);
        }
        assert(es@.len() >= 1 && entries_text(es@) == t + pd + pe + pf + pi);
        if self.has_properties {
            assert(decreases_to!(*self => self.properties));
            let v = props_json(&self.properties);
            push_entry(&mut es, "properties", v);
        }
        assert(es@.len() >= 1 && entries_text(es@) == t + pd + pe + pf + pi + pp);
        if let Some(q) = &self.required {
            push_entry(&mut es, "required", strings_json(q));
        }
        assert(entries_text(es@) == t + pd + pe + pf + pi + pp + pr);
        assert(schema_text(*self) == seq!['{'] + t + pd + pe + pf + pi + pp + pr + seq!['}']);
        proof {
            lemma_braced(t, pd, pe, pf, pi, pp, pr);
        }
        let r = JsonValue::Object(es);
        assert(json_text(r) == seq!['{'] + entries_text(es@) + seq!['}']);
        r
    }
}

/// The named properties of a schema as a JSON object.
fn props_json(ps: &Vec<(String, ParamSchema)>) -> (r: JsonValue)
    ensures
        json_text(r) == seq!['{'] + props_text(ps@) + seq!['}'],
    decreases ps,
{
    let mut out: Vec<(String, JsonValue)> = Vec::new();
    let mut i: usize = 0;
    while i < ps.len()
        invariant
            i <= ps.len(),
            out@.len() == i,
            entries_text(out@) == props_text(ps@.take(i as int)),
        decreases ps.len() - i,
    {
        let p: &(String, ParamSchema) = &ps[i];
        assert(decreases_to!(*ps => ps@));
        assert(decreases_to!(ps@ => ps@[i as int]));
        assert(decreases_to!(ps@[i as int] => ps@[i as int].1));
        let ghost before = out@;
        let e = (p.0.clone(), p.1.to_json());
        out.push(e);
        proof {
            let qs = ps@.take(i + 1);
            assert(qs.drop_last() =~= ps@.take(i as int));
            assert(out@.drop_last() =~= before);
            assert(qs.last() == ps@[i as int]);
            assert(out@.last() == e);
            if i == 0 {
                assert(qs.len() == 1 && qs[0] == ps@[0]);
                assert(out@.len() == 1 && out@[0] == e);
            }
        }
        i = i + 1;
    }
    assert(ps@.take(ps@.len() as int) =~= ps@);
    JsonValue::Object(out)
}

/// A copy of a JSON value: it has the same JSON text.
pub fn copy_json(v: &JsonValue) -> (r: JsonValue)
    ensures
        json_text(r) == json_text(*v),
    decreases v,
{
    match v {
        JsonValue::Null => JsonValue::Null,
        JsonValue::Bool(b) => JsonValue::Bool(*b),
        JsonValue::Number(n) => JsonValue::Number(match n {
            crate::json::JsonNumber::PosInt(x) => crate::json::JsonNumber::PosInt(*x),
            crate::json::JsonNumber::NegInt(x) => crate::json::JsonNumber::NegInt(*x),
            crate::json::JsonNumber::Fraction(t) => crate::json::JsonNumber::Fraction(t.clone()),
        }),
        JsonValue::Str(s) => JsonValue::Str(s.clone()),
        JsonValue::Array(a) => {
            let mut out: Vec<JsonValue> = Vec::new();
            let mut i: usize = 0;
            while i < a.len()
                invariant
                    i <= a.len(),
                    *v == JsonValue::Array(*a),
                    out@.len() == i,
                    forall|k: int| 0 <= k < i ==> json_text(#[trigger] out@[k]) == json_text(a@[k]),
                decreases a.len() - i,
            {
                assert(*a == v->Array_0);
                assert(decreases_to!(*v => v->Array_0));
                assert(decreases_to!(*a => a@));
                assert(decreases_to!(a@ => a@[i as int]));
                out.push(copy_json(&a[i]));
                i = i + 1;
            }
            proof {
                lemma_items_text_congruent(out@, a@);
            }
            JsonValue::Array(out)
        },
        JsonValue::Object(es) => {
            let mut out: Vec<(String, JsonValue)> = Vec::new();
            let mut i: usize = 0;
            while i < es.len()
                invariant
                    i <= es.len(),
                    *v == JsonValue::Object(*es),
                    out@.len() == i,
                    forall|k: int| 0 <= k < i ==> (#[trigger] out@[k]).0@ == es@[k].0@ && json_text(out@[k].1) == json_text(es@[k].1),
                decreases es.len() - i,
            {
                assert(*es == v->Object_0);
                assert(decreases_to!(*v => v->Object_0));
                assert(decreases_to!(*es => es@));
                assert(decreases_to!(es@ => es@[i as int]));
                out.push((es[i].0.clone(), copy_json(&es[i].1)));
                i = i + 1;
            }
            proof {
                lemma_entries_text_congruent(out@, es@);
            }
            JsonValue::Object(out)
        },
    }
}

} // verus!
