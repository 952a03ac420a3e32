//! A JSON value model for tool parameters and tool results.
//!
//! Tool parameters arrive as JSON objects.  The adapters read single fields of
//! them as strings, integers, booleans or arrays; [`JsonValue`] holds exactly
//! what those reads see.  Numbers keep the three kinds a JSON parser tells
//! apart: non-negative integers, negative integers, and fractions (whose value
//! no adapter reads).

use vstd::prelude::*;
use vstd::string::*;

use crate::error::{AdapterError, invalid_params, missing_field, missing_field_reason, is_invalid_params};
use crate::text::{decimal, hex_byte, i64_to_decimal, push_char, signed_decimal, u64_to_decimal};

verus! {

/// A JSON number as a parser classifies it.
#[derive(Debug)]
pub enum JsonNumber {
    /// A non-negative integer.
    PosInt(u64),
    /// A negative integer.
    NegInt(i64),
    /// A number with a fractional part or exponent, with its JSON text.
    Fraction(String),
}

/// A JSON value.
#[derive(Debug)]
pub enum JsonValue {
    Null,
    Bool(bool),
    Number(JsonNumber),
    Str(String),
    Array(Vec<JsonValue>),
    Object(Vec<(String, JsonValue)>),
}

/// The value stored under `key` among object entries (the first entry wins).
pub open spec fn lookup(es: Seq<(String, JsonValue)>, key: Seq<char>) -> Option<JsonValue>
    decreases es.len(),
{
    if es.len() == 0 {
        None
    } else if es[0].0@ == key {
        Some(es[0].1)
    } else {
        lookup(es.drop_first(), key)
    }
}

/// The field `key` of an object; `None` for other values.
pub open spec fn field(v: JsonValue, key: Seq<char>) -> Option<JsonValue> {
    match v {
        JsonValue::Object(es) => lookup(es@, key),
        _ => None,
    }
}

/// The entries of an object, in order; empty for other values.
pub open spec fn entries_of(v: JsonValue) -> Seq<(String, JsonValue)> {
    match v {
        JsonValue::Object(es) => es@,
        _ => Seq::empty(),
    }
}

/// The keys of an object, in order.
pub open spec fn keys_of(v: JsonValue) -> Seq<Seq<char>> {
    entries_of(v).map_values(|e: (String, JsonValue)| e.0@)
}

/// The value of the `i`-th entry of an object.
pub open spec fn value_at(v: JsonValue, i: int) -> JsonValue {
    entries_of(v)[i].1
}

/// A non-negative integer value.
pub open spec fn uint(n: u64) -> JsonValue {
    JsonValue::Number(JsonNumber::PosInt(n))
}

/// The text of a string value.
pub open spec fn str_of(v: JsonValue) -> Option<Seq<char>> {
    match v {
        JsonValue::Str(s) => Some(s@),
        _ => None,
    }
}

/// The value of an integer that fits in `u64` (`Value::as_u64`).
pub open spec fn u64_of(v: JsonValue) -> Option<u64> {
    match v {
        JsonValue::Number(JsonNumber::PosInt(n)) => Some(n),
        _ => None,
    }
}

/// The value of an integer that fits in `i64` (`Value::as_i64`).
pub open spec fn i64_of(v: JsonValue) -> Option<i64> {
    match v {
        JsonValue::Number(JsonNumber::PosInt(n)) => if n <= i64::MAX {
            Some(n as i64)
        } else {
            None
        },
        JsonValue::Number(JsonNumber::NegInt(n)) => Some(n),
        _ => None,
    }
}

/// The value of a boolean.
pub open spec fn bool_of(v: JsonValue) -> Option<bool> {
    match v {
        JsonValue::Bool(b) => Some(b),
        _ => None,
    }
}

/// The string field `key` of `v`, if present and a string.
pub open spec fn str_field(v: JsonValue, key: Seq<char>) -> Option<Seq<char>> {
    match field(v, key) {
        Some(x) => str_of(x),
        None => None,
    }
}

/// The `u64` field `key` of `v`, if present and such an integer.
pub open spec fn u64_field(v: JsonValue, key: Seq<char>) -> Option<u64> {
    match field(v, key) {
        Some(x) => u64_of(x),
        None => None,
    }
}

/// The `i64` field `key` of `v`, if present and such an integer.
pub open spec fn i64_field(v: JsonValue, key: Seq<char>) -> Option<i64> {
    match field(v, key) {
        Some(x) => i64_of(x),
        None => None,
    }
}

/// The boolean field `key` of `v`, if present and a boolean.
pub open spec fn bool_field(v: JsonValue, key: Seq<char>) -> Option<bool> {
    match field(v, key) {
        Some(x) => bool_of(x),
        None => None,
    }
}

/// The string field `key`, treating an empty string as absent.
pub open spec fn nonempty_str_field(v: JsonValue, key: Seq<char>) -> Option<Seq<char>> {
    match str_field(v, key) {
        Some(s) => if s.len() > 0 {
            Some(s)
        } else {
            None
        },
        None => None,
    }
}

/// The first of `keys` that is not a string field of `params`.
pub open spec fn first_absent(params: JsonValue, keys: Seq<Seq<char>>) -> Option<Seq<char>>
    decreases keys.len(),
{
    if keys.len() == 0 {
        None
    } else if str_field(params, keys[0]) is None {
        Some(keys[0])
    } else {
        first_absent(params, keys.drop_first())
    }
}

/// When no key is absent, every key is a string field.
pub proof fn lemma_first_absent(params: JsonValue, keys: Seq<Seq<char>>)
    ensures
        first_absent(params, keys) is None ==> forall|i: int|
            0 <= i < keys.len() ==> #[trigger] str_field(params, keys[i]) is Some,
        first_absent(params, keys) matches Some(k) ==> str_field(params, k) is None,
    decreases keys.len(),
{
    if keys.len() > 0 {
        lemma_first_absent(params, keys.drop_first());
        if first_absent(params, keys) is None {
            assert forall|i: int| 0 <= i < keys.len() implies #[trigger] str_field(params, keys[i]) is Some by {
                if i > 0 {
                    assert(keys[i] == keys.drop_first()[i - 1]);
                }
            }
        }
    }
}

/// What `require_str` returns for a field.
pub open spec fn require_str_ok(v: JsonValue, key: Seq<char>, tool: Seq<char>, r: Result<String, AdapterError>) -> bool {
    match str_field(v, key) {
        Some(s) => r matches Ok(x) && x@ == s,
        None => r matches Err(e) && is_invalid_params(e, tool, missing_field_reason(key)),
    }
}

fn entries_lookup<'a>(es: &'a Vec<(String, JsonValue)>, key: &str) -> (r: Option<&'a JsonValue>)
    ensures
        match r {
            Some(x) => lookup(es@, key@) == Some(*x),
            None => lookup(es@, key@) is None,
        },
{
    let k = String::from_str(key);
    let mut i: usize = 0;
    assert(es@.skip(0) =~= es@);
    while i < es.len()
        invariant
            i <= es.len(),
            k@ == key@,
            lookup(es@, key@) == lookup(es@.skip(i as int), key@),
        decreases es.len() - i,
    {
        assert(es@.skip(i as int).drop_first() =~= es@.skip(i + 1));
        if es[i].0 == k {
            return Some(&es[i].1);
        }
        i = i + 1;
    }
    None
}

impl JsonValue {
    /// The field `key` of an object (`Value::get`).
    pub fn get(&self, key: &str) -> (r: Option<&JsonValue>)
        ensures
            match r {
                Some(x) => field(*self, key@) == Some(*x),
                None => field(*self, key@) is None,
            },
    {
        match self {
            JsonValue::Object(es) => entries_lookup(es, key),
            _ => None,
        }
    }

    /// The text of a string value (`Value::as_str`).
    pub fn as_str(&self) -> (r: Option<&str>)
        ensures
            match r {
                Some(s) => str_of(*self) == Some(s@),
                None => str_of(*self) is None,
            },
    {
        match self {
            JsonValue::Str(s) => Some(s.as_str()),
            _ => None,
        }
    }

    /// The value of a non-negative integer (`Value::as_u64`).
    pub fn as_u64(&self) -> (r: Option<u64>)
        ensures
            r == u64_of(*self),
    {
        match self {
            JsonValue::Number(JsonNumber::PosInt(n)) => Some(*n),
            _ => None,
        }
    }

    /// The value of an integer that fits in `i64` (`Value::as_i64`).
    pub fn as_i64(&self) -> (r: Option<i64>)
        ensures
            r == i64_of(*self),
    {
        match self {
            JsonValue::Number(JsonNumber::PosInt(n)) => {
                if *n <= 0x7fff_ffff_ffff_ffffu64 {
                    Some(*n as i64)
                } else {
                    None
                }
            },
            JsonValue::Number(JsonNumber::NegInt(n)) => Some(*n),
            _ => None,
        }
    }

    /// The value of a boolean (`Value::as_bool`).
    pub fn as_bool(&self) -> (r: Option<bool>)
        ensures
            r == bool_of(*self),
    {
        match self {
            JsonValue::Bool(b) => Some(*b),
            _ => None,
        }
    }

    /// The elements of an array (`Value::as_array`).
    pub fn as_array(&self) -> (r: Option<&Vec<JsonValue>>)
        ensures
            match r {
                Some(a) => *self == JsonValue::Array(*a),
                None => !(*self is Array),
            },
    {
        match self {
            JsonValue::Array(a) => Some(a),
            _ => None,
        }
    }

    /// Whether this is `null`.
    pub fn is_null(&self) -> (r: bool)
        ensures
            r == (*self is Null),
    {
        match self {
            JsonValue::Null => true,
            _ => false,
        }
    }

    /// A string value.
    pub fn from_str_value(s: &str) -> (r: JsonValue)
        ensures
            str_of(r) == Some(s@),
    {
        JsonValue::Str(String::from_str(s))
    }

    /// An empty object.
    pub fn empty_object() -> (r: JsonValue)
        ensures
            r is Object,
            forall|k: Seq<char>| field(r, k) is None,
    {
        let v: Vec<(String, JsonValue)> = Vec::new();
        let r = JsonValue::Object(v);
        assert forall|k: Seq<char>| field(r, k) is None by {
            assert(v@.len() == 0);
        }
        r
    }
}

/// The field `key` of an owned value, moved out of it.
pub fn take_field(v: JsonValue, key: &str) -> (r: Option<JsonValue>)
    ensures
        r == field(v, key@),
{
    match v {
        JsonValue::Object(es) => {
            let mut es = es;
            let ghost orig = es@;
            assert(field(v, key@) == lookup(orig, key@));
            let k = String::from_str(key);
            let mut i: usize = 0;
            assert(es@.skip(0) =~= es@);
            while i < es.len()
                invariant
                    i <= es@.len(),
                    es@ == orig,
                    k@ == key@,
                    field(v, key@) == lookup(orig, key@),
                    lookup(orig, key@) == lookup(orig.skip(i as int), key@),
                decreases es.len() - i,
            {
                assert(orig.skip(i as int).drop_first() =~= orig.skip(i + 1));
                if es[i].0 == k {
                    assert(orig.skip(i as int)[0] == orig[i as int]);
                    assert(lookup(orig.skip(i as int), key@) == Some(orig[i as int].1));
                    let e = es.remove(i);
                    assert(e == orig[i as int]);
                    return Some(e.1);
                }
                i = i + 1;
            }
            None
        },
        _ => None,
    }
}

/// The string field `key` of `v`, copied.
pub fn get_str(v: &JsonValue, key: &str) -> (r: Option<String>)
    ensures
        match r {
            Some(s) => str_field(*v, key@) == Some(s@),
            None => str_field(*v, key@) is None,
        },
{
    match v.get(key) {
        Some(x) => match x.as_str() {
            Some(s) => Some(String::from_str(s)),
            None => None,
        },
        None => None,
    }
}

/// The string field `key` of `v`, treating an empty string as absent.
pub fn get_nonempty_str(v: &JsonValue, key: &str) -> (r: Option<String>)
    ensures
        match r {
            Some(s) => nonempty_str_field(*v, key@) == Some(s@),
            None => nonempty_str_field(*v, key@) is None,
        },
{
    match get_str(v, key) {
        Some(s) => if s.as_str().is_empty() {
            None
        } else {
            Some(s)
        },
        None => None,
    }
}

/// The `u64` field `key` of `v`.
pub fn get_u64(v: &JsonValue, key: &str) -> (r: Option<u64>)
    ensures
        r == u64_field(*v, key@),
{
    match v.get(key) {
        Some(x) => x.as_u64(),
        None => None,
    }
}

/// The `i64` field `key` of `v`.
pub fn get_i64(v: &JsonValue, key: &str) -> (r: Option<i64>)
    ensures
        r == i64_field(*v, key@),
{
    match v.get(key) {
        Some(x) => x.as_i64(),
        None => None,
    }
}

/// The boolean field `key` of `v`.
pub fn get_bool(v: &JsonValue, key: &str) -> (r: Option<bool>)
    ensures
        r == bool_field(*v, key@),
{
    match v.get(key) {
        Some(x) => x.as_bool(),
        None => None,
    }
}

/// The position of the first of `keys` that is not a string field.
pub fn first_missing(params: &JsonValue, keys: &[&str]) -> (r: Option<usize>)
    ensures
        match r {
            Some(i) => i < keys@.len() && first_absent(*params, keys@.map_values(|k: &str| k@)) == Some(
                keys@[i as int]@,
            ),
            None => first_absent(*params, keys@.map_values(|k: &str| k@)) is None,
        },
{
    let ghost ks = keys@.map_values(|k: &str| k@);
    let mut i: usize = 0;
    assert(ks.skip(0) =~= ks);
    while i < keys.len()
        invariant
            i <= keys@.len(),
            ks == keys@.map_values(|k: &str| k@),
            first_absent(*params, ks) == first_absent(*params, ks.skip(i as int)),
        decreases keys.len() - i,
    {
        assert(ks.skip(i as int).drop_first() =~= ks.skip(i + 1));
        assert(ks.skip(i as int)[0] == keys@[i as int]@);
        match get_str(params, keys[i]) {
            None => {
                return Some(i);
            },
            Some(_) => {},
        }
        i = i + 1;
    }
    None
}

/// A required string field: its text, or `InvalidParams` naming the field.
pub fn require_str(v: &JsonValue, key: &str, tool: &str) -> (r: Result<String, AdapterError>)
    ensures
        require_str_ok(*v, key@, tool@, r),
{
    match get_str(v, key) {
        Some(s) => Ok(s),
        None => Err(invalid_params(tool, missing_field(key))),
    }
}


// ---------------------------------------------------------------------------
// JSON text
// ---------------------------------------------------------------------------

/// One character as written inside a JSON string literal: quote, backslash
/// and control characters are escaped.
pub open spec fn json_escaped_char(c: char) -> Seq<char> {
    if c == '"' {
        seq!['\\', '"']
    } else if c == '\\' {
        seq!['\\', '\\']
    } else if c == '\n' {
        seq!['\\', 'n']
    } else if c == '\r' {
        seq!['\\', 'r']
    } else if c == '\t' {
        seq!['\\', 't']
    } else if c == '\x08' {
        seq!['\\', 'b']
    } else if c == '\x0c' {
        seq!['\\', 'f']
    } else if (c as u32) < 32 {
        seq!['\\', 'u', '0', '0'] + hex_byte(c as u8, false)
    } else {
        seq![c]
    }
}

/// A string's characters, escaped for a JSON string literal.
pub open spec fn json_escaped(s: Seq<char>) -> Seq<char>
    decreases s.len(),
{
    if s.len() == 0 {
        Seq::empty()
    } else {
        json_escaped(s.drop_last()) + json_escaped_char(s.last())
    }
}

/// A string as a JSON string literal.
pub open spec fn json_quoted(s: Seq<char>) -> Seq<char> {
    seq!['"'] + json_escaped(s) + seq!['"']
}

/// `serde_json::to_string` on a `&str`: the string as a JSON string literal,
/// in double quotes, with `"` and `\` escaped by a backslash, the control
/// characters 8, 9, 10, 12, 13 as `\b \t \n \f \r`, and the other control
/// characters below 32 as `\u00` and two lower-case hex digits; every other
/// character is written as it is.  The serializer writes into memory, which
/// cannot fail, so its error arm is never taken.
#[verifier::external_body]
pub(crate) fn json_quote(s: &str) -> (r: String)
    ensures
        r@ == json_quoted(s@),
{
    match serde_json::to_string(s) {
        Ok(t) => t,
        Err(_) => String::new(),
    }
}

/// The compact JSON text of a number.
pub open spec fn number_text(n: JsonNumber) -> Seq<char> {
    match n {
        JsonNumber::PosInt(x) => decimal(x as nat),
        JsonNumber::NegInt(x) => signed_decimal(x as int),
        JsonNumber::Fraction(t) => t@,
    }
}

/// The compact JSON text of a value: no whitespace, object entries in
/// their order.
pub open spec fn json_text(v: JsonValue) -> Seq<char>
    decreases v,
{
    match v {
        JsonValue::Null => seq!['n', 'u', 'l', 'l'],
        JsonValue::Bool(b) => if b {
            seq!['t', 'r', 'u', 'e']
        } else {
            seq!['f', 'a', 'l', 's', 'e']
        },
        JsonValue::Number(n) => number_text(n),
        JsonValue::Str(s) => json_quoted(s@),
        JsonValue::Array(a) => {
            proof {
                assert(decreases_to!(v => a));
                assert(decreases_to!(a => a@));
            }
            seq!['['] + items_text(a@) + seq![']']
        },
        JsonValue::Object(es) => {
            proof {
                assert(decreases_to!(v => es));
                assert(decreases_to!(es => es@));
            }
            seq!['{'] + entries_text(es@) + seq!['}']
        },
    }
}

/// The texts of array items, separated by commas.
pub open spec fn items_text(s: Seq<JsonValue>) -> Seq<char>
    decreases s,
{
    if s.len() == 0 {
        Seq::empty()
    } else if s.len() == 1 {
        json_text(s[0])
    } else {
        items_text(s.drop_last()) + seq![','] + json_text(s.last())
    }
}

/// The texts of object entries (`"key":value`), separated by commas.
pub open spec fn entries_text(s: Seq<(String, JsonValue)>) -> Seq<char>
    decreases s,
{
    if s.len() == 0 {
        Seq::empty()
    } else if s.len() == 1 {
        proof {
            assert(decreases_to!(s => s[0]));
            assert(decreases_to!(s[0] => s[0].1));
        }
        json_quoted(s[0].0@) + seq![':'] + json_text(s[0].1)
    } else {
        proof {
            assert(decreases_to!(s => s[s.len() - 1]));
            assert(decreases_to!(s[s.len() - 1] => s[s.len() - 1].1));
        }
        entries_text(s.drop_last()) + seq![','] + json_quoted(s.last().0@) + seq![':'] + json_text(s.last().1)
    }
}

/// Item lists whose items render alike render alike.
pub proof fn lemma_items_text_congruent(s: Seq<JsonValue>, t: Seq<JsonValue>)
    requires
        s.len() == t.len(),
        forall|i: int| 0 <= i < s.len() ==> json_text(#[trigger] s[i]) == json_text(t[i]),
    ensures
        items_text(s) == items_text(t),
    decreases s.len(),
{
    if s.len() > 1 {
        lemma_items_text_congruent(s.drop_last(), t.drop_last());
        assert(json_text(s[s.len() - 1]) == json_text(t[t.len() - 1]));
    } else if s.len() == 1 {
        assert(json_text(s[0]) == json_text(t[0]));
    }
}

/// Entry lists with the same keys whose values render alike render alike.
pub proof fn lemma_entries_text_congruent(s: Seq<(String, JsonValue)>, t: Seq<(String, JsonValue)>)
    requires
        s.len() == t.len(),
        forall|i: int| 0 <= i < s.len() ==> (#[trigger] s[i]).0@ == t[i].0@ && json_text(s[i].1) == json_text(t[i].1),
    ensures
        entries_text(s) == entries_text(t),
    decreases s.len(),
{
    if s.len() > 1 {
        lemma_entries_text_congruent(s.drop_last(), t.drop_last());
        assert(s[s.len() - 1].0@ == t[t.len() - 1].0@);
    } else if s.len() == 1 {
        assert(s[0].0@ == t[0].0@);
    }
}

/// Appends the compact JSON text of a value.
pub fn write_json(v: &JsonValue, out: &mut String)
    ensures
        final(out)@ == old(out)@ + json_text(*v),
    decreases v,
{
    match v {
        JsonValue::Null => {
            push_char(out, 'n');
            push_char(out, 'u');
            push_char(out, 'l');
            push_char(out, 'l');
        },
        JsonValue::Bool(b) => {
            if *b {
                push_char(out, 't');
                push_char(out, 'r');
                push_char(out, 'u');
                push_char(out, 'e');
            } else {
                push_char(out, 'f');
                push_char(out, 'a');
                push_char(out, 'l');
                push_char(out, 's');
                push_char(out, 'e');
            }
        },
        JsonValue::Number(n) => {
            match n {
                JsonNumber::PosInt(x) => {
                    let d = u64_to_decimal(*x);
                    out.append(d.as_str());
                },
                JsonNumber::NegInt(x) => {
                    let d = i64_to_decimal(*x);
                    out.append(d.as_str());
                },
                JsonNumber::Fraction(t) => {
                    out.append(t.as_str());
                },
            }
        },
        JsonValue::Str(s) => {
            let q = json_quote(s.as_str());
            out.append(q.as_str());
        },
        JsonValue::Array(a) => {
            push_char(out, '[');
            let ghost base = out@;
            let mut i: usize = 0;
            while i < a.len()
                invariant
                    i <= a.len(),
                    *v == JsonValue::Array(*a),
                    out@ == base + items_text(a@.subrange(0, i as int)),
                decreases a.len() - i,
            {
                assert(decreases_to!(*v => v->Array_0));
                assert(decreases_to!(*a => a@));
                assert(decreases_to!(a@ => a@[i as int]));
                if i > 0 {
                    push_char(out, ',');
                }
                write_json(&a[i], out);
                proof {
                    let p = a@.subrange(0, i + 1);
                    assert(p.drop_last() =~= a@.subrange(0, i as int));
                    assert(p.last() == a@[i as int]);
                    if i == 0 {
                        assert(p[0] == a@[0]);
                        assert(out@ =~= base + items_text(p));
                    } else {
                        assert(out@ =~= base + items_text(p));
                    }
                }
                i = i + 1;
            }
            assert(a@.subrange(0, a@.len() as int) =~= a@);
            push_char(out, ']');
        },
        JsonValue::Object(es) => {
            push_char(out, '{');
            let ghost base = out@;
            let mut i: usize = 0;
            while i < es.len()
                invariant
                    i <= es.len(),
                    *v == JsonValue::Object(*es),
                    out@ == base + entries_text(es@.subrange(0, i as int)),
                decreases es.len() - i,
            {
                assert(decreases_to!(*v => v->Object_0));
                assert(decreases_to!(*es => es@));
                assert(decreases_to!(es@ => es@[i as int]));
                assert(decreases_to!(es@[i as int] => es@[i as int].1));
                if i > 0 {
                    push_char(out, ',');
                }
                let q = json_quote(es[i].0.as_str());
                out.append(q.as_str());
                push_char(out, ':');
                write_json(&es[i].1, out);
                proof {
                    let p = es@.subrange(0, i + 1);
                    assert(p.drop_last() =~= es@.subrange(0, i as int));
                    assert(p.last() == es@[i as int]);
                    if i == 0 {
                        assert(p[0] == es@[0]);
                        assert(out@ =~= base + entries_text(p));
                    } else {
                        assert(out@ =~= base + entries_text(p));
                    }
                }
                i = i + 1;
            }
            assert(es@.subrange(0, es@.len() as int) =~= es@);
            push_char(out, '}');
        },
    }
}

/// The compact JSON text of a value (`serde_json`'s `to_string`).
pub fn to_json_text(v: &JsonValue) -> (r: String)
    ensures
        r@ == json_text(*v),
{
    let mut out = String::new();
    write_json(v, &mut out);
    out
}

} // verus!
