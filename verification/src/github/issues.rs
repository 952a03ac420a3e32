//! GitHub issue and pull request bodies.

use vstd::prelude::*;
use vstd::string::*;

use crate::json::{JsonValue, field, get_str, keys_of, str_field, str_of, take_field, value_at};

verus! {

/// The `labels` parameter when it is an array.
pub open spec fn labels_of(params: JsonValue) -> Option<JsonValue> {
    match field(params, "labels"@) {
        Some(v) => if v is Array {
            Some(v)
        } else {
            None
        },
        None => None,
    }
}

/// Whether `b` is the body of a new issue: its `title`, then its `body` when
/// that is a string, then its `labels` when that is an array.
pub open spec fn is_issue_body(b: JsonValue, params: JsonValue) -> bool {
    let text = str_field(params, "body"@);
    let labels = labels_of(params);
    &&& b is Object
    &&& keys_of(b) == seq!["title"@] + (if text is Some {
        seq!["body"@]
    } else {
        Seq::empty()
    }) + (if labels is Some {
        seq!["labels"@]
    } else {
        Seq::empty()
    })
    &&& str_of(value_at(b, 0)) == str_field(params, "title"@)
    &&& text matches Some(t) ==> str_of(value_at(b, 1)) == Some(t)
    &&& labels matches Some(l) ==> value_at(b, keys_of(b).len() - 1) == l
}

/// Whether `b` is the body of a new pull request: `title`, `head`, `base`,
/// then `body` when that is a string.
pub open spec fn is_pull_body(b: JsonValue, params: JsonValue) -> bool {
    let text = str_field(params, "body"@);
    &&& b is Object
    &&& keys_of(b) == seq!["title"@, "head"@, "base"@] + (if text is Some {
        seq!["body"@]
    } else {
        Seq::empty()
    })
    &&& str_of(value_at(b, 0)) == str_field(params, "title"@)
    &&& str_of(value_at(b, 1)) == str_field(params, "head"@)
    &&& str_of(value_at(b, 2)) == str_field(params, "base"@)
    &&& text matches Some(t) ==> str_of(value_at(b, 3)) == Some(t)
}

/// The body of a new issue, for a call whose `title` is a string.
pub fn issue_body(params: JsonValue) -> (b: JsonValue)
    requires
        str_field(params, "title"@) is Some,
    ensures
        is_issue_body(b, params),
{
    let ghost p = params;
    let title = match get_str(&params, "title") {
        Some(t) => t,
        None => String::new(),
    };
    let text = get_str(&params, "body");
    let mut es: Vec<(String, JsonValue)> = Vec::new();
    es.push((String::from_str("title"), JsonValue::Str(title)));
    let has_text = text.is_some();
    match text {
        Some(t) => {
            es.push((String::from_str("body"), JsonValue::Str(t)));
        },
        None => {},
    }
    let ghost before = es@;
    match take_field(params, "labels") {
        Some(l) => {
            if l.as_array().is_some() {
                es.push((String::from_str("labels"), l));
            }
        },
        None => {},
    }
    let b = JsonValue::Object(es);
    assert(keys_of(b) =~= seq!["title"@] + (if has_text {
        seq!["body"@]
    } else {
        Seq::<Seq<char>>::empty()
    }) + (if labels_of(p) is Some {
        seq!["labels"@]
    } else {
        Seq::<Seq<char>>::empty()
    }));
    b
}

/// The body of a new pull request, for a call whose `title`, `head` and
/// `base` are strings.
pub fn pull_body(params: &JsonValue) -> (b: JsonValue)
    requires
        str_field(*params, "title"@) is Some,
        str_field(*params, "head"@) is Some,
        str_field(*params, "base"@) is Some,
    ensures
        is_pull_body(b, *params),
{
    let mut es: Vec<(String, JsonValue)> = Vec::new();
    let title = match get_str(params, "title") {
        Some(t) => t,
        None => String::new(),
    };
    let head = match get_str(params, "head") {
        Some(t) => t,
        None => String::new(),
    };
    let base = match get_str(params, "base") {
        Some(t) => t,
        None => String::new(),
    };
    es.push((String::from_str("title"), JsonValue::Str(title)));
    es.push((String::from_str("head"), JsonValue::Str(head)));
    es.push((String::from_str("base"), JsonValue::Str(base)));
    let text = get_str(params, "body");
    let has_text = text.is_some();
    match text {
        Some(t) => {
            es.push((String::from_str("body"), JsonValue::Str(t)));
        },
        None => {},
    }
    let b = JsonValue::Object(es);
    assert(keys_of(b) =~= seq!["title"@, "head"@, "base"@] + (if has_text {
        seq!["body"@]
    } else {
        Seq::<Seq<char>>::empty()
    }));
    b
}

} // verus!
