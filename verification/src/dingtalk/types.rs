//! DingTalk robot message types and their JSON forms.

use vstd::prelude::*;
use vstd::string::*;

use crate::json::{JsonValue, keys_of, str_of, value_at};
use crate::traits::views;

verus! {

/// Webhook text message.
#[derive(Debug)]
pub struct WebhookTextMsg {
    pub msgtype: String,
    pub text: TextContent,
    pub at: AtConfig,
}

/// The text of a text message.
#[derive(Debug)]
pub struct TextContent {
    pub content: String,
}

/// Whom a message mentions.
#[derive(Debug)]
pub struct AtConfig {
    pub at_mobiles: Vec<String>,
    pub is_at_all: bool,
}

/// Webhook markdown message.
#[derive(Debug)]
pub struct WebhookMarkdownMsg {
    pub msgtype: String,
    pub markdown: MarkdownContent,
    pub at: AtConfig,
}

/// The title and text of a markdown message.
#[derive(Debug)]
pub struct MarkdownContent {
    pub title: String,
    pub text: String,
}

/// Webhook action card message.
#[derive(Debug)]
pub struct WebhookActionCardMsg {
    pub msgtype: String,
    pub action_card: ActionCardContent,
}

/// The content of an action card.
#[derive(Debug)]
pub struct ActionCardContent {
    pub title: String,
    pub text: String,
    pub btn_orientation: String,
    pub btns: Vec<ActionButton>,
}

/// A button of an action card.
#[derive(Debug)]
pub struct ActionButton {
    pub title: String,
    pub action_url: String,
}

/// Whether `j` is a JSON array of the strings `ss`.
pub open spec fn strings_json(j: JsonValue, ss: Seq<Seq<char>>) -> bool {
    j matches JsonValue::Array(a) && a@.len() == ss.len() && forall|i: int|
        0 <= i < ss.len() ==> #[trigger] str_of(a@[i]) == Some(ss[i])
}

/// The JSON form of an [`AtConfig`]: `{atMobiles, isAtAll}`.
pub open spec fn at_json(j: JsonValue, at: AtConfig) -> bool {
    &&& keys_of(j) == seq!["atMobiles"@, "isAtAll"@]
    &&& strings_json(value_at(j, 0), views(at.at_mobiles@))
    &&& value_at(j, 1) == JsonValue::Bool(at.is_at_all)
}

/// The JSON form of a [`WebhookTextMsg`]: `{msgtype, text: {content}, at}`.
pub open spec fn text_msg_json(j: JsonValue, m: WebhookTextMsg) -> bool {
    &&& keys_of(j) == seq!["msgtype"@, "text"@, "at"@]
    &&& str_of(value_at(j, 0)) == Some(m.msgtype@)
    &&& keys_of(value_at(j, 1)) == seq!["content"@]
    &&& str_of(value_at(value_at(j, 1), 0)) == Some(m.text.content@)
    &&& at_json(value_at(j, 2), m.at)
}

/// The JSON form of a [`WebhookMarkdownMsg`]: `{msgtype, markdown: {title, text}, at}`.
pub open spec fn markdown_msg_json(j: JsonValue, m: WebhookMarkdownMsg) -> bool {
    &&& keys_of(j) == seq!["msgtype"@, "markdown"@, "at"@]
    &&& str_of(value_at(j, 0)) == Some(m.msgtype@)
    &&& keys_of(value_at(j, 1)) == seq!["title"@, "text"@]
    &&& str_of(value_at(value_at(j, 1), 0)) == Some(m.markdown.title@)
    &&& str_of(value_at(value_at(j, 1), 1)) == Some(m.markdown.text@)
    &&& at_json(value_at(j, 2), m.at)
}

/// The JSON form of an [`ActionButton`]: `{title, actionUrl}`.
pub open spec fn button_json(j: JsonValue, b: ActionButton) -> bool {
    &&& keys_of(j) == seq!["title"@, "actionUrl"@]
    &&& str_of(value_at(j, 0)) == Some(b.title@)
    &&& str_of(value_at(j, 1)) == Some(b.action_url@)
}

/// The JSON form of a [`WebhookActionCardMsg`]:
/// `{msgtype, actionCard: {title, text, btnOrientation, btns}}`.
pub open spec fn card_msg_json(j: JsonValue, m: WebhookActionCardMsg) -> bool {
    let c = value_at(j, 1);
    &&& keys_of(j) == seq!["msgtype"@, "actionCard"@]
    &&& str_of(value_at(j, 0)) == Some(m.msgtype@)
    &&& keys_of(c) == seq!["title"@, "text"@, "btnOrientation"@, "btns"@]
    &&& str_of(value_at(c, 0)) == Some(m.action_card.title@)
    &&& str_of(value_at(c, 1)) == Some(m.action_card.text@)
    &&& str_of(value_at(c, 2)) == Some(m.action_card.btn_orientation@)
    &&& value_at(c, 3) matches JsonValue::Array(a) && a@.len() == m.action_card.btns@.len() && forall|i: int|
        0 <= i < a@.len() ==> #[trigger] button_json(a@[i], m.action_card.btns@[i])
}

fn string_json(s: &String) -> (j: JsonValue)
    ensures
        str_of(j) == Some(s@),
{
    JsonValue::Str(s.clone())
}

impl AtConfig {
    /// The JSON form, as serde writes it (camel-case keys).
    pub fn to_json(&self) -> (j: JsonValue)
        ensures
            at_json(j, *self),
    {
        let mut arr: Vec<JsonValue> = Vec::new();
        let mut i: usize = 0;
        while i < self.at_mobiles.len()
            invariant
                i <= self.at_mobiles@.len(),
                arr@.len() == i,
                forall|k: int| 0 <= k < i ==> #[trigger] str_of(arr@[k]) == Some(self.at_mobiles@[k]@),
            decreases self.at_mobiles.len() - i,
        {
            arr.push(string_json(&self.at_mobiles[i]));
            i = i + 1;
        }
        let mut es: Vec<(String, JsonValue)> = Vec::new();
        es.push((String::from_str("atMobiles"), JsonValue::Array(arr)));
        es.push((String::from_str("isAtAll"), JsonValue::Bool(self.is_at_all)));
        let j = JsonValue::Object(es);
        assert(keys_of(j) =~= seq!["atMobiles"@, "isAtAll"@]);
        j
    }
}

impl WebhookTextMsg {
    /// The JSON form, as serde writes it.
    pub fn to_json(&self) -> (j: JsonValue)
        ensures
            text_msg_json(j, *self),
    {
        let mut t: Vec<(String, JsonValue)> = Vec::new();
        t.push((String::from_str("content"), string_json(&self.text.content)));
        let tj = JsonValue::Object(t);
        assert(keys_of(tj) =~= seq!["content"@]);
        let mut es: Vec<(String, JsonValue)> = Vec::new();
        es.push((String::from_str("msgtype"), string_json(&self.msgtype)));
        es.push((String::from_str("text"), tj));
        es.push((String::from_str("at"), self.at.to_json()));
        let j = JsonValue::Object(es);
        assert(keys_of(j) =~= seq!["msgtype"@, "text"@, "at"@]);
        j
    }
}

impl WebhookMarkdownMsg {
    /// The JSON form, as serde writes it.
    pub fn to_json(&self) -> (j: JsonValue)
        ensures
            markdown_msg_json(j, *self),
    {
        let mut t: Vec<(String, JsonValue)> = Vec::new();
        t.push((String::from_str("title"), string_json(&self.markdown.title)));
        t.push((String::from_str("text"), string_json(&self.markdown.text)));
        let tj = JsonValue::Object(t);
        assert(keys_of(tj) =~= seq!["title"@, "text"@]);
        let mut es: Vec<(String, JsonValue)> = Vec::new();
        es.push((String::from_str("msgtype"), string_json(&self.msgtype)));
        es.push((String::from_str("markdown"), tj));
        es.push((String::from_str("at"), self.at.to_json()));
        let j = JsonValue::Object(es);
        assert(keys_of(j) =~= seq!["msgtype"@, "markdown"@, "at"@]);
        j
    }
}

impl ActionButton {
    /// The JSON form, as serde writes it (camel-case keys).
    pub fn to_json(&self) -> (j: JsonValue)
        ensures
            button_json(j, *self),
    {
        let mut es: Vec<(String, JsonValue)> = Vec::new();
        es.push((String::from_str("title"), string_json(&self.title)));
        es.push((String::from_str("actionUrl"), string_json(&self.action_url)));
        let j = JsonValue::Object(es);
        assert(keys_of(j) =~= seq!["title"@, "actionUrl"@]);
        j
    }
}

impl WebhookActionCardMsg {
    /// The JSON form, as serde writes it (camel-case keys).
    pub fn to_json(&self) -> (j: JsonValue)
        ensures
            card_msg_json(j, *self),
    {
        let mut btns: Vec<JsonValue> = Vec::new();
        let mut i: usize = 0;
        while i < self.action_card.btns.len()
            invariant
                i <= self.action_card.btns@.len(),
                btns@.len() == i,
                forall|k: int| 0 <= k < i ==> #[trigger] button_json(btns@[k], self.action_card.btns@[k]),
            decreases self.action_card.btns.len() - i,
        {
            btns.push(self.action_card.btns[i].to_json());
            i = i + 1;
        }
        let mut c: Vec<(String, JsonValue)> = Vec::new();
        c.push((String::from_str("title"), string_json(&self.action_card.title)));
        c.push((String::from_str("text"), string_json(&self.action_card.text)));
        c.push((String::from_str("btnOrientation"), string_json(&self.action_card.btn_orientation)));
        c.push((String::from_str("btns"), JsonValue::Array(btns)));
        let cj = JsonValue::Object(c);
        assert(keys_of(cj) =~= seq!["title"@, "text"@, "btnOrientation"@, "btns"@]);
        let mut es: Vec<(String, JsonValue)> = Vec::new();
        es.push((String::from_str("msgtype"), string_json(&self.msgtype)));
        es.push((String::from_str("actionCard"), cj));
        let j = JsonValue::Object(es);
        assert(keys_of(j) =~= seq!["msgtype"@, "actionCard"@]);
        j
    }
}

} // verus!
