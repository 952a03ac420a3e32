use openintent_adapters::dingtalk::tools::build_tool_definitions;
use openintent_adapters::json::to_json_text;

fn value(text: &str) -> serde_json::Value {
    serde_json::from_str(text).unwrap()
}

#[test]
fn dingtalk_schemas_render_as_the_original_json() {
    let tools = build_tool_definitions();
    let text = to_json_text(&tools[0].parameters.to_json());
    assert_eq!(
        text,
        r#"{"type":"object","properties":{"content":{"type":"string","description":"Message text"},"at_all":{"type":"boolean","description":"Notify all group members","default":false},"at_mobiles":{"type":"array","description":"Phone numbers to @ in the message","items":{"type":"string"}}},"required":["content"]}"#
    );
    let card = to_json_text(&tools[2].parameters.to_json());
    let expected = value(
        r#"{
            "type": "object",
            "properties": {
                "title": { "type": "string", "description": "Card title" },
                "text": { "type": "string", "description": "Card body (Markdown)" },
                "buttons": {
                    "type": "array",
                    "description": "Action buttons",
                    "items": {
                        "type": "object",
                        "properties": {
                            "title": { "type": "string" },
                            "action_url": { "type": "string" }
                        },
                        "required": ["title", "action_url"]
                    }
                }
            },
            "required": ["title", "text", "buttons"]
        }"#,
    );
    assert_eq!(value(&card), expected);
}
