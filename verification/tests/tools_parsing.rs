use openchat_core::json::JsonValue;
use openchat_core::parsing::parse_tools_array;

fn text(s: &str) -> JsonValue {
    JsonValue::Text(s.to_string())
}

fn obj(pairs: Vec<(&str, JsonValue)>) -> JsonValue {
    JsonValue::Object(pairs.into_iter().map(|(k, v)| (k.to_string(), v)).collect())
}

fn sample_tools_response() -> JsonValue {
    obj(vec![(
        "tools",
        JsonValue::Array(vec![
            obj(vec![
                ("name", text("apple_execute")),
                ("description", text("Run AppleScript")),
                (
                    "inputSchema",
                    obj(vec![
                        ("type", text("object")),
                        ("properties", obj(vec![("code_snippet", obj(vec![("type", text("string"))]))])),
                    ]),
                ),
            ]),
            obj(vec![
                ("name", text("lowercase")),
                (
                    "input_schema",
                    obj(vec![
                        ("type", text("object")),
                        ("properties", obj(vec![("text", obj(vec![("type", text("string"))]))])),
                    ]),
                ),
            ]),
            obj(vec![("name", text("no_schema"))]),
            obj(vec![("description", text("missing name"))]),
        ]),
    )])
}

fn schema_type(schema: &JsonValue) -> Option<&str> {
    match schema {
        JsonValue::Object(pairs) => pairs.iter().find(|(k, _)| k == "type").and_then(|(_, v)| {
            match v {
                JsonValue::Text(s) => Some(s.as_str()),
                _ => None,
            }
        }),
        _ => None,
    }
}

#[test]
fn transport_parse_tools_array_handles_both_schema_keys_and_missing() {
    let tools = parse_tools_array(sample_tools_response());
    assert_eq!(tools.len(), 3);

    assert_eq!(tools[0].name, "apple_execute");
    assert_eq!(tools[0].description.as_deref(), Some("Run AppleScript"));
    assert!(tools[0].input_schema.is_some());
    let schema0 = tools[0].input_schema.as_ref().unwrap();
    assert_eq!(schema_type(schema0), Some("object"));

    assert_eq!(tools[1].name, "lowercase");
    assert!(tools[1].input_schema.is_some());
    let schema1 = tools[1].input_schema.as_ref().unwrap();
    assert_eq!(schema_type(schema1), Some("object"));

    assert_eq!(tools[2].name, "no_schema");
    assert!(tools[2].input_schema.is_none());
}

#[test]
fn parsing_parse_tools_array_handles_both_schema_keys_and_missing() {
    let tools = parse_tools_array(sample_tools_response());
    assert_eq!(tools.len(), 3);

    assert_eq!(tools[0].name, "apple_execute");
    assert_eq!(tools[0].description.as_deref(), Some("Run AppleScript"));
    assert!(tools[0].input_schema.is_some());
    let schema0 = tools[0].input_schema.as_ref().unwrap();
    assert_eq!(schema_type(schema0), Some("object"));

    assert_eq!(tools[1].name, "lowercase");
    assert!(tools[1].input_schema.is_some());
    let schema1 = tools[1].input_schema.as_ref().unwrap();
    assert_eq!(schema_type(schema1), Some("object"));

    assert_eq!(tools[2].name, "no_schema");
    assert!(tools[2].input_schema.is_none());
}

#[test]
fn well_formed_count_ignores_malformed_placement() {
    // Two well-formed and two malformed entries, malformed first.
    let response = obj(vec![(
        "tools",
        JsonValue::Array(vec![
            obj(vec![("description", text("nameless"))]),
            obj(vec![("name", text("alpha"))]),
            JsonValue::Null,
            obj(vec![("name", text("beta"))]),
        ]),
    )]);
    let tools = parse_tools_array(response);
    assert_eq!(tools.len(), 2);
    assert_eq!(tools[0].name, "alpha");
    assert_eq!(tools[1].name, "beta");

    // The same entries with the malformed ones at the end.
    let reordered = obj(vec![(
        "tools",
        JsonValue::Array(vec![
            obj(vec![("name", text("alpha"))]),
            obj(vec![("name", text("beta"))]),
            obj(vec![("description", text("nameless"))]),
            JsonValue::Null,
        ]),
    )]);
    let tools2 = parse_tools_array(reordered);
    assert_eq!(tools2.len(), 2);
    assert_eq!(tools2[0].name, "alpha");
    assert_eq!(tools2[1].name, "beta");
}

#[test]
fn schema_key_precedence_camel_case_wins() {
    // Both spellings present: the camelCase one is taken.
    let response = obj(vec![(
        "tools",
        JsonValue::Array(vec![obj(vec![
            ("name", text("dual")),
            ("inputSchema", obj(vec![("marker", text("camel"))])),
            ("input_schema", obj(vec![("marker", text("snake"))])),
        ])]),
    )]);
    let tools = parse_tools_array(response);
    assert_eq!(tools.len(), 1);
    let schema = tools[0].input_schema.as_ref().unwrap();
    match schema {
        JsonValue::Object(pairs) => {
            assert_eq!(pairs.len(), 1);
            assert_eq!(pairs[0].0, "marker");
            assert_eq!(pairs[0].1, text("camel"));
        }
        other => panic!("schema is not an object: {:?}", other),
    }
}

#[test]
fn schema_discarded_when_not_an_object() {
    // A non-object camelCase schema is discarded even though a snake_case
    // object is present: presence decides precedence, not shape.
    let response = obj(vec![(
        "tools",
        JsonValue::Array(vec![obj(vec![
            ("name", text("odd")),
            ("inputSchema", text("not an object")),
            ("input_schema", obj(vec![("marker", text("snake"))])),
        ])]),
    )]);
    let tools = parse_tools_array(response);
    assert_eq!(tools.len(), 1);
    assert!(tools[0].input_schema.is_none());
}

#[test]
fn missing_or_non_array_tools_yield_no_descriptors() {
    assert_eq!(parse_tools_array(obj(vec![])).len(), 0);
    assert_eq!(parse_tools_array(JsonValue::Null).len(), 0);
    assert_eq!(parse_tools_array(obj(vec![("tools", text("nope"))])).len(), 0);
}
