//! Tests of the tool-descriptor builder.
use reactagent::agent::json::JsonValue;
use reactagent::agent::tool::{FunctionSchemaStyle, build_function_schema, prepare_parameters};

/// The parameter schema of the weather tool's arguments, as a schema
/// generator would derive it: a titled object with typed properties.
fn weather_args_schema() -> JsonValue {
    let city = JsonValue::Obj(vec![
        (
            "description".to_owned(),
            JsonValue::Str("The name of the city to get the weather for".to_owned()),
        ),
        ("type".to_owned(), JsonValue::Str("string".to_owned())),
    ]);
    let latitude = JsonValue::Obj(vec![
        (
            "description".to_owned(),
            JsonValue::Str("Latitude of the location".to_owned()),
        ),
        ("format".to_owned(), JsonValue::Str("double".to_owned())),
        ("type".to_owned(), JsonValue::Str("number".to_owned())),
    ]);
    let longitude = JsonValue::Obj(vec![
        (
            "description".to_owned(),
            JsonValue::Str("Longitude of the location".to_owned()),
        ),
        ("format".to_owned(), JsonValue::Str("double".to_owned())),
        ("type".to_owned(), JsonValue::Str("number".to_owned())),
    ]);
    let unit = JsonValue::Obj(vec![
        (
            "description".to_owned(),
            JsonValue::Str("Unit of measurement, \"Celsius\" by default".to_owned()),
        ),
        (
            "type".to_owned(),
            JsonValue::Arr(vec![
                JsonValue::Str("string".to_owned()),
                JsonValue::Str("null".to_owned()),
            ]),
        ),
    ]);
    JsonValue::Obj(vec![
        ("title".to_owned(), JsonValue::Str("GetWeatherArgs".to_owned())),
        ("type".to_owned(), JsonValue::Str("object".to_owned())),
        (
            "properties".to_owned(),
            JsonValue::Obj(vec![
                ("city".to_owned(), city),
                ("latitude".to_owned(), latitude),
                ("longitude".to_owned(), longitude),
                ("unit".to_owned(), unit),
            ]),
        ),
        (
            "required".to_owned(),
            JsonValue::Arr(vec![
                JsonValue::Str("city".to_owned()),
                JsonValue::Str("latitude".to_owned()),
                JsonValue::Str("longitude".to_owned()),
            ]),
        ),
    ])
}

fn entries(value: &JsonValue) -> &Vec<(String, JsonValue)> {
    match value {
        JsonValue::Obj(entries) => entries,
        other => panic!("expected an object, got {:?}", other),
    }
}

fn entry<'a>(value: &'a JsonValue, key: &str) -> &'a JsonValue {
    for (name, child) in entries(value) {
        if name == key {
            return child;
        }
    }
    panic!("no entry named {}", key);
}

#[test]
fn test_legacy_schema() {
    let schema = build_function_schema(
        "get_weather",
        "Get current weather",
        weather_args_schema(),
        FunctionSchemaStyle::Legacy,
    );
    println!("Legacy format:\n{}", format!("{:?}", schema));
    assert_eq!(
        entry(&schema, "name"),
        &JsonValue::Str("get_weather".to_owned())
    );
    assert_eq!(
        entry(&schema, "description"),
        &JsonValue::Str("Get current weather".to_owned())
    );
    let parameters = entry(&schema, "parameters");
    assert!(entries(parameters).iter().all(|(k, _)| k != "title"));
    assert_eq!(entry(parameters, "type"), &JsonValue::Str("object".to_owned()));
}

#[test]
fn test_tool_schema() {
    let schema = build_function_schema(
        "get_weather",
        "Get current weather",
        weather_args_schema(),
        FunctionSchemaStyle::Tool,
    );
    println!("Tool format:\n{}", format!("{:?}", schema));
    assert_eq!(entry(&schema, "type"), &JsonValue::Str("function".to_owned()));
    let function = entry(&schema, "function");
    assert_eq!(
        entry(function, "name"),
        &JsonValue::Str("get_weather".to_owned())
    );
    assert_eq!(
        entry(function, "description"),
        &JsonValue::Str("Get current weather".to_owned())
    );
}

#[test]
fn both_styles_share_identical_parameters() {
    // The two envelopes wrap one and the same prepared parameter object.
    let legacy = build_function_schema(
        "get_weather",
        "Get current weather",
        weather_args_schema(),
        FunctionSchemaStyle::Legacy,
    );
    let tool = build_function_schema(
        "get_weather",
        "Get current weather",
        weather_args_schema(),
        FunctionSchemaStyle::Tool,
    );
    let legacy_parameters = entry(&legacy, "parameters");
    let tool_parameters = entry(entry(&tool, "function"), "parameters");
    assert_eq!(legacy_parameters, tool_parameters);
}

#[test]
fn prepare_strips_title_and_keeps_declared_type() {
    let prepared = prepare_parameters(weather_args_schema());
    let kept = entries(&prepared);
    assert!(kept.iter().all(|(k, _)| k != "title"));
    // The schema declared `type: "object"` itself: exactly one type entry.
    assert_eq!(kept.iter().filter(|(k, _)| k == "type").count(), 1);
}

#[test]
fn prepare_defaults_missing_type_to_object() {
    let schema = JsonValue::Obj(vec![(
        "properties".to_owned(),
        JsonValue::Obj(vec![]),
    )]);
    let prepared = prepare_parameters(schema);
    assert_eq!(entry(&prepared, "type"), &JsonValue::Str("object".to_owned()));
    // The defaulted entry is appended after the existing entries.
    assert_eq!(entries(&prepared).last().unwrap().0, "type");
}

#[test]
fn prepare_keeps_non_object_schema_unchanged() {
    let prepared = prepare_parameters(JsonValue::Bool(true));
    assert_eq!(prepared, JsonValue::Bool(true));
}
