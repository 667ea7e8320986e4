//! Tests of the system-prompt renderer.
use reactagent::agent::prompt::create_system_prompt;

const SCHEMA_STR: &str = r###"
        {
            "description": "Get current weather",
            "name": "get_weather",
            "parameters": {
                "properties": {
                "city": {
                    "description": "the name of the city",
                    "type": "string"
                },
                "latitude": {
                    "description": "latitude of the location",
                    "format": "float",
                    "type": "number"
                },
                "longitude": {
                    "description": "longitude of the location",
                    "format": "float",
                    "type": "number"
                },
                "unit": {
                    "description": "Unit of measurement, e.g., \"Celsius\"",
                    "type": [
                      "string",
                      "null"
                    ]
                }
                },
                "required": [
                  "city",
                  "latitude",
                  "longitude"
                ],
                "type": "object"
            }
        }
    "###;

const DEFAULT_EXAMPLE: &str = r##"
{
  "state": "pause",
  "thought": "I need to find out the current weather conditions in London. To do this, I'll first need to get the latitude and longitude of London as these are required for the get_weather tool. Once I have the coordinates, I can use the get_weather tool to find out the current weather in London.",
  "action": {
    "tool": "get_geo_location",
    "input": {
      "city": "London"
    }
  }
}


**Observation**: The latitude of London is 51.5074 and the longitude is -0.1278.

{
  "state": "pause",
  "thought": "Now that I have the coordinates, I can use the get_weather tool to find out the current weather in London. I'll also specify the unit of measurement, which in this case, I'll leave as null to default to the most common unit.",
  "action": {
    "tool": "get_weather",
    "input": { 
        "city": "London", 
        "latitude": 51.5074, 
        "longitude": -0.1278, 
        "unit": null 
    }
  }
}

**Observation**: The current weather in London is described as overcast with a temperature of 12°C.

{
    "state": "answer",
    "thought": "The weather in London today is overcast with a temperature of 12°C.",
    "action": {
        "tool": "none",
        "input": {}
    }
}
"##;

#[test]
fn should_work() {
    let prompt = create_system_prompt(vec![SCHEMA_STR.to_owned()], None);
    println!("{prompt}");
}

#[test]
fn render_without_tools_keeps_default_example_verbatim() {
    // With no descriptors and no caller-supplied example, the prompt holds
    // an empty tool-catalog section and the built-in example transcript
    // verbatim.
    let prompt = create_system_prompt(vec![], None);
    assert!(prompt.contains(DEFAULT_EXAMPLE));
    assert!(prompt.contains("-------------------------\n\n\n-------------------------"));
}

#[test]
fn render_is_idempotent() {
    // Two renders of identical arguments are byte-identical.
    let tools = vec![SCHEMA_STR.to_owned()];
    let example = Some("an example transcript".to_owned());
    let first = create_system_prompt(tools.clone(), example.clone());
    let second = create_system_prompt(tools, example);
    assert_eq!(first.into_bytes(), second.into_bytes());
}

#[test]
fn render_lists_each_tool_with_summary_line_and_descriptor() {
    let schema = r#"{"name":"get_geo_location","description":"Get the latitude and longitude of a city","parameters":{}}"#;
    let prompt = create_system_prompt(vec![schema.to_owned()], None);
    assert!(prompt.contains("- get_geo_location: Get the latitude and longitude of a city\n"));
    assert!(prompt.contains(schema));
}

#[test]
fn render_skips_descriptor_without_summary() {
    let incomplete = r#"{"name":"only_a_name"}"#;
    let prompt = create_system_prompt(vec![incomplete.to_owned()], None);
    assert!(!prompt.contains("only_a_name"));
}

#[test]
fn render_substitutes_caller_example() {
    let prompt = create_system_prompt(vec![], Some("CALLER EXAMPLE".to_owned()));
    assert!(prompt.contains("CALLER EXAMPLE"));
    assert!(!prompt.contains(DEFAULT_EXAMPLE));
}
