//! The system prompt: a fixed instructional template that teaches the model
//! the Thought/Action/PAUSE/Observation protocol, with two slots filled in:
//! the rendered tool catalog and an example transcript.
use vstd::prelude::*;

verus! {

/// What the tool-summary decoder reads out of one descriptor's JSON text:
/// its `name` and `description` entries, when both are present as strings.
pub uninterp spec fn tool_summary_of(schema_json: Seq<char>) -> Option<(Seq<char>, Seq<char>)>;

/// Relies on `serde_json::from_str`, `Value::get` and `Value::as_str`: reads
/// the `name` and `description` string entries of one descriptor's JSON
/// text. The result depends on that text alone.
#[verifier::external_body]
fn decode_tool_summary(schema_json: &str) -> (r: Option<(String, String)>)
    ensures
        match r {
            Some(summary) => tool_summary_of(schema_json@) == Some((summary.0@, summary.1@)),
            None => tool_summary_of(schema_json@) is None,
        },
{
    let doc: serde_json::Value = serde_json::from_str(schema_json).ok()?;
    let name = doc.get("name")?.as_str()?.to_owned();
    let description = doc.get("description")?.as_str()?.to_owned();
    Some((name, description))
}

/// The template up to the tool-catalog slot.
pub open spec fn template_head() -> Seq<char> {
    r#"
You are an intelligent assistant that operates strictly in a loop of Thought → Action → PAUSE → Observation.

You must follow this exact step-by-step interaction loop:

**Thought**: Think step by step about the current task or available information.
**Action**: Call a tool using the available tools list, providing input parameters.
**PAUSE**: Immediately pause and wait for the result. Do not generate any output beyond this point.
**Observation**: You will be given an observation after the action. Reflect and continue the loop.

Repeat the loop until you have enough information to produce a final Answer.

***Response Format Rule***:
You must only produce output in this strict JSON format:
{
  "state": "pause" | "answer",
  "thought": "<step-by-step reasoning>",
  "action": {
    "tool": "<tool_name>",
    "input": {
      // tool-specific parameters
    }
  }
}

When calling a tool, always set "state": "pause" and stop. Do not generate Observation or Answer yet.

When ready to answer, use "state": "answer".

This loop is strictly enforced. Any deviation will be considered invalid output.




Your available tools are:
-------------------------
"#@
}

fn template_head_str() -> (r: &'static str)
    ensures
        r@ == template_head(),
{
    r#"
You are an intelligent assistant that operates strictly in a loop of Thought → Action → PAUSE → Observation.

You must follow this exact step-by-step interaction loop:

**Thought**: Think step by step about the current task or available information.
**Action**: Call a tool using the available tools list, providing input parameters.
**PAUSE**: Immediately pause and wait for the result. Do not generate any output beyond this point.
**Observation**: You will be given an observation after the action. Reflect and continue the loop.

Repeat the loop until you have enough information to produce a final Answer.

***Response Format Rule***:
You must only produce output in this strict JSON format:
{
  "state": "pause" | "answer",
  "thought": "<step-by-step reasoning>",
  "action": {
    "tool": "<tool_name>",
    "input": {
      // tool-specific parameters
    }
  }
}

When calling a tool, always set "state": "pause" and stop. Do not generate Observation or Answer yet.

When ready to answer, use "state": "answer".

This loop is strictly enforced. Any deviation will be considered invalid output.




Your available tools are:
-------------------------
"#
}

/// The template between the tool-catalog slot and the example slot.
pub open spec fn template_mid() -> Seq<char> {
    r#"

-------------------------



Example session:
-------------------------
"#@
}

fn template_mid_str() -> (r: &'static str)
    ensures
        r@ == template_mid(),
{
    r#"

-------------------------



Example session:
-------------------------
"#
}

/// The template after the example slot.
pub open spec fn template_tail() -> Seq<char> {
    r#"
-------------------------

Now it's your turn to use the tools effectively. Return only the concise final answer in a single sentence. No additional text. 
"#@
}

fn template_tail_str() -> (r: &'static str)
    ensures
        r@ == template_tail(),
{
    r#"
-------------------------

Now it's your turn to use the tools effectively. Return only the concise final answer in a single sentence. No additional text. 
"#
}

/// The built-in example transcript, used when the caller supplies none.
pub open spec fn default_example() -> Seq<char> {
    r#"
{
  "state": "pause",
  "thought": "I need to find out the current weather conditions in London. To do this, I'll first need to get the latitude and longitude of London as these are required for the get_weather tool. Once I have the coordinates, I can use the get_weather tool to find out the current weather in London.",
  "action": {
    "tool": "get_geo_location",
    "input": {
      "city": "London"
    }
  }
}


**Observation**: The latitude of London is 51.5074 and the longitude is -0.1278.

{
  "state": "pause",
  "thought": "Now that I have the coordinates, I can use the get_weather tool to find out the current weather in London. I'll also specify the unit of measurement, which in this case, I'll leave as null to default to the most common unit.",
  "action": {
    "tool": "get_weather",
    "input": { 
        "city": "London", 
        "latitude": 51.5074, 
        "longitude": -0.1278, 
        "unit": null 
    }
  }
}

**Observation**: The current weather in London is described as overcast with a temperature of 12°C.

{
    "state": "answer",
    "thought": "The weather in London today is overcast with a temperature of 12°C.",
    "action": {
        "tool": "none",
        "input": {}
    }
}
"#@
}

fn default_example_str() -> (r: &'static str)
    ensures
        r@ == default_example(),
{
    r#"
{
  "state": "pause",
  "thought": "I need to find out the current weather conditions in London. To do this, I'll first need to get the latitude and longitude of London as these are required for the get_weather tool. Once I have the coordinates, I can use the get_weather tool to find out the current weather in London.",
  "action": {
    "tool": "get_geo_location",
    "input": {
      "city": "London"
    }
  }
}


**Observation**: The latitude of London is 51.5074 and the longitude is -0.1278.

{
  "state": "pause",
  "thought": "Now that I have the coordinates, I can use the get_weather tool to find out the current weather in London. I'll also specify the unit of measurement, which in this case, I'll leave as null to default to the most common unit.",
  "action": {
    "tool": "get_weather",
    "input": { 
        "city": "London", 
        "latitude": 51.5074, 
        "longitude": -0.1278, 
        "unit": null 
    }
  }
}

**Observation**: The current weather in London is described as overcast with a temperature of 12°C.

{
    "state": "answer",
    "thought": "The weather in London today is overcast with a temperature of 12°C.",
    "action": {
        "tool": "none",
        "input": {}
    }
}
"#
}

/// The catalog line block for one descriptor: a `- name: description`
/// summary line followed by the descriptor's full JSON text. A descriptor
/// whose JSON text yields no name/description summary is skipped.
pub open spec fn catalog_entry(schema_json: Seq<char>) -> Seq<char> {
    match tool_summary_of(schema_json) {
        Some(summary) => "- "@ + summary.0 + ": "@ + summary.1 + "\n"@ + schema_json + "\n\n"@,
        None => Seq::<char>::empty(),
    }
}

/// The whole tool catalog: every descriptor's block, in input order.
pub open spec fn tool_catalog(schemas: Seq<Seq<char>>) -> Seq<char>
    decreases schemas.len(),
{
    if schemas.len() == 0 {
        Seq::empty()
    } else {
        tool_catalog(schemas.drop_last()) + catalog_entry(schemas.last())
    }
}

/// The finished system prompt: the fixed template with the catalog and the
/// example transcript (the built-in one when the caller supplies none)
/// substituted into its two slots.
pub open spec fn rendered_prompt(schemas: Seq<Seq<char>>, example: Option<Seq<char>>) -> Seq<
    char,
> {
    template_head() + tool_catalog(schemas) + template_mid() + (match example {
        Some(e) => e,
        None => default_example(),
    }) + template_tail()
}

/// Renders the catalog block of every descriptor, in input order.
fn render_tool_catalog(tool_schema_list: &Vec<String>) -> (r: String)
    ensures
        r@ == tool_catalog(tool_schema_list.deep_view()),
{
    let ghost schemas = tool_schema_list.deep_view();
    let mut catalog = String::new();
    let mut i: usize = 0;
    while i < tool_schema_list.len()
        invariant
            0 <= i <= schemas.len(),
            schemas == tool_schema_list.deep_view(),
            catalog@ == tool_catalog(schemas.take(i as int)),
        decreases schemas.len() - i,
    {
        let ghost catalog_pre = catalog@;
        let schema_json = &tool_schema_list[i];
        match decode_tool_summary(schema_json.as_str()) {
            Some(summary) => {
                catalog.append("- ");
                catalog.append(summary.0.as_str());
                catalog.append(": ");
                catalog.append(summary.1.as_str());
                catalog.append("\n");
                catalog.append(schema_json.as_str());
                catalog.append("\n\n");
            },
            None => {},
        }
        proof {
            assert(schemas.take(i + 1 as int).drop_last() =~= schemas.take(i as int));
            assert(schemas.take(i + 1 as int).last() == schemas[i as int]);
            assert(catalog@ =~= catalog_pre + catalog_entry(schemas[i as int]));
        }
        i += 1;
    }
    proof {
        assert(schemas.take(schemas.len() as int) =~= schemas);
    }
    catalog
}

/// Builds the system prompt from the descriptors' JSON texts and an optional
/// example transcript. Identical arguments always yield the identical
/// prompt: the result is pinned, character for character, by
/// [`rendered_prompt`].
pub fn create_system_prompt(tool_schema_list: Vec<String>, example: Option<String>) -> (r:
    String)
    ensures
        r@ == rendered_prompt(tool_schema_list.deep_view(), example.deep_view()),
{
    let catalog = render_tool_catalog(&tool_schema_list);
    let mut prompt = template_head_str().to_owned();
    prompt.append(catalog.as_str());
    prompt.append(template_mid_str());
    match &example {
        Some(e) => prompt.append(e.as_str()),
        None => prompt.append(default_example_str()),
    }
    prompt.append(template_tail_str());
    proof {
        assert(prompt@ =~= rendered_prompt(tool_schema_list.deep_view(), example.deep_view()));
    }
    prompt
}

/// Rendering is deterministic: two prompts rendered from identical
/// arguments are identical, character for character.
pub proof fn lemma_render_deterministic(
    schemas: Seq<Seq<char>>,
    example: Option<Seq<char>>,
    first: Seq<char>,
    second: Seq<char>,
)
    requires
        first == rendered_prompt(schemas, example),
        second == rendered_prompt(schemas, example),
    ensures
        first == second,
{
}

/// With no descriptors and no caller-supplied example, the prompt carries an
/// empty tool-catalog section and the built-in example transcript verbatim,
/// right between the two template halves around the example slot.
pub proof fn lemma_render_empty_catalog()
    ensures
        tool_catalog(Seq::<Seq<char>>::empty()) == Seq::<char>::empty(),
        ({
            let r = rendered_prompt(Seq::<Seq<char>>::empty(), None);
            let off: int = template_head().len() + template_mid().len() as int;
            r.subrange(off, off + default_example().len()) == default_example()
        }),
{
    let r = rendered_prompt(Seq::<Seq<char>>::empty(), None);
    let off: int = template_head().len() + template_mid().len() as int;
    assert(r =~= template_head() + template_mid() + default_example() + template_tail());
    assert(r.subrange(off, off + default_example().len()) =~= default_example());
}

} // verus!
