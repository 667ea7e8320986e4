//! Tool descriptors: turning a parameter schema into the JSON descriptor that
//! is advertised to the model, in one of two wire styles.
use vstd::prelude::*;

use crate::agent::json::{
    contains_key, entries_model, obj_has_key, remove_entries, strip_key, JsonModel, JsonValue,
};

verus! {

/// API category of a tool descriptor: `Legacy` for the plain
/// `{name, description, parameters}` envelope, `Tool` for the
/// `{type: "function", function: {...}}` envelope.
#[derive(Debug, Clone, Copy)]
pub enum FunctionSchemaStyle {
    Legacy,
    Tool,
}

/// The parameter schema as advertised: every `title` entry of the top-level
/// object is dropped, and a `type: "object"` entry is added when no `type`
/// entry is present. A schema that is not an object is kept as it is.
pub open spec fn prepared_parameters(schema: JsonModel) -> JsonModel {
    match schema {
        JsonModel::Obj(entries) => JsonModel::Obj(
            with_default_type(strip_key(entries, "title"@)),
        ),
        _ => schema,
    }
}

/// Appends `type: "object"` unless a `type` entry is present.
pub open spec fn with_default_type(entries: Seq<(Seq<char>, JsonModel)>) -> Seq<
    (Seq<char>, JsonModel),
> {
    if obj_has_key(entries, "type"@) {
        entries
    } else {
        entries.push(("type"@, JsonModel::Str("object"@)))
    }
}

/// The `Legacy` descriptor envelope: `{name, description, parameters}`.
pub open spec fn legacy_descriptor(
    name: Seq<char>,
    description: Seq<char>,
    parameters: JsonModel,
) -> JsonModel {
    JsonModel::Obj(
        seq![
            ("name"@, JsonModel::Str(name)),
            ("description"@, JsonModel::Str(description)),
            ("parameters"@, parameters),
        ],
    )
}

/// The `Tool` descriptor envelope: `{type: "function", function: {...}}`,
/// whose `function` entry is exactly the `Legacy` envelope.
pub open spec fn tool_descriptor(
    name: Seq<char>,
    description: Seq<char>,
    parameters: JsonModel,
) -> JsonModel {
    JsonModel::Obj(
        seq![
            ("type"@, JsonModel::Str("function"@)),
            ("function"@, legacy_descriptor(name, description, parameters)),
        ],
    )
}

/// The descriptor built for a tool, in the chosen wire style.
pub open spec fn function_schema(
    name: Seq<char>,
    description: Seq<char>,
    schema: JsonModel,
    style: FunctionSchemaStyle,
) -> JsonModel {
    match style {
        FunctionSchemaStyle::Legacy => legacy_descriptor(
            name,
            description,
            prepared_parameters(schema),
        ),
        FunctionSchemaStyle::Tool => tool_descriptor(
            name,
            description,
            prepared_parameters(schema),
        ),
    }
}

/// Builds the JSON descriptor advertising one tool: the parameter schema is
/// prepared (no `title`, a defaulted `type`) and wrapped in the chosen
/// envelope.
pub fn build_function_schema(
    name: &str,
    description: &str,
    parameters: JsonValue,
    style: FunctionSchemaStyle,
) -> (r: JsonValue)
    ensures
        r.model() == function_schema(name@, description@, parameters.model(), style),
{
    let prepared = prepare_parameters(parameters);
    match style {
        FunctionSchemaStyle::Legacy => legacy_envelope(name, description, prepared),
        FunctionSchemaStyle::Tool => {
            let inner = legacy_envelope(name, description, prepared);
            let ghost inner_model = inner.model();
            let mut entries: Vec<(String, JsonValue)> = Vec::new();
            entries.push(("type".to_owned(), JsonValue::Str("function".to_owned())));
            entries.push(("function".to_owned(), inner));
            let r = JsonValue::Obj(entries);
            proof {
                lemma_obj_model(r);
                crate::agent::json::lemma_entries_model(r->Obj_0@);
                assert(entries_model(r->Obj_0@) =~= seq![
                    ("type"@, JsonModel::Str("function"@)),
                    ("function"@, inner_model),
                ]);
            }
            r
        },
    }
}

/// Wraps prepared parameters as `{name, description, parameters}`.
fn legacy_envelope(name: &str, description: &str, parameters: JsonValue) -> (r: JsonValue)
    ensures
        r.model() == legacy_descriptor(name@, description@, parameters.model()),
{
    let ghost parameters_model = parameters.model();
    let mut entries: Vec<(String, JsonValue)> = Vec::new();
    entries.push(("name".to_owned(), JsonValue::Str(name.to_owned())));
    entries.push(("description".to_owned(), JsonValue::Str(description.to_owned())));
    entries.push(("parameters".to_owned(), parameters));
    let r = JsonValue::Obj(entries);
    proof {
        lemma_obj_model(r);
        crate::agent::json::lemma_entries_model(r->Obj_0@);
        assert(entries_model(r->Obj_0@) =~= seq![
            ("name"@, JsonModel::Str(name@)),
            ("description"@, JsonModel::Str(description@)),
            ("parameters"@, parameters_model),
        ]);
    }
    r
}

/// Unfolds the ghost shape of a three-entry object literal.
proof fn lemma_obj_model(v: JsonValue)
    requires
        v is Obj,
    ensures
        v.model() == JsonModel::Obj(entries_model(v->Obj_0@)),
{
}

/// Prepares a parameter schema: strips `title`, defaults `type` to
/// `"object"`, leaves non-object schemas alone.
pub fn prepare_parameters(schema: JsonValue) -> (r: JsonValue)
    ensures
        r.model() == prepared_parameters(schema.model()),
{
    match schema {
        JsonValue::Obj(entries) => {
            let mut kept = remove_entries(entries, "title");
            if !contains_key(&kept, "type") {
                let ghost kept_pre = kept@;
                kept.push(("type".to_owned(), JsonValue::Str("object".to_owned())));
                proof {
                    crate::agent::json::lemma_entries_model(kept_pre);
                    crate::agent::json::lemma_entries_model(kept@);
                    assert(entries_model(kept@) =~= entries_model(kept_pre).push(
                        ("type"@, JsonModel::Str("object"@)),
                    ));
                }
            }
            JsonValue::Obj(kept)
        },
        other => other,
    }
}

/// The two descriptor styles advertise one and the same prepared parameter
/// object; they differ only in the outer envelope: the `Tool` envelope embeds
/// exactly the `Legacy` descriptor under its `function` entry.
pub proof fn lemma_schema_styles_share_parameters(
    name: Seq<char>,
    description: Seq<char>,
    schema: JsonModel,
)
    ensures
        ({
            let shared = prepared_parameters(schema);
            &&& function_schema(name, description, schema, FunctionSchemaStyle::Legacy)
                == legacy_descriptor(name, description, shared)
            &&& function_schema(name, description, schema, FunctionSchemaStyle::Tool)
                == tool_descriptor(name, description, shared)
            &&& function_schema(name, description, schema, FunctionSchemaStyle::Tool)
                matches JsonModel::Obj(outer) && outer[1].1 == function_schema(
                name,
                description,
                schema,
                FunctionSchemaStyle::Legacy,
            )
        }),
{
}

} // verus!
