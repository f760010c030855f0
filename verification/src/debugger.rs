//! The interactive debugger's model: its states, panels and capability
//! references, and the parameter form derived from a tool's JSON Schema.
//! Rendering and key handling live outside the library.

use vstd::prelude::*;

verus! {

use crate::json::{JsonValue, get_field};

/// Where the debugger session stands.
#[derive(Debug, PartialEq)]
pub enum AppState {
    Initializing,
    Connecting,
    Discovering,
    Ready,
    Error(String),
    ShuttingDown,
}

/// Which panel holds the focus.
#[derive(Debug, Clone, Copy, PartialEq, Eq, Structural)]
pub enum FocusedPanel {
    ProtocolFlow,
    MessageInspector,
    Capabilities,
    Input,
    EnvVariables,
}

impl FocusedPanel {
    /// The next panel in the focus cycle; the environment panel hands focus
    /// back to the input panel.
    pub fn next(&self) -> (r: FocusedPanel)
        ensures
            r == match self {
                FocusedPanel::ProtocolFlow => FocusedPanel::MessageInspector,
                FocusedPanel::MessageInspector => FocusedPanel::Capabilities,
                FocusedPanel::Capabilities => FocusedPanel::Input,
                FocusedPanel::Input => FocusedPanel::ProtocolFlow,
                FocusedPanel::EnvVariables => FocusedPanel::Input,
            },
    {
        match self {
            FocusedPanel::ProtocolFlow => FocusedPanel::MessageInspector,
            FocusedPanel::MessageInspector => FocusedPanel::Capabilities,
            FocusedPanel::Capabilities => FocusedPanel::Input,
            FocusedPanel::Input => FocusedPanel::ProtocolFlow,
            FocusedPanel::EnvVariables => FocusedPanel::Input,
        }
    }
}

/// A reference into one of the three capability lists.
#[derive(Debug, Clone, Copy, PartialEq, Eq, Structural)]
pub enum CapabilityRef {
    Tool(usize),
    Resource(usize),
    Prompt(usize),
}

/// Which capability list is meant.
#[derive(Debug, Clone, Copy, PartialEq, Eq, Structural)]
pub enum CapabilityCategory {
    Tools,
    Resources,
    Prompts,
}

/// Whether the capability panel shows the categories or one list.
#[derive(Debug, Clone, Copy, PartialEq, Eq, Structural)]
pub enum CapabilityView {
    Categories,
    DetailedList(CapabilityCategory),
}

/// How a response is displayed.
#[derive(Debug, Clone, Copy, PartialEq, Eq, Structural)]
pub enum ResponseViewMode {
    Formatted,
    RawJson,
    TreeView,
    Summary,
}

/// What kind of exchange a history entry records.
#[derive(Debug, PartialEq)]
pub enum MessageType {
    Initialize,
    ListTools,
    ListResources,
    ListPrompts,
    CallTool,
    GetResource,
    GetPrompt,
    Other(String),
}

impl MessageType {
    /// The label shown for this entry.
    pub fn label(&self) -> (r: String)
        ensures
            match self {
                MessageType::Initialize => r@ == "Initialize"@,
                MessageType::ListTools => r@ == "List Tools"@,
                MessageType::ListResources => r@ == "List Resources"@,
                MessageType::ListPrompts => r@ == "List Prompts"@,
                MessageType::CallTool => r@ == "Call Tool"@,
                MessageType::GetResource => r@ == "Get Resource"@,
                MessageType::GetPrompt => r@ == "Get Prompt"@,
                MessageType::Other(s) => r@ == s@,
            },
    {
        match self {
            MessageType::Initialize => String::from_str("Initialize"),
            MessageType::ListTools => String::from_str("List Tools"),
            MessageType::ListResources => String::from_str("List Resources"),
            MessageType::ListPrompts => String::from_str("List Prompts"),
            MessageType::CallTool => String::from_str("Call Tool"),
            MessageType::GetResource => String::from_str("Get Resource"),
            MessageType::GetPrompt => String::from_str("Get Prompt"),
            MessageType::Other(s) => s.clone(),
        }
    }
}

/// One field of the parameter form: its current text, whether the schema
/// requires it, and what the schema says about it.
#[derive(Debug, PartialEq)]
pub struct ParamField {
    pub value: String,
    pub required: bool,
    pub description: Option<String>,
    pub param_type: Option<String>,
}

/// One tool as the debugger shows it.
#[derive(Debug, PartialEq)]
pub struct ToolInfo {
    pub name: String,
    pub full_name: String,
    pub description: Option<String>,
    pub parameters: Option<JsonValue>,
}

/// One resource as the debugger shows it.
#[derive(Debug, PartialEq)]
pub struct ResourceInfo {
    pub uri: String,
    pub name: Option<String>,
    pub description: Option<String>,
    pub mime_type: Option<String>,
}

/// One prompt as the debugger shows it.
#[derive(Debug, PartialEq)]
pub struct PromptInfo {
    pub name: String,
    pub description: Option<String>,
    pub arguments: Option<JsonValue>,
}

/// The object whose members become form fields: the schema's `properties`
/// member when it has one, else the schema itself when it is an object.
pub open spec fn form_properties(schema: JsonValue) -> Seq<(String, JsonValue)> {
    match get_field(schema, "properties"@) {
        Some(JsonValue::Obj(props)) => props@,
        _ => match schema {
            JsonValue::Obj(o) => o@,
            _ => Seq::empty(),
        },
    }
}

/// Whether the schema's `required` array names this member.
pub open spec fn is_required(schema: JsonValue, name: Seq<char>) -> bool {
    match get_field(schema, "required"@) {
        Some(JsonValue::Arr(req)) => exists|i: int|
            0 <= i < req@.len() && (#[trigger] req@[i] matches JsonValue::Str(s) && s@ == name),
        _ => false,
    }
}

/// The description a member's schema gives: its `description`, or failing
/// that its `title`.
pub open spec fn field_description(psch: JsonValue) -> Option<Seq<char>> {
    match get_field(psch, "description"@) {
        Some(JsonValue::Str(d)) => Some(d@),
        _ => match get_field(psch, "title"@) {
            Some(JsonValue::Str(t)) => Some(t@),
            _ => None,
        },
    }
}

/// The type a member's schema declares, or the one inferred from its shape:
/// an `enum`, an object with `properties`, an array with `items`, or a plain
/// string by default.
pub open spec fn field_type(psch: JsonValue) -> Seq<char> {
    match get_field(psch, "type"@) {
        Some(JsonValue::Str(t)) => t@,
        _ => {
            if get_field(psch, "enum"@) is Some {
                "enum"@
            } else if get_field(psch, "properties"@) is Some {
                "object"@
            } else if get_field(psch, "items"@) is Some {
                "array"@
            } else {
                "string"@
            }
        },
    }
}

/// Builds the parameter form a tool's input schema prescribes: one field per
/// schema member, in declaration order, each empty to begin with, marked
/// required when the schema lists it, and carrying the schema's description
/// and declared or inferred type.
pub fn build_parameter_form(schema: &JsonValue) -> (r: Vec<(String, ParamField)>)
    ensures
        r@.len() == form_properties(*schema).len(),
        forall|i: int| #![all_triggers]
            0 <= i < r@.len() ==> {
                &&& r@[i].0 == form_properties(*schema)[i].0
                &&& r@[i].1.value@.len() == 0
                &&& r@[i].1.required == is_required(*schema, form_properties(*schema)[i].0@)
                &&& (match r@[i].1.description {
                    Some(d) => field_description(form_properties(*schema)[i].1) == Some(d@),
                    None => field_description(form_properties(*schema)[i].1) is None,
                })
                &&& (match r@[i].1.param_type {
                    Some(t) => field_type(form_properties(*schema)[i].1) == t@,
                    None => false,
                })
            },
{
    let props: &Vec<(String, JsonValue)> = match crate::json::get(schema, "properties") {
        Some(JsonValue::Obj(props)) => props,
        _ => {
            match schema {
                JsonValue::Obj(o) => o,
                _ => {
                    let r: Vec<(String, ParamField)> = Vec::new();
                    proof {
                        assert(form_properties(*schema) =~= Seq::empty());
                    }
                    return r;
                },
            }
        },
    };
    let ghost gprops = form_properties(*schema);
    proof {
        assert(gprops == props@);
    }
    let mut r: Vec<(String, ParamField)> = Vec::new();
    let mut i: usize = 0;
    while i < props.len()
        invariant
            i <= props@.len(),
            gprops == props@,
            gprops == form_properties(*schema),
            r@.len() == i as int,
            forall|k: int| #![all_triggers]
                0 <= k < i as int ==> {
                    &&& r@[k].0 == gprops[k].0
                    &&& r@[k].1.value@.len() == 0
                    &&& r@[k].1.required == is_required(*schema, gprops[k].0@)
                    &&& (match r@[k].1.description {
                        Some(d) => field_description(gprops[k].1) == Some(d@),
                        None => field_description(gprops[k].1) is None,
                    })
                    &&& (match r@[k].1.param_type {
                        Some(t) => field_type(gprops[k].1) == t@,
                        None => false,
                    })
                },
        decreases props@.len() - i,
    {
        let name = props[i].0.clone();
        let psch = &props[i].1;
        let required = schema_requires(schema, name.as_str());
        let description = match crate::json::get(psch, "description") {
            Some(JsonValue::Str(d)) => Some(d.clone()),
            _ => {
                match crate::json::get(psch, "title") {
                    Some(JsonValue::Str(t)) => Some(t.clone()),
                    _ => None,
                }
            },
        };
        let param_type = match crate::json::get(psch, "type") {
            Some(JsonValue::Str(t)) => t.clone(),
            _ => {
                if crate::json::get(psch, "enum").is_some() {
                    String::from_str("enum")
                } else if crate::json::get(psch, "properties").is_some() {
                    String::from_str("object")
                } else if crate::json::get(psch, "items").is_some() {
                    String::from_str("array")
                } else {
                    String::from_str("string")
                }
            },
        };
        r.push((
            name,
            ParamField { value: String::new(), required, description, param_type: Some(param_type) },
        ));
        i = i + 1;
    }
    r
}

/// Whether the schema's `required` array names this member.
fn schema_requires(schema: &JsonValue, name: &str) -> (r: bool)
    ensures
        r == is_required(*schema, name@),
{
    match crate::json::get(schema, "required") {
        Some(JsonValue::Arr(req)) => {
            let mut i: usize = 0;
            while i < req.len()
                invariant
                    i <= req@.len(),
                    get_field(*schema, "required"@) == Some(JsonValue::Arr(*req)),
                    forall|k: int|
                        0 <= k < i as int ==> !(#[trigger] req@[k] matches JsonValue::Str(s) && s@
                            == name@),
                decreases req@.len() - i,
            {
                match &req[i] {
                    JsonValue::Str(s) => {
                        if crate::correlation::str_eq(s.as_str(), name) {
                            return true;
                        }
                    },
                    _ => {},
                }
                i = i + 1;
            }
            false
        },
        _ => false,
    }
}

} // verus!
