//! Typed MCP payloads: tools, resources, prompts and the peers' identity.
//!
//! Each payload has a decoder specified by a total spec function from a JSON
//! value; the tool-result encoder promises that decoding what it built gives
//! back exactly the value encoded.

use vstd::prelude::*;

verus! {

use crate::json::{JsonValue, obj_lookup};
use crate::messages::lemma_obj_lookup_unfold;

/// The name, version and open-ended metadata a peer declares about itself.
#[derive(Debug, PartialEq)]
pub struct Implementation {
    pub name: String,
    pub version: String,
    pub metadata: Vec<(String, JsonValue)>,
}

impl Implementation {
    /// A peer identity without extra metadata.
    pub fn new(name: &str, version: &str) -> (r: Implementation)
        ensures
            r.name@ == name@,
            r.version@ == version@,
            r.metadata@ =~= Seq::empty(),
    {
        Implementation {
            name: String::from_str(name),
            version: String::from_str(version),
            metadata: Vec::new(),
        }
    }
}

/// One tool a server offers.
#[derive(Debug, PartialEq)]
pub struct Tool {
    pub name: String,
    pub description: String,
    pub input_schema: Option<JsonValue>,
}

impl Tool {
    /// A tool without an input schema.
    pub fn new(name: &str, description: &str) -> (r: Tool)
        ensures
            r.name@ == name@,
            r.description@ == description@,
            r.input_schema is None,
    {
        Tool {
            name: String::from_str(name),
            description: String::from_str(description),
            input_schema: None,
        }
    }

    /// The same tool with the given input schema.
    pub fn with_input_schema(self, schema: JsonValue) -> (r: Tool)
        ensures
            r == (Tool { input_schema: Some(schema), ..self }),
    {
        Tool { input_schema: Some(schema), ..self }
    }
}

/// A request to list the server's tools.
#[derive(Debug, PartialEq)]
pub struct ListToolsRequest {
    pub cursor: Option<String>,
}

/// The tools a server listed.
#[derive(Debug, PartialEq)]
pub struct ListToolsResponse {
    pub tools: Vec<Tool>,
    pub next_cursor: Option<String>,
}

/// A request to invoke one tool.
#[derive(Debug, PartialEq)]
pub struct CallToolRequest {
    pub name: String,
    pub arguments: Option<JsonValue>,
}

/// What a tool invocation produced.
#[derive(Debug, PartialEq)]
pub struct CallToolResponse {
    pub content: Vec<ToolResult>,
    pub is_error: Option<bool>,
}

/// One piece of tool output.
#[derive(Debug, PartialEq)]
pub enum ToolResult {
    Text { text: String },
    Image { data: String, mime_type: String },
    Resource { resource: ResourceReference },
}

/// A resource mentioned by a tool result.
#[derive(Debug, PartialEq)]
pub struct ResourceReference {
    pub uri: String,
    pub text: Option<String>,
}

/// One resource a server offers.
#[derive(Debug, PartialEq)]
pub struct Resource {
    pub uri: String,
    pub name: String,
    pub description: Option<String>,
    pub mime_type: Option<String>,
}

/// One prompt a server offers.
#[derive(Debug, PartialEq)]
pub struct Prompt {
    pub name: String,
    pub description: String,
    pub arguments: Option<JsonValue>,
}

/// Notice that the server's tool list changed, with open-ended metadata.
#[derive(Debug, PartialEq)]
pub struct ToolListChangedNotification {
    pub metadata: Vec<(String, JsonValue)>,
}

impl ToolListChangedNotification {
    /// A notice without metadata.
    pub fn new() -> (r: ToolListChangedNotification)
        ensures
            r.metadata@ =~= Seq::empty(),
    {
        ToolListChangedNotification { metadata: Vec::new() }
    }

    /// The same notice with one more metadata member appended.
    pub fn with_metadata(self, key: &str, value: JsonValue) -> (r: ToolListChangedNotification)
        ensures
            r.metadata@.len() == self.metadata@.len() + 1,
            r.metadata@.drop_last() == self.metadata@,
            r.metadata@.last().0@ == key@,
            r.metadata@.last().1 == value,
    {
        let mut metadata = self.metadata;
        metadata.push((String::from_str(key), value));
        proof {
            assert(metadata@.drop_last() =~= self.metadata@);
        }
        ToolListChangedNotification { metadata }
    }
}

/// The payload member names of the tool messages are pairwise distinct.
pub proof fn lemma_tool_keys_distinct()
    ensures
        "type"@.len() == 4 && "text"@.len() == 4 && "data"@.len() == 4,
        "mimeType"@.len() == 8 && "resource"@.len() == 8,
        "uri"@.len() == 3,
        "type"@ != "text"@ && "type"@ != "data"@ && "type"@ != "mimeType"@,
        "type"@ != "resource"@ && "type"@ != "uri"@,
        "text"@ != "data"@ && "text"@ != "mimeType"@ && "text"@ != "resource"@,
        "text"@ != "uri"@,
        "data"@ != "mimeType"@ && "data"@ != "resource"@ && "data"@ != "uri"@,
        "mimeType"@ != "resource"@ && "mimeType"@ != "uri"@,
        "resource"@ != "uri"@,
        "text"@ == text_tag(),
        "image"@ == image_tag(),
        "resource"@ == resource_tag(),
        text_tag() != image_tag() && text_tag() != resource_tag() && image_tag()
            != resource_tag(),
{
    reveal_strlit("type");
    reveal_strlit("text");
    reveal_strlit("data");
    reveal_strlit("mimeType");
    reveal_strlit("resource");
    reveal_strlit("uri");
    reveal_strlit("image");
    assert("type"@[0] == 't' && "type"@[1] == 'y');
    assert("text"@[0] == 't' && "text"@[1] == 'e');
    assert("data"@[0] == 'd');
    assert("type"@ != "text"@ && "type"@ != "data"@ && "text"@ != "data"@);
    assert("mimeType"@[0] == 'm' && "resource"@[0] == 'r');
    assert("mimeType"@ != "resource"@);
    assert("image"@.len() == 5);
}

/// The wire tag of a text result.
pub open spec fn text_tag() -> Seq<char> {
    "text"@
}

/// The wire tag of an image result.
pub open spec fn image_tag() -> Seq<char> {
    "image"@
}

/// The wire tag of a resource result.
pub open spec fn resource_tag() -> Seq<char> {
    "resource"@
}

/// The resource reference a JSON value stands for, if any.
pub open spec fn resource_ref_of_json(v: JsonValue) -> Option<ResourceReference> {
    match v {
        JsonValue::Obj(o) => {
            match obj_lookup(o@, "uri"@) {
                Some(JsonValue::Str(uri)) => Some(ResourceReference {
                    uri,
                    text: match obj_lookup(o@, "text"@) {
                        Some(JsonValue::Str(t)) => Some(t),
                        _ => None,
                    },
                }),
                _ => None,
            }
        },
        _ => None,
    }
}

/// The tool result a JSON value stands for, if any: a tagged union over the
/// `type` member.
pub open spec fn tool_result_of_json(v: JsonValue) -> Option<ToolResult> {
    match v {
        JsonValue::Obj(o) => {
            match obj_lookup(o@, "type"@) {
                Some(JsonValue::Str(tag)) => {
                    if tag@ == text_tag() {
                        match obj_lookup(o@, "text"@) {
                            Some(JsonValue::Str(text)) => Some(ToolResult::Text { text }),
                            _ => None,
                        }
                    } else if tag@ == image_tag() {
                        match (obj_lookup(o@, "data"@), obj_lookup(o@, "mimeType"@)) {
                            (
                                Some(JsonValue::Str(data)),
                                Some(JsonValue::Str(mime_type)),
                            ) => Some(ToolResult::Image { data, mime_type }),
                            _ => None,
                        }
                    } else if tag@ == resource_tag() {
                        match obj_lookup(o@, "resource"@) {
                            Some(rv) => match resource_ref_of_json(rv) {
                                Some(resource) => Some(ToolResult::Resource { resource }),
                                None => None,
                            },
                            None => None,
                        }
                    } else {
                        None
                    }
                },
                _ => None,
            }
        },
        _ => None,
    }
}

/// Encodes one tool result as its tagged JSON object. Decoding the result
/// gives back exactly the value encoded, up to the views of its strings.
pub fn encode_tool_result(t: ToolResult) -> (r: JsonValue)
    ensures
        tool_result_of_json(r) matches Some(t2) && tool_result_eqv(t2, t),
{
    proof {
        lemma_tool_keys_distinct();
    }
    match t {
        ToolResult::Text { text } => {
            let ghost gtext = text;
            let mut o: Vec<(String, JsonValue)> = Vec::new();
            o.push((String::from_str("type"), JsonValue::Str(String::from_str("text"))));
            o.push((String::from_str("text"), JsonValue::Str(text)));
            proof {
                lemma_obj_lookup_unfold(o@);
                lemma_obj_lookup_unfold(o@.drop_first());
                lemma_obj_lookup_unfold(o@.drop_first().drop_first());
            }
            JsonValue::Obj(o)
        },
        ToolResult::Image { data, mime_type } => {
            let mut o: Vec<(String, JsonValue)> = Vec::new();
            o.push((String::from_str("type"), JsonValue::Str(String::from_str("image"))));
            o.push((String::from_str("data"), JsonValue::Str(data)));
            o.push((String::from_str("mimeType"), JsonValue::Str(mime_type)));
            proof {
                lemma_obj_lookup_unfold(o@);
                lemma_obj_lookup_unfold(o@.drop_first());
                lemma_obj_lookup_unfold(o@.drop_first().drop_first());
                lemma_obj_lookup_unfold(o@.drop_first().drop_first().drop_first());
            }
            JsonValue::Obj(o)
        },
        ToolResult::Resource { resource } => {
            let ghost gres = resource;
            let mut ro: Vec<(String, JsonValue)> = Vec::new();
            ro.push((String::from_str("uri"), JsonValue::Str(resource.uri)));
            match resource.text {
                Some(txt) => {
                    ro.push((String::from_str("text"), JsonValue::Str(txt)));
                },
                None => {},
            }
            proof {
                lemma_obj_lookup_unfold(ro@);
                lemma_obj_lookup_unfold(ro@.drop_first());
                lemma_obj_lookup_unfold(ro@.drop_first().drop_first());
            }
            let mut o: Vec<(String, JsonValue)> = Vec::new();
            o.push((String::from_str("type"), JsonValue::Str(String::from_str("resource"))));
            o.push((String::from_str("resource"), JsonValue::Obj(ro)));
            proof {
                lemma_obj_lookup_unfold(o@);
                lemma_obj_lookup_unfold(o@.drop_first());
                lemma_obj_lookup_unfold(o@.drop_first().drop_first());
            }
            JsonValue::Obj(o)
        },
    }
}

/// Two tool results agree up to the views of their strings.
pub open spec fn tool_result_eqv(a: ToolResult, b: ToolResult) -> bool {
    match (a, b) {
        (ToolResult::Text { text: ta }, ToolResult::Text { text: tb }) => ta@ == tb@,
        (
            ToolResult::Image { data: da, mime_type: ma },
            ToolResult::Image { data: db, mime_type: mb },
        ) => da@ == db@ && ma@ == mb@,
        (
            ToolResult::Resource { resource: ra },
            ToolResult::Resource { resource: rb },
        ) => ra.uri@ == rb.uri@ && (match (ra.text, rb.text) {
            (Some(xa), Some(xb)) => xa@ == xb@,
            (None, None) => true,
            _ => false,
        }),
        _ => false,
    }
}

/// Decodes one tool result, returning exactly what `tool_result_of_json`
/// prescribes.
pub fn decode_tool_result(v: &JsonValue) -> (r: Option<ToolResult>)
    ensures
        r == tool_result_of_json(*v),
{
    proof {
        lemma_tool_keys_distinct();
    }
    let o = match v {
        JsonValue::Obj(fields) => fields,
        _ => {
            return None;
        },
    };
    let tag = match crate::json::obj_get(o, "type") {
        Some(JsonValue::Str(tag)) => tag.clone(),
        _ => {
            return None;
        },
    };
    if crate::correlation::str_eq(tag.as_str(), "text") {
        match crate::json::obj_get(o, "text") {
            Some(JsonValue::Str(text)) => Some(ToolResult::Text { text: text.clone() }),
            _ => None,
        }
    } else if crate::correlation::str_eq(tag.as_str(), "image") {
        match (crate::json::obj_get(o, "data"), crate::json::obj_get(o, "mimeType")) {
            (Some(JsonValue::Str(data)), Some(JsonValue::Str(mime_type))) => Some(
                ToolResult::Image { data: data.clone(), mime_type: mime_type.clone() },
            ),
            _ => None,
        }
    } else if crate::correlation::str_eq(tag.as_str(), "resource") {
        let rv = match crate::json::obj_get(o, "resource") {
            Some(rv) => rv,
            None => {
                return None;
            },
        };
        let ro = match rv {
            JsonValue::Obj(ro) => ro,
            _ => {
                return None;
            },
        };
        let uri = match crate::json::obj_get(ro, "uri") {
            Some(JsonValue::Str(uri)) => uri.clone(),
            _ => {
                return None;
            },
        };
        let text = match crate::json::obj_get(ro, "text") {
            Some(JsonValue::Str(t)) => Some(t.clone()),
            _ => None,
        };
        Some(ToolResult::Resource { resource: ResourceReference { uri, text } })
    } else {
        None
    }
}

/// The tool results a JSON array stands for: every element must decode.
pub open spec fn tool_results_of_json(s: Seq<JsonValue>) -> Option<Seq<ToolResult>>
    decreases s.len(),
{
    if s.len() == 0 {
        Some(Seq::empty())
    } else {
        match (tool_results_of_json(s.drop_last()), tool_result_of_json(s.last())) {
            (Some(acc), Some(t)) => Some(acc.push(t)),
            _ => None,
        }
    }
}

/// A prefix that fails to decode makes the whole array fail.
proof fn lemma_tool_results_none_extends(s: Seq<JsonValue>, j: int)
    requires
        0 <= j <= s.len(),
        tool_results_of_json(s.subrange(0, j)) is None,
    ensures
        tool_results_of_json(s) is None,
    decreases s.len() - j,
{
    if j < s.len() {
        let cur = s.subrange(0, j + 1);
        assert(cur.drop_last() =~= s.subrange(0, j));
        lemma_tool_results_none_extends(s, j + 1);
    } else {
        assert(s.subrange(0, j) =~= s);
    }
}

/// The content sequence a tool-call payload stands for: `content` defaults
/// to empty when absent, and every listed element must decode.
pub open spec fn call_tool_content_of_json(v: JsonValue) -> Option<Seq<ToolResult>> {
    match v {
        JsonValue::Obj(o) => match obj_lookup(o@, "content"@) {
            None => Some(Seq::<ToolResult>::empty()),
            Some(JsonValue::Arr(a)) => tool_results_of_json(a@),
            Some(_) => None,
        },
        _ => None,
    }
}

/// The error flag a tool-call payload stands for: absent, or a boolean.
pub open spec fn call_tool_is_error_of_json(v: JsonValue) -> Option<Option<bool>> {
    match v {
        JsonValue::Obj(o) => match obj_lookup(o@, "is_error"@) {
            None => Some(None::<bool>),
            Some(JsonValue::Bool(b)) => Some(Some(b)),
            Some(_) => None,
        },
        _ => None,
    }
}

/// Decodes a tool-call payload: the content sequence and error flag are
/// exactly what the payload stands for; `None` exactly when either member is
/// malformed.
pub fn decode_call_tool_response(v: &JsonValue) -> (r: Option<CallToolResponse>)
    ensures
        match r {
            Some(c) => call_tool_content_of_json(*v) == Some(c.content@)
                && call_tool_is_error_of_json(*v) == Some(c.is_error),
            None => call_tool_content_of_json(*v) is None || call_tool_is_error_of_json(*v)
                is None,
        },
{
    proof {
        reveal_strlit("content");
        reveal_strlit("is_error");
        assert("content"@.len() == 7 && "is_error"@.len() == 8);
    }
    let o = match v {
        JsonValue::Obj(fields) => fields,
        _ => {
            return None;
        },
    };
    let mut content: Vec<ToolResult> = Vec::new();
    match crate::json::obj_get(o, "content") {
        None => {},
        Some(JsonValue::Arr(a)) => {
            let mut i: usize = 0;
            while i < a.len()
                invariant
                    i <= a@.len(),
                    *v matches JsonValue::Obj(_),
                    obj_lookup(v->Obj_0@, "content"@) == Some(JsonValue::Arr(*a)),
                    tool_results_of_json(a@.subrange(0, i as int)) == Some(content@),
                decreases a@.len() - i,
            {
                let ghost pre = a@.subrange(0, i as int);
                match decode_tool_result(&a[i]) {
                    Some(t) => {
                        proof {
                            let cur = a@.subrange(0, i + 1int);
                            assert(cur.drop_last() =~= pre);
                            assert(cur.last() == a@[i as int]);
                        }
                        content.push(t);
                        i = i + 1;
                    },
                    None => {
                        proof {
                            let cur = a@.subrange(0, i + 1int);
                            assert(cur.drop_last() =~= pre);
                            assert(cur.last() == a@[i as int]);
                            lemma_tool_results_none_extends(a@, i + 1int);
                        }
                        return None;
                    },
                }
            }
            proof {
                assert(a@.subrange(0, a@.len() as int) =~= a@);
            }
        },
        Some(_) => {
            return None;
        },
    }
    let is_error = match crate::json::obj_get(o, "is_error") {
        None => None,
        Some(JsonValue::Bool(b)) => Some(*b),
        Some(_) => {
            return None;
        },
    };
    Some(CallToolResponse { content, is_error })
}


/// The tool a JSON value stands for, if any: a `name` and `description`
/// string, and whatever `input_schema` carries.
pub open spec fn tool_of_json(v: JsonValue) -> Option<Tool> {
    match v {
        JsonValue::Obj(o) => {
            match (obj_lookup(o@, "name"@), obj_lookup(o@, "description"@)) {
                (Some(JsonValue::Str(name)), Some(JsonValue::Str(description))) => Some(Tool {
                    name,
                    description,
                    input_schema: obj_lookup(o@, "input_schema"@),
                }),
                _ => None,
            }
        },
        _ => None,
    }
}

/// Two tools agree up to the views of their strings and the structure of
/// their schemas.
pub open spec fn tool_eqv(a: Tool, b: Tool) -> bool {
    &&& a.name@ == b.name@
    &&& a.description@ == b.description@
    &&& match (a.input_schema, b.input_schema) {
        (Some(x), Some(y)) => crate::json::veq(x, y),
        (None, None) => true,
        _ => false,
    }
}

/// Decodes one tool; the copy agrees with what the value stands for.
pub fn decode_tool(v: &JsonValue) -> (r: Option<Tool>)
    ensures
        match r {
            Some(t) => tool_of_json(*v) matches Some(t2) && tool_eqv(t, t2),
            None => tool_of_json(*v) is None,
        },
{
    proof {
        reveal_strlit("name");
        reveal_strlit("description");
        reveal_strlit("input_schema");
        assert("name"@.len() == 4 && "description"@.len() == 11 && "input_schema"@.len() == 12);
    }
    let o = match v {
        JsonValue::Obj(fields) => fields,
        _ => {
            return None;
        },
    };
    let name = match crate::json::obj_get(o, "name") {
        Some(JsonValue::Str(name)) => name.clone(),
        _ => {
            return None;
        },
    };
    let description = match crate::json::obj_get(o, "description") {
        Some(JsonValue::Str(description)) => description.clone(),
        _ => {
            return None;
        },
    };
    let input_schema = match crate::json::obj_get(o, "input_schema") {
        Some(schema) => Some(crate::json::clone_value(schema)),
        None => None,
    };
    Some(Tool { name, description, input_schema })
}

/// The tools a JSON array stands for: every element must decode.
pub open spec fn tools_of_json(s: Seq<JsonValue>) -> Option<Seq<Tool>>
    decreases s.len(),
{
    if s.len() == 0 {
        Some(Seq::empty())
    } else {
        match (tools_of_json(s.drop_last()), tool_of_json(s.last())) {
            (Some(acc), Some(t)) => Some(acc.push(t)),
            _ => None,
        }
    }
}

/// A prefix that fails to decode makes the whole array fail.
proof fn lemma_tools_none_extends(s: Seq<JsonValue>, j: int)
    requires
        0 <= j <= s.len(),
        tools_of_json(s.subrange(0, j)) is None,
    ensures
        tools_of_json(s) is None,
    decreases s.len() - j,
{
    if j < s.len() {
        let cur = s.subrange(0, j + 1);
        assert(cur.drop_last() =~= s.subrange(0, j));
        lemma_tools_none_extends(s, j + 1);
    } else {
        assert(s.subrange(0, j) =~= s);
    }
}

/// The tool list a listing payload stands for, if any: its `tools` array.
pub open spec fn list_tools_of_json(v: JsonValue) -> Option<Seq<Tool>> {
    match v {
        JsonValue::Obj(o) => match obj_lookup(o@, "tools"@) {
            Some(JsonValue::Arr(a)) => tools_of_json(a@),
            _ => None,
        },
        _ => None,
    }
}

/// Decodes a `tools/list` payload: every listed tool, in order, each
/// agreeing with what the payload stands for, plus the next-page cursor.
pub fn decode_list_tools_response(v: &JsonValue) -> (r: Option<ListToolsResponse>)
    ensures
        match r {
            Some(resp) => list_tools_of_json(*v) matches Some(ts) && resp.tools@.len()
                == ts.len() && (forall|i: int|
                0 <= i < ts.len() ==> tool_eqv(#[trigger] resp.tools@[i], ts[i])),
            None => list_tools_of_json(*v) is None,
        },
{
    proof {
        reveal_strlit("tools");
        reveal_strlit("next_cursor");
        assert("tools"@.len() == 5 && "next_cursor"@.len() == 11);
    }
    let o = match v {
        JsonValue::Obj(fields) => fields,
        _ => {
            return None;
        },
    };
    let a = match crate::json::obj_get(o, "tools") {
        Some(JsonValue::Arr(a)) => a,
        _ => {
            return None;
        },
    };
    let mut tools: Vec<Tool> = Vec::new();
    let mut i: usize = 0;
    while i < a.len()
        invariant
            i <= a@.len(),
            *v matches JsonValue::Obj(_),
            obj_lookup(v->Obj_0@, "tools"@) == Some(JsonValue::Arr(*a)),
            tools@.len() == i as int,
            tools_of_json(a@.subrange(0, i as int)) matches Some(ts) && ts.len() == i as int
                && (forall|k: int| 0 <= k < i as int ==> tool_eqv(#[trigger] tools@[k], ts[k])),
        decreases a@.len() - i,
    {
        let ghost pre = a@.subrange(0, i as int);
        match decode_tool(&a[i]) {
            Some(t) => {
                proof {
                    let cur = a@.subrange(0, i + 1int);
                    assert(cur.drop_last() =~= pre);
                    assert(cur.last() == a@[i as int]);
                }
                tools.push(t);
                i = i + 1;
            },
            None => {
                proof {
                    let cur = a@.subrange(0, i + 1int);
                    assert(cur.drop_last() =~= pre);
                    assert(cur.last() == a@[i as int]);
                    lemma_tools_none_extends(a@, i + 1int);
                }
                return None;
            },
        }
    }
    proof {
        assert(a@.subrange(0, a@.len() as int) =~= a@);
    }
    let next_cursor = match crate::json::obj_get(o, "next_cursor") {
        Some(JsonValue::Str(c)) => Some(c.clone()),
        _ => None,
    };
    Some(ListToolsResponse { tools, next_cursor })
}

} // verus!
