//! Schema Registry requests and client-side JSON validation.
//!
//! Path segments taken from user input are percent-encoded as
//! `encodeURIComponent` does.
use vstd::prelude::*;
use vstd::string::*;

use crate::http::{delete_view, encode, get_view, join_url, post_view, uri_component, Endpoint, EndpointView, HttpRequest};
use crate::json::{field, get_field, get_member, json_error_text, json_object, member, object_text, pairs_view, parse_json, parsed_json, JsonValue};
use crate::protocol::{pair, string_member, string_pair};
use crate::text::{decimal, push_decimal, str_eq, trim_trailing_slashes};

verus! {

/// Schema formats supported by the Schema Registry.
#[derive(Debug, Clone, Copy, PartialEq, Eq, Structural)]
pub enum SchemaFormat {
    Avro,
    Protobuf,
    Json,
}

/// The name of a schema format in registry requests.
pub open spec fn format_name(f: SchemaFormat) -> Seq<char> {
    match f {
        SchemaFormat::Avro => "AVRO"@,
        SchemaFormat::Protobuf => "PROTOBUF"@,
        SchemaFormat::Json => "JSON"@,
    }
}

impl SchemaFormat {
    /// The name of this format in registry requests.
    pub fn as_str(&self) -> (s: &'static str)
        ensures
            s@ == format_name(*self),
    {
        match self {
            SchemaFormat::Avro => "AVRO",
            SchemaFormat::Protobuf => "PROTOBUF",
            SchemaFormat::Json => "JSON",
        }
    }
}

/// Every string listed in `required` names a member of the object.
pub open spec fn required_present(required: Seq<JsonValue>, members: Seq<(String, JsonValue)>) -> bool {
    forall|i: int| 0 <= i < required.len() ==> match #[trigger] required[i] {
        JsonValue::String(f) => member(members, f@) is Some,
        _ => true,
    }
}

/// Whether `value` conforms to `schema` under the basic checks: a string
/// `type` in the schema fixes the kind of the value (`number` and `integer`
/// both accept any number), and an object schema's `required` list names
/// members the value must have. Anything else in the schema is not checked:
/// the server validates the complete specification.
pub open spec fn schema_accepts(schema: JsonValue, value: JsonValue) -> bool {
    match field(schema, "type"@) {
        Some(JsonValue::String(t)) => if t@ == "object"@ {
            match value {
                JsonValue::Object(members) => match field(schema, "required"@) {
                    Some(JsonValue::Array(required)) => required_present(required@, members@),
                    _ => true,
                },
                _ => false,
            }
        } else if t@ == "array"@ {
            match value {
            JsonValue::Array(_) => true,
            _ => false,
        }
        } else if t@ == "string"@ {
            match value {
            JsonValue::String(_) => true,
            _ => false,
        }
        } else if t@ == "number"@ || t@ == "integer"@ {
            match value {
            JsonValue::Number => true,
            _ => false,
        }
        } else if t@ == "boolean"@ {
            match value {
            JsonValue::Bool(_) => true,
            _ => false,
        }
        } else if t@ == "null"@ {
            match value {
            JsonValue::Null => true,
            _ => false,
        }
        } else {
            true
        },
        _ => true,
    }
}

/// The schema's `type` member is the string `name`.
pub open spec fn type_is(schema: JsonValue, name: Seq<char>) -> bool {
    field(schema, "type"@) matches Some(JsonValue::String(t)) && t@ == name
}

/// The schema's `type` decides the kind of the accepted values: a `boolean`
/// schema accepts every boolean, `true` and `false` alike, and nothing else;
/// `null`, `string` and `array` schemas accept exactly the values of their
/// kind; `number` and `integer` schemas accept exactly the numbers; an
/// `object` schema accepts only objects, and every object when it lists no
/// required members. A schema without a string `type`, or whose `type`
/// names no kind, accepts every value.
pub proof fn lemma_type_decides_kind(schema: JsonValue, value: JsonValue)
    ensures
        type_is(schema, "boolean"@) ==> (schema_accepts(schema, value) <==> value is Bool),
        type_is(schema, "null"@) ==> (schema_accepts(schema, value) <==> value is Null),
        type_is(schema, "string"@) ==> (schema_accepts(schema, value) <==> value is String),
        type_is(schema, "array"@) ==> (schema_accepts(schema, value) <==> value is Array),
        type_is(schema, "number"@) || type_is(schema, "integer"@) ==> (schema_accepts(schema, value)
            <==> value is Number),
        type_is(schema, "object"@) ==> (schema_accepts(schema, value) ==> value is Object),
        type_is(schema, "object"@) && !(field(schema, "required"@) matches Some(JsonValue::Array(_)))
            ==> (schema_accepts(schema, value) <==> value is Object),
        !(field(schema, "type"@) matches Some(JsonValue::String(_))) ==> schema_accepts(schema, value),
        (field(schema, "type"@) matches Some(JsonValue::String(t)) && t@ != "object"@ && t@ != "array"@
            && t@ != "string"@ && t@ != "number"@ && t@ != "integer"@ && t@ != "boolean"@ && t@
            != "null"@) ==> schema_accepts(schema, value),
{
    reveal_strlit("object");
    reveal_strlit("array");
    reveal_strlit("string");
    reveal_strlit("number");
    reveal_strlit("integer");
    reveal_strlit("boolean");
    reveal_strlit("null");
    let names = seq!["object"@, "array"@, "string"@, "number"@, "integer"@, "boolean"@, "null"@];
    assert forall|i: int, j: int| 0 <= i < j < 7 implies #[trigger] names[i] != #[trigger] names[j] by {
        assert(names[i][0] != names[j][0] || names[i].len() != names[j].len() || names[i][1] != names[j][1]);
    }
    assert("boolean"@ != "object"@ && "boolean"@ != "array"@ && "boolean"@ != "string"@ && "boolean"@
        != "number"@ && "boolean"@ != "integer"@) by {
        assert(names[5] != names[0] && names[5] != names[1] && names[5] != names[2] && names[5] != names[3]
            && names[5] != names[4]);
    }
    assert("null"@ != "object"@ && "null"@ != "array"@ && "null"@ != "string"@ && "null"@ != "number"@
        && "null"@ != "integer"@ && "null"@ != "boolean"@) by {
        assert(names[6] != names[0] && names[6] != names[1] && names[6] != names[2] && names[6] != names[3]
            && names[6] != names[4] && names[6] != names[5]);
    }
}

/// An object schema with a `required` list accepts an object exactly when
/// every string in the list names a member of the object: one missing
/// member is enough to reject it.
pub proof fn lemma_required_members(schema: JsonValue, members: Vec<(String, JsonValue)>, required: Vec<JsonValue>)
    requires
        type_is(schema, "object"@),
        field(schema, "required"@) == Some(JsonValue::Array(required)),
    ensures
        schema_accepts(schema, JsonValue::Object(members)) <==> (forall|i: int|
            0 <= i < required@.len() ==> (#[trigger] required@[i] matches JsonValue::String(f) ==> member(
                members@,
                f@,
            ) is Some)),
{
    reveal_strlit("object");
    if schema_accepts(schema, JsonValue::Object(members)) {
        assert forall|i: int| 0 <= i < required@.len() implies (#[trigger] required@[i] matches JsonValue::String(f)
            ==> member(members@, f@) is Some) by {
            assert(required_present(required@, members@));
        }
    }
}

/// Check `value` against `schema` with the basic checks of `schema_accepts`.
pub fn basic_json_validate(schema: &JsonValue, value: &JsonValue) -> (ok: bool)
    ensures
        ok == schema_accepts(*schema, *value),
{
    let t = match get_field(schema, "type") {
        Some(JsonValue::String(t)) => t,
        _ => return true,
    };
    if str_eq(t.as_str(), "object") {
        let members = match value {
            JsonValue::Object(m) => m,
            _ => return false,
        };
        let required = match get_field(schema, "required") {
            Some(JsonValue::Array(r)) => r,
            _ => return true,
        };
        let mut i: usize = 0;
        while i < required.len()
            invariant
                i <= required@.len(),
                field(*schema, "type"@) == Some(JsonValue::String(*t)),
                t@ == "object"@,
                *value == JsonValue::Object(*members),
                field(*schema, "required"@) == Some(JsonValue::Array(*required)),
                forall|j: int| 0 <= j < i ==> match #[trigger] required@[j] {
                    JsonValue::String(f) => member(members@, f@) is Some,
                    _ => true,
                },
            decreases required@.len() - i,
        {
            match &required[i] {
                JsonValue::String(f) => {
                    if get_member(members, f.as_str()).is_none() {
                        assert(!required_present(required@, members@)) by {
                            assert(match required@[i as int] {
                                JsonValue::String(g) => member(members@, g@) is None,
                                _ => false,
                            });
                        }
                        return false;
                    }
                },
                _ => {},
            }
            i = i + 1;
        }
        true
    } else if str_eq(t.as_str(), "array") {
        match value {
            JsonValue::Array(_) => true,
            _ => false,
        }
    } else if str_eq(t.as_str(), "string") {
        match value {
            JsonValue::String(_) => true,
            _ => false,
        }
    } else if str_eq(t.as_str(), "number") || str_eq(t.as_str(), "integer") {
        match value {
            JsonValue::Number => true,
            _ => false,
        }
    } else if str_eq(t.as_str(), "boolean") {
        match value {
            JsonValue::Bool(_) => true,
            _ => false,
        }
    } else if str_eq(t.as_str(), "null") {
        match value {
            JsonValue::Null => true,
            _ => false,
        }
    } else {
        true
    }
}

/// `m` begins with `prefix`.
pub open spec fn starts_with(m: Seq<char>, prefix: Seq<char>) -> bool {
    prefix.len() <= m.len() && m.subrange(0, prefix.len() as int) == prefix
}

fn prefixed(prefix: &str, e: &serde_json::Error) -> (m: String)
    ensures
        starts_with(m@, prefix@),
{
    let mut m = String::from_str(prefix);
    let text = json_error_text(e);
    m.append(text.as_str());
    assert(m@.subrange(0, prefix@.len() as int) =~= prefix@);
    m
}

/// The body of a registration or compatibility check.
pub open spec fn schema_members(schema: Seq<char>, format: SchemaFormat) -> Seq<(Seq<char>, Seq<char>)> {
    seq![string_member("schema"@, schema), ("schemaType"@, seq!['"'] + format_name(format) + seq!['"'])]
}

/// HTTP client of the Schema Registry.
pub struct SchemaRegistryClient {
    endpoint: Endpoint,
}

impl View for SchemaRegistryClient {
    type V = EndpointView;

    closed spec fn view(&self) -> EndpointView {
        self.endpoint@
    }
}

impl SchemaRegistryClient {
    /// A client for the registry API at `base_url` (trailing slashes
    /// dropped), with no token.
    pub fn new(base_url: &str) -> (c: Self)
        ensures
            c@ == (EndpointView { base_url: trim_trailing_slashes(base_url@), auth_token: None }),
    {
        SchemaRegistryClient { endpoint: Endpoint::new(base_url) }
    }

    /// Set the bearer token sent with every request.
    pub fn set_auth_token(&mut self, token: &str)
        ensures
            final(self)@ == (EndpointView { auth_token: Some(token@), ..old(self)@ }),
    {
        self.endpoint.set_auth_token(token);
    }

    /// The base URL.
    pub fn base_url(&self) -> (b: &str)
        ensures
            b@ == self@.base_url,
    {
        self.endpoint.base_url()
    }

    /// The token, if set.
    pub fn auth_token(&self) -> (t: &Option<String>)
        ensures
            crate::protocol::opt_view(*t) == self@.auth_token,
    {
        self.endpoint.auth_token()
    }

    fn schema_body(schema: &str, format: SchemaFormat) -> (b: String)
        ensures
            b@ == object_text(schema_members(schema@, format)),
    {
        let mut ms: Vec<(String, String)> = Vec::new();
        ms.push(string_pair("schema", schema));
        proof {
            reveal_strlit("\"");
        }
        let mut quoted_format = String::from_str("\"");
        quoted_format.append(format.as_str());
        quoted_format.append("\"");
        assert(quoted_format@ =~= seq!['"'] + format_name(format) + seq!['"']);
        ms.push(pair("schemaType", quoted_format));
        assert(pairs_view(ms@) =~= schema_members(schema@, format));
        json_object(&ms)
    }

    /// `POST /subjects/{subject}/versions` registering `schema`.
    pub fn register_schema_request(&self, subject: &str, schema: &str, format: SchemaFormat) -> (r: HttpRequest)
        ensures
            r@ == post_view(
                self@.base_url + ("/subjects/"@ + uri_component(subject@) + "/versions"@),
                object_text(schema_members(schema@, format)),
                self@.auth_token,
            ),
    {
        let body = Self::schema_body(schema, format);
        let path = crate::http::join_url3("/subjects/", encode(subject).as_str(), "/versions", "");
        proof {
            reveal_strlit("");
        }
        assert(path@ =~= "/subjects/"@ + uri_component(subject@) + "/versions"@);
        self.endpoint.post(path.as_str(), body)
    }

    /// `GET /subjects/{subject}/versions/latest`.
    pub fn get_latest_schema_request(&self, subject: &str) -> (r: HttpRequest)
        ensures
            r@ == get_view(self@.base_url + ("/subjects/"@ + uri_component(subject@) + "/versions/latest"@), self@.auth_token),
    {
        let path = crate::http::join_url3("/subjects/", encode(subject).as_str(), "/versions/latest", "");
        proof {
            reveal_strlit("");
        }
        assert(path@ =~= "/subjects/"@ + uri_component(subject@) + "/versions/latest"@);
        self.endpoint.get(path.as_str())
    }

    /// `GET /subjects/{subject}/versions/{version}`.
    pub fn get_schema_version_request(&self, subject: &str, version: u32) -> (r: HttpRequest)
        ensures
            r@ == get_view(
                self@.base_url + ("/subjects/"@ + uri_component(subject@) + "/versions/"@ + decimal(version as nat)),
                self@.auth_token,
            ),
    {
        let mut path = crate::http::join_url3("/subjects/", encode(subject).as_str(), "/versions/", "");
        proof {
            reveal_strlit("");
        }
        push_decimal(&mut path, version as u64);
        assert(path@ =~= "/subjects/"@ + uri_component(subject@) + "/versions/"@ + decimal(version as nat));
        self.endpoint.get(path.as_str())
    }

    /// `GET /schemas/ids/{id}`.
    pub fn get_schema_by_id_request(&self, id: u32) -> (r: HttpRequest)
        ensures
            r@ == get_view(self@.base_url + ("/schemas/ids/"@ + decimal(id as nat)), self@.auth_token),
    {
        let mut path = String::from_str("/schemas/ids/");
        push_decimal(&mut path, id as u64);
        self.endpoint.get(path.as_str())
    }

    /// `GET /subjects`.
    pub fn list_subjects_request(&self) -> (r: HttpRequest)
        ensures
            r@ == get_view(self@.base_url + "/subjects"@, self@.auth_token),
    {
        self.endpoint.get("/subjects")
    }

    /// `GET /subjects/{subject}/versions`.
    pub fn list_versions_request(&self, subject: &str) -> (r: HttpRequest)
        ensures
            r@ == get_view(self@.base_url + ("/subjects/"@ + uri_component(subject@) + "/versions"@), self@.auth_token),
    {
        let path = crate::http::join_url3("/subjects/", encode(subject).as_str(), "/versions", "");
        proof {
            reveal_strlit("");
        }
        assert(path@ =~= "/subjects/"@ + uri_component(subject@) + "/versions"@);
        self.endpoint.get(path.as_str())
    }

    /// `POST /compatibility/subjects/{subject}/versions/latest` checking
    /// `schema` against the latest version.
    pub fn check_compatibility_request(&self, subject: &str, schema: &str, format: SchemaFormat) -> (r: HttpRequest)
        ensures
            r@ == post_view(
                self@.base_url + ("/compatibility/subjects/"@ + uri_component(subject@) + "/versions/latest"@),
                object_text(schema_members(schema@, format)),
                self@.auth_token,
            ),
    {
        let body = Self::schema_body(schema, format);
        let path = crate::http::join_url3("/compatibility/subjects/", encode(subject).as_str(), "/versions/latest", "");
        proof {
            reveal_strlit("");
        }
        assert(path@ =~= "/compatibility/subjects/"@ + uri_component(subject@) + "/versions/latest"@);
        self.endpoint.post(path.as_str(), body)
    }

    /// `DELETE /subjects/{subject}`.
    pub fn delete_subject_request(&self, subject: &str) -> (r: HttpRequest)
        ensures
            r@ == delete_view(self@.base_url + ("/subjects/"@ + uri_component(subject@)), self@.auth_token),
    {
        self.endpoint.delete(join_url("/subjects/", encode(subject).as_str()).as_str())
    }

    /// Validate a JSON `value` against a JSON `schema` on the client side
    /// with the basic checks of `schema_accepts`. Text that does not parse
    /// is reported as an invalid schema or an invalid value.
    pub fn validate_json(&self, schema_str: &str, value: &str) -> (r: Result<bool, String>)
        ensures
            match (parsed_json(schema_str@), parsed_json(value@)) {
                (None, _) => r matches Err(m) && starts_with(m@, "invalid schema JSON: "@),
                (Some(_), None) => r matches Err(m) && starts_with(m@, "invalid value JSON: "@),
                (Some(s), Some(v)) => r == Ok::<bool, String>(schema_accepts(s, v)),
            },
    {
        let schema = match parse_json(schema_str) {
            Ok(s) => s,
            Err(e) => return Err(prefixed("invalid schema JSON: ", &e)),
        };
        let val = match parse_json(value) {
            Ok(v) => v,
            Err(e) => return Err(prefixed("invalid value JSON: ", &e)),
        };
        Ok(basic_json_validate(&schema, &val))
    }
}

} // verus!
