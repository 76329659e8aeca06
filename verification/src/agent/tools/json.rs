//! JSON as the tools read and write it, through `serde_json`.
//!
//! The arguments of a call are read here and nowhere else: a `JsonArguments`
//! or `JsonObject` can only be made by this module, from the text it was read
//! from, and it carries that text as its `source`. So the arguments that
//! reach a tool are those read from the text named by their `source`.

use vstd::prelude::*;

verus! {

#[verifier::external_type_specification]
#[verifier::external_body]
pub struct ExJsonValue(serde_json::Value);

#[verifier::external_type_specification]
#[verifier::external_body]
#[verifier::reject_recursive_types(K)]
#[verifier::reject_recursive_types(V)]
pub struct ExJsonMap<K, V>(serde_json::Map<K, V>);

/// What a text holds when read as JSON: an object, another value, or no JSON
/// value at all.
#[derive(Clone, Copy, PartialEq, Eq, Structural)]
pub enum JsonKind {
    Object,
    Other,
    Invalid,
}

/// What `serde_json` reads `text` as.
pub uninterp spec fn json_text_kind(text: Seq<char>) -> JsonKind;

/// Whether `serde_json` reads `text` as one JSON value.
pub open spec fn json_text_is_valid(text: Seq<char>) -> bool {
    json_text_kind(text) != JsonKind::Invalid
}

/// A value read from JSON text: an object's members, or another value.
enum ParsedJson {
    Object(serde_json::Map<String, serde_json::Value>),
    Other(serde_json::Value),
}

impl ParsedJson {
    spec fn kind(&self) -> JsonKind {
        match self {
            ParsedJson::Object(_) => JsonKind::Object,
            ParsedJson::Other(_) => JsonKind::Other,
        }
    }
}

/// Calls `serde_json::from_str::<serde_json::Value>` and tells an object from
/// other values, dropping the error. The contract claims only that what is
/// read (an object, another value, or nothing) is what `json_text_kind`
/// names, which depends on the text alone; nothing is said of the values.
#[verifier::external_body]
fn parse_json_text(text: &str) -> (res: Option<ParsedJson>)
    ensures
        match res {
            Some(p) => p.kind() == json_text_kind(text@),
            None => json_text_kind(text@) == JsonKind::Invalid,
        },
{
    match serde_json::from_str::<serde_json::Value>(text) {
        Ok(serde_json::Value::Object(members)) => Some(ParsedJson::Object(members)),
        Ok(value) => Some(ParsedJson::Other(value)),
        Err(_) => None,
    }
}

/// Puts an object's members back into a `serde_json::Value`, and hands any
/// other value on as it is. Nothing is claimed of the value.
#[verifier::external_body]
fn parsed_value(parsed: ParsedJson) -> serde_json::Value {
    match parsed {
        ParsedJson::Object(members) => serde_json::Value::Object(members),
        ParsedJson::Other(value) => value,
    }
}

/// The JSON text `serde_json` writes for the string `s`.
pub uninterp spec fn json_string_text(s: Seq<char>) -> Seq<char>;

/// The characters that JSON text writes escaped inside a string: control
/// characters below U+0020, `"` and `\`.
pub open spec fn escaped_in_json(c: char) -> bool {
    c as u32 <= 0x1f || c == '"' || c == '\\'
}

/// Calls `serde_json::to_string` on a string: the text that the string's
/// JSON value (`serde_json::to_value`) displays as. The contract claims that
/// the result is what `json_string_text` names, and the short fact that a
/// string without characters to escape is written between double quotes as
/// it is. Writing a string cannot fail: it is written into a `Vec`, which
/// takes every byte.
#[verifier::external_body]
pub fn json_string(s: &str) -> (res: String)
    ensures
        res@ == json_string_text(s@),
        (forall|i: int| 0 <= i < s@.len() ==> !escaped_in_json(#[trigger] s@[i])) ==> res@ == seq![
            '"',
        ] + s@ + seq!['"'],
{
    match serde_json::to_string(s) {
        Ok(text) => text,
        Err(_) => String::new(),
    }
}

/// The arguments of a call, read from their JSON text.
pub struct JsonArguments {
    parsed: ParsedJson,
    source: Ghost<Seq<char>>,
}

/// The members of a JSON object, read from its text.
pub struct JsonObject {
    members: serde_json::Map<String, serde_json::Value>,
    source: Ghost<Seq<char>>,
}

impl JsonArguments {
    /// What the arguments are: an object, or another value.
    pub closed spec fn kind(&self) -> JsonKind {
        self.parsed.kind()
    }

    /// The text the arguments were read from.
    pub closed spec fn source(&self) -> Seq<char> {
        self.source@
    }

    /// Reads arguments from their JSON text; `None` where the text holds no
    /// JSON value.
    pub fn read(text: &str) -> (res: Option<JsonArguments>)
        ensures
            match res {
                Some(a) => {
                    &&& a.source() == text@
                    &&& a.kind() == json_text_kind(text@)
                    &&& a.kind() != JsonKind::Invalid
                },
                None => json_text_kind(text@) == JsonKind::Invalid,
            },
    {
        match parse_json_text(text) {
            Some(parsed) => Some(JsonArguments { parsed, source: Ghost(text@) }),
            None => None,
        }
    }

    /// The members of the object the arguments are; arguments that are no
    /// object are handed back.
    pub fn into_object(self) -> (res: Result<JsonObject, JsonArguments>)
        ensures
            match res {
                Ok(o) => self.kind() == JsonKind::Object && o.source() == self.source(),
                Err(a) => self.kind() != JsonKind::Object && a == self,
            },
    {
        let JsonArguments { parsed, source } = self;
        match parsed {
            ParsedJson::Object(members) => Ok(JsonObject { members, source }),
            ParsedJson::Other(value) => Err(JsonArguments { parsed: ParsedJson::Other(value), source }),
        }
    }

    /// The value the arguments were read as.
    pub fn into_value(self) -> serde_json::Value {
        parsed_value(self.parsed)
    }
}

impl JsonObject {
    /// The text the object was read from.
    pub closed spec fn source(&self) -> Seq<char> {
        self.source@
    }

    /// The object's members.
    pub fn into_members(self) -> serde_json::Map<String, serde_json::Value> {
        self.members
    }
}

} // verus!
