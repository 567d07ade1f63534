//! Reading a protocol definition out of its JSON schema text.
use vstd::prelude::*;

verus! {

/// The string member `key` of the JSON object in `text`, if `text` is such
/// an object and the member is a string.
pub uninterp spec fn json_string_member_of(text: Seq<char>, key: Seq<char>) -> Option<Seq<char>>;

/// The members of the object member `key` of the JSON object in `text`, each
/// as its name and its JSON text, if `text` is such an object and the member
/// is an object.
pub uninterp spec fn json_object_members_of(text: Seq<char>, key: Seq<char>) -> Option<
    Seq<(Seq<char>, Seq<char>)>,
>;

/// Relies on `serde_json::from_str` into a `serde_json::Value`, then
/// `Value::get` and `Value::as_str`: the result depends on the text alone.
#[verifier::external_body]
fn json_string_member(text: &str, key: &str) -> (r: Option<String>)
    ensures
        r is None <==> json_string_member_of(text@, key@) is None,
        r is Some ==> json_string_member_of(text@, key@) == Some(r->Some_0@),
{
    let value: serde_json::Value = serde_json::from_str(text).ok()?;
    value.get(key)?.as_str().map(|s| s.to_string())
}

/// Relies on `serde_json::from_str` into a `serde_json::Value`, then
/// `Value::get`, `Value::as_object` and the JSON text of each member: the
/// result depends on the text alone.
#[verifier::external_body]
fn json_object_members(text: &str, key: &str) -> (r: Option<Vec<(String, String)>>)
    ensures
        r is None <==> json_object_members_of(text@, key@) is None,
        r is Some ==> json_object_members_of(text@, key@) == Some(members_view(r->Some_0@)),
{
    let value: serde_json::Value = serde_json::from_str(text).ok()?;
    let members = value.get(key)?.as_object()?;
    Some(members.iter().map(|(k, v)| (k.clone(), v.to_string())).collect())
}

/// Named JSON members as plain values.
pub open spec fn members_view(m: Seq<(String, String)>) -> Seq<(Seq<char>, Seq<char>)> {
    m.map_values(|e: (String, String)| (e.0@, e.1@))
}

/// A protocol definition: its identifier, whether it is published, and its
/// structure and type entries, each as a name and the entry's JSON text.
pub struct ProtocolDefinition {
    pub protocol: String,
    pub published: bool,
    pub structure: Vec<(String, String)>,
    pub types: Vec<(String, String)>,
}

/// Why a schema text is not a protocol definition.
#[derive(Clone, Copy, Debug, PartialEq, Eq, Structural)]
pub enum SchemaError {
    /// No string member `protocol`.
    MissingProtocol,
    /// No object member `structure`.
    MissingStructure,
    /// No object member `types`.
    MissingTypes,
}

/// The definition made of the three members read from a schema: the first
/// missing member is the error; with all three, a published definition.
pub open spec fn definition_post(
    protocol: Option<Seq<char>>,
    structure: Option<Seq<(Seq<char>, Seq<char>)>>,
    types: Option<Seq<(Seq<char>, Seq<char>)>>,
    r: Result<ProtocolDefinition, SchemaError>,
) -> bool {
    if protocol is None {
        r == Err::<ProtocolDefinition, SchemaError>(SchemaError::MissingProtocol)
    } else if structure is None {
        r == Err::<ProtocolDefinition, SchemaError>(SchemaError::MissingStructure)
    } else if types is None {
        r == Err::<ProtocolDefinition, SchemaError>(SchemaError::MissingTypes)
    } else {
        &&& r is Ok
        &&& r->Ok_0.protocol@ == protocol->Some_0
        &&& r->Ok_0.published
        &&& members_view(r->Ok_0.structure@) == structure->Some_0
        &&& members_view(r->Ok_0.types@) == types->Some_0
    }
}

/// An optional string as plain values.
pub open spec fn opt_string_view(s: Option<String>) -> Option<Seq<char>> {
    match s {
        Some(v) => Some(v@),
        None => None,
    }
}

/// Optional named members as plain values.
pub open spec fn opt_members_view(m: Option<Vec<(String, String)>>) -> Option<
    Seq<(Seq<char>, Seq<char>)>,
> {
    match m {
        Some(v) => Some(members_view(v@)),
        None => None,
    }
}

/// Assembles a protocol definition from the members read from its schema.
pub fn definition_from_members(
    protocol: Option<String>,
    structure: Option<Vec<(String, String)>>,
    types: Option<Vec<(String, String)>>,
) -> (r: Result<ProtocolDefinition, SchemaError>)
    ensures
        definition_post(
            opt_string_view(protocol),
            opt_members_view(structure),
            opt_members_view(types),
            r,
        ),
{
    match (protocol, structure, types) {
        (None, _, _) => Err(SchemaError::MissingProtocol),
        (Some(_), None, _) => Err(SchemaError::MissingStructure),
        (Some(_), Some(_), None) => Err(SchemaError::MissingTypes),
        (Some(protocol), Some(structure), Some(types)) => Ok(
            ProtocolDefinition { protocol, published: true, structure, types },
        ),
    }
}

/// Reads a protocol definition from its schema text: the string member
/// `protocol` and the object members `structure` and `types`.
pub fn json_to_definition(schema: &str) -> (r: Result<ProtocolDefinition, SchemaError>)
    ensures
        definition_post(
            json_string_member_of(schema@, protocol_key()),
            json_object_members_of(schema@, structure_key()),
            json_object_members_of(schema@, types_key()),
            r,
        ),
{
    proof {
        reveal_strlit("protocol");
        reveal_strlit("structure");
        reveal_strlit("types");
        assert("protocol"@ =~= protocol_key());
        assert("structure"@ =~= structure_key());
        assert("types"@ =~= types_key());
    }
    let protocol = json_string_member(schema, "protocol");
    let structure = json_object_members(schema, "structure");
    let types = json_object_members(schema, "types");
    definition_from_members(protocol, structure, types)
}

pub open spec fn protocol_key() -> Seq<char> {
    seq!['p', 'r', 'o', 't', 'o', 'c', 'o', 'l']
}

pub open spec fn structure_key() -> Seq<char> {
    seq!['s', 't', 'r', 'u', 'c', 't', 'u', 'r', 'e']
}

pub open spec fn types_key() -> Seq<char> {
    seq!['t', 'y', 'p', 'e', 's']
}

} // verus!
