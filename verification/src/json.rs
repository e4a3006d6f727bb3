//! The boundary to `serde_json`. JSON values are carried through and written
//! out; nothing in this crate looks inside one.
use vstd::prelude::*;

verus! {

/// `serde_json::Value`, carried as an opaque value.
#[verifier::external_type_specification]
#[verifier::external_body]
pub struct ExValue(serde_json::Value);

/// `serde_json::Map`, carried as an opaque value.
#[verifier::external_type_specification]
#[verifier::external_body]
#[verifier::reject_recursive_types(K)]
#[verifier::reject_recursive_types(V)]
pub struct ExObject<K, V>(serde_json::Map<K, V>);

/// `serde_json::Error`, carried as an opaque value.
#[verifier::external_type_specification]
#[verifier::external_body]
pub struct ExError(serde_json::Error);

/// A JSON object.
pub type Object = serde_json::Map<String, serde_json::Value>;

/// The members of a JSON object, each a key and a value, in the order in which
/// the object is walked.
pub uninterp spec fn members(object: Object) -> Seq<(Seq<char>, serde_json::Value)>;

/// What `Value::as_object` finds in a value: the members of the object that
/// the value is, or nothing where the value is no object.
pub uninterp spec fn as_object_members(value: serde_json::Value) -> Option<
    Seq<(Seq<char>, serde_json::Value)>,
>;

/// What `serde_json::to_string` writes for the object with these members, or
/// nothing where it fails.
pub uninterp spec fn compact_object(
    members: Seq<(Seq<char>, serde_json::Value)>,
) -> Option<Seq<char>>;

/// What `serde_json::to_string_pretty` writes for a value, or nothing where it
/// fails.
pub uninterp spec fn pretty_value(value: serde_json::Value) -> Option<Seq<char>>;

/// What a value's `Display` writes.
pub uninterp spec fn displayed_value(value: serde_json::Value) -> Seq<char>;

/// The text that a serialization produced, if it produced any.
pub open spec fn written<E>(text: Result<String, E>) -> Option<Seq<char>> {
    match text {
        Ok(t) => Some(t@),
        Err(_) => None,
    }
}

/// `serde_json::Value::as_object`: the object that the value is, where it is
/// one.
#[verifier::external_body]
pub(crate) fn as_object(value: &serde_json::Value) -> (object: Option<&Object>)
    ensures
        (match object {
            Some(o) => Some(members(*o)),
            None => None,
        }) == as_object_members(*value),
{
    value.as_object()
}

/// `serde_json::Map::clone`: an object with the same members.
#[verifier::external_body]
pub(crate) fn clone_object(object: &Object) -> (copy: Object)
    ensures
        members(copy) == members(*object),
{
    object.clone()
}

/// `serde_json::Map::new`: an object without members.
#[verifier::external_body]
pub(crate) fn empty_object() -> (object: Object)
    ensures
        members(object) == Seq::<(Seq<char>, serde_json::Value)>::empty(),
{
    serde_json::Map::new()
}

/// `serde_json::to_string` on an object: the object as compact JSON. The text
/// depends on the members alone.
#[verifier::external_body]
pub(crate) fn object_to_string(object: &Object) -> (text: Result<String, serde_json::Error>)
    ensures
        written(text) == compact_object(members(*object)),
{
    serde_json::to_string(object)
}

/// `serde_json::to_string_pretty` on a value: the value as indented JSON.
#[verifier::external_body]
pub(crate) fn value_to_string_pretty(value: &serde_json::Value) -> (text: Result<
    String,
    serde_json::Error,
>)
    ensures
        written(text) == pretty_value(*value),
{
    serde_json::to_string_pretty(value)
}

/// `ToString::to_string` on a value, through its `Display`: the value as
/// compact JSON.
#[verifier::external_body]
pub(crate) fn value_to_string(value: &serde_json::Value) -> (text: String)
    ensures
        text@ == displayed_value(*value),
{
    value.to_string()
}

} // verus!
