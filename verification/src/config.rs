use vstd::prelude::*;

verus! {

#[verifier::external_type_specification]
#[verifier::external_body]
#[verifier::reject_recursive_types(K)]
#[verifier::reject_recursive_types(V)]
pub struct ExJsonMap<K, V>(serde_json::Map<K, V>);

#[verifier::external_type_specification]
#[verifier::external_body]
pub struct ExJsonValue(serde_json::Value);

/// Whether serde_json accepts a byte sequence as the JSON text of an
/// object of string keys; the outcome depends on the bytes alone.
pub uninterp spec fn is_config_payload(bytes: Seq<u8>) -> bool;

/// The key set of the configuration object serde_json parses out of a
/// byte sequence; a function of the bytes alone, meaningful where
/// `is_config_payload` holds.
pub uninterp spec fn parsed_config_keys(bytes: Seq<u8>) -> Set<Seq<char>>;

/// The set of keys a configuration map holds.
pub uninterp spec fn config_map_keys(
    m: serde_json::Map<String, serde_json::Value>,
) -> Set<Seq<char>>;

/// Relies on serde_json::from_slice: it parses the bytes as a JSON object
/// of string keys and arbitrary values, returning `Err` exactly on input
/// it does not accept as such an object, and the parsed object — its key
/// set included — depends on the bytes alone.
#[verifier::external_body]
pub(crate) fn parse_config_bytes(bytes: &Vec<u8>) -> (r: Option<
    serde_json::Map<String, serde_json::Value>,
>)
    ensures
        r is Some <==> is_config_payload(bytes@),
        r matches Some(m) ==> config_map_keys(m) == parsed_config_keys(bytes@),
{
    serde_json::from_slice(bytes.as_slice()).ok()
}

/// Relies on serde_json::Map::new: it returns a map with no entries, so
/// its key set is empty.
#[verifier::external_body]
pub(crate) fn empty_config_map() -> (r: serde_json::Map<String, serde_json::Value>)
    ensures
        config_map_keys(r) == Set::<Seq<char>>::empty(),
{
    serde_json::Map::new()
}

} // verus!
