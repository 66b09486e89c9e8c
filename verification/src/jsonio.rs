//! Trusted boundary to the JSON codec.
//!
//! Every inbound charger frame is JSON text.  The wrappers here hand the
//! verified code plain values only: strings, booleans, and re-serialized
//! value texts.  What each call returns is a function of the frame text
//! alone, so each result is given an uninterpreted name that the verified
//! decoding logic is stated over.

use vstd::prelude::*;

verus! {

/// The device serial and secured flag of a hello frame, or `None` when the
/// text is not a JSON object carrying a string `serial` and boolean
/// `secured`.
pub uninterp spec fn hello_of(s: Seq<char>) -> Option<(Seq<char>, bool)>;

/// The two challenge tokens of an auth-required frame, or `None` when the
/// text is not a JSON object carrying string `token1` and `token2` fields.
pub uninterp spec fn auth_tokens_of(s: Seq<char>) -> Option<(Seq<char>, Seq<char>)>;

/// The string `type` field of a frame, or `None` when the text does not
/// parse or carries no string `type`.
pub uninterp spec fn frame_type_of(s: Seq<char>) -> Option<Seq<char>>;

/// The key/value entries of a frame's `status` object, in object order:
/// for each entry its key, the value's JSON text, whether the value is a
/// number, and whether it is an array.  `None` when the text does not parse
/// or has no `status` object.
pub uninterp spec fn status_entries_of(s: Seq<char>) -> Option<
    Seq<(Seq<char>, Seq<char>, bool, bool)>,
>;

/// For a JSON object text: each key paired with whether its value is a
/// number, in object order.  `None` when the text is not a JSON object.
pub uninterp spec fn object_number_keys_of(s: Seq<char>) -> Option<Seq<(Seq<char>, bool)>>;

pub open spec fn entry_views(v: Seq<(String, String, bool, bool)>) -> Seq<
    (Seq<char>, Seq<char>, bool, bool),
> {
    v.map_values(|e: (String, String, bool, bool)| (e.0@, e.1@, e.2, e.3))
}

pub open spec fn pair_views(v: Seq<(String, bool)>) -> Seq<(Seq<char>, bool)> {
    v.map_values(|e: (String, bool)| (e.0@, e.1))
}

/// Relies on `serde_json::from_str` and the `Value` accessors `get`,
/// `as_str` and `as_bool`: parses a hello frame into its device serial and
/// secured flag.
#[verifier::external_body]
pub fn parse_hello(s: &str) -> (r: Option<(String, bool)>)
    ensures
        match r {
            Some(p) => hello_of(s@) == Some((p.0@, p.1)),
            None => hello_of(s@) is None,
        },
{
    let v: serde_json::Value = serde_json::from_str(s).ok()?;
    let serial = v.get("serial")?.as_str()?.to_owned();
    let secured = v.get("secured")?.as_bool()?;
    Some((serial, secured))
}

/// Relies on `serde_json::from_str` and the `Value` accessors `get` and
/// `as_str`: parses an auth-required frame into its two challenge tokens.
#[verifier::external_body]
pub fn parse_auth_tokens(s: &str) -> (r: Option<(String, String)>)
    ensures
        match r {
            Some(p) => auth_tokens_of(s@) == Some((p.0@, p.1@)),
            None => auth_tokens_of(s@) is None,
        },
{
    let v: serde_json::Value = serde_json::from_str(s).ok()?;
    let token1 = v.get("token1")?.as_str()?.to_owned();
    let token2 = v.get("token2")?.as_str()?.to_owned();
    Some((token1, token2))
}

/// Relies on `serde_json::from_str` and the `Value` accessors `get` and
/// `as_str`: reads a frame's string `type` field.
#[verifier::external_body]
pub fn parse_frame_type(s: &str) -> (r: Option<String>)
    ensures
        match r {
            Some(t) => frame_type_of(s@) == Some(t@),
            None => frame_type_of(s@) is None,
        },
{
    let v: serde_json::Value = serde_json::from_str(s).ok()?;
    Some(v.get("type")?.as_str()?.to_owned())
}

/// Relies on `serde_json::from_str`, `Value::get`, `Value::as_object`, and
/// on `Value::to_string`, `Value::is_number`, `Value::is_array` per entry:
/// lists the entries of a frame's `status` object in object order, each
/// value re-serialized to its JSON text.
#[verifier::external_body]
pub fn parse_status_entries(s: &str) -> (r: Option<Vec<(String, String, bool, bool)>>)
    ensures
        match r {
            Some(v) => status_entries_of(s@) == Some(entry_views(v@)),
            None => status_entries_of(s@) is None,
        },
{
    let v: serde_json::Value = serde_json::from_str(s).ok()?;
    let obj = v.get("status")?.as_object()?;
    Some(
        obj.iter().map(
            |(k, val)| (k.clone(), val.to_string(), val.is_number(), val.is_array()),
        ).collect(),
    )
}

/// Relies on `serde_json::from_str`, `Value::as_object` and, per entry,
/// `Value::is_number`: lists an object's keys, each with whether its value
/// is a JSON number.
#[verifier::external_body]
pub fn parse_object_number_keys(s: &str) -> (r: Option<Vec<(String, bool)>>)
    ensures
        match r {
            Some(v) => object_number_keys_of(s@) == Some(pair_views(v@)),
            None => object_number_keys_of(s@) is None,
        },
{
    let v: serde_json::Value = serde_json::from_str(s).ok()?;
    let obj = v.as_object()?;
    Some(obj.iter().map(|(k, val)| (k.clone(), val.is_number())).collect())
}

} // verus!
