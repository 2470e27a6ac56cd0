//! A mathematical model of the JSON documents the upstream provider returns,
//! and the trusted surface over `serde_json` that the verified logic reads
//! them through.
//!
//! The provider's payload is not contractually typed, so it is held as a
//! generic `serde_json::Value`.  That type is opaque to the verifier; its
//! contents are modelled by the abstract tree [`JsonDoc`], and each method of
//! `Value` that the logic calls is wrapped in a function whose contract is
//! stated over that model.

use vstd::prelude::*;

verus! {

/// The abstract shape of a parsed JSON document.
///
/// Only what the relay's logic reads is modelled: objects, arrays and
/// strings.  A numeric leaf is held without its value, since no rule of the
/// relay ever looks at a number.
pub enum JsonDoc {
    Null,
    Bool(bool),
    Num,
    Str(Seq<char>),
    Arr(Seq<JsonDoc>),
    Obj(Map<Seq<char>, JsonDoc>),
}

#[verifier::external_type_specification]
#[verifier::external_body]
pub struct ExValue(serde_json::Value);

/// The contents of a `serde_json::Value`, as the abstract document tree it
/// holds.  The wrappers below state what each `Value` method observes of it.
pub uninterp spec fn value_model(v: serde_json::Value) -> JsonDoc;

/// What `serde_json::from_str` makes of a text: `Some` of the document model
/// when the parser accepts the text as one JSON document, `None` when it
/// rejects it.  The parse is a function of the text alone.
pub uninterp spec fn json_of(s: Seq<char>) -> Option<JsonDoc>;

/// Relies on `serde_json::from_str::<Value>`: parses the text as one JSON
/// document, deterministically.  A parse failure is reported as the error's
/// display text.
#[verifier::external_body]
pub(crate) fn parse_json(s: &str) -> (r: Result<serde_json::Value, String>)
    ensures
        r matches Ok(v) ==> json_of(s@) == Some(value_model(v)),
        r matches Err(_) ==> json_of(s@) is None,
{
    match serde_json::from_str::<serde_json::Value>(s) {
        Ok(v) => Ok(v),
        Err(e) => Err(e.to_string()),
    }
}

/// Relies on `serde_json::Value::get` with a `&str` index: `Some` of the
/// member under that key when the value is an object holding the key,
/// `None` otherwise.
#[verifier::external_body]
pub(crate) fn value_member<'a>(v: &'a serde_json::Value, key: &str) -> (r: Option<
    &'a serde_json::Value,
>)
    ensures
        match r {
            Some(m) => value_model(*v) matches JsonDoc::Obj(fields) && fields.contains_key(key@)
                && value_model(*m) == fields[key@],
            None => !(value_model(*v) matches JsonDoc::Obj(fields) && fields.contains_key(key@)),
        },
{
    v.get(key)
}

/// Relies on `serde_json::Value::get` with a `usize` index: `Some` of the
/// element at that position when the value is an array long enough,
/// `None` otherwise.
#[verifier::external_body]
pub(crate) fn value_element<'a>(v: &'a serde_json::Value, i: usize) -> (r: Option<
    &'a serde_json::Value,
>)
    ensures
        match r {
            Some(m) => value_model(*v) matches JsonDoc::Arr(items) && i < items.len()
                && value_model(*m) == items[i as int],
            None => !(value_model(*v) matches JsonDoc::Arr(items) && i < items.len()),
        },
{
    v.get(i)
}

/// Relies on `serde_json::Value::as_str`: `Some` of the text exactly when
/// the value is a JSON string.
#[verifier::external_body]
pub(crate) fn value_as_str<'a>(v: &'a serde_json::Value) -> (r: Option<&'a str>)
    ensures
        match r {
            Some(s) => value_model(*v) == JsonDoc::Str(s@),
            None => !(value_model(*v) matches JsonDoc::Str(_)),
        },
{
    v.as_str()
}

} // verus!
