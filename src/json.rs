//! What the library relies on from serde_json.
use crate::discovery::views;
use serde_json::Value;
use std::collections::HashMap;
use vstd::prelude::*;

verus! {

#[verifier::external_type_specification]
#[verifier::external_body]
pub struct ExValue(Value);

/// The compact JSON text of an array of strings, as serde_json writes it.
pub uninterp spec fn json_string_array(strs: Seq<Seq<char>>) -> Seq<u8>;

/// Whether serde_json reads the text as exactly one JSON value, with nothing
/// but white space around it.
pub uninterp spec fn json_accepts(text: Seq<char>) -> bool;

/// Relies on serde_json's `From<Vec<String>>` for `Value` and its compact
/// `Display`: the options as one JSON array of strings, in order.
#[verifier::external_body]
pub(crate) fn encode_strings(opts: &Vec<String>) -> (r: Vec<u8>)
    ensures
        r@ == json_string_array(views(opts@)),
{
    Value::from(opts.clone()).to_string().into_bytes()
}

/// Relies on serde_json's `Map` (`FromIterator`, ordered by key) and the
/// compact `Display` of `Value`: the arguments as one JSON object.
#[verifier::external_body]
pub(crate) fn encode_arguments(args: &HashMap<String, Value>) -> Vec<u8> {
    Value::Object(args.clone().into_iter().collect()).to_string().into_bytes()
}

/// Relies on `serde_json::from_str`: the value the text holds, when it holds
/// exactly one.
#[verifier::external_body]
pub(crate) fn parse_json(text: &str) -> (r: Option<Value>)
    ensures
        r is Some <==> json_accepts(text@),
{
    serde_json::from_str(text).ok()
}

} // verus!
