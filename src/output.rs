//! Reading the result from what a guest wrote on its standard output.
use crate::error::RuntimeError;
use crate::json::{json_accepts, parse_json};
use crate::text::{blank, is_blank, utf8_text};
use serde_json::Value;
use vstd::prelude::*;
use vstd::utf8::{decode_utf8, valid_utf8};

verus! {

/// What reading `stdout` gives: a malformed-output failure for bytes that
/// are not UTF-8 (with no text) or for text that is not one JSON value (with
/// that text), no value (JSON null) for blank text, and otherwise the value.
pub open spec fn decoded_as(stdout: Seq<u8>, r: Result<Option<Value>, RuntimeError>) -> bool {
    if !valid_utf8(stdout) {
        r matches Err(RuntimeError::MalformedOutput(t)) && t@.len() == 0
    } else if blank(decode_utf8(stdout)) {
        r matches Ok(None)
    } else if json_accepts(decode_utf8(stdout)) {
        r matches Ok(Some(_))
    } else {
        r matches Err(RuntimeError::MalformedOutput(t)) && t@ == decode_utf8(stdout)
    }
}

/// The result a guest's standard output holds; `None` stands for JSON null.
pub fn decode_output(stdout: Vec<u8>) -> (r: Result<Option<Value>, RuntimeError>)
    ensures
        decoded_as(stdout@, r),
{
    match utf8_text(stdout) {
        None => Err(RuntimeError::MalformedOutput(String::new())),
        Some(text) => {
            if is_blank(text.as_str()) {
                Ok(None)
            } else {
                match parse_json(text.as_str()) {
                    Some(v) => Ok(Some(v)),
                    None => Err(RuntimeError::MalformedOutput(text)),
                }
            }
        },
    }
}

} // verus!
