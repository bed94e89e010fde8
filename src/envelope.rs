//! The request carried on a guest's standard input: a one-line JSON header
//! `{"opts":[...],"args":{...}}`, then, when there is one, a newline and the
//! raw payload.
use crate::discovery::views;
use crate::json::{encode_arguments, encode_strings, json_string_array};
use serde_json::Value;
use std::collections::HashMap;
use vstd::prelude::*;

verus! {

pub const OPEN_BRACE: u8 = 0x7B;

pub const CLOSE_BRACE: u8 = 0x7D;

pub const QUOTE: u8 = 0x22;

pub const COLON: u8 = 0x3A;

pub const COMMA: u8 = 0x2C;

pub const NEWLINE: u8 = 0x0A;

/// The header around the encoded options and arguments.
pub open spec fn header(opts_json: Seq<u8>, args_json: Seq<u8>) -> Seq<u8> {
    seq![OPEN_BRACE, QUOTE, 111u8, 112u8, 116u8, 115u8, QUOTE, COLON] + opts_json + seq![
        COMMA,
        QUOTE,
        97u8,
        114u8,
        103u8,
        115u8,
        QUOTE,
        COLON,
    ] + args_json + seq![CLOSE_BRACE]
}

/// The whole input stream: the header, then a newline and the payload if
/// one is supplied.
pub open spec fn request(opts_json: Seq<u8>, args_json: Seq<u8>, payload: Option<Seq<u8>>) -> Seq<
    u8,
> {
    match payload {
        Some(p) => header(opts_json, args_json) + seq![NEWLINE] + p,
        None => header(opts_json, args_json),
    }
}

pub open spec fn bytes_of(payload: Option<Vec<u8>>) -> Option<Seq<u8>> {
    match payload {
        Some(p) => Some(p@),
        None => None,
    }
}

fn push_key(out: &mut Vec<u8>, k0: u8, k1: u8, k2: u8, k3: u8)
    ensures
        final(out)@ == old(out)@ + seq![QUOTE, k0, k1, k2, k3, QUOTE, COLON],
{
    out.push(QUOTE);
    out.push(k0);
    out.push(k1);
    out.push(k2);
    out.push(k3);
    out.push(QUOTE);
    out.push(COLON);
}

/// Frame already encoded options and arguments, and the payload, into the
/// bytes of a guest's standard input.
pub fn frame_request(opts_json: Vec<u8>, args_json: Vec<u8>, payload: Option<Vec<u8>>) -> (r: Vec<
    u8,
>)
    ensures
        r@ == request(opts_json@, args_json@, bytes_of(payload)),
{
    let ghost o = opts_json@;
    let ghost a = args_json@;
    let mut opts_json = opts_json;
    let mut args_json = args_json;
    let mut out: Vec<u8> = Vec::new();
    out.push(OPEN_BRACE);
    push_key(&mut out, 111u8, 112u8, 116u8, 115u8);
    out.append(&mut opts_json);
    out.push(COMMA);
    push_key(&mut out, 97u8, 114u8, 103u8, 115u8);
    out.append(&mut args_json);
    out.push(CLOSE_BRACE);
    let ghost framed = out@;
    assert(framed =~= header(o, a)) by {
        assert(seq![OPEN_BRACE] + seq![QUOTE, 111u8, 112u8, 116u8, 115u8, QUOTE, COLON] =~= seq![
            OPEN_BRACE,
            QUOTE,
            111u8,
            112u8,
            116u8,
            115u8,
            QUOTE,
            COLON,
        ]);
    }
    match payload {
        Some(p) => {
            let mut p = p;
            let ghost pv = p@;
            out.push(NEWLINE);
            out.append(&mut p);
            assert(out@ =~= framed + seq![NEWLINE] + pv);
        },
        None => {},
    }
    out
}

/// The bytes of a guest's standard input for the given options, arguments
/// and payload. The arguments are written as serde_json writes an object.
pub fn build_request(opts: &Vec<String>, args: &HashMap<String, Value>, payload: Option<Vec<u8>>) -> (r:
    Vec<u8>)
    ensures
        exists|args_json: Seq<u8>|
            r@ == request(json_string_array(views(opts@)), args_json, bytes_of(payload)),
{
    let o = encode_strings(opts);
    let a = encode_arguments(args);
    let r = frame_request(o, a, payload);
    assert(r@ == request(json_string_array(views(opts@)), a@, bytes_of(payload)));
    r
}

} // verus!
