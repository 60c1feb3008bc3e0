//! The byte-level framing shared by the process-style transports.
//!
//! A response arrives as the bytes read up to and including one NUL
//! delimiter (or up to end-of-stream). The delimiter byte is stripped and
//! the remaining bytes must decode as UTF-8 text. A stream that yields no
//! body — nothing at all, or only the delimiter — means the tool produced
//! no response, which is an error, never success with an empty string.

use vstd::prelude::*;
use vstd::string::StrSliceExecFns;
use vstd::utf8::{decode_utf8, encode_utf8, encode_utf8_decode_utf8, encode_utf8_valid_utf8,
    valid_utf8};

use crate::errors::Error;

verus! {

/// What the shared framing logic yields for a raw byte accumulation: the
/// final delimiter byte is stripped, an empty remaining body is
/// `EmptyResponse` (so nothing read, or a bare delimiter, is never success
/// with an empty string), and the body must be valid UTF-8.
pub open spec fn framed_response(res: Seq<u8>) -> Result<Seq<char>, Error> {
    if res.len() <= 1 {
        Err(Error::EmptyResponse)
    } else {
        let body = res.subrange(0, res.len() - 1);
        if valid_utf8(body) {
            Ok(decode_utf8(body))
        } else {
            Err(Error::DecodeError)
        }
    }
}

/// Relies on `String::from_utf8`: it succeeds exactly on input that is valid
/// UTF-8 and then returns the text those bytes encode.
#[verifier::external_body]
fn utf8_to_string(bytes: Vec<u8>) -> (r: Option<String>)
    ensures
        r is Some <==> valid_utf8(bytes@),
        r matches Some(s) ==> s@ == decode_utf8(bytes@),
{
    match String::from_utf8(bytes) {
        Ok(s) => Some(s),
        Err(_) => None,
    }
}

/// Strips the trailing delimiter byte from a raw response and decodes the
/// body as UTF-8 text. An empty body — zero bytes read, or only the
/// delimiter — is `EmptyResponse`; a body that is not valid UTF-8 is
/// `DecodeError`.
pub fn process_result(res: Vec<u8>) -> (r: Result<String, Error>)
    ensures
        r matches Ok(s) ==> framed_response(res@) == Ok::<Seq<char>, Error>(s@),
        r matches Err(e) ==> framed_response(res@) == Err::<Seq<char>, Error>(e),
        res@.len() <= 1 ==> r == Err::<String, Error>(Error::EmptyResponse),
{
    if res.len() <= 1 {
        return Err(Error::EmptyResponse);
    }
    let mut body = res;
    body.pop();
    match utf8_to_string(body) {
        Some(s) => Ok(s),
        None => Err(Error::DecodeError),
    }
}

/// The request framing of the spawned-process transport: the command's bytes
/// with one trailing newline appended.
pub fn frame_command(cmd: &str) -> (r: Vec<u8>)
    ensures
        r@ == encode_utf8(cmd@).push(10u8),
{
    let mut v = cmd.as_bytes_vec();
    v.push(10u8);
    v
}

/// The response framing of the TCP transport: every byte read until the peer
/// closed the stream, one synthetic NUL appended, then the shared strip and
/// decode logic.
pub fn process_tcp_response(raw: Vec<u8>) -> (r: Result<String, Error>)
    ensures
        r matches Ok(s) ==> framed_response(raw@.push(0u8)) == Ok::<Seq<char>, Error>(s@),
        r matches Err(e) ==> framed_response(raw@.push(0u8)) == Err::<Seq<char>, Error>(e),
        raw@.len() == 0 ==> r == Err::<String, Error>(Error::EmptyResponse),
{
    let mut framed = raw;
    framed.push(0u8);
    process_result(framed)
}

/// The response handling of the HTTP transport: the entire body, decoded
/// as UTF-8 text; no delimiter byte is involved. An empty body is an
/// `EmptyResponse` error, as on every other transport.
pub fn process_http_response(body: Vec<u8>) -> (r: Result<String, Error>)
    ensures
        body@.len() == 0 ==> r == Err::<String, Error>(Error::EmptyResponse),
        body@.len() > 0 && valid_utf8(body@) ==> (r matches Ok(s) && s@ == decode_utf8(body@)),
        body@.len() > 0 && !valid_utf8(body@) ==> r == Err::<String, Error>(Error::DecodeError),
{
    if body.len() == 0 {
        return Err(Error::EmptyResponse);
    }
    match utf8_to_string(body) {
        Some(s) => Ok(s),
        None => Err(Error::DecodeError),
    }
}

/// A transport that echoes the command bytes followed by the NUL delimiter
/// hands every command back unchanged: the framing loses nothing.
pub proof fn lemma_echo_round_trip(cmd: Seq<char>)
    requires
        cmd.len() > 0,
    ensures
        framed_response(encode_utf8(cmd).push(0u8)) == Ok::<Seq<char>, Error>(cmd),
{
    broadcast use encode_utf8_valid_utf8, encode_utf8_decode_utf8;

    let enc = encode_utf8(cmd);
    assert(enc.len() > 0) by {
        if enc.len() == 0 {
            assert(decode_utf8(enc) =~= Seq::<char>::empty());
        }
    }
    let bytes = enc.push(0u8);
    assert(bytes.subrange(0, bytes.len() - 1) =~= enc);
}

} // verus!
