//! Byte encodings: base64, gzip, MessagePack.

use crate::json::{fields_of, JsonView};
use base64::Engine;
use indexmap::IndexMap;
use serde_json::Value;
use std::io::Read;
use vstd::prelude::*;

verus! {

/// What the standard base64 engine decodes a text to: bytes, or the words of
/// the error.
pub uninterp spec fn base64_decoded(text: Seq<char>) -> Result<Seq<u8>, Seq<char>>;

/// `base64::engine::general_purpose::STANDARD.decode`. Its result is named
/// [`base64_decoded`].
#[verifier::external_body]
pub(crate) fn decode_base64(text: &str) -> (r: Result<Vec<u8>, String>)
    ensures
        match r {
            Ok(bytes) => base64_decoded(text@) == Ok::<Seq<u8>, Seq<char>>(bytes@),
            Err(message) => base64_decoded(text@) == Err::<Seq<u8>, Seq<char>>(message@),
        },
{
    match base64::engine::general_purpose::STANDARD.decode(text) {
        Ok(bytes) => Ok(bytes),
        Err(e) => Err(e.to_string()),
    }
}

/// What the gzip decoder yields, read to its end: the bytes of the data's first
/// member, or the words of the error where the data is no gzip file.
pub uninterp spec fn gunzipped(data: Seq<u8>) -> Result<Seq<u8>, Seq<char>>;

/// `flate2::read::GzDecoder`, read to its end. Its result is named
/// [`gunzipped`]. Running out of memory is left aside.
#[verifier::external_body]
pub(crate) fn decode_gzip(data: &[u8]) -> (r: Result<Vec<u8>, String>)
    ensures
        match r {
            Ok(bytes) => gunzipped(data@) == Ok::<Seq<u8>, Seq<char>>(bytes@),
            Err(message) => gunzipped(data@) == Err::<Seq<u8>, Seq<char>>(message@),
        },
{
    let mut decoded = Vec::new();
    match flate2::read::GzDecoder::new(data).read_to_end(&mut decoded) {
        Ok(_) => Ok(decoded),
        Err(e) => Err(e.to_string()),
    }
}

/// The MessagePack map that `rmp_serde` writes for entries, in their order.
pub uninterp spec fn messagepack_map(fields: Seq<(Seq<char>, JsonView)>) -> Seq<u8>;

/// `rmp_serde::to_vec_named` on a map. What it writes is named
/// [`messagepack_map`]. It succeeds: the keys are strings, the length of the map
/// is known, and the encoder refuses no value. Running out of memory is left
/// aside.
#[verifier::external_body]
pub(crate) fn encode_messagepack(fields: &IndexMap<String, Value>) -> (r: Result<Vec<u8>, String>)
    ensures
        r is Ok,
        r->Ok_0@ == messagepack_map(fields_of(*fields)),
{
    match rmp_serde::to_vec_named(fields) {
        Ok(bytes) => Ok(bytes),
        Err(e) => Err(e.to_string()),
    }
}

} // verus!
