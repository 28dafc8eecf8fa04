use vstd::prelude::*;
use base64::Engine;
use flate2::read::GzDecoder;
use sha2::{Digest, Sha256};
use wasmparser::types::Types;

verus! {

/// Standard base64 text (with padding) of some bytes.
pub uninterp spec fn base64_text(b: Seq<u8>) -> Seq<char>;

/// The bytes that a standard base64 text decodes to, or `None` when it is not
/// valid base64.
pub uninterp spec fn base64_decoded(s: Seq<char>) -> Option<Seq<u8>>;

/// SHA-256 digest of some bytes.
pub uninterp spec fn sha256_of(b: Seq<u8>) -> Seq<u8>;

/// What inflating a gzip stream gives: the bytes, or the decoder's error text.
pub type Inflated = Result<Seq<u8>, Seq<char>>;

/// The bytes that a gzip stream inflates to, or the decoder's error text.
pub uninterp spec fn gunzip_of(b: Seq<u8>) -> Inflated;

/// The validator's complaint about a WebAssembly module, or `None` for a
/// valid one.
pub uninterp spec fn wasm_problem(b: Seq<u8>) -> Option<Seq<char>>;

/// Type information that validation of a WebAssembly module gathers.
#[verifier::external_type_specification]
#[verifier::external_body]
pub struct ExTypes(Types);

/// Relies on `base64::engine::general_purpose::STANDARD.encode`; its decoder
/// reads that text back to the same bytes.
#[verifier::external_body]
fn encode_standard(bytes: &Vec<u8>) -> (r: String)
    ensures
        r@ == base64_text(bytes@),
        base64_decoded(r@) == Some(bytes@),
{
    base64::engine::general_purpose::STANDARD.encode(bytes)
}

/// Relies on `base64::engine::general_purpose::STANDARD.decode`.
#[verifier::external_body]
fn decode_standard(text: &str) -> (r: Option<Vec<u8>>)
    ensures
        r is Some <==> base64_decoded(text@) is Some,
        r matches Some(b) ==> base64_decoded(text@) == Some(b@),
{
    base64::engine::general_purpose::STANDARD.decode(text).ok()
}

/// Relies on `sha2::Sha256` (`new`, `update`, `finalize`): a 32-byte digest.
#[verifier::external_body]
fn sha256(bytes: &Vec<u8>) -> (r: Vec<u8>)
    ensures
        r@ == sha256_of(bytes@),
        r@.len() == 32,
{
    let mut hasher = Sha256::new();
    hasher.update(bytes);
    hasher.finalize().to_vec()
}

/// Relies on `flate2::read::GzDecoder` read to the end, and on the text of
/// its `std::io::Error`.
#[verifier::external_body]
fn gunzip(bytes: &[u8]) -> (r: Result<Vec<u8>, String>)
    ensures
        r matches Ok(v) ==> gunzip_of(bytes@) == Inflated::Ok(v@),
        r matches Err(e) ==> gunzip_of(bytes@) == Inflated::Err(e@),
{
    let mut decoder = GzDecoder::new(bytes);
    let mut out = Vec::new();
    match std::io::Read::read_to_end(&mut decoder, &mut out) {
        Ok(_) => Ok(out),
        Err(e) => Err(e.to_string()),
    }
}

/// Relies on `wasmparser::Validator::new().validate_all`, and on the text of
/// its error.
#[verifier::external_body]
fn validate_module(bytes: &[u8]) -> (r: Result<Types, String>)
    ensures
        r is Ok <==> wasm_problem(bytes@) is None,
        r matches Err(e) ==> wasm_problem(bytes@) == Some(e@),
{
    wasmparser::Validator::new().validate_all(bytes).map_err(|e| e.to_string())
}

/// Standard base64 text of `bytes`; decoding it gives `bytes` back.
pub fn bytes_to_base64(bytes: Vec<u8>) -> (r: String)
    ensures
        r@ == base64_text(bytes@),
        base64_decoded(r@) == Some(bytes@),
{
    encode_standard(&bytes)
}

/// The bytes that standard base64 `logo` decodes to; `None` when it is not
/// valid base64.
pub fn base64_to_bytes(logo: &String) -> (r: Option<Vec<u8>>)
    ensures
        r is Some <==> base64_decoded(logo@) is Some,
        r matches Some(b) ==> base64_decoded(logo@) == Some(b@),
{
    decode_standard(logo.as_str())
}

/// Encoding bytes as base64 and decoding the text gives the same bytes back,
/// for every byte sequence, the empty one included.
pub fn base64_round_trip(bytes: Vec<u8>) -> (r: Option<Vec<u8>>)
    ensures
        r matches Some(b) && b@ == bytes@,
{
    let text = bytes_to_base64(bytes);
    base64_to_bytes(&text)
}

/// SHA-256 digest of `bytes`.
pub fn generate_checksum(bytes: &Vec<u8>) -> (r: Vec<u8>)
    ensures
        r@ == sha256_of(bytes@),
        r@.len() == 32,
{
    sha256(bytes)
}

/// Inflates a gzip stream; the decoder's error text on failure.
pub fn decompress_wasm_gz(gzipped_wasm: &[u8]) -> (r: Result<Vec<u8>, String>)
    ensures
        r matches Ok(v) ==> gunzip_of(gzipped_wasm@) == Inflated::Ok(v@),
        r matches Err(e) ==> gunzip_of(gzipped_wasm@) == Inflated::Err(e@),
{
    gunzip(gzipped_wasm)
}

/// Inflates a gzip stream and validates the WebAssembly module inside: the
/// decoder's error if it cannot be inflated, else the validator's verdict.
pub fn validate_gzipped_wasm(wasm_bytes: &[u8]) -> (r: Result<Types, String>)
    ensures
        gunzip_of(wasm_bytes@) matches Err(e) ==> (r matches Err(m) && m@ == e),
        gunzip_of(wasm_bytes@) matches Ok(w) ==> {
            &&& (r is Ok <==> wasm_problem(w) is None)
            &&& (r matches Err(m) ==> wasm_problem(w) == Some(m@))
        },
{
    let decompressed = decompress_wasm_gz(wasm_bytes)?;
    validate_module(decompressed.as_slice())
}

} // verus!
