//! Calls into outside crates and into parts of the standard library, each behind a stated contract.
//!
//! Nothing here is proved: every contract below is what the crate's documentation and source say.
//! Running out of memory is left aside throughout.

use vstd::prelude::*;
use vstd::string::*;
use vstd::utf8::*;

use aes::cipher::generic_array::GenericArray;
use aes::cipher::{BlockEncrypt, KeyInit};
use base64::engine::general_purpose::{STANDARD, URL_SAFE_NO_PAD};
use base64::Engine;

use crate::encoding;

verus! {

/// `base64::engine::general_purpose::STANDARD.encode`: the standard alphabet, padded.
#[verifier::external_body]
pub(crate) fn base64_encode(bytes: &[u8]) -> (r: String)
    ensures
        r@ == encoding::base64_of(bytes@, false, true),
{
    STANDARD.encode(bytes)
}

/// `base64::engine::general_purpose::URL_SAFE_NO_PAD.encode`: the URL-safe alphabet, not padded.
#[verifier::external_body]
pub(crate) fn base64_url_encode(bytes: &[u8]) -> (r: String)
    ensures
        r@ == encoding::base64_of(bytes@, true, false),
{
    URL_SAFE_NO_PAD.encode(bytes)
}

/// What `base64` says of a text that it does not decode.
pub uninterp spec fn base64_problem(text: Seq<char>) -> Seq<char>;

/// `base64::engine::general_purpose::STANDARD.decode`: it takes exactly the texts that the encoder
/// gives, with canonical padding and no stray bits, and gives back what was encoded.
#[verifier::external_body]
pub(crate) fn base64_decode(text: &str) -> (r: Result<Vec<u8>, String>)
    ensures
        match r {
            Ok(bytes) => encoding::base64_of(bytes@, false, true) == text@,
            Err(problem) => (forall|b: Seq<u8>| #[trigger] encoding::base64_of(b, false, true) != text@)
                && problem@ == base64_problem(text@),
        },
{
    STANDARD.decode(text).map_err(|e| e.to_string())
}

/// `urlencoding::encode`: percent-encodes the UTF-8 bytes of the text.
#[verifier::external_body]
pub(crate) fn url_encode(s: &str) -> (r: String)
    ensures
        r@ == encoding::percent_encoded(encode_utf8(s@)),
{
    urlencoding::encode(s).into_owned()
}

/// `uuid::Uuid::new_v4`, as bytes: any version 4 UUID may come. The system's source of random
/// numbers is taken to work.
#[verifier::external_body]
pub(crate) fn new_uuid() -> (r: [u8; 16])
    ensures
        encoding::is_uuid_v4(r@),
{
    *uuid::Uuid::new_v4().as_bytes()
}

/// `uuid::Uuid::to_string`: the hyphenated form.
#[verifier::external_body]
pub(crate) fn uuid_to_text(b: &[u8; 16]) -> (r: String)
    ensures
        r@ == encoding::uuid_text(b@),
{
    uuid::Uuid::from_bytes(*b).to_string()
}

/// The MD5 digest of some bytes.
pub uninterp spec fn md5_digest(bytes: Seq<u8>) -> Seq<u8>;

/// `md5::compute`: sixteen bytes that depend on the input alone.
#[verifier::external_body]
pub(crate) fn md5_compute(bytes: &[u8]) -> (r: [u8; 16])
    ensures
        r@ == md5_digest(bytes@),
{
    md5::compute(bytes).0
}

/// One block of AES-128 under a key.
pub uninterp spec fn aes128_block(key: Seq<u8>, block: Seq<u8>) -> Seq<u8>;

/// `aes::Aes128::encrypt_block`: sixteen bytes that depend on the key and the block alone.
#[verifier::external_body]
pub(crate) fn aes128_encrypt_block(key: &[u8; 16], block: &[u8; 16]) -> (r: [u8; 16])
    ensures
        r@ == aes128_block(key@, block@),
{
    let cipher = aes::Aes128::new(GenericArray::from_slice(key));
    let mut out = GenericArray::clone_from_slice(block);
    cipher.encrypt_block(&mut out);
    out.into()
}

/// A QR symbol: `modules` holds the rows from the top, `true` for dark.
#[derive(Debug)]
pub struct QrMatrix {
    pub size: i32,
    pub modules: Vec<bool>,
}

impl QrMatrix {
    /// A square of modules, of a side that a QR symbol can have.
    pub open spec fn wf(&self) -> bool {
        &&& 21 <= self.size <= 177
        &&& self.modules@.len() == self.size * self.size
    }
}

/// The side and the modules of the QR symbol for a text at medium error correction, where it fits.
pub uninterp spec fn qr_symbol(text: Seq<char>) -> Option<(int, Seq<bool>)>;

/// `qrcodegen::QrCode::encode_text` at medium error correction, read out row by row with
/// `get_module`: `None` where the text is too long for any QR symbol.
#[verifier::external_body]
pub(crate) fn qr_encode(text: &str) -> (r: Option<QrMatrix>)
    ensures
        match r {
            Some(m) => m.wf() && qr_symbol(text@) == Some((m.size as int, m.modules@)),
            None => qr_symbol(text@) is None,
        },
{
    let qr = qrcodegen::QrCode::encode_text(text, qrcodegen::QrCodeEcc::Medium).ok()?;
    let size = qr.size();
    let mut modules = Vec::new();
    for y in 0..size {
        for x in 0..size {
            modules.push(qr.get_module(x, y));
        }
    }
    Some(QrMatrix { size, modules })
}

/// The compact form of a JSON text, or `None` where the text is no JSON.
pub uninterp spec fn compact_json(text: Seq<char>) -> Option<Seq<char>>;

/// `serde_json::from_str` into a `serde_json::Value`, written out again by `serde_json::to_string`:
/// the compact form of the value that the text stands for.
#[verifier::external_body]
pub(crate) fn json_compact(text: &str) -> (r: Option<String>)
    ensures
        match r {
            Some(t) => compact_json(text@) == Some(t@),
            None => compact_json(text@) is None,
        },
{
    let value: serde_json::Value = serde_json::from_str(text).ok()?;
    serde_json::to_string(&value).ok()
}

/// The compact form of the JSON value that some bytes stand for, or what `serde_json` says of bytes
/// that are no JSON.
pub uninterp spec fn json_of_bytes(bytes: Seq<u8>) -> Result<Seq<char>, Seq<char>>;

/// `serde_json::from_slice` into a `serde_json::Value`, written out again as compact text. The
/// outcome depends on the bytes alone.
#[verifier::external_body]
pub(crate) fn json_from_bytes(bytes: &[u8]) -> (r: Result<String, String>)
    ensures
        match r {
            Ok(text) => json_of_bytes(bytes@) == Ok::<Seq<char>, Seq<char>>(text@),
            Err(problem) => json_of_bytes(bytes@) == Err::<Seq<char>, Seq<char>>(problem@),
        },
{
    match serde_json::from_slice::<serde_json::Value>(bytes) {
        Ok(value) => Ok(value.to_string()),
        Err(error) => Err(error.to_string()),
    }
}

/// `serde_json::Value::String` written out: the quoted and escaped form of a string.
#[verifier::external_body]
pub(crate) fn json_quote(s: &str) -> (r: String)
    ensures
        r@ == encoding::json_string(s@),
{
    serde_json::Value::String(s.to_owned()).to_string()
}

/// `core::str::from_utf8`: the text of valid UTF-8, and nothing for other bytes.
#[verifier::external_body]
pub(crate) fn utf8_text(bytes: &[u8]) -> (r: Option<&str>)
    ensures
        match r {
            Some(s) => valid_utf8(bytes@) && s@ == decode_utf8(bytes@),
            None => !valid_utf8(bytes@),
        },
{
    core::str::from_utf8(bytes).ok()
}

/// The text of some bytes with every invalid UTF-8 sequence replaced.
pub uninterp spec fn lossy_utf8(bytes: Seq<u8>) -> Seq<char>;

/// `String::from_utf8_lossy`: valid UTF-8 is kept as it is.
#[verifier::external_body]
pub(crate) fn utf8_lossy_text(bytes: &[u8]) -> (r: String)
    ensures
        r@ == lossy_utf8(bytes@),
        valid_utf8(bytes@) ==> r@ == decode_utf8(bytes@),
{
    String::from_utf8_lossy(bytes).into_owned()
}

} // verus!
