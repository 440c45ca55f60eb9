//! Trusted wrappers for the byte-text codecs the display types use. Each
//! codec's result is a pure function of its input, named by an
//! uninterpreted spec function; the wrappers' contracts tie the call to
//! the name.

use vstd::prelude::*;

verus! {

/// The bytes a base58 string denotes, when it is valid base58.
pub uninterp spec fn base58_decode_of(s: Seq<char>) -> Option<Seq<u8>>;

/// The base58 string denoting the bytes.
pub uninterp spec fn base58_encode_of(b: Seq<u8>) -> Seq<char>;

/// The bytes a standard base64 string (with padding) denotes, when it is
/// valid base64.
pub uninterp spec fn base64_decode_of(s: Seq<char>) -> Option<Seq<u8>>;

/// The bytes a zstandard stream decompresses to, when it is one.
pub uninterp spec fn zstd_decompress_of(b: Seq<u8>) -> Option<Seq<u8>>;

/// Relies on `bs58::decode(..).into_vec()`: base58 decoding, a pure
/// function of the input characters.
#[verifier::external_body]
pub(crate) fn base58_decode(s: &str) -> (r: Option<Vec<u8>>)
    ensures
        match r {
            Some(v) => base58_decode_of(s@) == Some(v@),
            None => base58_decode_of(s@) is None,
        },
{
    bs58::decode(s).into_vec().ok()
}

/// Relies on `bs58::encode(..).into_string()`: base58 encoding, a pure
/// function of the input bytes.
#[verifier::external_body]
pub(crate) fn base58_encode(bytes: &[u8]) -> (r: String)
    ensures
        r@ == base58_encode_of(bytes@),
{
    bs58::encode(bytes).into_string()
}

/// Relies on `base64::Engine::decode` with the standard alphabet: base64
/// decoding, a pure function of the input characters.
#[verifier::external_body]
pub(crate) fn base64_decode(s: &str) -> (r: Option<Vec<u8>>)
    ensures
        match r {
            Some(v) => base64_decode_of(s@) == Some(v@),
            None => base64_decode_of(s@) is None,
        },
{
    base64::Engine::decode(&base64::prelude::BASE64_STANDARD, s).ok()
}

/// The standard base64 string (with padding) denoting the bytes.
pub uninterp spec fn base64_encode_of(b: Seq<u8>) -> Seq<char>;

/// Relies on `base64::Engine::encode` with the standard alphabet: base64
/// encoding, a pure function of the input bytes.
#[verifier::external_body]
pub(crate) fn base64_encode(bytes: &[u8]) -> (r: String)
    ensures
        r@ == base64_encode_of(bytes@),
{
    base64::Engine::encode(&base64::prelude::BASE64_STANDARD, bytes)
}

/// Relies on `zstd::stream::read::Decoder` and `Read::read_to_end`:
/// streaming zstandard decompression, a pure function of the input bytes.
#[verifier::external_body]
pub(crate) fn zstd_decompress(bytes: &[u8]) -> (r: Option<Vec<u8>>)
    ensures
        match r {
            Some(v) => zstd_decompress_of(bytes@) == Some(v@),
            None => zstd_decompress_of(bytes@) is None,
        },
{
    let mut data: Vec<u8> = Vec::new();
    zstd::stream::read::Decoder::new(bytes)
        .and_then(|mut reader| std::io::Read::read_to_end(&mut reader, &mut data))
        .map(|_| data)
        .ok()
}

} // verus!
