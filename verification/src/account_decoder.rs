//! Display types for accounts as the RPC surface carries them, and the
//! verified decoding of their binary forms.

use vstd::prelude::*;
use crate::address::Address;
use crate::config::Account;
use crate::codec::base58_decode;
use crate::codec::base58_decode_of;
use crate::codec::base64_decode;
use crate::codec::base64_decode_of;
use crate::codec::zstd_decompress;
use crate::codec::zstd_decompress_of;

verus! {

/// The opaque JSON value a parsed account carries.
#[verifier::external_type_specification]
#[verifier::external_body]
pub struct ExValue(serde_json::Value);

/// A duplicate representation of an account for pretty JSON display.
#[derive(Debug, PartialEq, Eq)]
pub struct UiAccount {
    pub lamports: u64,
    pub data: UiAccountData,
    pub owner: Address,
    pub executable: bool,
    pub rent_epoch: u64,
    pub space: Option<u64>,
}

impl UiAccount {
    /// The account this display form denotes, where its data has a binary
    /// form: every field passes through, with the data decoded.
    pub fn decode(&self) -> (r: Option<Account>)
        ensures
            match r {
                Some(account) => {
                    &&& Some(account.data@) == self.data.spec_decoded()
                    &&& account.lamports == self.lamports
                    &&& account.owner == self.owner
                    &&& account.executable == self.executable
                    &&& account.rent_epoch == self.rent_epoch
                },
                None => self.data.spec_decoded() is None,
            },
    {
        match self.data.decode() {
            Some(data) => Some(
                Account {
                    lamports: self.lamports,
                    data,
                    owner: self.owner,
                    executable: self.executable,
                    rent_epoch: self.rent_epoch,
                },
            ),
            None => None,
        }
    }
}

/// An account's data in one of the display encodings.
#[derive(Debug, PartialEq, Eq)]
pub enum UiAccountData {
    /// Base58 text; retained for RPC backwards compatibility.
    LegacyBinary(String),
    /// A program-parsed rendering; it has no binary form.
    Json(ParsedAccount),
    /// Text in the named encoding.
    Binary(String, UiAccountEncoding),
}

/// The encodings an account's data may be displayed in.
#[derive(Clone, Copy, Debug, PartialEq, Eq, Hash)]
pub enum UiAccountEncoding {
    /// Legacy; retained for RPC backwards compatibility.
    Binary,
    Base58,
    Base64,
    JsonParsed,
    Base64Zstd,
}

/// A program-parsed account rendering.
#[derive(Debug, PartialEq, Eq)]
pub struct ParsedAccount {
    pub program: String,
    pub parsed: serde_json::Value,
    pub space: u64,
}

/// A slice of account data: `length` bytes from `offset`.
#[derive(Clone, Copy, Debug, PartialEq, Eq, Hash)]
pub struct UiDataSliceConfig {
    pub offset: usize,
    pub length: usize,
}

impl UiAccountData {
    /// The bytes this rendering denotes: legacy and base58 text decode as
    /// base58, base64 text as base64, zstd-compressed base64 text as
    /// base64 then zstandard; a parsed rendering and the legacy `Binary`
    /// and `JsonParsed` markers denote none.
    pub open spec fn spec_decoded(&self) -> Option<Seq<u8>> {
        match self {
            UiAccountData::Json(_) => None,
            UiAccountData::LegacyBinary(blob) => base58_decode_of(blob@),
            UiAccountData::Binary(blob, encoding) => match encoding {
                UiAccountEncoding::Base58 => base58_decode_of(blob@),
                UiAccountEncoding::Base64 => base64_decode_of(blob@),
                UiAccountEncoding::Base64Zstd => match base64_decode_of(blob@) {
                    Some(compressed) => zstd_decompress_of(compressed),
                    None => None,
                },
                UiAccountEncoding::Binary => None,
                UiAccountEncoding::JsonParsed => None,
            },
        }
    }

    /// The decoded account data in binary form, where the rendering has
    /// one.
    pub fn decode(&self) -> (r: Option<Vec<u8>>)
        ensures
            match r {
                Some(v) => self.spec_decoded() == Some(v@),
                None => self.spec_decoded() is None,
            },
    {
        match self {
            UiAccountData::Json(_) => None,
            UiAccountData::LegacyBinary(blob) => base58_decode(blob.as_str()),
            UiAccountData::Binary(blob, encoding) => match encoding {
                UiAccountEncoding::Base58 => base58_decode(blob.as_str()),
                UiAccountEncoding::Base64 => base64_decode(blob.as_str()),
                UiAccountEncoding::Base64Zstd => match base64_decode(blob.as_str()) {
                    Some(compressed) => zstd_decompress(compressed.as_slice()),
                    None => None,
                },
                UiAccountEncoding::Binary => None,
                UiAccountEncoding::JsonParsed => None,
            },
        }
    }
}

} // verus!
