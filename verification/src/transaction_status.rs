//! Display types for transactions and their statuses as the RPC surface
//! carries them, with verified decoding and commitment logic.

use vstd::prelude::*;
use crate::address::Address;
use crate::codec::base58_decode;
use crate::codec::base58_decode_of;
use crate::codec::base58_encode;
use crate::codec::base58_encode_of;
use crate::codec::base64_encode;
use crate::codec::base64_encode_of;
use crate::codec::base64_decode;
use crate::codec::base64_decode_of;
use crate::commitment::CommitmentConfig;

verus! {

/// The opaque transaction value a binary form decodes to.
#[verifier::external_type_specification]
#[verifier::external_body]
pub struct ExVersionedTransaction(solana_transaction::versioned::VersionedTransaction);

/// The opaque error a failed transaction carries.
#[verifier::external_type_specification]
#[verifier::external_body]
pub struct ExTransactionError(solana_transaction_error::TransactionError);

/// Whether the bytes deserialize to a versioned transaction: a pure
/// function of the bytes.
pub uninterp spec fn deserializes_as_transaction(b: Seq<u8>) -> bool;

/// Relies on `bincode::deserialize`: whether the bytes parse as a
/// versioned transaction depends on the bytes alone. The parsed value
/// itself is opaque.
#[verifier::external_body]
fn deserialize_transaction(bytes: &[u8]) -> (r: Option<
    solana_transaction::versioned::VersionedTransaction,
>)
    ensures
        (r is Some) == deserializes_as_transaction(bytes@),
{
    bincode::deserialize(bytes).ok()
}

/// Relies on `VersionedTransaction::sanitize`: the transaction's internal
/// consistency check. Its verdict depends on an opaque value, so nothing
/// is promised of it.
#[verifier::external_body]
fn transaction_is_sanitary(tx: &solana_transaction::versioned::VersionedTransaction) -> bool {
    tx.sanitize().is_ok()
}

/// The two binary wire encodings of a transaction.
#[derive(Clone, Copy, Debug, PartialEq, Eq, Hash)]
pub enum TransactionBinaryEncoding {
    Base58,
    Base64,
}

/// The encodings a transaction may be displayed in.
#[derive(Clone, Copy, Debug, PartialEq, Eq, Hash)]
pub enum UiTransactionEncoding {
    /// Legacy; retained for RPC backwards compatibility.
    Binary,
    Base64,
    Base58,
    Json,
    JsonParsed,
}

impl UiTransactionEncoding {
    /// The binary encoding this display encoding corresponds to: the
    /// legacy marker and base58 are base58, base64 is base64, and the JSON
    /// forms have none.
    pub open spec fn spec_binary_encoding(self) -> Option<TransactionBinaryEncoding> {
        match self {
            UiTransactionEncoding::Binary => Some(TransactionBinaryEncoding::Base58),
            UiTransactionEncoding::Base58 => Some(TransactionBinaryEncoding::Base58),
            UiTransactionEncoding::Base64 => Some(TransactionBinaryEncoding::Base64),
            UiTransactionEncoding::Json => None,
            UiTransactionEncoding::JsonParsed => None,
        }
    }

    pub fn into_binary_encoding(&self) -> (r: Option<TransactionBinaryEncoding>)
        ensures
            r == self.spec_binary_encoding(),
    {
        match self {
            UiTransactionEncoding::Binary | UiTransactionEncoding::Base58 => Some(
                TransactionBinaryEncoding::Base58,
            ),
            UiTransactionEncoding::Base64 => Some(TransactionBinaryEncoding::Base64),
            _ => None,
        }
    }
}

/// How much of each transaction a block query returns.
#[derive(Clone, Copy, Debug, PartialEq, Eq, Hash)]
pub enum TransactionDetails {
    Full,
    Signatures,
    /// No per-transaction details at all.
    NoDetails,
    Accounts,
}

impl Default for TransactionDetails {
    /// The default detail level is everything.
    fn default() -> (r: Self)
        ensures
            r is Full,
    {
        TransactionDetails::Full
    }
}

/// Why a transaction could not be encoded.
#[derive(Clone, Debug, PartialEq, Eq)]
pub enum EncodeError {
    /// The chosen encoding does not support the transaction's version.
    UnsupportedTransactionVersion(u8),
}

/// How far a transaction's confirmation has progressed.
#[derive(Clone, Copy, Debug, PartialEq, Eq)]
pub enum TransactionConfirmationStatus {
    Processed,
    Confirmed,
    Finalized,
}

/// Where a displayed account of a message came from.
#[derive(Clone, Copy, Debug, PartialEq, Eq)]
pub enum ParsedAccountSource {
    /// Listed by the transaction itself.
    Transaction,
    /// Loaded through an address lookup table.
    LookupTable,
}

/// The encodings return data may be displayed in.
#[derive(Clone, Copy, Debug, PartialEq, Eq, Hash)]
pub enum UiReturnDataEncoding {
    Base64,
}

impl Default for UiReturnDataEncoding {
    fn default() -> (r: Self)
        ensures
            r is Base64,
    {
        UiReturnDataEncoding::Base64
    }
}

/// A transaction's return data for pretty JSON display: the program that
/// set it, and the data as base64 text with its encoding marker.
#[derive(Debug, PartialEq, Eq)]
pub struct UiTransactionReturnData {
    pub program_id: Address,
    pub data: (String, UiReturnDataEncoding),
}

impl UiTransactionReturnData {
    /// The display form of a transaction's return data: the program id
    /// passes through and the raw bytes are encoded to base64 text.
    pub fn from(program_id: Address, data: &[u8]) -> (r: UiTransactionReturnData)
        ensures
            r.program_id == program_id,
            r.data.0@ == base64_encode_of(data@),
            r.data.1 is Base64,
    {
        UiTransactionReturnData {
            program_id,
            data: (base64_encode(data), UiReturnDataEncoding::Base64),
        }
    }
}

/// An account of a displayed message.
#[derive(Clone, Copy, Debug, PartialEq, Eq)]
pub struct ParsedAccount {
    pub pubkey: Address,
    pub writable: bool,
    pub signer: bool,
    pub source: Option<ParsedAccountSource>,
}

/// A message header: how many of the message's accounts sign, and how
/// many of the signing and non-signing accounts are read-only.
#[derive(Clone, Copy, Debug, PartialEq, Eq)]
pub struct MessageHeader {
    pub num_required_signatures: u8,
    pub num_readonly_signed_accounts: u8,
    pub num_readonly_unsigned_accounts: u8,
}

/// A compiled instruction: the index of its program id among the
/// message's account keys, the indexes of its accounts, and its raw data.
#[derive(Clone, Debug, PartialEq, Eq)]
pub struct CompiledInstruction {
    pub program_id_index: u8,
    pub accounts: Vec<u8>,
    pub data: Vec<u8>,
}

/// A duplicate representation of a compiled instruction for pretty JSON
/// display; its data is base58 text.
#[derive(Clone, Debug, PartialEq, Eq)]
pub struct UiCompiledInstruction {
    pub program_id_index: u8,
    pub accounts: Vec<u8>,
    pub data: String,
    pub stack_height: Option<u32>,
}

/// What the display form of a compiled instruction holds: the index and
/// the account indexes pass through, the data is base58 text.
pub open spec fn spec_ui_compiled_instruction(
    ui: UiCompiledInstruction,
    instruction: CompiledInstruction,
    stack_height: Option<u32>,
) -> bool {
    &&& ui.program_id_index == instruction.program_id_index
    &&& ui.accounts@ == instruction.accounts@
    &&& ui.data@ == base58_encode_of(instruction.data@)
    &&& ui.stack_height == stack_height
}

impl UiCompiledInstruction {
    /// The display form of a compiled instruction at the given invocation
    /// stack height: the data is encoded to base58 text, the rest passes
    /// through.
    pub fn from(instruction: &CompiledInstruction, stack_height: Option<u32>) -> (r:
        UiCompiledInstruction)
        ensures
            spec_ui_compiled_instruction(r, *instruction, stack_height),
    {
        UiCompiledInstruction {
            program_id_index: instruction.program_id_index,
            accounts: instruction.accounts.clone(),
            data: base58_encode(instruction.data.as_slice()),
            stack_height,
        }
    }
}

/// An inner instruction with its invocation stack height.
#[derive(Clone, Debug, PartialEq, Eq)]
pub struct InnerInstruction {
    /// The compiled instruction.
    pub instruction: CompiledInstruction,
    /// The invocation stack height of the instruction.
    pub stack_height: Option<u32>,
}

/// The inner instructions one transaction instruction invoked.
#[derive(Clone, Debug, PartialEq, Eq)]
pub struct InnerInstructions {
    /// The transaction instruction's index.
    pub index: u8,
    /// The inner instructions it invoked, in order.
    pub instructions: Vec<InnerInstruction>,
}

/// The display form of one instruction's inner instructions.
#[derive(Debug, PartialEq, Eq)]
pub struct UiInnerInstructions {
    /// The transaction instruction's index.
    pub index: u8,
    /// The inner instructions' display forms, in order.
    pub instructions: Vec<UiInstruction>,
}

impl UiInnerInstructions {
    /// The display form of an instruction's inner instructions: the index
    /// passes through, and each inner instruction becomes a compiled
    /// display form at its own stack height.
    pub fn from(inner_instructions: InnerInstructions) -> (r: UiInnerInstructions)
        ensures
            r.index == inner_instructions.index,
            r.instructions@.len() == inner_instructions.instructions@.len(),
            forall|i: int|
                0 <= i < inner_instructions.instructions@.len() ==> (
                #[trigger] r.instructions@[i] matches UiInstruction::Compiled(ui)
                    && spec_ui_compiled_instruction(
                    ui,
                    inner_instructions.instructions@[i].instruction,
                    inner_instructions.instructions@[i].stack_height,
                )),
    {
        let InnerInstructions { index, instructions } = inner_instructions;
        let mut displayed: Vec<UiInstruction> = Vec::new();
        let n = instructions.len();
        let mut i: usize = 0;
        while i < n
            invariant
                i <= n,
                n == instructions@.len(),
                displayed@.len() == i,
                forall|j: int|
                    0 <= j < i ==> (#[trigger] displayed@[j] matches UiInstruction::Compiled(
                        ui,
                    ) && spec_ui_compiled_instruction(
                        ui,
                        instructions@[j].instruction,
                        instructions@[j].stack_height,
                    )),
            decreases n - i,
        {
            let entry = &instructions[i];
            displayed.push(
                UiInstruction::Compiled(
                    UiCompiledInstruction::from(&entry.instruction, entry.stack_height),
                ),
            );
            i = i + 1;
        }
        UiInnerInstructions { index, instructions: displayed }
    }
}

/// A raw displayed message: header, account keys and blockhash as base58
/// text, compiled instructions, and any address table lookups.
#[derive(Clone, Debug, PartialEq, Eq)]
pub struct UiRawMessage {
    pub header: MessageHeader,
    pub account_keys: Vec<String>,
    pub recent_blockhash: String,
    pub instructions: Vec<UiCompiledInstruction>,
    pub address_table_lookups: Option<Vec<UiAddressTableLookup>>,
}

/// A duplicate representation of an address table lookup for pretty JSON
/// display.
#[derive(Clone, Debug, PartialEq, Eq)]
pub struct UiAddressTableLookup {
    pub account_key: Address,
    pub writable_indexes: Vec<u8>,
    pub readonly_indexes: Vec<u8>,
}

/// A program-parsed displayed instruction.
#[derive(Debug, PartialEq, Eq)]
pub struct ParsedInstruction {
    pub program: String,
    pub program_id: Address,
    pub parsed: serde_json::Value,
    pub stack_height: Option<u32>,
}

/// A partially decoded instruction: explicit account addresses, data as
/// base58 text.
#[derive(Clone, Debug, PartialEq, Eq)]
pub struct UiPartiallyDecodedInstruction {
    pub program_id: Address,
    pub accounts: Vec<Address>,
    pub data: String,
    pub stack_height: Option<u32>,
}

/// A displayed instruction in parsed form.
#[derive(Debug, PartialEq, Eq)]
pub enum UiParsedInstruction {
    Parsed(ParsedInstruction),
    PartiallyDecoded(UiPartiallyDecodedInstruction),
}

/// A displayed instruction.
#[derive(Debug, PartialEq, Eq)]
pub enum UiInstruction {
    Compiled(UiCompiledInstruction),
    Parsed(UiParsedInstruction),
}

/// A parsed displayed message.
#[derive(Debug, PartialEq, Eq)]
pub struct UiParsedMessage {
    pub account_keys: Vec<ParsedAccount>,
    pub recent_blockhash: String,
    pub instructions: Vec<UiInstruction>,
    pub address_table_lookups: Option<Vec<UiAddressTableLookup>>,
}

/// A displayed message, parsed or raw.
#[derive(Debug, PartialEq, Eq)]
pub enum UiMessage {
    Parsed(UiParsedMessage),
    Raw(UiRawMessage),
}

/// A duplicate representation of a transaction for pretty JSON display;
/// its signatures are base58 text.
#[derive(Debug, PartialEq, Eq)]
pub struct UiTransaction {
    pub signatures: Vec<String>,
    pub message: UiMessage,
}

/// A transaction rendered as its accounts alone.
#[derive(Debug, PartialEq, Eq)]
pub struct UiAccountsList {
    pub signatures: Vec<String>,
    pub account_keys: Vec<ParsedAccount>,
}

/// A transaction in one of the forms the RPC surface returns.
#[derive(Debug, PartialEq, Eq)]
pub enum EncodedTransaction {
    /// Base58 text; the old way of expressing binary, retained for RPC
    /// backwards compatibility.
    LegacyBinary(String),
    /// Text in the named binary encoding.
    Binary(String, TransactionBinaryEncoding),
    /// A JSON rendering; it has no binary form.
    Json(UiTransaction),
    /// An accounts-only rendering; it has no binary form.
    Accounts(UiAccountsList),
}

impl EncodedTransaction {
    /// The bytes this form's text denotes: legacy text decodes as base58,
    /// binary text as its named encoding; the JSON forms denote none.
    pub open spec fn spec_binary_bytes(&self) -> Option<Seq<u8>> {
        match self {
            EncodedTransaction::Json(_) => None,
            EncodedTransaction::Accounts(_) => None,
            EncodedTransaction::LegacyBinary(blob) => base58_decode_of(blob@),
            EncodedTransaction::Binary(blob, encoding) => match encoding {
                TransactionBinaryEncoding::Base58 => base58_decode_of(blob@),
                TransactionBinaryEncoding::Base64 => base64_decode_of(blob@),
            },
        }
    }

    /// Decode the wire form: the text's bytes, deserialized as a versioned
    /// transaction and kept only when the transaction sanitizes. Nothing
    /// is returned when the form has no binary bytes, when the text does
    /// not decode, or when the bytes do not deserialize; what deserializes
    /// is additionally screened by the opaque sanitization check.
    pub fn decode(&self) -> (r: Option<solana_transaction::versioned::VersionedTransaction>)
        ensures
            r is Some ==> self.spec_binary_bytes() is Some,
            r is Some ==> deserializes_as_transaction(self.spec_binary_bytes()->0),
            self.spec_binary_bytes() is None ==> r is None,
            self.spec_binary_bytes() matches Some(b) && !deserializes_as_transaction(b) ==> r
                is None,
    {
        let decoded: Option<Vec<u8>> = match self {
            EncodedTransaction::Json(_) => None,
            EncodedTransaction::Accounts(_) => None,
            EncodedTransaction::LegacyBinary(blob) => base58_decode(blob.as_str()),
            EncodedTransaction::Binary(blob, encoding) => match encoding {
                TransactionBinaryEncoding::Base58 => base58_decode(blob.as_str()),
                TransactionBinaryEncoding::Base64 => base64_decode(blob.as_str()),
            },
        };
        match decoded {
            Some(bytes) => match deserialize_transaction(bytes.as_slice()) {
                Some(tx) => {
                    if transaction_is_sanitary(&tx) {
                        Some(tx)
                    } else {
                        None
                    }
                },
                None => None,
            },
            None => None,
        }
    }
}

/// A transaction's confirmation status as the RPC surface reports it.
#[derive(Debug, PartialEq, Eq)]
pub struct TransactionStatus {
    pub slot: u64,
    /// Confirmations so far; none means the transaction is rooted.
    pub confirmations: Option<usize>,
    /// The transaction's result; this field is kept for RPC backwards
    /// compatibility beside `err`.
    pub status: Result<(), solana_transaction_error::TransactionError>,
    pub err: Option<solana_transaction_error::TransactionError>,
    pub confirmation_status: Option<TransactionConfirmationStatus>,
}

impl TransactionStatus {
    /// Whether this status meets the commitment: finalized commitment
    /// demands a rooted transaction; confirmed commitment demands a
    /// confirmation status beyond processed, falling back, for statuses
    /// from older software that carry none, to more than one confirmation
    /// or a rooted transaction; processed commitment is always met.
    pub open spec fn spec_satisfies_commitment(&self, commitment_config: CommitmentConfig) -> bool {
        if commitment_config.commitment is Finalized {
            self.confirmations is None
        } else if commitment_config.commitment is Confirmed {
            match self.confirmation_status {
                Some(status) => !(status is Processed),
                None => (self.confirmations matches Some(n) && n > 1) || self.confirmations
                    is None,
            }
        } else {
            true
        }
    }

    pub fn satisfies_commitment(&self, commitment_config: CommitmentConfig) -> (r: bool)
        ensures
            r == self.spec_satisfies_commitment(commitment_config),
    {
        if commitment_config.is_finalized() {
            self.confirmations.is_none()
        } else if commitment_config.is_confirmed() {
            match &self.confirmation_status {
                Some(status) => {
                    match status {
                        TransactionConfirmationStatus::Processed => false,
                        _ => true,
                    }
                },
                None => {
                    // These fallback cases handle statuses from older
                    // software.
                    match self.confirmations {
                        Some(n) => n > 1,
                        None => true,
                    }
                },
            }
        } else {
            true
        }
    }

    /// The confirmation status, determined from the confirmation count
    /// when the field is absent (statuses from older software): rooted is
    /// finalized, a positive count is confirmed, a zero count is
    /// processed.
    pub open spec fn spec_confirmation_status(&self) -> TransactionConfirmationStatus {
        match self.confirmation_status {
            Some(status) => status,
            None => match self.confirmations {
                None => TransactionConfirmationStatus::Finalized,
                Some(n) => if n > 0 {
                    TransactionConfirmationStatus::Confirmed
                } else {
                    TransactionConfirmationStatus::Processed
                },
            },
        }
    }

    pub fn confirmation_status(&self) -> (r: TransactionConfirmationStatus)
        ensures
            r == self.spec_confirmation_status(),
    {
        match &self.confirmation_status {
            Some(status) => *status,
            None => match self.confirmations {
                None => TransactionConfirmationStatus::Finalized,
                Some(n) => if n > 0 {
                    TransactionConfirmationStatus::Confirmed
                } else {
                    TransactionConfirmationStatus::Processed
                },
            },
        }
    }
}

} // verus!
