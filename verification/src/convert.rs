//! Conversion of transactions from the form in which a node's JSON
//! interface hands them out: keys, hashes, signatures and payloads as text
//! in base 58.

use vstd::prelude::*;
use vstd::string::*;
use crate::instruction::{copy_bytes, CompiledInstruction, CompiledInstructionView};
use crate::pubkey::{array_from_slice, key_of_bytes, lemma_key_of_bytes, Pubkey};
use crate::transaction::{
    balance_views, hash_of_bytes, inner_views, instruction_views, lemma_hash_of_bytes,
    lemma_signature_of_bytes, log_view, lookup_views, rewards_view, signature_of_bytes,
    InnerInstructions, InnerInstructionsView, LoadedAddresses, LoadedAddressesView, Message,
    MessageAddressTableLookup, MessageAddressTableLookupView, MessageHeader, MessageV0, Reward,
    Signature, TransactionStatusMeta, TransactionStatusMetaView,
    TransactionTokenBalance, TransactionTokenBalanceView, TransactionWithStatusMeta,
    TransactionWithStatusMetaView, UiTokenAmount, VersionedMessage, VersionedMessageView,
    VersionedTransaction, VersionedTransactionView, VersionedTransactionWithStatusMeta,
};
use crate::trusted::{
    base58_decode, base58_decoding, binary_decoding, decoded_account_keys, decoded_blockhash,
    decoded_header, decoded_instructions, decoded_lookups, decoded_signatures,
};

verus! {

/// Why a transaction could not be converted.
#[derive(Clone, Copy, Debug, PartialEq, Eq, Structural)]
pub enum ConversionError {
    BinaryDecodingFailed,
    SignatureDecodingFailed,
    HashDecodingFailed,
    PubkeyDecodingFailed,
    DataDecodingFailed,
    UnexpectedUiParsed,
    NonLegacyMissingMeta,
}

/// An instruction with its payload as text in base 58.
#[derive(Debug, PartialEq, Eq)]
pub struct UiCompiledInstruction {
    pub program_id_index: u8,
    pub accounts: Vec<u8>,
    pub data: String,
}

/// An instruction as the interface hands it out: compiled, or parsed into a
/// form of the interface's own, which cannot be converted.
#[derive(Debug, PartialEq, Eq)]
pub enum UiInstruction {
    Compiled(UiCompiledInstruction),
    Parsed,
}

#[derive(Debug, PartialEq, Eq)]
pub struct UiInnerInstructions {
    pub index: u8,
    pub instructions: Vec<UiInstruction>,
}

#[derive(Debug, PartialEq, Eq)]
pub struct UiAddressTableLookup {
    pub account_key: String,
    pub writable_indexes: Vec<u8>,
    pub readonly_indexes: Vec<u8>,
}

/// A balance of a token account; the owner is absent where the ledger does
/// not tell it.
#[derive(Debug, PartialEq, Eq)]
pub struct UiTransactionTokenBalance {
    pub account_index: u8,
    pub mint: String,
    pub ui_token_amount: UiTokenAmount,
    pub owner: Option<String>,
}

#[derive(Debug, PartialEq, Eq)]
pub struct UiLoadedAddresses {
    pub writable: Vec<String>,
    pub readonly: Vec<String>,
}

/// A message with its keys and hash as text; the lookups are absent in the
/// first format.
#[derive(Debug, PartialEq, Eq)]
pub struct UiRawMessage {
    pub header: MessageHeader,
    pub account_keys: Vec<String>,
    pub recent_blockhash: String,
    pub instructions: Vec<UiCompiledInstruction>,
    pub address_table_lookups: Option<Vec<UiAddressTableLookup>>,
}

/// A message as the interface hands it out: raw, or parsed into a form of
/// the interface's own, which cannot be converted.
#[derive(Debug, PartialEq, Eq)]
pub enum UiMessage {
    Parsed,
    Raw(UiRawMessage),
}

#[derive(Debug, PartialEq, Eq)]
pub struct UiTransaction {
    pub signatures: Vec<String>,
    pub message: UiMessage,
}

#[derive(Debug, PartialEq, Eq)]
pub struct UiTransactionStatusMeta {
    pub succeeded: bool,
    pub fee: u64,
    pub pre_balances: Vec<u64>,
    pub post_balances: Vec<u64>,
    pub inner_instructions: Option<Vec<UiInnerInstructions>>,
    pub log_messages: Option<Vec<String>>,
    pub pre_token_balances: Option<Vec<UiTransactionTokenBalance>>,
    pub post_token_balances: Option<Vec<UiTransactionTokenBalance>>,
    pub rewards: Option<Vec<Reward>>,
    pub loaded_addresses: Option<UiLoadedAddresses>,
}

#[derive(Clone, Copy, Debug, PartialEq, Eq, Structural)]
pub enum TransactionBinaryEncoding {
    Base58,
    Base64,
}

/// A transaction as the interface hands it out: as one text, or as a
/// structure with its parts as text.
#[derive(Debug, PartialEq, Eq)]
pub enum EncodedTransaction {
    /// A text in base 58.
    LegacyBinary(String),
    Binary(String, TransactionBinaryEncoding),
    Json(UiTransaction),
}

#[derive(Debug, PartialEq, Eq)]
pub struct EncodedTransactionWithStatusMeta {
    pub transaction: EncodedTransaction,
    pub meta: Option<UiTransactionStatusMeta>,
}

/// The bytes that a text of at most `longest` bytes stands for in base 58,
/// where they are `size` bytes.
pub open spec fn sized_decoding(text: Seq<char>, longest: int, size: int) -> Option<Seq<u8>> {
    if vstd::utf8::encode_utf8(text).len() > longest {
        None
    } else {
        match base58_decoding(text) {
            Some(bytes) => if bytes.len() == size {
                Some(bytes)
            } else {
                None
            },
            None => None,
        }
    }
}

fn decode_sized(text: &str, longest: usize, size: usize) -> (bytes: Option<Vec<u8>>)
    ensures
        match sized_decoding(text@, longest as int, size as int) {
            Some(decoded) => bytes is Some && bytes.unwrap()@ == decoded,
            None => bytes is None,
        },
{
    if text.as_bytes().len() > longest {
        return None;
    }
    match base58_decode(text) {
        Some(bytes) => if bytes.len() == size {
            Some(bytes)
        } else {
            None
        },
        None => None,
    }
}

/// The hash that a text stands for: at most 44 bytes of base 58 for 32 bytes.
pub open spec fn hash_converted(text: Seq<char>) -> Result<crate::transaction::Hash, ConversionError> {
    match sized_decoding(text, 44, 32) {
        Some(bytes) => Ok(hash_of_bytes(bytes)),
        None => Err(ConversionError::HashDecodingFailed),
    }
}

/// The key that a text stands for: at most 44 bytes of base 58 for 32 bytes.
pub open spec fn key_converted(text: Seq<char>) -> Result<Pubkey, ConversionError> {
    match sized_decoding(text, 44, 32) {
        Some(bytes) => Ok(key_of_bytes(bytes)),
        None => Err(ConversionError::PubkeyDecodingFailed),
    }
}

/// The signature that a text stands for: at most 88 bytes of base 58 for 64
/// bytes.
pub open spec fn signature_converted(text: Seq<char>) -> Result<Signature, ConversionError> {
    match sized_decoding(text, 88, 64) {
        Some(bytes) => Ok(signature_of_bytes(bytes)),
        None => Err(ConversionError::SignatureDecodingFailed),
    }
}

/// Converts a hash from text.
pub fn convert_hash(s: &str) -> (hash: Result<crate::transaction::Hash, ConversionError>)
    ensures
        hash == hash_converted(s@),
{
    match decode_sized(s, 44, 32) {
        Some(bytes) => {
            let array = array_from_slice::<32>(bytes.as_slice());
            let hash = crate::transaction::Hash { bytes: array.unwrap() };
            proof {
                lemma_hash_of_bytes(hash);
            }
            Ok(hash)
        },
        None => Err(ConversionError::HashDecodingFailed),
    }
}

/// Converts a key from text.
pub fn convert_key(s: &str) -> (key: Result<Pubkey, ConversionError>)
    ensures
        key == key_converted(s@),
{
    match decode_sized(s, 44, 32) {
        Some(bytes) => {
            let array = array_from_slice::<32>(bytes.as_slice());
            let key = Pubkey { bytes: array.unwrap() };
            proof {
                lemma_key_of_bytes(key);
            }
            Ok(key)
        },
        None => Err(ConversionError::PubkeyDecodingFailed),
    }
}

/// Converts a signature from text.
pub fn convert_signature(s: &str) -> (signature: Result<Signature, ConversionError>)
    ensures
        signature == signature_converted(s@),
{
    match decode_sized(s, 88, 64) {
        Some(bytes) => {
            let array = array_from_slice::<64>(bytes.as_slice());
            let signature = Signature { bytes: array.unwrap() };
            proof {
                lemma_signature_of_bytes(signature);
            }
            Ok(signature)
        },
        None => Err(ConversionError::SignatureDecodingFailed),
    }
}

/// The first `n` items converted, in order, or the error of the first item
/// that does not convert.
pub open spec fn collected<A, B>(
    items: Seq<A>,
    convert: spec_fn(A) -> Result<B, ConversionError>,
    n: int,
) -> Result<Seq<B>, ConversionError>
    decreases n,
{
    if n <= 0 {
        Ok(Seq::empty())
    } else {
        match collected(items, convert, n - 1) {
            Err(e) => Err(e),
            Ok(done) => match convert(items[n - 1]) {
                Ok(converted) => Ok(done.push(converted)),
                Err(e) => Err(e),
            },
        }
    }
}

/// All items converted, in order, or the error of the first item that does
/// not convert.
pub open spec fn all_collected<A, B>(
    items: Seq<A>,
    convert: spec_fn(A) -> Result<B, ConversionError>,
) -> Result<Seq<B>, ConversionError> {
    collected(items, convert, items.len() as int)
}

/// Once an item has failed to convert, the whole list has.
pub proof fn lemma_collected_stays_failed<A, B>(
    items: Seq<A>,
    convert: spec_fn(A) -> Result<B, ConversionError>,
    n: int,
    m: int,
)
    requires
        collected(items, convert, n) is Err,
        n <= m,
    ensures
        collected(items, convert, m) == collected(items, convert, n),
    decreases m - n,
{
    if n < m {
        lemma_collected_stays_failed(items, convert, n, m - 1);
    }
}

/// The keys that a list of texts stands for.
pub open spec fn keys_converted(keys: Seq<String>) -> Result<Seq<Pubkey>, ConversionError> {
    all_collected(keys, |text: String| key_converted(text@))
}

fn convert_key_list(keys: &Vec<String>) -> (converted: Result<Vec<Pubkey>, ConversionError>)
    ensures
        match keys_converted(keys@) {
            Ok(list) => converted is Ok && converted->Ok_0@ == list,
            Err(e) => converted is Err && converted->Err_0 == e,
        },
{
    let ghost convert = |text: String| key_converted(text@);
    let mut converted: Vec<Pubkey> = Vec::new();
    let mut i: usize = 0;
    while i < keys.len()
        invariant
            0 <= i <= keys@.len(),
            convert == (|text: String| key_converted(text@)),
            collected(keys@, convert, i as int) == Ok::<Seq<Pubkey>, ConversionError>(converted@),
        decreases keys@.len() - i,
    {
        match convert_key(keys[i].as_str()) {
            Ok(key) => {
                converted.push(key);
            },
            Err(e) => {
                proof {
                    lemma_collected_stays_failed(keys@, convert, i + 1, keys@.len() as int);
                }
                return Err(e);
            },
        }
        i += 1;
    }
    Ok(converted)
}

/// Converts a list of keys from text.
pub fn convert_keys(keys: Vec<String>) -> (converted: Result<Vec<Pubkey>, ConversionError>)
    ensures
        match keys_converted(keys@) {
            Ok(list) => converted is Ok && converted->Ok_0@ == list,
            Err(e) => converted is Err && converted->Err_0 == e,
        },
{
    convert_key_list(&keys)
}

/// The instruction with its payload decoded.
pub open spec fn instruction_converted(instruction: UiCompiledInstruction) -> Result<
    CompiledInstructionView,
    ConversionError,
> {
    match base58_decoding(instruction.data@) {
        Some(data) => Ok(
            CompiledInstructionView {
                program_id_index: instruction.program_id_index,
                accounts: instruction.accounts@,
                data,
            },
        ),
        None => Err(ConversionError::DataDecodingFailed),
    }
}

fn convert_instruction_at(instruction: &UiCompiledInstruction) -> (converted: Result<
    CompiledInstruction,
    ConversionError,
>)
    ensures
        match instruction_converted(*instruction) {
            Ok(view) => converted is Ok && converted->Ok_0@ == view,
            Err(e) => converted is Err && converted->Err_0 == e,
        },
{
    match base58_decode(instruction.data.as_str()) {
        Some(data) => Ok(
            CompiledInstruction {
                program_id_index: instruction.program_id_index,
                accounts: copy_bytes(&instruction.accounts),
                data,
            },
        ),
        None => Err(ConversionError::DataDecodingFailed),
    }
}

/// Converts an instruction: its payload is decoded from base 58.
pub fn convert_instruction(instruction: UiCompiledInstruction) -> (converted: Result<
    CompiledInstruction,
    ConversionError,
>)
    ensures
        match instruction_converted(instruction) {
            Ok(view) => converted is Ok && converted->Ok_0@ == view,
            Err(e) => converted is Err && converted->Err_0 == e,
        },
{
    convert_instruction_at(&instruction)
}

/// The instructions with their payloads decoded.
pub open spec fn instructions_converted(instructions: Seq<UiCompiledInstruction>) -> Result<
    Seq<CompiledInstructionView>,
    ConversionError,
> {
    all_collected(instructions, |i: UiCompiledInstruction| instruction_converted(i))
}

fn convert_instruction_list(instructions: &Vec<UiCompiledInstruction>) -> (converted: Result<
    Vec<CompiledInstruction>,
    ConversionError,
>)
    ensures
        match instructions_converted(instructions@) {
            Ok(views) => converted is Ok && instruction_views(converted->Ok_0@) == views,
            Err(e) => converted is Err && converted->Err_0 == e,
        },
{
    let ghost convert = |i: UiCompiledInstruction| instruction_converted(i);
    let mut converted: Vec<CompiledInstruction> = Vec::new();
    let mut i: usize = 0;
    assert(instruction_views(converted@) =~= Seq::empty());
    while i < instructions.len()
        invariant
            0 <= i <= instructions@.len(),
            convert == (|i: UiCompiledInstruction| instruction_converted(i)),
            collected(instructions@, convert, i as int) == Ok::<
                Seq<CompiledInstructionView>,
                ConversionError,
            >(instruction_views(converted@)),
        decreases instructions@.len() - i,
    {
        match convert_instruction_at(&instructions[i]) {
            Ok(instruction) => {
                let ghost before = instruction_views(converted@);
                converted.push(instruction);
                assert(instruction_views(converted@) =~= before.push(instruction@));
            },
            Err(e) => {
                proof {
                    lemma_collected_stays_failed(
                        instructions@,
                        convert,
                        i + 1,
                        instructions@.len() as int,
                    );
                }
                return Err(e);
            },
        }
        i += 1;
    }
    Ok(converted)
}

/// Converts a list of instructions.
pub fn convert_instructions(instructions: Vec<UiCompiledInstruction>) -> (converted: Result<
    Vec<CompiledInstruction>,
    ConversionError,
>)
    ensures
        match instructions_converted(instructions@) {
            Ok(views) => converted is Ok && instruction_views(converted->Ok_0@) == views,
            Err(e) => converted is Err && converted->Err_0 == e,
        },
{
    convert_instruction_list(&instructions)
}

/// An invoked instruction converted; a parsed one cannot be.
pub open spec fn invoked_converted(instruction: UiInstruction) -> Result<
    CompiledInstructionView,
    ConversionError,
> {
    match instruction {
        UiInstruction::Parsed => Err(ConversionError::UnexpectedUiParsed),
        UiInstruction::Compiled(compiled) => instruction_converted(compiled),
    }
}

/// A group of invoked instructions converted.
pub open spec fn inner_instructions_converted(group: UiInnerInstructions) -> Result<
    InnerInstructionsView,
    ConversionError,
> {
    match all_collected(group.instructions@, |i: UiInstruction| invoked_converted(i)) {
        Ok(instructions) => Ok(InnerInstructionsView { index: group.index, instructions }),
        Err(e) => Err(e),
    }
}

fn convert_inner_instructions_at(group: &UiInnerInstructions) -> (converted: Result<
    InnerInstructions,
    ConversionError,
>)
    ensures
        match inner_instructions_converted(*group) {
            Ok(view) => converted is Ok && converted->Ok_0@ == view,
            Err(e) => converted is Err && converted->Err_0 == e,
        },
{
    let ghost convert = |i: UiInstruction| invoked_converted(i);
    let mut converted: Vec<CompiledInstruction> = Vec::new();
    let mut i: usize = 0;
    assert(instruction_views(converted@) =~= Seq::empty());
    while i < group.instructions.len()
        invariant
            0 <= i <= group.instructions@.len(),
            convert == (|i: UiInstruction| invoked_converted(i)),
            collected(group.instructions@, convert, i as int) == Ok::<
                Seq<CompiledInstructionView>,
                ConversionError,
            >(instruction_views(converted@)),
        decreases group.instructions@.len() - i,
    {
        let outcome = match &group.instructions[i] {
            UiInstruction::Parsed => Err(ConversionError::UnexpectedUiParsed),
            UiInstruction::Compiled(compiled) => convert_instruction_at(compiled),
        };
        match outcome {
            Ok(instruction) => {
                let ghost before = instruction_views(converted@);
                converted.push(instruction);
                assert(instruction_views(converted@) =~= before.push(instruction@));
            },
            Err(e) => {
                proof {
                    lemma_collected_stays_failed(
                        group.instructions@,
                        convert,
                        i + 1,
                        group.instructions@.len() as int,
                    );
                }
                return Err(e);
            },
        }
        i += 1;
    }
    Ok(InnerInstructions { index: group.index, instructions: converted })
}

/// Converts the instructions that an instruction invoked.
pub fn convert_inner_instructions(group: UiInnerInstructions) -> (converted: Result<
    InnerInstructions,
    ConversionError,
>)
    ensures
        match inner_instructions_converted(group) {
            Ok(view) => converted is Ok && converted->Ok_0@ == view,
            Err(e) => converted is Err && converted->Err_0 == e,
        },
{
    convert_inner_instructions_at(&group)
}

/// A lookup with its table's key decoded.
pub open spec fn table_lookup_converted(lookup: UiAddressTableLookup) -> Result<
    MessageAddressTableLookupView,
    ConversionError,
> {
    match key_converted(lookup.account_key@) {
        Ok(account_key) => Ok(
            MessageAddressTableLookupView {
                account_key,
                writable_indexes: lookup.writable_indexes@,
                readonly_indexes: lookup.readonly_indexes@,
            },
        ),
        Err(e) => Err(e),
    }
}

fn convert_table_lookup_at(lookup: &UiAddressTableLookup) -> (converted: Result<
    MessageAddressTableLookup,
    ConversionError,
>)
    ensures
        match table_lookup_converted(*lookup) {
            Ok(view) => converted is Ok && converted->Ok_0@ == view,
            Err(e) => converted is Err && converted->Err_0 == e,
        },
{
    match convert_key(lookup.account_key.as_str()) {
        Ok(account_key) => Ok(
            MessageAddressTableLookup {
                account_key,
                writable_indexes: copy_bytes(&lookup.writable_indexes),
                readonly_indexes: copy_bytes(&lookup.readonly_indexes),
            },
        ),
        Err(e) => Err(e),
    }
}

/// Converts an address table lookup.
pub fn convert_table_lookup(lookup: UiAddressTableLookup) -> (converted: Result<
    MessageAddressTableLookup,
    ConversionError,
>)
    ensures
        match table_lookup_converted(lookup) {
            Ok(view) => converted is Ok && converted->Ok_0@ == view,
            Err(e) => converted is Err && converted->Err_0 == e,
        },
{
    convert_table_lookup_at(&lookup)
}

/// A balance with an empty owner where the owner is absent.
pub open spec fn token_balance_converted(balance: UiTransactionTokenBalance) -> TransactionTokenBalanceView {
    TransactionTokenBalanceView {
        account_index: balance.account_index,
        mint: balance.mint@,
        ui_token_amount: balance.ui_token_amount@,
        owner: match balance.owner {
            Some(owner) => owner@,
            None => Seq::empty(),
        },
    }
}

fn convert_token_balance_at(balance: &UiTransactionTokenBalance) -> (converted:
    TransactionTokenBalance)
    ensures
        converted@ == token_balance_converted(*balance),
{
    TransactionTokenBalance {
        account_index: balance.account_index,
        mint: balance.mint.clone(),
        ui_token_amount: UiTokenAmount {
            decimals: balance.ui_token_amount.decimals,
            amount: balance.ui_token_amount.amount.clone(),
            ui_amount_string: balance.ui_token_amount.ui_amount_string.clone(),
        },
        owner: match &balance.owner {
            Some(owner) => owner.clone(),
            None => String::new(),
        },
    }
}

/// Converts a balance of a token account. This cannot fail.
pub fn convert_token_balance(balance: UiTransactionTokenBalance) -> (converted: Result<
    TransactionTokenBalance,
    ConversionError,
>)
    ensures
        converted is Ok,
        converted->Ok_0@ == token_balance_converted(balance),
{
    Ok(convert_token_balance_at(&balance))
}

/// The loaded addresses with their keys decoded, the writable ones first.
pub open spec fn loaded_addresses_converted(addresses: UiLoadedAddresses) -> Result<
    LoadedAddressesView,
    ConversionError,
> {
    match keys_converted(addresses.writable@) {
        Err(e) => Err(e),
        Ok(writable) => match keys_converted(addresses.readonly@) {
            Err(e) => Err(e),
            Ok(readonly) => Ok(LoadedAddressesView { writable, readonly }),
        },
    }
}

/// Converts the accounts that a transaction took from address tables.
pub fn convert_loaded_addresses(addresses: UiLoadedAddresses) -> (converted: Result<
    LoadedAddresses,
    ConversionError,
>)
    ensures
        match loaded_addresses_converted(addresses) {
            Ok(view) => converted is Ok && converted->Ok_0@ == view,
            Err(e) => converted is Err && converted->Err_0 == e,
        },
{
    let writable = match convert_key_list(&addresses.writable) {
        Ok(keys) => keys,
        Err(e) => { return Err(e); },
    };
    let readonly = match convert_key_list(&addresses.readonly) {
        Ok(keys) => keys,
        Err(e) => { return Err(e); },
    };
    Ok(LoadedAddresses { writable, readonly })
}


/// The signatures that a list of texts stands for.
pub open spec fn signatures_converted(signatures: Seq<String>) -> Result<
    Seq<Signature>,
    ConversionError,
> {
    all_collected(signatures, |text: String| signature_converted(text@))
}

fn convert_signature_list(signatures: &Vec<String>) -> (converted: Result<
    Vec<Signature>,
    ConversionError,
>)
    ensures
        match signatures_converted(signatures@) {
            Ok(list) => converted is Ok && converted->Ok_0@ == list,
            Err(e) => converted is Err && converted->Err_0 == e,
        },
{
    let ghost convert = |text: String| signature_converted(text@);
    let mut converted: Vec<Signature> = Vec::new();
    let mut i: usize = 0;
    while i < signatures.len()
        invariant
            0 <= i <= signatures@.len(),
            convert == (|text: String| signature_converted(text@)),
            collected(signatures@, convert, i as int) == Ok::<Seq<Signature>, ConversionError>(
                converted@,
            ),
        decreases signatures@.len() - i,
    {
        match convert_signature(signatures[i].as_str()) {
            Ok(signature) => {
                converted.push(signature);
            },
            Err(e) => {
                proof {
                    lemma_collected_stays_failed(
                        signatures@,
                        convert,
                        i + 1,
                        signatures@.len() as int,
                    );
                }
                return Err(e);
            },
        }
        i += 1;
    }
    Ok(converted)
}

/// The lookups with their tables' keys decoded.
pub open spec fn table_lookups_converted(lookups: Seq<UiAddressTableLookup>) -> Result<
    Seq<MessageAddressTableLookupView>,
    ConversionError,
> {
    all_collected(lookups, |l: UiAddressTableLookup| table_lookup_converted(l))
}

fn convert_table_lookup_list(lookups: &Vec<UiAddressTableLookup>) -> (converted: Result<
    Vec<MessageAddressTableLookup>,
    ConversionError,
>)
    ensures
        match table_lookups_converted(lookups@) {
            Ok(views) => converted is Ok && lookup_views(converted->Ok_0@) == views,
            Err(e) => converted is Err && converted->Err_0 == e,
        },
{
    let ghost convert = |l: UiAddressTableLookup| table_lookup_converted(l);
    let mut converted: Vec<MessageAddressTableLookup> = Vec::new();
    let mut i: usize = 0;
    assert(lookup_views(converted@) =~= Seq::empty());
    while i < lookups.len()
        invariant
            0 <= i <= lookups@.len(),
            convert == (|l: UiAddressTableLookup| table_lookup_converted(l)),
            collected(lookups@, convert, i as int) == Ok::<
                Seq<MessageAddressTableLookupView>,
                ConversionError,
            >(lookup_views(converted@)),
        decreases lookups@.len() - i,
    {
        match convert_table_lookup_at(&lookups[i]) {
            Ok(lookup) => {
                let ghost before = lookup_views(converted@);
                converted.push(lookup);
                assert(lookup_views(converted@) =~= before.push(lookup@));
            },
            Err(e) => {
                proof {
                    lemma_collected_stays_failed(lookups@, convert, i + 1, lookups@.len() as int);
                }
                return Err(e);
            },
        }
        i += 1;
    }
    Ok(converted)
}

/// A raw message converted: its keys, its hash, its instructions and then
/// its lookups, if it has any.
pub open spec fn raw_message_converted(raw: UiRawMessage) -> Result<
    VersionedMessageView,
    ConversionError,
> {
    match keys_converted(raw.account_keys@) {
        Err(e) => Err(e),
        Ok(account_keys) => match hash_converted(raw.recent_blockhash@) {
            Err(e) => Err(e),
            Ok(recent_blockhash) => match instructions_converted(raw.instructions@) {
                Err(e) => Err(e),
                Ok(instructions) => {
                    let message = |address_table_lookups|
                        VersionedMessageView {
                            header: raw.header,
                            account_keys,
                            recent_blockhash,
                            instructions,
                            address_table_lookups,
                        };
                    match raw.address_table_lookups {
                        None => Ok(message(None)),
                        Some(lookups) => match table_lookups_converted(lookups@) {
                            Err(e) => Err(e),
                            Ok(converted) => Ok(message(Some(converted))),
                        },
                    }
                },
            },
        },
    }
}

/// A transaction converted from its structured form: its signatures, then
/// its message. A signature that does not decode fails the conversion
/// before anything else; a parsed message cannot be converted.
pub open spec fn ui_transaction_converted(ui: UiTransaction) -> Result<
    VersionedTransactionView,
    ConversionError,
> {
    match signatures_converted(ui.signatures@) {
        Err(e) => Err(ConversionError::SignatureDecodingFailed),
        Ok(signatures) => match ui.message {
            UiMessage::Parsed => Err(ConversionError::UnexpectedUiParsed),
            UiMessage::Raw(raw) => match raw_message_converted(raw) {
                Err(e) => Err(e),
                Ok(message) => Ok(VersionedTransactionView { signatures, message }),
            },
        },
    }
}

fn convert_raw_message(raw: &UiRawMessage) -> (converted: Result<VersionedMessage, ConversionError>)
    ensures
        match raw_message_converted(*raw) {
            Ok(view) => converted is Ok && converted->Ok_0@ == view,
            Err(e) => converted is Err && converted->Err_0 == e,
        },
{
    let account_keys = match convert_key_list(&raw.account_keys) {
        Ok(keys) => keys,
        Err(e) => { return Err(e); },
    };
    let recent_blockhash = match convert_hash(raw.recent_blockhash.as_str()) {
        Ok(hash) => hash,
        Err(e) => { return Err(e); },
    };
    let instructions = match convert_instruction_list(&raw.instructions) {
        Ok(instructions) => instructions,
        Err(e) => { return Err(e); },
    };
    match &raw.address_table_lookups {
        None => Ok(
            VersionedMessage::Legacy(
                Message { header: raw.header, account_keys, recent_blockhash, instructions },
            ),
        ),
        Some(lookups) => {
            let address_table_lookups = match convert_table_lookup_list(lookups) {
                Ok(lookups) => lookups,
                Err(e) => { return Err(e); },
            };
            Ok(
                VersionedMessage::V0(
                    MessageV0 {
                        header: raw.header,
                        account_keys,
                        recent_blockhash,
                        instructions,
                        address_table_lookups,
                    },
                ),
            )
        },
    }
}

/// Converts a transaction from its structured form.
pub fn convert_ui_transaction(ui: UiTransaction) -> (converted: Result<
    VersionedTransaction,
    ConversionError,
>)
    ensures
        match ui_transaction_converted(ui) {
            Ok(view) => converted is Ok && converted->Ok_0@ == view,
            Err(e) => converted is Err && converted->Err_0 == e,
        },
{
    let signatures = match convert_signature_list(&ui.signatures) {
        Ok(signatures) => signatures,
        Err(_) => { return Err(ConversionError::SignatureDecodingFailed); },
    };
    match &ui.message {
        UiMessage::Parsed => Err(ConversionError::UnexpectedUiParsed),
        UiMessage::Raw(raw) => match convert_raw_message(raw) {
            Ok(message) => Ok(VersionedTransaction { signatures, message }),
            Err(e) => Err(e),
        },
    }
}

/// The groups of invoked instructions converted.
pub open spec fn inner_groups_converted(groups: Seq<UiInnerInstructions>) -> Result<
    Seq<InnerInstructionsView>,
    ConversionError,
> {
    all_collected(groups, |g: UiInnerInstructions| inner_instructions_converted(g))
}

fn convert_inner_groups(groups: &Vec<UiInnerInstructions>) -> (converted: Result<
    Vec<InnerInstructions>,
    ConversionError,
>)
    ensures
        match inner_groups_converted(groups@) {
            Ok(views) => converted is Ok && inner_views(converted->Ok_0@) == views,
            Err(e) => converted is Err && converted->Err_0 == e,
        },
{
    let ghost convert = |g: UiInnerInstructions| inner_instructions_converted(g);
    let mut converted: Vec<InnerInstructions> = Vec::new();
    let mut i: usize = 0;
    assert(inner_views(converted@) =~= Seq::empty());
    while i < groups.len()
        invariant
            0 <= i <= groups@.len(),
            convert == (|g: UiInnerInstructions| inner_instructions_converted(g)),
            collected(groups@, convert, i as int) == Ok::<
                Seq<InnerInstructionsView>,
                ConversionError,
            >(inner_views(converted@)),
        decreases groups@.len() - i,
    {
        match convert_inner_instructions_at(&groups[i]) {
            Ok(group) => {
                let ghost before = inner_views(converted@);
                converted.push(group);
                assert(inner_views(converted@) =~= before.push(group@));
            },
            Err(e) => {
                proof {
                    lemma_collected_stays_failed(groups@, convert, i + 1, groups@.len() as int);
                }
                return Err(e);
            },
        }
        i += 1;
    }
    Ok(converted)
}

/// The balances converted, if the ledger kept any.
pub open spec fn token_balances_converted(balances: Option<Vec<UiTransactionTokenBalance>>) -> Option<
    Seq<TransactionTokenBalanceView>,
> {
    match balances {
        Some(list) => Some(Seq::new(list@.len(), |i: int| token_balance_converted(list@[i]))),
        None => None,
    }
}

fn convert_token_balances(balances: &Option<Vec<UiTransactionTokenBalance>>) -> (converted: Option<
    Vec<TransactionTokenBalance>,
>)
    ensures
        match token_balances_converted(*balances) {
            Some(views) => converted is Some && balance_views(converted.unwrap()@) == views,
            None => converted is None,
        },
{
    match balances {
        None => None,
        Some(list) => {
            let mut converted: Vec<TransactionTokenBalance> = Vec::new();
            let mut i: usize = 0;
            while i < list.len()
                invariant
                    0 <= i <= list@.len(),
                    converted@.len() == i,
                    forall|j: int|
                        0 <= j < i ==> (#[trigger] converted@[j])@ == token_balance_converted(
                            list@[j],
                        ),
                decreases list@.len() - i,
            {
                converted.push(convert_token_balance_at(&list[i]));
                i += 1;
            }
            assert(balance_views(converted@) =~= Seq::new(
                list@.len(),
                |i: int| token_balance_converted(list@[i]),
            ));
            Some(converted)
        },
    }
}

/// What running a transaction left behind, converted: the groups of invoked
/// instructions first, then the loaded addresses, which are empty where the
/// ledger kept none. The rest is handed on as it is.
pub open spec fn status_meta_converted(meta: UiTransactionStatusMeta) -> Result<
    TransactionStatusMetaView,
    ConversionError,
> {
    let inner = match meta.inner_instructions {
        None => Ok(None),
        Some(groups) => match inner_groups_converted(groups@) {
            Ok(converted) => Ok(Some(converted)),
            Err(e) => Err(e),
        },
    };
    let loaded = match meta.loaded_addresses {
        None => Ok(LoadedAddressesView { writable: Seq::empty(), readonly: Seq::empty() }),
        Some(addresses) => loaded_addresses_converted(addresses),
    };
    match inner {
        Err(e) => Err(e),
        Ok(inner_instructions) => match loaded {
            Err(e) => Err(e),
            Ok(loaded_addresses) => Ok(
                TransactionStatusMetaView {
                    succeeded: meta.succeeded,
                    fee: meta.fee,
                    pre_balances: meta.pre_balances@,
                    post_balances: meta.post_balances@,
                    inner_instructions,
                    log_messages: log_view(meta.log_messages),
                    pre_token_balances: token_balances_converted(meta.pre_token_balances),
                    post_token_balances: token_balances_converted(meta.post_token_balances),
                    rewards: rewards_view(meta.rewards),
                    loaded_addresses,
                },
            ),
        },
    }
}

/// Converts what running a transaction left behind.
pub fn convert_transaction_status_meta(meta: UiTransactionStatusMeta) -> (converted: Result<
    TransactionStatusMeta,
    ConversionError,
>)
    ensures
        match status_meta_converted(meta) {
            Ok(view) => converted is Ok && converted->Ok_0@ == view,
            Err(e) => converted is Err && converted->Err_0 == e,
        },
{
    let inner_instructions = match &meta.inner_instructions {
        None => None,
        Some(groups) => match convert_inner_groups(groups) {
            Ok(converted) => Some(converted),
            Err(e) => { return Err(e); },
        },
    };
    let pre_token_balances = convert_token_balances(&meta.pre_token_balances);
    let post_token_balances = convert_token_balances(&meta.post_token_balances);
    let UiTransactionStatusMeta {
        succeeded,
        fee,
        pre_balances,
        post_balances,
        inner_instructions: _,
        log_messages,
        pre_token_balances: _,
        post_token_balances: _,
        rewards,
        loaded_addresses,
    } = meta;
    let loaded_addresses = match loaded_addresses {
        None => {
            let empty = LoadedAddresses::default();
            assert(empty.writable@ =~= Seq::empty() && empty.readonly@ =~= Seq::empty());
            empty
        },
        Some(addresses) => match convert_loaded_addresses(addresses) {
            Ok(converted) => converted,
            Err(e) => { return Err(e); },
        },
    };
    Ok(
        TransactionStatusMeta {
            succeeded,
            fee,
            pre_balances,
            post_balances,
            inner_instructions,
            log_messages,
            pre_token_balances,
            post_token_balances,
            rewards,
            loaded_addresses,
        },
    )
}

/// The view of an optional transaction.
pub open spec fn optional_transaction_view(transaction: Option<VersionedTransaction>) -> Option<
    VersionedTransactionView,
> {
    match transaction {
        Some(t) => Some(t@),
        None => None,
    }
}

/// Decodes a transaction from one text, in base 64 or else in base 58.
/// `None` where the text does not decode to a transaction that passes the
/// ledger's sanity checks.
pub fn decode_binary(blob: &str, base64: bool) -> (decoded: Option<VersionedTransaction>)
    ensures
        optional_transaction_view(decoded) == binary_decoding(blob@, base64),
{
    let signatures = match decoded_signatures(blob, base64) {
        Some(signatures) => signatures,
        None => { return None; },
    };
    let header = match decoded_header(blob, base64) {
        Some(header) => header,
        None => { return None; },
    };
    let account_keys = match decoded_account_keys(blob, base64) {
        Some(keys) => keys,
        None => { return None; },
    };
    let recent_blockhash = match decoded_blockhash(blob, base64) {
        Some(hash) => hash,
        None => { return None; },
    };
    let instructions = match decoded_instructions(blob, base64) {
        Some(instructions) => instructions,
        None => { return None; },
    };
    let message = match decoded_lookups(blob, base64) {
        Some(address_table_lookups) => VersionedMessage::V0(
            MessageV0 {
                header,
                account_keys,
                recent_blockhash,
                instructions,
                address_table_lookups,
            },
        ),
        None => VersionedMessage::Legacy(
            Message { header, account_keys, recent_blockhash, instructions },
        ),
    };
    Some(VersionedTransaction { signatures, message })
}

/// The transaction that an encoded transaction stands for.
pub open spec fn transaction_decoded(transaction: EncodedTransaction) -> Result<
    VersionedTransactionView,
    ConversionError,
> {
    let from_binary = |decoded: Option<VersionedTransactionView>|
        match decoded {
            Some(t) => Ok(t),
            None => Err(ConversionError::BinaryDecodingFailed),
        };
    match transaction {
        EncodedTransaction::Json(ui) => ui_transaction_converted(ui),
        EncodedTransaction::LegacyBinary(blob) => from_binary(binary_decoding(blob@, false)),
        EncodedTransaction::Binary(blob, encoding) => from_binary(
            binary_decoding(blob@, encoding == TransactionBinaryEncoding::Base64),
        ),
    }
}

/// What `convert` gives: the transaction decoded, with what running it left
/// behind. Without that, only a transaction in the first format converts.
pub open spec fn converted(tx: EncodedTransactionWithStatusMeta) -> Result<
    TransactionWithStatusMetaView,
    ConversionError,
> {
    match transaction_decoded(tx.transaction) {
        Err(e) => Err(e),
        Ok(transaction) => match tx.meta {
            None => if transaction.message.address_table_lookups is None {
                Ok(TransactionWithStatusMetaView { transaction, meta: None })
            } else {
                Err(ConversionError::NonLegacyMissingMeta)
            },
            Some(meta) => match status_meta_converted(meta) {
                Err(e) => Err(e),
                Ok(converted) => Ok(
                    TransactionWithStatusMetaView { transaction, meta: Some(converted) },
                ),
            },
        },
    }
}

/// Converts a transaction from the form in which the interface hands it out.
pub fn convert(tx: EncodedTransactionWithStatusMeta) -> (result: Result<
    TransactionWithStatusMeta,
    ConversionError,
>)
    ensures
        match converted(tx) {
            Ok(view) => result is Ok && result->Ok_0@ == view,
            Err(e) => result is Err && result->Err_0 == e,
        },
{
    let EncodedTransactionWithStatusMeta { transaction, meta } = tx;
    let decoded = match transaction {
        EncodedTransaction::Json(ui) => convert_ui_transaction(ui),
        EncodedTransaction::LegacyBinary(blob) => match decode_binary(blob.as_str(), false) {
            Some(t) => Ok(t),
            None => Err(ConversionError::BinaryDecodingFailed),
        },
        EncodedTransaction::Binary(blob, encoding) => {
            let base64 = match encoding {
                TransactionBinaryEncoding::Base64 => true,
                TransactionBinaryEncoding::Base58 => false,
            };
            match decode_binary(blob.as_str(), base64) {
                Some(t) => Ok(t),
                None => Err(ConversionError::BinaryDecodingFailed),
            }
        },
    };
    let transaction = match decoded {
        Ok(t) => t,
        Err(e) => { return Err(e); },
    };
    match meta {
        None => match transaction.into_legacy_transaction() {
            Some(legacy) => Ok(TransactionWithStatusMeta::MissingMetadata(legacy)),
            None => Err(ConversionError::NonLegacyMissingMeta),
        },
        Some(meta) => match convert_transaction_status_meta(meta) {
            Ok(meta) => Ok(
                TransactionWithStatusMeta::Complete(
                    VersionedTransactionWithStatusMeta { transaction, meta },
                ),
            ),
            Err(e) => Err(e),
        },
    }
}

} // verus!
