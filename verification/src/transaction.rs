//! Transactions as the ledger hands them out: a message of instructions, and
//! what running it left behind.

use vstd::prelude::*;
use crate::instruction::{CompiledInstruction, CompiledInstructionView};
use crate::pubkey::Pubkey;

verus! {

/// The hash of a block.
#[derive(Clone, Copy, Debug, PartialEq, Eq)]
pub struct Hash {
    pub bytes: [u8; 32],
}

/// A signature of a transaction.
#[derive(Clone, Copy, Debug, PartialEq, Eq)]
pub struct Signature {
    pub bytes: [u8; 64],
}

impl Hash {
    pub fn new_from_array(bytes: [u8; 32]) -> (hash: Hash)
        ensures
            hash.bytes == bytes,
    {
        Hash { bytes }
    }
}

impl Signature {
    pub fn new_from_array(bytes: [u8; 64]) -> (signature: Signature)
        ensures
            signature.bytes == bytes,
    {
        Signature { bytes }
    }
}

impl MessageHeader {
    pub fn new(
        num_required_signatures: u8,
        num_readonly_signed_accounts: u8,
        num_readonly_unsigned_accounts: u8,
    ) -> (header: MessageHeader)
        ensures
            header == (MessageHeader {
                num_required_signatures,
                num_readonly_signed_accounts,
                num_readonly_unsigned_accounts,
            }),
    {
        MessageHeader {
            num_required_signatures,
            num_readonly_signed_accounts,
            num_readonly_unsigned_accounts,
        }
    }
}

impl MessageAddressTableLookup {
    pub fn new(account_key: [u8; 32], writable_indexes: Vec<u8>, readonly_indexes: Vec<u8>) -> (lookup:
        MessageAddressTableLookup)
        ensures
            lookup.account_key.bytes == account_key,
            lookup.writable_indexes == writable_indexes,
            lookup.readonly_indexes == readonly_indexes,
    {
        MessageAddressTableLookup {
            account_key: Pubkey { bytes: account_key },
            writable_indexes,
            readonly_indexes,
        }
    }
}

/// The hash with the given bytes, where there are 32 of them.
pub open spec fn hash_of_bytes(bytes: Seq<u8>) -> Hash {
    choose|hash: Hash| hash.bytes@ == bytes
}

/// A hash is the hash of its bytes.
pub proof fn lemma_hash_of_bytes(hash: Hash)
    ensures
        hash_of_bytes(hash.bytes@) == hash,
{
    let chosen = hash_of_bytes(hash.bytes@);
    assert(chosen.bytes@ == hash.bytes@);
    assert(chosen.bytes =~= hash.bytes);
}

/// The signature with the given bytes, where there are 64 of them.
pub open spec fn signature_of_bytes(bytes: Seq<u8>) -> Signature {
    choose|signature: Signature| signature.bytes@ == bytes
}

/// A signature is the signature of its bytes.
pub proof fn lemma_signature_of_bytes(signature: Signature)
    ensures
        signature_of_bytes(signature.bytes@) == signature,
{
    let chosen = signature_of_bytes(signature.bytes@);
    assert(chosen.bytes@ == signature.bytes@);
    assert(chosen.bytes =~= signature.bytes);
}

/// How many of a message's accounts sign it, and how many are read only.
#[derive(Clone, Copy, Debug, PartialEq, Eq)]
pub struct MessageHeader {
    pub num_required_signatures: u8,
    pub num_readonly_signed_accounts: u8,
    pub num_readonly_unsigned_accounts: u8,
}

/// A message in the first format.
#[derive(Debug, PartialEq, Eq)]
pub struct Message {
    pub header: MessageHeader,
    pub account_keys: Vec<Pubkey>,
    pub recent_blockhash: Hash,
    pub instructions: Vec<CompiledInstruction>,
}

/// The accounts that a message takes from an address table.
#[derive(Debug, PartialEq, Eq)]
pub struct MessageAddressTableLookup {
    pub account_key: Pubkey,
    pub writable_indexes: Vec<u8>,
    pub readonly_indexes: Vec<u8>,
}

/// A message in the format that can take accounts from address tables.
#[derive(Debug, PartialEq, Eq)]
pub struct MessageV0 {
    pub header: MessageHeader,
    pub account_keys: Vec<Pubkey>,
    pub recent_blockhash: Hash,
    pub instructions: Vec<CompiledInstruction>,
    pub address_table_lookups: Vec<MessageAddressTableLookup>,
}

#[derive(Debug, PartialEq, Eq)]
pub enum VersionedMessage {
    Legacy(Message),
    V0(MessageV0),
}

impl VersionedMessage {
    /// The keys that the message itself lists.
    pub open spec fn static_keys(self) -> Seq<Pubkey> {
        match self {
            VersionedMessage::Legacy(message) => message.account_keys@,
            VersionedMessage::V0(message) => message.account_keys@,
        }
    }

    /// The instructions of the message, in order.
    pub open spec fn outer_instructions(self) -> Seq<CompiledInstruction> {
        match self {
            VersionedMessage::Legacy(message) => message.instructions@,
            VersionedMessage::V0(message) => message.instructions@,
        }
    }

    pub fn static_account_keys(&self) -> (keys: &Vec<Pubkey>)
        ensures
            keys@ == self.static_keys(),
    {
        match self {
            VersionedMessage::Legacy(message) => &message.account_keys,
            VersionedMessage::V0(message) => &message.account_keys,
        }
    }

    pub fn instructions(&self) -> (instructions: &Vec<CompiledInstruction>)
        ensures
            instructions@ == self.outer_instructions(),
    {
        match self {
            VersionedMessage::Legacy(message) => &message.instructions,
            VersionedMessage::V0(message) => &message.instructions,
        }
    }
}

/// A transaction in the first format.
#[derive(Debug, PartialEq, Eq)]
pub struct Transaction {
    pub signatures: Vec<Signature>,
    pub message: Message,
}

/// A transaction in either format.
#[derive(Debug, PartialEq, Eq)]
pub struct VersionedTransaction {
    pub signatures: Vec<Signature>,
    pub message: VersionedMessage,
}

impl VersionedTransaction {
    /// The transaction in the first format, if its message is in that format.
    pub fn into_legacy_transaction(self) -> (legacy: Option<Transaction>)
        ensures
            match self.message {
                VersionedMessage::Legacy(message) => legacy == Some(
                    Transaction { signatures: self.signatures, message },
                ),
                VersionedMessage::V0(_) => legacy is None,
            },
    {
        match self.message {
            VersionedMessage::Legacy(message) => Some(
                Transaction { signatures: self.signatures, message },
            ),
            VersionedMessage::V0(_) => None,
        }
    }
}

/// The accounts that a transaction took from address tables.
#[derive(Debug, PartialEq, Eq)]
pub struct LoadedAddresses {
    pub writable: Vec<Pubkey>,
    pub readonly: Vec<Pubkey>,
}

impl Default for LoadedAddresses {
    fn default() -> (addresses: LoadedAddresses)
        ensures
            addresses.writable@.len() == 0,
            addresses.readonly@.len() == 0,
    {
        LoadedAddresses { writable: Vec::new(), readonly: Vec::new() }
    }
}

/// The instructions that an instruction of a message invoked, in the order
/// in which they ran.
#[derive(Debug, PartialEq, Eq)]
pub struct InnerInstructions {
    /// The place in the message of the instruction that invoked them.
    pub index: u8,
    pub instructions: Vec<CompiledInstruction>,
}

/// An amount of a token, as text.
#[derive(Debug, PartialEq, Eq)]
pub struct UiTokenAmount {
    pub decimals: u8,
    pub amount: String,
    pub ui_amount_string: String,
}

/// The balance of a token account before or after a transaction. The owner
/// is empty where the ledger does not tell it.
#[derive(Debug, PartialEq, Eq)]
pub struct TransactionTokenBalance {
    pub account_index: u8,
    pub mint: String,
    pub ui_token_amount: UiTokenAmount,
    pub owner: String,
}

#[derive(Clone, Copy, Debug, PartialEq, Eq)]
pub enum RewardType {
    Fee,
    Rent,
    Staking,
    Voting,
}

/// A reward that a block paid out.
#[derive(Debug, PartialEq, Eq)]
pub struct Reward {
    pub pubkey: String,
    pub lamports: i64,
    pub post_balance: u64,
    pub reward_type: Option<RewardType>,
    pub commission: Option<u8>,
}

/// What running a transaction left behind.
#[derive(Debug, PartialEq, Eq)]
pub struct TransactionStatusMeta {
    pub succeeded: bool,
    pub fee: u64,
    pub pre_balances: Vec<u64>,
    pub post_balances: Vec<u64>,
    pub inner_instructions: Option<Vec<InnerInstructions>>,
    pub log_messages: Option<Vec<String>>,
    pub pre_token_balances: Option<Vec<TransactionTokenBalance>>,
    pub post_token_balances: Option<Vec<TransactionTokenBalance>>,
    pub rewards: Option<Vec<Reward>>,
    pub loaded_addresses: LoadedAddresses,
}

#[derive(Debug, PartialEq, Eq)]
pub struct VersionedTransactionWithStatusMeta {
    pub transaction: VersionedTransaction,
    pub meta: TransactionStatusMeta,
}

impl VersionedTransactionWithStatusMeta {
    /// The account table of the transaction: the keys that its message
    /// lists, then the writable and then the read-only accounts that it took
    /// from address tables.
    pub open spec fn account_table(self) -> Seq<Pubkey> {
        self.transaction.message.static_keys() + self.meta.loaded_addresses.writable@
            + self.meta.loaded_addresses.readonly@
    }

    pub fn account_keys(&self) -> (keys: Vec<Pubkey>)
        ensures
            keys@ == self.account_table(),
    {
        let mut keys: Vec<Pubkey> = Vec::new();
        let static_keys = self.transaction.message.static_account_keys();
        let mut i: usize = 0;
        while i < static_keys.len()
            invariant
                0 <= i <= static_keys@.len(),
                keys@ == static_keys@.subrange(0, i as int),
            decreases static_keys@.len() - i,
        {
            keys.push(static_keys[i]);
            assert(keys@ =~= static_keys@.subrange(0, i + 1));
            i += 1;
        }
        assert(keys@ =~= static_keys@);
        let writable = &self.meta.loaded_addresses.writable;
        let mut i: usize = 0;
        while i < writable.len()
            invariant
                0 <= i <= writable@.len(),
                keys@ == static_keys@ + writable@.subrange(0, i as int),
            decreases writable@.len() - i,
        {
            keys.push(writable[i]);
            assert(keys@ =~= static_keys@ + writable@.subrange(0, i + 1));
            i += 1;
        }
        assert(keys@ =~= static_keys@ + writable@);
        let readonly = &self.meta.loaded_addresses.readonly;
        let mut i: usize = 0;
        while i < readonly.len()
            invariant
                0 <= i <= readonly@.len(),
                keys@ == static_keys@ + writable@ + readonly@.subrange(0, i as int),
            decreases readonly@.len() - i,
        {
            keys.push(readonly[i]);
            assert(keys@ =~= static_keys@ + writable@ + readonly@.subrange(0, i + 1));
            i += 1;
        }
        assert(keys@ =~= static_keys@ + writable@ + readonly@);
        keys
    }
}

/// A transaction with what running it left behind, where the ledger kept
/// that.
#[derive(Debug, PartialEq, Eq)]
pub enum TransactionWithStatusMeta {
    MissingMetadata(Transaction),
    Complete(VersionedTransactionWithStatusMeta),
}

impl TransactionWithStatusMeta {
    /// The account table of the transaction.
    pub open spec fn account_table(self) -> Seq<Pubkey> {
        match self {
            TransactionWithStatusMeta::MissingMetadata(transaction) => transaction.message.account_keys@,
            TransactionWithStatusMeta::Complete(complete) => complete.account_table(),
        }
    }

    /// Whether the ledger recorded that the transaction failed.
    pub open spec fn is_failed(self) -> bool {
        match self {
            TransactionWithStatusMeta::MissingMetadata(_) => false,
            TransactionWithStatusMeta::Complete(complete) => !complete.meta.succeeded,
        }
    }

    pub fn account_keys(&self) -> (keys: Vec<Pubkey>)
        ensures
            keys@ == self.account_table(),
    {
        match self {
            TransactionWithStatusMeta::MissingMetadata(transaction) => {
                let listed = &transaction.message.account_keys;
                let mut keys: Vec<Pubkey> = Vec::new();
                let mut i: usize = 0;
                while i < listed.len()
                    invariant
                        0 <= i <= listed@.len(),
                        keys@ == listed@.subrange(0, i as int),
                    decreases listed@.len() - i,
                {
                    keys.push(listed[i]);
                    assert(keys@ =~= listed@.subrange(0, i + 1));
                    i += 1;
                }
                assert(keys@ =~= listed@);
                keys
            },
            TransactionWithStatusMeta::Complete(complete) => complete.account_keys(),
        }
    }

    pub fn failed(&self) -> (failed: bool)
        ensures
            failed == self.is_failed(),
    {
        match self {
            TransactionWithStatusMeta::MissingMetadata(_) => false,
            TransactionWithStatusMeta::Complete(complete) => !complete.meta.succeeded,
        }
    }

    pub fn get_status_meta(&self) -> (meta: Option<&TransactionStatusMeta>)
        ensures
            match *self {
                TransactionWithStatusMeta::MissingMetadata(_) => meta is None,
                TransactionWithStatusMeta::Complete(complete) => meta == Some(&complete.meta),
            },
    {
        match self {
            TransactionWithStatusMeta::MissingMetadata(_) => None,
            TransactionWithStatusMeta::Complete(complete) => Some(&complete.meta),
        }
    }
}


/// The views of a list of instructions.
pub open spec fn instruction_views(instructions: Seq<CompiledInstruction>) -> Seq<
    CompiledInstructionView,
> {
    Seq::new(instructions.len(), |i: int| instructions[i]@)
}

/// The views of a list of texts.
pub open spec fn text_views(texts: Seq<String>) -> Seq<Seq<char>> {
    Seq::new(texts.len(), |i: int| texts[i]@)
}

pub struct MessageAddressTableLookupView {
    pub account_key: Pubkey,
    pub writable_indexes: Seq<u8>,
    pub readonly_indexes: Seq<u8>,
}

impl View for MessageAddressTableLookup {
    type V = MessageAddressTableLookupView;

    open spec fn view(&self) -> MessageAddressTableLookupView {
        MessageAddressTableLookupView {
            account_key: self.account_key,
            writable_indexes: self.writable_indexes@,
            readonly_indexes: self.readonly_indexes@,
        }
    }
}

/// The views of a list of lookups.
pub open spec fn lookup_views(lookups: Seq<MessageAddressTableLookup>) -> Seq<
    MessageAddressTableLookupView,
> {
    Seq::new(lookups.len(), |i: int| lookups[i]@)
}

/// A message in either format: the lookups are absent in the first format.
pub struct VersionedMessageView {
    pub header: MessageHeader,
    pub account_keys: Seq<Pubkey>,
    pub recent_blockhash: Hash,
    pub instructions: Seq<CompiledInstructionView>,
    pub address_table_lookups: Option<Seq<MessageAddressTableLookupView>>,
}

impl View for Message {
    type V = VersionedMessageView;

    open spec fn view(&self) -> VersionedMessageView {
        VersionedMessageView {
            header: self.header,
            account_keys: self.account_keys@,
            recent_blockhash: self.recent_blockhash,
            instructions: instruction_views(self.instructions@),
            address_table_lookups: None,
        }
    }
}

impl View for MessageV0 {
    type V = VersionedMessageView;

    open spec fn view(&self) -> VersionedMessageView {
        VersionedMessageView {
            header: self.header,
            account_keys: self.account_keys@,
            recent_blockhash: self.recent_blockhash,
            instructions: instruction_views(self.instructions@),
            address_table_lookups: Some(lookup_views(self.address_table_lookups@)),
        }
    }
}

impl View for VersionedMessage {
    type V = VersionedMessageView;

    open spec fn view(&self) -> VersionedMessageView {
        match *self {
            VersionedMessage::Legacy(message) => message@,
            VersionedMessage::V0(message) => message@,
        }
    }
}

pub struct VersionedTransactionView {
    pub signatures: Seq<Signature>,
    pub message: VersionedMessageView,
}

impl View for VersionedTransaction {
    type V = VersionedTransactionView;

    open spec fn view(&self) -> VersionedTransactionView {
        VersionedTransactionView { signatures: self.signatures@, message: self.message@ }
    }
}

impl View for Transaction {
    type V = VersionedTransactionView;

    open spec fn view(&self) -> VersionedTransactionView {
        VersionedTransactionView { signatures: self.signatures@, message: self.message@ }
    }
}

pub struct LoadedAddressesView {
    pub writable: Seq<Pubkey>,
    pub readonly: Seq<Pubkey>,
}

impl View for LoadedAddresses {
    type V = LoadedAddressesView;

    open spec fn view(&self) -> LoadedAddressesView {
        LoadedAddressesView { writable: self.writable@, readonly: self.readonly@ }
    }
}

pub struct InnerInstructionsView {
    pub index: u8,
    pub instructions: Seq<CompiledInstructionView>,
}

impl View for InnerInstructions {
    type V = InnerInstructionsView;

    open spec fn view(&self) -> InnerInstructionsView {
        InnerInstructionsView {
            index: self.index,
            instructions: instruction_views(self.instructions@),
        }
    }
}

/// The views of a list of groups of invoked instructions.
pub open spec fn inner_views(groups: Seq<InnerInstructions>) -> Seq<InnerInstructionsView> {
    Seq::new(groups.len(), |i: int| groups[i]@)
}

pub struct UiTokenAmountView {
    pub decimals: u8,
    pub amount: Seq<char>,
    pub ui_amount_string: Seq<char>,
}

impl View for UiTokenAmount {
    type V = UiTokenAmountView;

    open spec fn view(&self) -> UiTokenAmountView {
        UiTokenAmountView {
            decimals: self.decimals,
            amount: self.amount@,
            ui_amount_string: self.ui_amount_string@,
        }
    }
}

pub struct TransactionTokenBalanceView {
    pub account_index: u8,
    pub mint: Seq<char>,
    pub ui_token_amount: UiTokenAmountView,
    pub owner: Seq<char>,
}

impl View for TransactionTokenBalance {
    type V = TransactionTokenBalanceView;

    open spec fn view(&self) -> TransactionTokenBalanceView {
        TransactionTokenBalanceView {
            account_index: self.account_index,
            mint: self.mint@,
            ui_token_amount: self.ui_token_amount@,
            owner: self.owner@,
        }
    }
}

/// The views of a list of balances.
pub open spec fn balance_views(balances: Seq<TransactionTokenBalance>) -> Seq<
    TransactionTokenBalanceView,
> {
    Seq::new(balances.len(), |i: int| balances[i]@)
}

pub struct RewardView {
    pub pubkey: Seq<char>,
    pub lamports: i64,
    pub post_balance: u64,
    pub reward_type: Option<RewardType>,
    pub commission: Option<u8>,
}

impl View for Reward {
    type V = RewardView;

    open spec fn view(&self) -> RewardView {
        RewardView {
            pubkey: self.pubkey@,
            lamports: self.lamports,
            post_balance: self.post_balance,
            reward_type: self.reward_type,
            commission: self.commission,
        }
    }
}

/// The view of what a block paid out, if the ledger kept it.
pub open spec fn rewards_view(rewards: Option<Vec<Reward>>) -> Option<Seq<RewardView>> {
    match rewards {
        Some(list) => Some(Seq::new(list@.len(), |i: int| list@[i]@)),
        None => None,
    }
}

/// The view of the log of a transaction, if the ledger kept it.
pub open spec fn log_view(log_messages: Option<Vec<String>>) -> Option<Seq<Seq<char>>> {
    match log_messages {
        Some(lines) => Some(text_views(lines@)),
        None => None,
    }
}

pub struct TransactionStatusMetaView {
    pub succeeded: bool,
    pub fee: u64,
    pub pre_balances: Seq<u64>,
    pub post_balances: Seq<u64>,
    pub inner_instructions: Option<Seq<InnerInstructionsView>>,
    pub log_messages: Option<Seq<Seq<char>>>,
    pub pre_token_balances: Option<Seq<TransactionTokenBalanceView>>,
    pub post_token_balances: Option<Seq<TransactionTokenBalanceView>>,
    pub rewards: Option<Seq<RewardView>>,
    pub loaded_addresses: LoadedAddressesView,
}

impl View for TransactionStatusMeta {
    type V = TransactionStatusMetaView;

    open spec fn view(&self) -> TransactionStatusMetaView {
        TransactionStatusMetaView {
            succeeded: self.succeeded,
            fee: self.fee,
            pre_balances: self.pre_balances@,
            post_balances: self.post_balances@,
            inner_instructions: match self.inner_instructions {
                Some(groups) => Some(inner_views(groups@)),
                None => None,
            },
            log_messages: log_view(self.log_messages),
            pre_token_balances: match self.pre_token_balances {
                Some(balances) => Some(balance_views(balances@)),
                None => None,
            },
            post_token_balances: match self.post_token_balances {
                Some(balances) => Some(balance_views(balances@)),
                None => None,
            },
            rewards: rewards_view(self.rewards),
            loaded_addresses: self.loaded_addresses@,
        }
    }
}

/// A transaction with what running it left behind, if the ledger kept that.
pub struct TransactionWithStatusMetaView {
    pub transaction: VersionedTransactionView,
    pub meta: Option<TransactionStatusMetaView>,
}

impl View for TransactionWithStatusMeta {
    type V = TransactionWithStatusMetaView;

    open spec fn view(&self) -> TransactionWithStatusMetaView {
        match *self {
            TransactionWithStatusMeta::MissingMetadata(transaction) => TransactionWithStatusMetaView {
                transaction: transaction@,
                meta: None,
            },
            TransactionWithStatusMeta::Complete(complete) => TransactionWithStatusMetaView {
                transaction: complete.transaction@,
                meta: Some(complete.meta@),
            },
        }
    }
}

} // verus!
