//! The partitioner: the rules that file an instruction under the mint it
//! affects, and the pass that applies them to a whole transaction.

use vstd::prelude::*;
use vstd::string::*;
use crate::instruction::{
    decode_metadata, decode_token, AuthorityType, CompiledInstruction, CompiledInstructionView,
    MetadataInstruction, MetadataInstructionView, TokenInstruction,
};
use crate::pubkey::{key_of_bytes, lemma_key_of_bytes, Pubkey};
use crate::search::{first_index, first_item, lemma_first_index, lemma_no_first_index};
use crate::transaction::{
    InnerInstructions, TransactionTokenBalance, TransactionWithStatusMeta,
    VersionedTransactionWithStatusMeta,
};
use crate::trusted::{
    base58_decode, base58_decoding, check_token_program, is_metadata_program, is_token_program, metadata_decoding,
    metadata_program_key, token_decoding, token_program_key,
};

verus! {

/// Why a transaction or one of its instructions could not be partitioned.
#[derive(Clone, Copy, Debug, PartialEq, Eq, Structural)]
pub enum ErrorCode {
    MissingTransactionStatusMeta,
    BadAccountKeyIndex,
    BadTokenMetaAccountIndex,
    BadPubkeyString,
    FailedInstructionDeserialization,
    FailedTransientTokenAccountMatching,
}

/// What is known of a token account of a transaction: from its balance
/// snapshots, or from the instruction that initialised it.
#[derive(Debug, PartialEq, Eq)]
pub struct TransactionTokenMeta {
    pub account_index: u8,
    pub decimals: u8,
    pub pre_amount: Option<String>,
    pub post_amount: Option<String>,
    pub mint_key: Pubkey,
    pub owner_key: Option<Pubkey>,
}

pub struct TransactionTokenMetaView {
    pub account_index: u8,
    pub decimals: u8,
    pub pre_amount: Option<Seq<char>>,
    pub post_amount: Option<Seq<char>>,
    pub mint_key: Pubkey,
    pub owner_key: Option<Pubkey>,
}

/// The view of an optional amount.
pub open spec fn amount_view(amount: Option<String>) -> Option<Seq<char>> {
    match amount {
        Some(text) => Some(text@),
        None => None,
    }
}

impl View for TransactionTokenMeta {
    type V = TransactionTokenMetaView;

    open spec fn view(&self) -> TransactionTokenMetaView {
        TransactionTokenMetaView {
            account_index: self.account_index,
            decimals: self.decimals,
            pre_amount: amount_view(self.pre_amount),
            post_amount: amount_view(self.post_amount),
            mint_key: self.mint_key,
            owner_key: self.owner_key,
        }
    }
}

/// The views of a list of entries.
pub open spec fn meta_views(metas: Seq<TransactionTokenMeta>) -> Seq<TransactionTokenMetaView> {
    Seq::new(metas.len(), |i: int| metas[i]@)
}

/// An amount that a single token can show: none, `0` or `1`.
pub open spec fn amount_plausible(amount: Option<Seq<char>>) -> bool {
    match amount {
        Some(text) => text == seq!['0'] || text == seq!['1'],
        None => true,
    }
}

/// Whether a token account may hold a non-fungible token: no decimals, and
/// amounts of at most one.
pub open spec fn nft_plausible(meta: TransactionTokenMetaView) -> bool {
    meta.decimals == 0 && amount_plausible(meta.pre_amount) && amount_plausible(meta.post_amount)
}

/// Whether an amount is one that a single token can show.
pub fn amount_ok(amount: &Option<String>) -> (ok: bool)
    ensures
        ok == amount_plausible(amount_view(*amount)),
{
    match amount {
        Some(text) => {
            let text = text.as_str();
            if !text.is_ascii() {
                assert(text@ != seq!['0'] && text@ != seq!['1']) by {
                    if text@ == seq!['0'] || text@ == seq!['1'] {
                        assert(text@.len() == 1);
                        assert(text@[0] == '0' || text@[0] == '1');
                        assert(vstd::utf8::is_ascii_chars(text@));
                    }
                }
                return false;
            }
            proof {
                is_ascii_spec_bytes(text);
            }
            if text.len() != 1 {
                assert(text@.len() != 1);
                return false;
            }
            let bytes = text.as_bytes();
            let byte = bytes[0];
            proof {
                assert(text@.len() == 1);
                assert(byte == text@[0] as u8);
                assert('\0' <= text@[0] <= '\u{7f}');
                if byte == 0x30u8 {
                    assert(text@[0] == '0');
                    assert(text@ =~= seq!['0']);
                }
                if byte == 0x31u8 {
                    assert(text@[0] == '1');
                    assert(text@ =~= seq!['1']);
                }
                if text@ == seq!['0'] {
                    assert(text@[0] == '0');
                }
                if text@ == seq!['1'] {
                    assert(text@[0] == '1');
                }
            }
            byte == 0x30 || byte == 0x31
        },
        None => true,
    }
}

/// Whether a token account may hold a non-fungible token.
pub fn heuristic_token_meta_ok(meta: &TransactionTokenMeta) -> (ok: bool)
    ensures
        ok == nft_plausible(meta@),
{
    meta.decimals == 0 && amount_ok(&meta.pre_amount) && amount_ok(&meta.post_amount)
}


/// The condition of being the entry for an account index.
pub open spec fn at_index(account_index: u8) -> spec_fn(TransactionTokenMetaView) -> bool {
    |meta: TransactionTokenMetaView| meta.account_index == account_index
}

/// The entry for a token account of the transaction: the first one that the
/// balance snapshots gave, else the first one among the accounts that the
/// transaction has initialised.
pub open spec fn token_meta_for(
    token_metas: Seq<TransactionTokenMetaView>,
    transient_metas: Seq<TransactionTokenMetaView>,
    account_index: u8,
) -> Option<TransactionTokenMetaView> {
    match first_item(token_metas, at_index(account_index)) {
        Some(meta) => Some(meta),
        None => first_item(transient_metas, at_index(account_index)),
    }
}

/// Why no entry can be had for a token account: its balance snapshots name
/// no key, or nothing is known of it.
pub open spec fn missing_entry(unreadable: Seq<u8>, account_index: u8) -> ErrorCode {
    if unreadable.contains(account_index) {
        ErrorCode::BadPubkeyString
    } else {
        ErrorCode::BadTokenMetaAccountIndex
    }
}

/// The key of the `n`-th account of an instruction.
pub open spec fn key_of_account(
    instruction: CompiledInstructionView,
    account_keys: Seq<Pubkey>,
    n: int,
) -> Result<Pubkey, ErrorCode> {
    if 0 <= n < instruction.accounts.len() && (instruction.accounts[n] as int)
        < account_keys.len() {
        Ok(account_keys[instruction.accounts[n] as int])
    } else {
        Err(ErrorCode::BadAccountKeyIndex)
    }
}

/// What an entry files an instruction under: its mint, where the account may
/// hold a non-fungible token.
pub open spec fn plausible_mint(meta: TransactionTokenMetaView) -> Option<Pubkey> {
    if nft_plausible(meta) {
        Some(meta.mint_key)
    } else {
        None
    }
}

/// What a transaction tells of its token accounts.
pub struct Known {
    /// What the balance snapshots tell.
    pub token_metas: Seq<TransactionTokenMetaView>,
    /// The accounts whose balance snapshots name no key.
    pub unreadable: Seq<u8>,
    /// The accounts that the transaction has initialised and not yet closed,
    /// and of which the balance snapshots say nothing.
    pub transient_metas: Seq<TransactionTokenMetaView>,
}

/// The mint of the `n`-th account of an instruction, where that account may
/// hold a non-fungible token.
pub open spec fn mint_of_account(instruction: CompiledInstructionView, known: Known, n: int) -> Result<
    Option<Pubkey>,
    ErrorCode,
> {
    if !(0 <= n < instruction.accounts.len()) {
        Err(ErrorCode::BadAccountKeyIndex)
    } else {
        match token_meta_for(known.token_metas, known.transient_metas, instruction.accounts[n]) {
            None => Err(missing_entry(known.unreadable, instruction.accounts[n])),
            Some(meta) => Ok(plausible_mint(meta)),
        }
    }
}

/// What partitioning an instruction leaves behind: the accounts that the
/// transaction has initialised and not closed, and the partition key.
pub struct Filed {
    pub transient_metas: Seq<TransactionTokenMetaView>,
    pub result: Result<Option<Pubkey>, ErrorCode>,
}

/// The entry that stands for an account that an instruction initialises.
pub open spec fn initialised_meta(account_index: u8, mint_key: Pubkey, owner_key: Pubkey) -> TransactionTokenMetaView {
    TransactionTokenMetaView {
        account_index,
        decimals: 0,
        pre_amount: None,
        post_amount: None,
        mint_key,
        owner_key: Some(owner_key),
    }
}

/// A token account is initialised: the instruction is filed under the mint
/// that the transaction's entry for the account gives; where the balance
/// snapshots say nothing of the account, an entry is made from the
/// instruction, and the instruction is filed under the mint that it names.
pub open spec fn account_filed(
    instruction: CompiledInstructionView,
    account_keys: Seq<Pubkey>,
    known: Known,
    owner: Result<Pubkey, ErrorCode>,
) -> Filed {
    let transient_metas = known.transient_metas;
    if instruction.accounts.len() == 0 {
        Filed { transient_metas, result: Err(ErrorCode::BadAccountKeyIndex) }
    } else {
        match token_meta_for(known.token_metas, transient_metas, instruction.accounts[0]) {
            Some(meta) => Filed { transient_metas, result: Ok(plausible_mint(meta)) },
            None => if known.unreadable.contains(instruction.accounts[0]) {
                Filed { transient_metas, result: Err(ErrorCode::BadPubkeyString) }
            } else {
                match owner {
                    Err(e) => Filed { transient_metas, result: Err(e) },
                    Ok(owner_key) => match key_of_account(instruction, account_keys, 1) {
                        Err(e) => Filed { transient_metas, result: Err(e) },
                        Ok(mint_key) => Filed {
                            transient_metas: transient_metas.push(
                                initialised_meta(instruction.accounts[0], mint_key, owner_key),
                            ),
                            result: Ok(Some(mint_key)),
                        },
                    },
                }
            },
        }
    }
}

/// The entries without the first one for the given account index; the last
/// entry takes its place.
pub open spec fn without_token_meta(metas: Seq<TransactionTokenMetaView>, account_index: u8) -> Seq<
    TransactionTokenMetaView,
> {
    match first_index(metas, at_index(account_index)) {
        Some(i) => metas.update(i, metas.last()).drop_last(),
        None => metas,
    }
}

/// A token account is closed: it leaves the accounts that the transaction
/// has initialised, and the instruction is filed under no mint.
pub open spec fn account_closed(
    instruction: CompiledInstructionView,
    transient_metas: Seq<TransactionTokenMetaView>,
) -> Filed {
    if instruction.accounts.len() == 0 {
        Filed { transient_metas, result: Err(ErrorCode::BadAccountKeyIndex) }
    } else {
        Filed {
            transient_metas: without_token_meta(transient_metas, instruction.accounts[0]),
            result: Ok(None),
        }
    }
}

/// The key of the `n`-th account, as a partition key.
pub open spec fn filed_under_account(
    instruction: CompiledInstructionView,
    account_keys: Seq<Pubkey>,
    n: int,
) -> Result<Option<Pubkey>, ErrorCode> {
    match key_of_account(instruction, account_keys, n) {
        Ok(key) => Ok(Some(key)),
        Err(e) => Err(e),
    }
}

/// The partition key of a decoded instruction of the token program, and what
/// the instruction does to the accounts that the transaction has initialised.
/// An instruction that moves more than one token, or a token with decimals,
/// is filed under no mint.
pub open spec fn token_partition(
    decoded: TokenInstruction,
    instruction: CompiledInstructionView,
    account_keys: Seq<Pubkey>,
    known: Known,
) -> Filed {
    let keeping = |result: Result<Option<Pubkey>, ErrorCode>|
        Filed { transient_metas: known.transient_metas, result };
    let mint_of = |n: int| mint_of_account(instruction, known, n);
    match decoded {
        TokenInstruction::InitializeMint { decimals } => keeping(
            if decimals != 0 {
                Ok(None)
            } else {
                filed_under_account(instruction, account_keys, 0)
            },
        ),
        TokenInstruction::InitializeMint2 { decimals } => keeping(
            if decimals != 0 {
                Ok(None)
            } else {
                filed_under_account(instruction, account_keys, 0)
            },
        ),
        TokenInstruction::InitializeAccount => account_filed(
            instruction,
            account_keys,
            known,
            key_of_account(instruction, account_keys, 2),
        ),
        TokenInstruction::InitializeAccount2 { owner } => account_filed(
            instruction,
            account_keys,
            known,
            Ok(owner),
        ),
        TokenInstruction::InitializeAccount3 { owner } => account_filed(
            instruction,
            account_keys,
            known,
            Ok(owner),
        ),
        TokenInstruction::Transfer { amount } => keeping(
            if amount > 1 {
                Ok(None)
            } else {
                mint_of(0)
            },
        ),
        TokenInstruction::Approve { amount } => keeping(
            if amount > 1 {
                Ok(None)
            } else {
                mint_of(0)
            },
        ),
        TokenInstruction::Burn { amount } => keeping(
            if amount > 1 {
                Ok(None)
            } else {
                mint_of(0)
            },
        ),
        TokenInstruction::MintTo { amount } => keeping(
            if amount > 1 {
                Ok(None)
            } else {
                mint_of(1)
            },
        ),
        TokenInstruction::TransferChecked { amount, decimals } => keeping(
            if decimals != 0 || amount > 1 {
                Ok(None)
            } else {
                mint_of(0)
            },
        ),
        TokenInstruction::ApproveChecked { amount, decimals } => keeping(
            if decimals != 0 || amount > 1 {
                Ok(None)
            } else {
                mint_of(0)
            },
        ),
        TokenInstruction::BurnChecked { amount, decimals } => keeping(
            if decimals != 0 || amount > 1 {
                Ok(None)
            } else {
                mint_of(0)
            },
        ),
        TokenInstruction::MintToChecked { amount, decimals } => keeping(
            if decimals != 0 || amount > 1 {
                Ok(None)
            } else {
                mint_of(1)
            },
        ),
        TokenInstruction::Revoke => keeping(mint_of(0)),
        TokenInstruction::FreezeAccount => keeping(mint_of(0)),
        TokenInstruction::ThawAccount => keeping(mint_of(0)),
        TokenInstruction::SetAuthority { authority_type, .. } => keeping(
            match authority_type {
                AuthorityType::MintTokens => filed_under_account(instruction, account_keys, 0),
                AuthorityType::FreezeAccount => Ok(None),
                _ => mint_of(0),
            },
        ),
        TokenInstruction::CloseAccount => account_closed(instruction, known.transient_metas),
        _ => keeping(Ok(None)),
    }
}

/// What `partition_token_instruction` gives: an error where the payload does
/// not decode, else the partition key of the decoded instruction.
pub open spec fn token_partitioned(
    instruction: CompiledInstructionView,
    account_keys: Seq<Pubkey>,
    known: Known,
) -> Filed {
    match token_decoding(instruction.data) {
        None => Filed {
            transient_metas: known.transient_metas,
            result: Err(ErrorCode::FailedInstructionDeserialization),
        },
        Some(decoded) => token_partition(decoded, instruction, account_keys, known),
    }
}

/// An instruction with what surrounds it in its transaction.
pub struct InstructionContext<'a> {
    pub instruction: &'a CompiledInstruction,
    pub account_keys: &'a [Pubkey],
    /// What the balance snapshots of the transaction tell of its token
    /// accounts.
    pub token_metas: &'a [TransactionTokenMeta],
    /// The token accounts whose balance snapshots name no key.
    pub unreadable: &'a [u8],
    /// The token accounts that the transaction has initialised and not yet
    /// closed, and of which the balance snapshots say nothing.
    pub transient_metas: &'a mut Vec<TransactionTokenMeta>,
}

/// What is known with these entries for the accounts that the transaction
/// has initialised.
pub open spec fn known_with(
    token_metas: Seq<TransactionTokenMeta>,
    unreadable: Seq<u8>,
    transient_metas: Seq<TransactionTokenMeta>,
) -> Known {
    Known {
        token_metas: meta_views(token_metas),
        unreadable,
        transient_metas: meta_views(transient_metas),
    }
}

/// The place of the first entry for an account index.
pub fn find_token_meta(metas: &[TransactionTokenMeta], account_index: u8) -> (found: Option<usize>)
    ensures
        match found {
            Some(i) => first_index(meta_views(metas@), at_index(account_index)) == Some(i as int)
                && i < metas@.len(),
            None => first_index(meta_views(metas@), at_index(account_index)) is None,
        },
{
    let ghost views = meta_views(metas@);
    let ghost wanted = at_index(account_index);
    let mut i: usize = 0;
    while i < metas.len()
        invariant
            0 <= i <= metas@.len(),
            views == meta_views(metas@),
            wanted == at_index(account_index),
            forall|j: int| 0 <= j < i ==> !wanted(#[trigger] views[j]),
        decreases metas@.len() - i,
    {
        if metas[i].account_index == account_index {
            proof {
                assert(wanted(views[i as int]));
                lemma_first_index(views, wanted, i as int);
            }
            return Some(i);
        }
        assert(!wanted(views[i as int]));
        i += 1;
    }
    proof {
        lemma_no_first_index(views, wanted);
    }
    None
}

/// Whether the balance snapshots of an account name no key.
pub fn is_unreadable(unreadable: &[u8], account_index: u8) -> (found: bool)
    ensures
        found == unreadable@.contains(account_index),
{
    let mut i: usize = 0;
    while i < unreadable.len()
        invariant
            0 <= i <= unreadable@.len(),
            forall|j: int| 0 <= j < i ==> unreadable@[j] != account_index,
        decreases unreadable@.len() - i,
    {
        if unreadable[i] == account_index {
            return true;
        }
        i += 1;
    }
    false
}

/// The key of the `n`-th account of an instruction.
pub fn get_account_key(instruction: &CompiledInstruction, account_keys: &[Pubkey], n: usize) -> (key:
    Result<Pubkey, ErrorCode>)
    ensures
        key == key_of_account(instruction@, account_keys@, n as int),
{
    if n >= instruction.accounts.len() {
        return Err(ErrorCode::BadAccountKeyIndex);
    }
    let place = instruction.accounts[n] as usize;
    if place < account_keys.len() {
        Ok(account_keys[place])
    } else {
        Err(ErrorCode::BadAccountKeyIndex)
    }
}

fn file_under_account(instruction: &CompiledInstruction, account_keys: &[Pubkey], n: usize) -> (key:
    Result<Option<Pubkey>, ErrorCode>)
    ensures
        key == filed_under_account(instruction@, account_keys@, n as int),
{
    match get_account_key(instruction, account_keys, n) {
        Ok(key) => Ok(Some(key)),
        Err(e) => Err(e),
    }
}

/// The mint under which the transaction's entry for an account files an
/// instruction, if the transaction has an entry for the account.
fn mint_by_entry(
    token_metas: &[TransactionTokenMeta],
    transient_metas: &Vec<TransactionTokenMeta>,
    account_index: u8,
) -> (mint: Option<Option<Pubkey>>)
    ensures
        mint == (match token_meta_for(
            meta_views(token_metas@),
            meta_views(transient_metas@),
            account_index,
        ) {
            Some(meta) => Some(plausible_mint(meta)),
            None => None,
        }),
{
    match find_token_meta(token_metas, account_index) {
        Some(i) => {
            let meta = &token_metas[i];
            assert(meta_views(token_metas@)[i as int] == meta@);
            Some(
                if heuristic_token_meta_ok(meta) {
                    Some(meta.mint_key)
                } else {
                    None
                },
            )
        },
        None => match find_token_meta(transient_metas.as_slice(), account_index) {
            Some(i) => {
                let meta = &transient_metas[i];
                assert(meta_views(transient_metas@)[i as int] == meta@);
                Some(
                    if heuristic_token_meta_ok(meta) {
                        Some(meta.mint_key)
                    } else {
                        None
                    },
                )
            },
            None => None,
        },
    }
}

/// The mint of the `n`-th account of an instruction, where that account may
/// hold a non-fungible token.
pub fn token_account_mint_key(
    instruction: &CompiledInstruction,
    token_metas: &[TransactionTokenMeta],
    unreadable: &[u8],
    transient_metas: &Vec<TransactionTokenMeta>,
    n: usize,
) -> (mint: Result<Option<Pubkey>, ErrorCode>)
    ensures
        mint == mint_of_account(
            instruction@,
            known_with(token_metas@, unreadable@, transient_metas@),
            n as int,
        ),
{
    if n >= instruction.accounts.len() {
        return Err(ErrorCode::BadAccountKeyIndex);
    }
    let account_index = instruction.accounts[n];
    match mint_by_entry(token_metas, transient_metas, account_index) {
        Some(mint) => Ok(mint),
        None => if is_unreadable(unreadable, account_index) {
            Err(ErrorCode::BadPubkeyString)
        } else {
            Err(ErrorCode::BadTokenMetaAccountIndex)
        },
    }
}

fn file_account(
    instruction: &CompiledInstruction,
    account_keys: &[Pubkey],
    token_metas: &[TransactionTokenMeta],
    unreadable: &[u8],
    transient_metas: &mut Vec<TransactionTokenMeta>,
    owner: Option<Pubkey>,
) -> (result: Result<Option<Pubkey>, ErrorCode>)
    ensures
        (Filed { transient_metas: meta_views(final(transient_metas)@), result }) == account_filed(
            instruction@,
            account_keys@,
            known_with(token_metas@, unreadable@, old(transient_metas)@),
            match owner {
                Some(key) => Ok(key),
                None => key_of_account(instruction@, account_keys@, 2),
            },
        ),
{
    if instruction.accounts.len() == 0 {
        return Err(ErrorCode::BadAccountKeyIndex);
    }
    let account_index = instruction.accounts[0];
    match mint_by_entry(token_metas, transient_metas, account_index) {
        Some(mint) => Ok(mint),
        None => {
            if is_unreadable(unreadable, account_index) {
                return Err(ErrorCode::BadPubkeyString);
            }
            let owner_key = match owner {
                Some(key) => key,
                None => match get_account_key(instruction, account_keys, 2) {
                    Ok(key) => key,
                    Err(e) => { return Err(e); },
                },
            };
            let mint_key = match get_account_key(instruction, account_keys, 1) {
                Ok(key) => key,
                Err(e) => { return Err(e); },
            };
            let meta = TransactionTokenMeta {
                account_index,
                decimals: 0,
                pre_amount: None,
                post_amount: None,
                mint_key,
                owner_key: Some(owner_key),
            };
            transient_metas.push(meta);
            assert(meta_views(transient_metas@) =~= meta_views(old(transient_metas)@).push(
                initialised_meta(account_index, mint_key, owner_key),
            ));
            Ok(Some(mint_key))
        },
    }
}

fn file_closing(instruction: &CompiledInstruction, transient_metas: &mut Vec<TransactionTokenMeta>) -> (result:
    Result<Option<Pubkey>, ErrorCode>)
    ensures
        (Filed { transient_metas: meta_views(final(transient_metas)@), result }) == account_closed(
            instruction@,
            meta_views(old(transient_metas)@),
        ),
{
    if instruction.accounts.len() == 0 {
        return Err(ErrorCode::BadAccountKeyIndex);
    }
    if let Some(i) = find_token_meta(transient_metas.as_slice(), instruction.accounts[0]) {
        let _ = transient_metas.swap_remove(i);
        assert(meta_views(transient_metas@) =~= meta_views(old(transient_metas)@).update(
            i as int,
            meta_views(old(transient_metas)@).last(),
        ).drop_last());
    }
    Ok(None)
}

/// Files a decoded instruction of the token program under a mint, if it is
/// likely to concern a non-fungible token.
pub fn file_token_instruction(
    decoded: TokenInstruction,
    instruction: &CompiledInstruction,
    account_keys: &[Pubkey],
    token_metas: &[TransactionTokenMeta],
    unreadable: &[u8],
    transient_metas: &mut Vec<TransactionTokenMeta>,
) -> (result: Result<Option<Pubkey>, ErrorCode>)
    ensures
        (Filed { transient_metas: meta_views(final(transient_metas)@), result })
            == token_partition(
            decoded,
            instruction@,
            account_keys@,
            known_with(token_metas@, unreadable@, old(transient_metas)@),
        ),
{
    match decoded {
        TokenInstruction::InitializeMint { decimals }
        | TokenInstruction::InitializeMint2 { decimals } => {
            if decimals != 0 {
                Ok(None)
            } else {
                file_under_account(instruction, account_keys, 0)
            }
        },
        TokenInstruction::InitializeAccount => {
            file_account(instruction, account_keys, token_metas, unreadable, transient_metas, None)
        },
        TokenInstruction::InitializeAccount2 { owner }
        | TokenInstruction::InitializeAccount3 { owner } => {
            file_account(
                instruction,
                account_keys,
                token_metas,
                unreadable,
                transient_metas,
                Some(owner),
            )
        },
        TokenInstruction::Transfer { amount }
        | TokenInstruction::Approve { amount }
        | TokenInstruction::Burn { amount } => {
            if amount > 1 {
                Ok(None)
            } else {
                token_account_mint_key(instruction, token_metas, unreadable, transient_metas, 0)
            }
        },
        TokenInstruction::MintTo { amount } => {
            if amount > 1 {
                Ok(None)
            } else {
                token_account_mint_key(instruction, token_metas, unreadable, transient_metas, 1)
            }
        },
        TokenInstruction::TransferChecked { amount, decimals }
        | TokenInstruction::ApproveChecked { amount, decimals }
        | TokenInstruction::BurnChecked { amount, decimals } => {
            if decimals != 0 || amount > 1 {
                Ok(None)
            } else {
                token_account_mint_key(instruction, token_metas, unreadable, transient_metas, 0)
            }
        },
        TokenInstruction::MintToChecked { amount, decimals } => {
            if decimals != 0 || amount > 1 {
                Ok(None)
            } else {
                token_account_mint_key(instruction, token_metas, unreadable, transient_metas, 1)
            }
        },
        TokenInstruction::Revoke
        | TokenInstruction::FreezeAccount
        | TokenInstruction::ThawAccount => {
            token_account_mint_key(instruction, token_metas, unreadable, transient_metas, 0)
        },
        TokenInstruction::SetAuthority { authority_type, .. } => {
            match authority_type {
                AuthorityType::MintTokens => file_under_account(instruction, account_keys, 0),
                AuthorityType::FreezeAccount => Ok(None),
                _ => token_account_mint_key(
                    instruction,
                    token_metas,
                    unreadable,
                    transient_metas,
                    0,
                ),
            }
        },
        TokenInstruction::CloseAccount => file_closing(instruction, transient_metas),
        _ => Ok(None),
    }
}

/// Files an instruction of the token program under a mint, if it is likely
/// to concern a non-fungible token.
pub fn partition_token_instruction(instruction_context: InstructionContext) -> (result: Result<
    Option<Pubkey>,
    ErrorCode,
>)
    ensures
        (Filed {
            transient_metas: meta_views(final(instruction_context.transient_metas)@),
            result,
        }) == token_partitioned(
            instruction_context.instruction@,
            instruction_context.account_keys@,
            known_with(
                instruction_context.token_metas@,
                instruction_context.unreadable@,
                old(instruction_context.transient_metas)@,
            ),
        ),
{
    let InstructionContext { instruction, account_keys, token_metas, unreadable, transient_metas } =
        instruction_context;
    match decode_token(instruction.data.as_slice()) {
        Some(decoded) => file_token_instruction(
            decoded,
            instruction,
            account_keys,
            token_metas,
            unreadable,
            transient_metas,
        ),
        None => Err(ErrorCode::FailedInstructionDeserialization),
    }
}

/// Where the account stands under whose key an instruction of the metadata
/// program is filed; `None` for the instructions that are not filed.
pub open spec fn filing_place(decoded: MetadataInstructionView) -> Option<int> {
    match decoded {
        MetadataInstructionView::DeprecatedSetReservationList => None,
        MetadataInstructionView::ConvertMasterEditionV1ToV2 => None,
        MetadataInstructionView::FreezeDelegatedAccount => None,
        MetadataInstructionView::ThawDelegatedAccount => None,
        MetadataInstructionView::DeprecatedCreateMasterEdition => Some(7),
        MetadataInstructionView::CreateMasterEdition => Some(5),
        MetadataInstructionView::CreateMasterEditionV3 => Some(5),
        MetadataInstructionView::DeprecatedCreateReservationList => Some(5),
        MetadataInstructionView::DeprecatedMintPrintingTokensViaToken => Some(5),
        MetadataInstructionView::ApproveUseAuthority => Some(5),
        MetadataInstructionView::RevokeUseAuthority => Some(5),
        MetadataInstructionView::ApproveCollectionAuthority => Some(4),
        MetadataInstructionView::DeprecatedMintPrintingTokens => Some(3),
        MetadataInstructionView::RevokeCollectionAuthority => Some(3),
        _ => Some(0),
    }
}

/// Whether the account of the master edition, which an edition mint names,
/// resolves. The oldest form names it at place 11, or at place 10 where
/// place 11 holds the token program.
pub open spec fn master_resolves(
    decoded: MetadataInstructionView,
    instruction: CompiledInstructionView,
    account_keys: Seq<Pubkey>,
) -> Result<(), ErrorCode> {
    let key = |n: int| key_of_account(instruction, account_keys, n);
    let resolves = |found: Result<Pubkey, ErrorCode>|
        match found {
            Ok(_) => Ok::<(), ErrorCode>(()),
            Err(e) => Err(e),
        };
    match decoded {
        MetadataInstructionView::DeprecatedMintNewEditionFromMasterEditionViaPrintingToken => match key(
            11,
        ) {
            Err(e) => Err(e),
            Ok(pivot) => if is_token_program(pivot@) {
                resolves(key(10))
            } else {
                Ok(())
            },
        },
        MetadataInstructionView::MintNewEditionFromMasterEditionViaToken(_) => resolves(key(10)),
        MetadataInstructionView::MintNewEditionFromMasterEditionViaVaultProxy(_) => resolves(
            key(12),
        ),
        _ => Ok(()),
    }
}

/// The partition key of a decoded instruction of the metadata program: the
/// key of the metadata account that it names.
pub open spec fn metadata_partition(
    decoded: MetadataInstructionView,
    instruction: CompiledInstructionView,
    account_keys: Seq<Pubkey>,
) -> Result<Option<Pubkey>, ErrorCode> {
    match filing_place(decoded) {
        None => Ok(None),
        Some(n) => match master_resolves(decoded, instruction, account_keys) {
            Err(e) => Err(e),
            Ok(_) => filed_under_account(instruction, account_keys, n),
        },
    }
}

/// What `partition_metadata_instruction` gives: an error where the payload
/// does not decode, else the partition key of the decoded instruction.
pub open spec fn metadata_partitioned(
    instruction: CompiledInstructionView,
    account_keys: Seq<Pubkey>,
) -> Result<Option<Pubkey>, ErrorCode> {
    match metadata_decoding(instruction.data) {
        None => Err(ErrorCode::FailedInstructionDeserialization),
        Some(decoded) => metadata_partition(decoded, instruction, account_keys),
    }
}

fn filing_place_of(decoded: &MetadataInstruction) -> (place: Option<usize>)
    ensures
        match place {
            Some(n) => filing_place(decoded@) == Some(n as int),
            None => filing_place(decoded@) is None,
        },
{
    match decoded {
        MetadataInstruction::DeprecatedSetReservationList => None,
        MetadataInstruction::ConvertMasterEditionV1ToV2 => None,
        MetadataInstruction::FreezeDelegatedAccount => None,
        MetadataInstruction::ThawDelegatedAccount => None,
        MetadataInstruction::DeprecatedCreateMasterEdition => Some(7),
        MetadataInstruction::CreateMasterEdition => Some(5),
        MetadataInstruction::CreateMasterEditionV3 => Some(5),
        MetadataInstruction::DeprecatedCreateReservationList => Some(5),
        MetadataInstruction::DeprecatedMintPrintingTokensViaToken => Some(5),
        MetadataInstruction::ApproveUseAuthority => Some(5),
        MetadataInstruction::RevokeUseAuthority => Some(5),
        MetadataInstruction::ApproveCollectionAuthority => Some(4),
        MetadataInstruction::DeprecatedMintPrintingTokens => Some(3),
        MetadataInstruction::RevokeCollectionAuthority => Some(3),
        _ => Some(0),
    }
}

fn resolve_master(
    decoded: &MetadataInstruction,
    instruction: &CompiledInstruction,
    account_keys: &[Pubkey],
) -> (result: Result<(), ErrorCode>)
    ensures
        result == master_resolves(decoded@, instruction@, account_keys@),
{
    let place: usize = match decoded {
        MetadataInstruction::DeprecatedMintNewEditionFromMasterEditionViaPrintingToken => {
            let pivot = match get_account_key(instruction, account_keys, 11) {
                Ok(key) => key,
                Err(e) => { return Err(e); },
            };
            if !check_token_program(&pivot) {
                return Ok(());
            }
            10
        },
        MetadataInstruction::MintNewEditionFromMasterEditionViaToken(_) => 10,
        MetadataInstruction::MintNewEditionFromMasterEditionViaVaultProxy(_) => 12,
        _ => { return Ok(()); },
    };
    match get_account_key(instruction, account_keys, place) {
        Ok(_) => Ok(()),
        Err(e) => Err(e),
    }
}

/// Files a decoded instruction of the metadata program under the key of the
/// metadata account that it names.
pub fn file_metadata_instruction(
    decoded: &MetadataInstruction,
    instruction: &CompiledInstruction,
    account_keys: &[Pubkey],
) -> (result: Result<Option<Pubkey>, ErrorCode>)
    ensures
        result == metadata_partition(decoded@, instruction@, account_keys@),
{
    match filing_place_of(decoded) {
        None => Ok(None),
        Some(n) => {
            match resolve_master(decoded, instruction, account_keys) {
                Ok(_) => {},
                Err(e) => { return Err(e); },
            }
            file_under_account(instruction, account_keys, n)
        },
    }
}

/// Files an instruction of the metadata program under the key of the
/// metadata account that it names.
pub fn partition_metadata_instruction(instruction_context: InstructionContext) -> (result: Result<
    Option<Pubkey>,
    ErrorCode,
>)
    ensures
        result == metadata_partitioned(
            instruction_context.instruction@,
            instruction_context.account_keys@,
        ),
        final(instruction_context.transient_metas)@ == old(instruction_context.transient_metas)@,
{
    match decode_metadata(instruction_context.instruction.data.as_slice()) {
        Some(decoded) => file_metadata_instruction(
            &decoded,
            instruction_context.instruction,
            instruction_context.account_keys,
        ),
        None => Err(ErrorCode::FailedInstructionDeserialization),
    }
}

/// Which of the two programs' rules a partitioner applies.
#[derive(Clone, Copy, Debug, PartialEq, Eq, Structural)]
pub enum Partitioner {
    /// The rules of `partition_token_instruction`.
    Token,
    /// The rules of `partition_metadata_instruction`.
    Metadata,
}

/// The rules to apply to the instructions of one program.
#[derive(Clone, Copy, Debug, PartialEq, Eq)]
pub struct InstructionPartitioner {
    pub program_id: Pubkey,
    pub partitioner: Partitioner,
}

impl InstructionPartitioner {
    /// The token program's rules, under the token program's identifier.
    pub fn token() -> (partitioner: InstructionPartitioner)
        ensures
            is_token_program(partitioner.program_id@),
            partitioner.partitioner == Partitioner::Token,
    {
        InstructionPartitioner { program_id: token_program_key(), partitioner: Partitioner::Token }
    }

    /// The metadata program's rules, under the metadata program's identifier.
    pub fn metadata() -> (partitioner: InstructionPartitioner)
        ensures
            is_metadata_program(partitioner.program_id@),
            partitioner.partitioner == Partitioner::Metadata,
    {
        InstructionPartitioner {
            program_id: metadata_program_key(),
            partitioner: Partitioner::Metadata,
        }
    }

    /// What the partitioner's rules make of an instruction.
    pub open spec fn partitioned(
        self,
        instruction: CompiledInstructionView,
        account_keys: Seq<Pubkey>,
        known: Known,
    ) -> Filed {
        match self.partitioner {
            Partitioner::Token => token_partitioned(instruction, account_keys, known),
            Partitioner::Metadata => Filed {
                transient_metas: known.transient_metas,
                result: metadata_partitioned(instruction, account_keys),
            },
        }
    }

    /// Applies the partitioner's rules to an instruction.
    pub fn partition(&self, instruction_context: InstructionContext) -> (result: Result<
        Option<Pubkey>,
        ErrorCode,
    >)
        ensures
            (Filed {
                transient_metas: meta_views(final(instruction_context.transient_metas)@),
                result,
            }) == self.partitioned(
                instruction_context.instruction@,
                instruction_context.account_keys@,
                known_with(
                    instruction_context.token_metas@,
                    instruction_context.unreadable@,
                    old(instruction_context.transient_metas)@,
                ),
            ),
    {
        match self.partitioner {
            Partitioner::Token => partition_token_instruction(instruction_context),
            Partitioner::Metadata => partition_metadata_instruction(instruction_context),
        }
    }
}

/// The key that a text in base 58 stands for, where it stands for 32 bytes.
pub open spec fn key_of_text(text: Seq<char>) -> Option<Pubkey> {
    match base58_decoding(text) {
        Some(bytes) => if bytes.len() == 32 {
            Some(key_of_bytes(bytes))
        } else {
            None
        },
        None => None,
    }
}

/// The key that a text in base 58 stands for.
pub fn decode_key(text: &str) -> (key: Option<Pubkey>)
    ensures
        key == key_of_text(text@),
{
    match base58_decode(text) {
        Some(bytes) => {
            let key = Pubkey::from_slice(bytes.as_slice());
            proof {
                if key is Some {
                    lemma_key_of_bytes(key.unwrap());
                }
            }
            key
        },
        None => None,
    }
}

/// The view of an entry or of the error in its place.
pub open spec fn meta_result_view(result: Result<TransactionTokenMeta, ErrorCode>) -> Result<
    TransactionTokenMetaView,
    ErrorCode,
> {
    match result {
        Ok(meta) => Ok(meta@),
        Err(e) => Err(e),
    }
}

/// The entry that a balance snapshot gives, without its amounts. The owner
/// is absent where the snapshot does not tell it.
pub open spec fn meta_of_balance(balance: TransactionTokenBalance) -> Result<
    TransactionTokenMetaView,
    ErrorCode,
> {
    match key_of_text(balance.mint@) {
        None => Err(ErrorCode::BadPubkeyString),
        Some(mint_key) => {
            let entry = |owner_key: Option<Pubkey>|
                TransactionTokenMetaView {
                    account_index: balance.account_index,
                    decimals: balance.ui_token_amount.decimals,
                    pre_amount: None,
                    post_amount: None,
                    mint_key,
                    owner_key,
                };
            if balance.owner@.len() == 0 {
                Ok(entry(None))
            } else {
                match key_of_text(balance.owner@) {
                    None => Err(ErrorCode::BadPubkeyString),
                    Some(owner_key) => Ok(entry(Some(owner_key))),
                }
            }
        },
    }
}

/// The entry that a balance snapshot gives, without its amounts.
pub fn meta_from_balance(b: &TransactionTokenBalance) -> (meta: Result<
    TransactionTokenMeta,
    ErrorCode,
>)
    ensures
        meta_result_view(meta) == meta_of_balance(*b),
{
    let mint_key = match decode_key(b.mint.as_str()) {
        Some(key) => key,
        None => { return Err(ErrorCode::BadPubkeyString); },
    };
    let owner_key = if b.owner.as_str().is_empty() {
        None
    } else {
        match decode_key(b.owner.as_str()) {
            Some(key) => Some(key),
            None => { return Err(ErrorCode::BadPubkeyString); },
        }
    };
    Ok(
        TransactionTokenMeta {
            account_index: b.account_index,
            decimals: b.ui_token_amount.decimals,
            pre_amount: None,
            post_amount: None,
            mint_key,
            owner_key,
        },
    )
}

/// Which of the two snapshots of a transaction a balance belongs to.
#[derive(Clone, Copy, Debug, PartialEq, Eq, Structural)]
pub enum Snapshot {
    Before,
    After,
}

/// The entry with the amount of one of the two snapshots.
pub open spec fn with_amount(meta: TransactionTokenMetaView, snapshot: Snapshot, amount: Seq<char>) -> TransactionTokenMetaView {
    match snapshot {
        Snapshot::Before => TransactionTokenMetaView { pre_amount: Some(amount), ..meta },
        Snapshot::After => TransactionTokenMetaView { post_amount: Some(amount), ..meta },
    }
}

/// What the balance snapshots of a transaction tell of its token accounts.
pub struct Told {
    /// One entry for each account, in the order in which the accounts first
    /// appear.
    pub token_metas: Seq<TransactionTokenMetaView>,
    /// The accounts of the balances that name no key.
    pub unreadable: Seq<u8>,
}

/// One more balance is folded in: its amount goes to the entry of its
/// account; where there is none yet, the balance makes it, or, where the
/// balance names no key, its account is noted as unreadable.
pub open spec fn with_balance(told: Told, balance: TransactionTokenBalance, snapshot: Snapshot) -> Told {
    let amount = balance.ui_token_amount.amount@;
    match first_index(told.token_metas, at_index(balance.account_index)) {
        Some(i) => Told {
            token_metas: told.token_metas.update(
                i,
                with_amount(told.token_metas[i], snapshot, amount),
            ),
            unreadable: told.unreadable,
        },
        None => match meta_of_balance(balance) {
            Ok(meta) => Told {
                token_metas: told.token_metas.push(with_amount(meta, snapshot, amount)),
                unreadable: told.unreadable,
            },
            Err(_) => Told {
                token_metas: told.token_metas,
                unreadable: told.unreadable.push(balance.account_index),
            },
        },
    }
}

/// The first `n` balances of a snapshot are folded in.
pub open spec fn with_balances(
    told: Told,
    balances: Seq<TransactionTokenBalance>,
    snapshot: Snapshot,
    n: int,
) -> Told
    decreases n,
{
    if n <= 0 {
        told
    } else {
        with_balance(with_balances(told, balances, snapshot, n - 1), balances[n - 1], snapshot)
    }
}

/// The balances of a snapshot, none where the ledger kept none.
pub open spec fn balances_of(balances: Option<Vec<TransactionTokenBalance>>) -> Seq<
    TransactionTokenBalance,
> {
    match balances {
        Some(list) => list@,
        None => Seq::empty(),
    }
}

/// What the balance snapshots of a transaction tell of its token accounts:
/// the balances before the transaction are folded in first, then those
/// after it.
pub open spec fn told_by(
    pre: Option<Vec<TransactionTokenBalance>>,
    post: Option<Vec<TransactionTokenBalance>>,
) -> Told {
    with_balances(
        with_balances(
            Told { token_metas: Seq::empty(), unreadable: Seq::empty() },
            balances_of(pre),
            Snapshot::Before,
            balances_of(pre).len() as int,
        ),
        balances_of(post),
        Snapshot::After,
        balances_of(post).len() as int,
    )
}

fn fold_balances(
    metas: &mut Vec<TransactionTokenMeta>,
    unreadable: &mut Vec<u8>,
    balances: &Option<Vec<TransactionTokenBalance>>,
    snapshot: Snapshot,
)
    ensures
        (Told { token_metas: meta_views(final(metas)@), unreadable: final(unreadable)@ })
            == with_balances(
            Told { token_metas: meta_views(old(metas)@), unreadable: old(unreadable)@ },
            balances_of(*balances),
            snapshot,
            balances_of(*balances).len() as int,
        ),
{
    let list = match balances {
        Some(list) => list,
        None => { return ; },
    };
    let ghost start = Told { token_metas: meta_views(metas@), unreadable: unreadable@ };
    let mut i: usize = 0;
    while i < list.len()
        invariant
            0 <= i <= list@.len(),
            list@ == balances_of(*balances),
            with_balances(start, list@, snapshot, i as int) == (Told {
                token_metas: meta_views(metas@),
                unreadable: unreadable@,
            }),
        decreases list@.len() - i,
    {
        let balance = &list[i];
        let ghost before = meta_views(metas@);
        match find_token_meta(metas.as_slice(), balance.account_index) {
            Some(place) => {
                let amount = balance.ui_token_amount.amount.clone();
                let known = &mut metas[place];
                match snapshot {
                    Snapshot::Before => { known.pre_amount = Some(amount); },
                    Snapshot::After => { known.post_amount = Some(amount); },
                }
                assert(meta_views(metas@) =~= before.update(
                    place as int,
                    with_amount(before[place as int], snapshot, amount@),
                ));
            },
            None => match meta_from_balance(balance) {
                Ok(meta) => {
                    let amount = balance.ui_token_amount.amount.clone();
                    let mut meta = meta;
                    match snapshot {
                        Snapshot::Before => { meta.pre_amount = Some(amount); },
                        Snapshot::After => { meta.post_amount = Some(amount); },
                    }
                    metas.push(meta);
                    assert(meta_views(metas@) =~= before.push(meta@));
                },
                Err(_) => {
                    unreadable.push(balance.account_index);
                },
            },
        }
        i += 1;
    }
}

/// What the balance snapshots of a transaction tell of its token accounts:
/// the entries, and the accounts of the balances that name no key.
pub fn token_metas_from_balances(
    pre: &Option<Vec<TransactionTokenBalance>>,
    post: &Option<Vec<TransactionTokenBalance>>,
) -> (told: (Vec<TransactionTokenMeta>, Vec<u8>))
    ensures
        (Told { token_metas: meta_views(told.0@), unreadable: told.1@ }) == told_by(*pre, *post),
{
    let mut metas: Vec<TransactionTokenMeta> = Vec::new();
    let mut unreadable: Vec<u8> = Vec::new();
    assert(meta_views(metas@) =~= Seq::<TransactionTokenMetaView>::empty());
    fold_balances(&mut metas, &mut unreadable, pre, Snapshot::Before);
    fold_balances(&mut metas, &mut unreadable, post, Snapshot::After);
    (metas, unreadable)
}

/// Why an instruction was filed under no mint.
#[derive(Clone, Copy, Debug, PartialEq, Eq, Structural)]
pub enum Reason {
    PartitionFailure { error_code: ErrorCode },
    NoMatchingPartitioner,
    PartitionerReturnedNone,
}

/// An instruction that was filed under no mint. The program key is the
/// all-zero key where the program of the instruction is not in the account
/// table.
#[derive(Debug, PartialEq, Eq)]
pub struct OtherInstruction {
    pub instruction: CompiledInstruction,
    pub program_key: Pubkey,
    pub outer_index: i64,
    pub inner_index: Option<i64>,
    pub reason: Reason,
}

pub struct OtherInstructionView {
    pub instruction: CompiledInstructionView,
    pub program_key: Pubkey,
    pub outer_index: i64,
    pub inner_index: Option<i64>,
    pub reason: Reason,
}

impl View for OtherInstruction {
    type V = OtherInstructionView;

    open spec fn view(&self) -> OtherInstructionView {
        OtherInstructionView {
            instruction: self.instruction@,
            program_key: self.program_key,
            outer_index: self.outer_index,
            inner_index: self.inner_index,
            reason: self.reason,
        }
    }
}

/// An instruction filed under its partition key.
#[derive(Debug, PartialEq, Eq)]
pub struct PartitionedInstruction {
    pub instruction: CompiledInstruction,
    pub partition_key: Pubkey,
    pub program_key: Pubkey,
    pub outer_index: i64,
    pub inner_index: Option<i64>,
}

pub struct PartitionedInstructionView {
    pub instruction: CompiledInstructionView,
    pub partition_key: Pubkey,
    pub program_key: Pubkey,
    pub outer_index: i64,
    pub inner_index: Option<i64>,
}

impl View for PartitionedInstruction {
    type V = PartitionedInstructionView;

    open spec fn view(&self) -> PartitionedInstructionView {
        PartitionedInstructionView {
            instruction: self.instruction@,
            partition_key: self.partition_key,
            program_key: self.program_key,
            outer_index: self.outer_index,
            inner_index: self.inner_index,
        }
    }
}

/// The instructions of a transaction, partitioned, and what its balance
/// snapshots tell of its token accounts.
#[derive(Debug, PartialEq, Eq)]
pub struct Partitions {
    pub partitioned: Vec<PartitionedInstruction>,
    pub other: Vec<OtherInstruction>,
    pub token_metas: Vec<TransactionTokenMeta>,
}

pub struct PartitionsView {
    pub partitioned: Seq<PartitionedInstructionView>,
    pub other: Seq<OtherInstructionView>,
    pub token_metas: Seq<TransactionTokenMetaView>,
}

impl View for Partitions {
    type V = PartitionsView;

    open spec fn view(&self) -> PartitionsView {
        PartitionsView {
            partitioned: Seq::new(self.partitioned@.len(), |i: int| self.partitioned@[i]@),
            other: Seq::new(self.other@.len(), |i: int| self.other@[i]@),
            token_metas: meta_views(self.token_metas@),
        }
    }
}

/// How far the partitioning of a transaction has come.
pub struct Progress {
    pub partitioned: Seq<PartitionedInstructionView>,
    pub other: Seq<OtherInstructionView>,
    /// The token accounts that the transaction has initialised and not yet
    /// closed, and of which the balance snapshots say nothing.
    pub transient_metas: Seq<TransactionTokenMetaView>,
}

/// A place in a list of instructions, as the store keeps it.
pub open spec fn stored_index(i: int) -> i64 {
    (i as usize) as i64
}

/// The first partitioner for a program, if there is one.
pub open spec fn partitioner_for(partitioners: Seq<InstructionPartitioner>, program_id: Pubkey) -> Option<
    InstructionPartitioner,
> {
    first_item(partitioners, |p: InstructionPartitioner| p.program_id == program_id)
}

/// One instruction is partitioned: by the first partitioner for its program
/// it is filed under a partition key, or set aside with the reason. A
/// failure of the instruction sets the instruction aside and leaves the rest
/// of the transaction alone.
pub open spec fn partition_one(
    progress: Progress,
    instruction: CompiledInstructionView,
    outer_index: i64,
    inner_index: Option<i64>,
    account_keys: Seq<Pubkey>,
    told: Told,
    partitioners: Seq<InstructionPartitioner>,
) -> Progress {
    let set_aside = |program_key: Pubkey, reason: Reason|
        OtherInstructionView { instruction, program_key, outer_index, inner_index, reason };
    if (instruction.program_id_index as int) >= account_keys.len() {
        Progress {
            other: progress.other.push(
                set_aside(
                    Pubkey::zero(),
                    Reason::PartitionFailure { error_code: ErrorCode::BadAccountKeyIndex },
                ),
            ),
            ..progress
        }
    } else {
        let program_key = account_keys[instruction.program_id_index as int];
        match partitioner_for(partitioners, program_key) {
            None => Progress {
                other: progress.other.push(set_aside(program_key, Reason::NoMatchingPartitioner)),
                ..progress
            },
            Some(partitioner) => {
                let filed = partitioner.partitioned(
                    instruction,
                    account_keys,
                    Known {
                        token_metas: told.token_metas,
                        unreadable: told.unreadable,
                        transient_metas: progress.transient_metas,
                    },
                );
                match filed.result {
                    Ok(Some(partition_key)) => Progress {
                        partitioned: progress.partitioned.push(
                            PartitionedInstructionView {
                                instruction,
                                partition_key,
                                program_key,
                                outer_index,
                                inner_index,
                            },
                        ),
                        other: progress.other,
                        transient_metas: filed.transient_metas,
                    },
                    Ok(None) => Progress {
                        partitioned: progress.partitioned,
                        other: progress.other.push(
                            set_aside(program_key, Reason::PartitionerReturnedNone),
                        ),
                        transient_metas: filed.transient_metas,
                    },
                    Err(error_code) => Progress {
                        partitioned: progress.partitioned,
                        other: progress.other.push(
                            set_aside(program_key, Reason::PartitionFailure { error_code }),
                        ),
                        transient_metas: filed.transient_metas,
                    },
                }
            },
        }
    }
}

/// The progress after the first `n` of the instructions that one instruction
/// of the message invoked.
pub open spec fn after_inner(
    progress: Progress,
    instructions: Seq<CompiledInstruction>,
    outer_index: int,
    n: int,
    account_keys: Seq<Pubkey>,
    told: Told,
    partitioners: Seq<InstructionPartitioner>,
) -> Progress
    decreases n,
{
    if n <= 0 {
        progress
    } else {
        partition_one(
            after_inner(progress, instructions, outer_index, n - 1, account_keys, told, partitioners),
            instructions[n - 1]@,
            stored_index(outer_index),
            Some(stored_index(n - 1)),
            account_keys,
            told,
            partitioners,
        )
    }
}

/// Whether the next group of invoked instructions belongs to the
/// instruction at place `outer_index` of the message.
pub open spec fn group_is_due(inner: Seq<InnerInstructions>, next_group: int, outer_index: int) -> bool {
    0 <= next_group < inner.len() && inner[next_group].index as int == outer_index
}

/// The progress after the first `n` instructions of the message, and the
/// number of groups of invoked instructions used up. The instructions that
/// an instruction invoked come before the instruction itself; a group is
/// used only when it is the next one in the list.
pub open spec fn after_outer(
    outer: Seq<CompiledInstruction>,
    inner: Seq<InnerInstructions>,
    n: int,
    account_keys: Seq<Pubkey>,
    told: Told,
    partitioners: Seq<InstructionPartitioner>,
) -> (Progress, int)
    decreases n,
{
    if n <= 0 {
        (
            Progress {
                partitioned: Seq::empty(),
                other: Seq::empty(),
                transient_metas: Seq::empty(),
            },
            0int,
        )
    } else {
        let (earlier, next_group) = after_outer(
            outer,
            inner,
            n - 1,
            account_keys,
            told,
            partitioners,
        );
        let due = group_is_due(inner, next_group, n - 1);
        let invoked = if due {
            after_inner(
                earlier,
                inner[next_group].instructions@,
                n - 1,
                inner[next_group].instructions@.len() as int,
                account_keys,
                told,
                partitioners,
            )
        } else {
            earlier
        };
        (
            partition_one(
                invoked,
                outer[n - 1]@,
                stored_index(n - 1),
                None,
                account_keys,
                told,
                partitioners,
            ),
            if due {
                next_group + 1
            } else {
                next_group
            },
        )
    }
}

/// The groups of invoked instructions of a transaction, none where the
/// ledger kept none.
pub open spec fn inner_of(inner: Option<Vec<InnerInstructions>>) -> Seq<InnerInstructions> {
    match inner {
        Some(groups) => groups@,
        None => Seq::empty(),
    }
}

/// The progress after all instructions of a complete transaction.
pub open spec fn progress_of(
    complete: VersionedTransactionWithStatusMeta,
    partitioners: Seq<InstructionPartitioner>,
) -> Progress {
    let outer = complete.transaction.message.outer_instructions();
    after_outer(
        outer,
        inner_of(complete.meta.inner_instructions),
        outer.len() as int,
        complete.account_table(),
        told_by(complete.meta.pre_token_balances, complete.meta.post_token_balances),
        partitioners,
    ).0
}

/// What partitioning a transaction gives. A transaction without status
/// metadata is not partitioned, nor is one that leaves an account behind
/// that it initialised and did not close. Nothing else keeps a transaction
/// from being partitioned.
pub open spec fn transaction_partition(
    transaction: TransactionWithStatusMeta,
    partitioners: Seq<InstructionPartitioner>,
) -> Result<PartitionsView, ErrorCode> {
    match transaction {
        TransactionWithStatusMeta::MissingMetadata(_) => Err(
            ErrorCode::MissingTransactionStatusMeta,
        ),
        TransactionWithStatusMeta::Complete(complete) => {
            let progress = progress_of(complete, partitioners);
            if progress.transient_metas.len() != 0 {
                Err(ErrorCode::FailedTransientTokenAccountMatching)
            } else {
                Ok(
                    PartitionsView {
                        partitioned: progress.partitioned,
                        other: progress.other,
                        token_metas: told_by(
                            complete.meta.pre_token_balances,
                            complete.meta.post_token_balances,
                        ).token_metas,
                    },
                )
            }
        },
    }
}

/// The view of partitions or of the error in their place.
pub open spec fn partitions_view(result: Result<Partitions, ErrorCode>) -> Result<
    PartitionsView,
    ErrorCode,
> {
    match result {
        Ok(partitions) => Ok(partitions@),
        Err(e) => Err(e),
    }
}

/// The first partitioner for a program.
pub fn find_partitioner(partitioners: &[InstructionPartitioner], program_id: &Pubkey) -> (found:
    Option<InstructionPartitioner>)
    ensures
        found == partitioner_for(partitioners@, *program_id),
{
    let ghost wanted = |p: InstructionPartitioner| p.program_id == *program_id;
    let mut i: usize = 0;
    while i < partitioners.len()
        invariant
            0 <= i <= partitioners@.len(),
            wanted == (|p: InstructionPartitioner| p.program_id == *program_id),
            forall|j: int| 0 <= j < i ==> !wanted(#[trigger] partitioners@[j]),
        decreases partitioners@.len() - i,
    {
        if partitioners[i].program_id == *program_id {
            proof {
                lemma_first_index(partitioners@, wanted, i as int);
            }
            return Some(partitioners[i]);
        }
        i += 1;
    }
    proof {
        lemma_no_first_index(partitioners@, wanted);
    }
    None
}

/// The partitioning of a transaction under way.
struct Partitioning {
    partitioned: Vec<PartitionedInstruction>,
    other: Vec<OtherInstruction>,
    transient_metas: Vec<TransactionTokenMeta>,
}

impl Partitioning {
    spec fn progress(&self) -> Progress {
        Progress {
            partitioned: Seq::new(self.partitioned@.len(), |i: int| self.partitioned@[i]@),
            other: Seq::new(self.other@.len(), |i: int| self.other@[i]@),
            transient_metas: meta_views(self.transient_metas@),
        }
    }

    fn try_partition_instruction(
        &mut self,
        instruction: &CompiledInstruction,
        outer_index: usize,
        inner_index: Option<usize>,
        account_keys: &[Pubkey],
        token_metas: &[TransactionTokenMeta],
        unreadable: &[u8],
        partitioners: &[InstructionPartitioner],
    )
        ensures
            final(self).progress() == partition_one(
                old(self).progress(),
                instruction@,
                stored_index(outer_index as int),
                match inner_index {
                    Some(i) => Some(stored_index(i as int)),
                    None => None,
                },
                account_keys@,
                Told { token_metas: meta_views(token_metas@), unreadable: unreadable@ },
                partitioners@,
            ),
    {
        let outer_index = #[verifier::truncate]
        (outer_index as i64);
        let inner_index = match inner_index {
            Some(i) => Some(
                #[verifier::truncate]
                (i as i64),
            ),
            None => None,
        };
        let ghost before = self.progress();
        let place = instruction.program_id_index as usize;
        let (program_key, reason) = if place >= account_keys.len() {
            (
                Pubkey::default(),
                Reason::PartitionFailure { error_code: ErrorCode::BadAccountKeyIndex },
            )
        } else {
            let program_key = account_keys[place];
            match find_partitioner(partitioners, &program_key) {
                Some(partitioner) => {
                    let filed = partitioner.partition(
                        InstructionContext {
                            instruction,
                            account_keys,
                            token_metas,
                            unreadable,
                            transient_metas: &mut self.transient_metas,
                        },
                    );
                    match filed {
                        Ok(Some(partition_key)) => {
                            let entry = PartitionedInstruction {
                                instruction: instruction.clone(),
                                partition_key,
                                program_key,
                                outer_index,
                                inner_index,
                            };
                            self.partitioned.push(entry);
                            assert(self.progress().partitioned =~= before.partitioned.push(entry@));
                            assert(self.progress().other =~= before.other);
                            return ;
                        },
                        Ok(None) => (program_key, Reason::PartitionerReturnedNone),
                        Err(error_code) => (program_key, Reason::PartitionFailure { error_code }),
                    }
                },
                None => (program_key, Reason::NoMatchingPartitioner),
            }
        };
        let entry = OtherInstruction {
            instruction: instruction.clone(),
            program_key,
            outer_index,
            inner_index,
            reason,
        };
        self.other.push(entry);
        assert(self.progress().other =~= before.other.push(entry@));
        assert(self.progress().partitioned =~= before.partitioned);
    }

    /// Partitions the instructions that one instruction of the message
    /// invoked.
    fn partition_group(
        &mut self,
        group: &Vec<CompiledInstruction>,
        outer_index: usize,
        account_keys: &[Pubkey],
        token_metas: &[TransactionTokenMeta],
        unreadable: &[u8],
        partitioners: &[InstructionPartitioner],
    )
        ensures
            final(self).progress() == after_inner(
                old(self).progress(),
                group@,
                outer_index as int,
                group@.len() as int,
                account_keys@,
                Told { token_metas: meta_views(token_metas@), unreadable: unreadable@ },
                partitioners@,
            ),
    {
        let ghost earlier = self.progress();
        let ghost told = Told { token_metas: meta_views(token_metas@), unreadable: unreadable@ };
        let mut inner_index: usize = 0;
        while inner_index < group.len()
            invariant
                0 <= inner_index <= group@.len(),
                earlier == old(self).progress(),
                told == (Told { token_metas: meta_views(token_metas@), unreadable: unreadable@ }),
                after_inner(
                    earlier,
                    group@,
                    outer_index as int,
                    inner_index as int,
                    account_keys@,
                    told,
                    partitioners@,
                ) == self.progress(),
            decreases group@.len() - inner_index,
        {
            self.try_partition_instruction(
                &group[inner_index],
                outer_index,
                Some(inner_index),
                account_keys,
                token_metas,
                unreadable,
                partitioners,
            );
            inner_index += 1;
        }
    }
}

/// Partitions the instructions of a message and those that they invoked.
fn partition_instructions(
    outer: &Vec<CompiledInstruction>,
    inner: &Vec<InnerInstructions>,
    account_keys: &[Pubkey],
    token_metas: &[TransactionTokenMeta],
    unreadable: &[u8],
    partitioners: &[InstructionPartitioner],
) -> (partitioning: Partitioning)
    ensures
        partitioning.progress() == after_outer(
            outer@,
            inner@,
            outer@.len() as int,
            account_keys@,
            Told { token_metas: meta_views(token_metas@), unreadable: unreadable@ },
            partitioners@,
        ).0,
{
    let ghost told = Told { token_metas: meta_views(token_metas@), unreadable: unreadable@ };
    let mut partitioning = Partitioning {
        partitioned: Vec::new(),
        other: Vec::new(),
        transient_metas: Vec::new(),
    };
    let mut next_group: usize = 0;
    let mut outer_index: usize = 0;
    assert(partitioning.progress().partitioned =~= Seq::empty());
    assert(partitioning.progress().other =~= Seq::empty());
    assert(partitioning.progress().transient_metas =~= Seq::empty());
    while outer_index < outer.len()
        invariant
            0 <= outer_index <= outer@.len(),
            0 <= next_group <= inner@.len(),
            told == (Told { token_metas: meta_views(token_metas@), unreadable: unreadable@ }),
            after_outer(outer@, inner@, outer_index as int, account_keys@, told, partitioners@) == (
                partitioning.progress(),
                next_group as int,
            ),
        decreases outer@.len() - outer_index,
    {
        let mut used: usize = 0;
        if next_group < inner.len() && inner[next_group].index as usize == outer_index {
            partitioning.partition_group(
                &inner[next_group].instructions,
                outer_index,
                account_keys,
                token_metas,
                unreadable,
                partitioners,
            );
            used = 1;
        }
        partitioning.try_partition_instruction(
            &outer[outer_index],
            outer_index,
            None,
            account_keys,
            token_metas,
            unreadable,
            partitioners,
        );
        next_group = next_group + used;
        outer_index += 1;
    }
    partitioning
}

/// Partitions the instructions of a transaction: each one that a partitioner
/// files under a mint goes to `partitioned`, every other one to `other` with
/// the reason. The instructions that an instruction invoked are partitioned
/// before the instruction itself.
pub fn partition_transaction(
    transaction: TransactionWithStatusMeta,
    partitioners: &[InstructionPartitioner],
) -> (result: Result<Partitions, ErrorCode>)
    ensures
        partitions_view(result) == transaction_partition(transaction, partitioners@),
{
    let complete = match &transaction {
        TransactionWithStatusMeta::Complete(complete) => complete,
        TransactionWithStatusMeta::MissingMetadata(_) => {
            return Err(ErrorCode::MissingTransactionStatusMeta);
        },
    };
    let account_keys = complete.account_keys();
    let (token_metas, unreadable) = token_metas_from_balances(
        &complete.meta.pre_token_balances,
        &complete.meta.post_token_balances,
    );
    let outer = complete.transaction.message.instructions();
    let no_groups: Vec<InnerInstructions> = Vec::new();
    let inner = match &complete.meta.inner_instructions {
        Some(groups) => groups,
        None => &no_groups,
    };
    assert(inner@ =~= inner_of(complete.meta.inner_instructions));
    let partitioning = partition_instructions(
        outer,
        inner,
        account_keys.as_slice(),
        token_metas.as_slice(),
        unreadable.as_slice(),
        partitioners,
    );
    if partitioning.transient_metas.len() != 0 {
        return Err(ErrorCode::FailedTransientTokenAccountMatching);
    }
    let Partitioning { partitioned, other, transient_metas: _ } = partitioning;
    Ok(Partitions { partitioned, other, token_metas })
}

} // verus!
