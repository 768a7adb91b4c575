//! The rows that the stages hand to the store. Keys stand in them as text,
//! in base 58.

use vstd::prelude::*;
use crate::bonbon::{
    Bonbon, BonbonView, Creator, EditionStatus, Glazing, GlazingView, InstructionIndex,
    };
use crate::ownership::{Ownership, Transfer};
use crate::partition::{TransactionTokenMeta, TransactionTokenMetaView};
use crate::pubkey::Pubkey;

verus! {

/// The view of an optional text.
pub open spec fn optional_text(text: Option<String>) -> Option<Seq<char>> {
    match text {
        Some(t) => Some(t@),
        None => None,
    }
}

/// The back-reference of a limited edition, as the store keeps it.
#[derive(Debug, PartialEq, Eq)]
pub struct LimitedEditionRow {
    pub master_key: String,
    pub edition_num: Option<i64>,
    pub instruction_index: InstructionIndex,
}

pub struct LimitedEditionRowView {
    pub master_key: Seq<char>,
    pub edition_num: Option<i64>,
    pub instruction_index: InstructionIndex,
}

impl View for LimitedEditionRow {
    type V = LimitedEditionRowView;

    open spec fn view(&self) -> LimitedEditionRowView {
        LimitedEditionRowView {
            master_key: self.master_key@,
            edition_num: self.edition_num,
            instruction_index: self.instruction_index,
        }
    }
}

/// A record, as the store keeps it.
#[derive(Debug, PartialEq, Eq)]
pub struct BonbonRow {
    pub metadata_key: String,
    pub mint_key: String,
    pub mint_authority: String,
    pub current_owner_owner: Option<String>,
    pub current_owner_account: Option<String>,
    pub edition_status: EditionStatus,
    pub limited_edition: Option<LimitedEditionRow>,
}

pub struct BonbonRowView {
    pub metadata_key: Seq<char>,
    pub mint_key: Seq<char>,
    pub mint_authority: Seq<char>,
    pub current_owner_owner: Option<Seq<char>>,
    pub current_owner_account: Option<Seq<char>>,
    pub edition_status: EditionStatus,
    pub limited_edition: Option<LimitedEditionRowView>,
}

impl View for BonbonRow {
    type V = BonbonRowView;

    open spec fn view(&self) -> BonbonRowView {
        BonbonRowView {
            metadata_key: self.metadata_key@,
            mint_key: self.mint_key@,
            mint_authority: self.mint_authority@,
            current_owner_owner: optional_text(self.current_owner_owner),
            current_owner_account: optional_text(self.current_owner_account),
            edition_status: self.edition_status,
            limited_edition: match self.limited_edition {
                Some(edition) => Some(edition@),
                None => None,
            },
        }
    }
}

/// A creator, as the store keeps it.
#[derive(Debug, PartialEq, Eq)]
pub struct CreatorRow {
    pub address: String,
    pub verified: bool,
    pub share: i16,
}

pub struct CreatorRowView {
    pub address: Seq<char>,
    pub verified: bool,
    pub share: i16,
}

impl View for CreatorRow {
    type V = CreatorRowView;

    open spec fn view(&self) -> CreatorRowView {
        CreatorRowView { address: self.address@, verified: self.verified, share: self.share }
    }
}

/// The view of an optional creator.
pub open spec fn optional_creator(creator: Option<CreatorRow>) -> Option<CreatorRowView> {
    match creator {
        Some(c) => Some(c@),
        None => None,
    }
}

/// A revision, as the store keeps it: with room for five creators.
#[derive(Debug, PartialEq, Eq)]
pub struct GlazingRow {
    pub metadata_key: String,
    pub uri: String,
    pub collection_address: Option<String>,
    pub collection_verified: Option<bool>,
    pub creator0: Option<CreatorRow>,
    pub creator1: Option<CreatorRow>,
    pub creator2: Option<CreatorRow>,
    pub creator3: Option<CreatorRow>,
    pub creator4: Option<CreatorRow>,
    pub slot: i64,
    pub block_index: i64,
    pub outer_index: i64,
    pub inner_index: Option<i64>,
}

pub struct GlazingRowView {
    pub metadata_key: Seq<char>,
    pub uri: Seq<char>,
    pub collection_address: Option<Seq<char>>,
    pub collection_verified: Option<bool>,
    pub creators: Seq<Option<CreatorRowView>>,
    pub slot: i64,
    pub block_index: i64,
    pub outer_index: i64,
    pub inner_index: Option<i64>,
}

impl View for GlazingRow {
    type V = GlazingRowView;

    open spec fn view(&self) -> GlazingRowView {
        GlazingRowView {
            metadata_key: self.metadata_key@,
            uri: self.uri@,
            collection_address: optional_text(self.collection_address),
            collection_verified: self.collection_verified,
            creators: seq![
                optional_creator(self.creator0),
                optional_creator(self.creator1),
                optional_creator(self.creator2),
                optional_creator(self.creator3),
                optional_creator(self.creator4),
            ],
            slot: self.slot,
            block_index: self.block_index,
            outer_index: self.outer_index,
            inner_index: self.inner_index,
        }
    }
}

/// A transfer, as the store keeps it.
#[derive(Debug, PartialEq, Eq)]
pub struct TransferRow {
    pub mint_key: String,
    pub slot: i64,
    pub start_owner: Option<String>,
    pub start_account: Option<String>,
    pub end_owner: Option<String>,
    pub end_account: Option<String>,
}

pub struct TransferRowView {
    pub mint_key: Seq<char>,
    pub slot: i64,
    pub start_owner: Option<Seq<char>>,
    pub start_account: Option<Seq<char>>,
    pub end_owner: Option<Seq<char>>,
    pub end_account: Option<Seq<char>>,
}

impl View for TransferRow {
    type V = TransferRowView;

    open spec fn view(&self) -> TransferRowView {
        TransferRowView {
            mint_key: self.mint_key@,
            slot: self.slot,
            start_owner: optional_text(self.start_owner),
            start_account: optional_text(self.start_account),
            end_owner: optional_text(self.end_owner),
            end_account: optional_text(self.end_account),
        }
    }
}

/// What is known of a token account of a transaction, as the store keeps it.
#[derive(Clone, Copy, Debug, PartialEq, Eq)]
pub struct TokenMetaRow {
    pub account_index: i16,
    pub mint_key: Pubkey,
    pub owner_key: Option<Pubkey>,
}

/// The owner of an ownership, as text.
pub open spec fn owner_text(ownership: Option<Ownership>) -> Option<Seq<char>> {
    match ownership {
        Some(o) => Some(o.owner.text()),
        None => None,
    }
}

/// The account of an ownership, as text.
pub open spec fn account_text(ownership: Option<Ownership>) -> Option<Seq<char>> {
    match ownership {
        Some(o) => Some(o.account.text()),
        None => None,
    }
}

/// The row of a record.
pub open spec fn bonbon_row_of(bonbon: BonbonView) -> BonbonRowView {
    BonbonRowView {
        metadata_key: bonbon.metadata_key.text(),
        mint_key: bonbon.mint_key.text(),
        mint_authority: bonbon.mint_authority.text(),
        current_owner_owner: owner_text(bonbon.current_owner),
        current_owner_account: account_text(bonbon.current_owner),
        edition_status: bonbon.edition_status,
        limited_edition: match bonbon.limited_edition {
            Some(edition) => Some(
                LimitedEditionRowView {
                    master_key: edition.master_key.text(),
                    edition_num: edition.edition_num,
                    instruction_index: edition.instruction_index,
                },
            ),
            None => None,
        },
    }
}

/// The row of the `n`-th creator of a revision, if it has that many.
pub open spec fn creator_row_of(creators: Seq<Creator>, n: int) -> Option<CreatorRowView> {
    if 0 <= n < creators.len() {
        Some(
            CreatorRowView {
                address: creators[n].address.text(),
                verified: creators[n].verified,
                share: creators[n].share,
            },
        )
    } else {
        None
    }
}

/// The row of a revision of the record with the given metadata key. Of its
/// creators, the first five are kept.
pub open spec fn glazing_row_of(metadata_key: Pubkey, glazing: GlazingView) -> GlazingRowView {
    GlazingRowView {
        metadata_key: metadata_key.text(),
        uri: glazing.uri,
        collection_address: match glazing.collection {
            Some(c) => Some(c.address.text()),
            None => None,
        },
        collection_verified: match glazing.collection {
            Some(c) => Some(c.verified),
            None => None,
        },
        creators: Seq::new(5, |n: int| creator_row_of(glazing.creators, n)),
        slot: glazing.instruction_index.slot,
        block_index: glazing.instruction_index.block_index,
        outer_index: glazing.instruction_index.outer_index,
        inner_index: glazing.instruction_index.inner_index,
    }
}

/// The row of a transfer of the record with the given mint.
pub open spec fn transfer_row_of(mint_key: Pubkey, transfer: Transfer) -> TransferRowView {
    TransferRowView {
        mint_key: mint_key.text(),
        slot: transfer.slot,
        start_owner: owner_text(transfer.start),
        start_account: account_text(transfer.start),
        end_owner: owner_text(transfer.end),
        end_account: account_text(transfer.end),
    }
}

/// The row of an entry for a token account.
pub open spec fn token_meta_row_of(meta: TransactionTokenMetaView) -> TokenMetaRow {
    TokenMetaRow {
        account_index: meta.account_index as i16,
        mint_key: meta.mint_key,
        owner_key: meta.owner_key,
    }
}

fn owner_as_text(ownership: &Option<Ownership>) -> (text: Option<String>)
    ensures
        optional_text(text) == owner_text(*ownership),
{
    match ownership {
        Some(o) => Some(o.owner.to_text()),
        None => None,
    }
}

fn account_as_text(ownership: &Option<Ownership>) -> (text: Option<String>)
    ensures
        optional_text(text) == account_text(*ownership),
{
    match ownership {
        Some(o) => Some(o.account.to_text()),
        None => None,
    }
}

fn creator_row(creators: &Vec<Creator>, n: usize) -> (row: Option<CreatorRow>)
    ensures
        optional_creator(row) == creator_row_of(creators@, n as int),
{
    if n < creators.len() {
        let creator = &creators[n];
        Some(
            CreatorRow {
                address: creator.address.to_text(),
                verified: creator.verified,
                share: creator.share,
            },
        )
    } else {
        None
    }
}

impl Glazing {
    /// The row of the revision, for the record with the given metadata key.
    pub fn row(&self, metadata_key: &Pubkey) -> (row: GlazingRow)
        ensures
            row@ == glazing_row_of(*metadata_key, self@),
    {
        let (collection_address, collection_verified) = match &self.collection {
            Some(c) => (Some(c.address.to_text()), Some(c.verified)),
            None => (None, None),
        };
        let row = GlazingRow {
            metadata_key: metadata_key.to_text(),
            uri: self.uri.clone(),
            collection_address,
            collection_verified,
            creator0: creator_row(&self.creators, 0),
            creator1: creator_row(&self.creators, 1),
            creator2: creator_row(&self.creators, 2),
            creator3: creator_row(&self.creators, 3),
            creator4: creator_row(&self.creators, 4),
            slot: self.instruction_index.slot,
            block_index: self.instruction_index.block_index,
            outer_index: self.instruction_index.outer_index,
            inner_index: self.instruction_index.inner_index,
        };
        assert(row@.creators =~= Seq::new(5, |n: int| creator_row_of(self@.creators, n)));
        row
    }
}

impl Transfer {
    /// The row of the transfer, for the record with the given mint.
    pub fn row(&self, mint_key: &Pubkey) -> (row: TransferRow)
        ensures
            row@ == transfer_row_of(*mint_key, *self),
    {
        TransferRow {
            mint_key: mint_key.to_text(),
            slot: self.slot,
            start_owner: owner_as_text(&self.start),
            start_account: account_as_text(&self.start),
            end_owner: owner_as_text(&self.end),
            end_account: account_as_text(&self.end),
        }
    }
}

impl TransactionTokenMeta {
    /// The row of the entry.
    pub fn row(&self) -> (row: TokenMetaRow)
        ensures
            row == token_meta_row_of(self@),
    {
        TokenMetaRow {
            account_index: self.account_index as i16,
            mint_key: self.mint_key,
            owner_key: self.owner_key,
        }
    }
}

impl Bonbon {
    /// The row of the record.
    pub fn row(&self) -> (row: BonbonRow)
        ensures
            row@ == bonbon_row_of(self@),
    {
        BonbonRow {
            metadata_key: self.metadata_key.to_text(),
            mint_key: self.mint_key.to_text(),
            mint_authority: self.mint_authority.to_text(),
            current_owner_owner: owner_as_text(&self.current_owner),
            current_owner_account: account_as_text(&self.current_owner),
            edition_status: self.edition_status,
            limited_edition: match &self.limited_edition {
                Some(edition) => Some(
                    LimitedEditionRow {
                        master_key: edition.master_key.to_text(),
                        edition_num: edition.edition_num,
                        instruction_index: edition.instruction_index,
                    },
                ),
                None => None,
            },
        }
    }

    /// The rows of the revisions of the record, in order.
    pub fn glazing_rows(&self) -> (rows: Vec<GlazingRow>)
        ensures
            rows@.len() == self@.glazings.len(),
            forall|i: int|
                0 <= i < rows@.len() ==> (#[trigger] rows@[i])@ == glazing_row_of(
                    self.metadata_key,
                    self@.glazings[i],
                ),
    {
        let mut rows: Vec<GlazingRow> = Vec::new();
        let mut i: usize = 0;
        while i < self.glazings.len()
            invariant
                0 <= i <= self.glazings@.len(),
                rows@.len() == i,
                forall|j: int|
                    0 <= j < i ==> (#[trigger] rows@[j])@ == glazing_row_of(
                        self.metadata_key,
                        self.glazings@[j]@,
                    ),
            decreases self.glazings@.len() - i,
        {
            rows.push(self.glazings[i].row(&self.metadata_key));
            i += 1;
        }
        rows
    }

    /// The rows of the transfers of the record, in order.
    pub fn transfer_rows(&self) -> (rows: Vec<TransferRow>)
        ensures
            rows@.len() == self@.transfers.len(),
            forall|i: int|
                0 <= i < rows@.len() ==> (#[trigger] rows@[i])@ == transfer_row_of(
                    self.mint_key,
                    self@.transfers[i],
                ),
    {
        let mut rows: Vec<TransferRow> = Vec::new();
        let mut i: usize = 0;
        while i < self.transfers.len()
            invariant
                0 <= i <= self.transfers@.len(),
                rows@.len() == i,
                forall|j: int|
                    0 <= j < i ==> (#[trigger] rows@[j])@ == transfer_row_of(
                        self.mint_key,
                        self.transfers@[j],
                    ),
            decreases self.transfers@.len() - i,
        {
            rows.push(self.transfers[i].row(&self.mint_key));
            i += 1;
        }
        rows
    }
}

} // verus!
