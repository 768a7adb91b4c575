//! The assembler: the state machine that replays, for one mint, the
//! instructions of the token program and the metadata program in ledger
//! order.

use vstd::prelude::*;
use crate::bonbon::{
    Bonbon, BonbonView, EditionStatus, GlazingView, InstructionIndex, LimitedEdition,
};
use crate::instruction::{
    decode_metadata, decode_token, AuthorityType, CompiledInstruction, MetadataInstruction,
    MetadataInstructionView, TokenInstruction,
};
use crate::ownership::{lookup, Ownership};
use crate::pubkey::{lemma_pubkey_view_injective, Pubkey};
use crate::search::{first_index, first_item, lemma_first_index, lemma_no_first_index};
use crate::trusted::{
    derive_metadata_address, is_metadata_program, is_token_program, metadata_address,
    metadata_decoding, metadata_program_key, token_decoding, token_program_key,
};

verus! {

/// Why an instruction could not be applied to a record.
#[derive(Clone, Copy, Debug, PartialEq, Eq, Structural)]
pub enum ErrorCode {
    BadAccountKeyIndex,
    FailedInstructionDeserialization,
    InvalidMetadataCreate,
    InvalidMetadataUpdate,
    InvalidMasterEditionCreate,
    /// Also covers the removal of a creator's or a collection's verification.
    InvalidMetadataVerifyOperation,
    CouldNotFindTokenAccountOwner,
}

/// The owner of a token account of a transaction, as far as the balance
/// snapshots of the transaction tell it.
#[derive(Clone, Copy, Debug, PartialEq, Eq)]
pub struct TransactionTokenOwnerMeta {
    pub account_index: u8,
    pub owner_key: Option<Pubkey>,
}

impl TransactionTokenOwnerMeta {
    /// The entry that a stored row stands for. The store keeps the account
    /// index in 16 bits; its low 8 bits are the index.
    pub fn from_stored(account_index: i16, owner_key: Option<Pubkey>) -> (meta:
        TransactionTokenOwnerMeta)
        ensures
            meta.account_index == account_index as u8,
            meta.owner_key == owner_key,
    {
        TransactionTokenOwnerMeta {
            account_index: #[verifier::truncate]
            (account_index as u8),
            owner_key,
        }
    }
}

/// The key at a place in the account table of a transaction.
pub open spec fn key_at(account_keys: Seq<Pubkey>, index: int) -> Result<Pubkey, ErrorCode> {
    if 0 <= index < account_keys.len() {
        Ok(account_keys[index])
    } else {
        Err(ErrorCode::BadAccountKeyIndex)
    }
}

/// The view of a decoding of a metadata payload.
pub open spec fn roasted_view(roasted: Result<MetadataInstruction, ErrorCode>) -> Result<
    MetadataInstructionView,
    ErrorCode,
> {
    match roasted {
        Ok(instruction) => Ok(instruction@),
        Err(e) => Err(e),
    }
}

/// What the assembler asks of an instruction: its program, its accounts, and
/// its payload decoded for either program.
pub trait Cocoa {
    /// What `program_key` returns.
    spec fn program_key_spec(&self, account_keys: Seq<Pubkey>) -> Result<Pubkey, ErrorCode>;

    /// What `account_index` returns.
    spec fn account_index_spec(&self, index: int) -> Result<u8, ErrorCode>;

    /// What `roast` returns.
    spec fn roast_spec(&self) -> Result<MetadataInstructionView, ErrorCode>;

    /// What `bake` returns.
    spec fn bake_spec(&self) -> Result<TokenInstruction, ErrorCode>;

    /// The key of the program that the instruction is for.
    fn program_key(&self, account_keys: &[Pubkey]) -> (key: Result<Pubkey, ErrorCode>)
        ensures
            key == self.program_key_spec(account_keys@),
    ;

    /// The place in the account table of the `index`-th account of the
    /// instruction.
    fn account_index(&self, index: usize) -> (place: Result<u8, ErrorCode>)
        ensures
            place == self.account_index_spec(index as int),
    ;

    /// The payload, decoded as an instruction of the metadata program.
    fn roast(&self) -> (roasted: Result<MetadataInstruction, ErrorCode>)
        ensures
            roasted_view(roasted) == self.roast_spec(),
    ;

    /// The payload, decoded as an instruction of the token program.
    fn bake(&self) -> (baked: Result<TokenInstruction, ErrorCode>)
        ensures
            baked == self.bake_spec(),
    ;

    /// The key of the `index`-th account of the instruction.
    fn account(&self, index: usize, account_keys: &[Pubkey]) -> (key: Result<Pubkey, ErrorCode>)
        ensures
            key == (match self.account_index_spec(index as int) {
                Ok(place) => key_at(account_keys@, place as int),
                Err(e) => Err(e),
            }),
    {
        match self.account_index(index) {
            Ok(place) => {
                if (place as usize) < account_keys.len() {
                    Ok(account_keys[place as usize])
                } else {
                    Err(ErrorCode::BadAccountKeyIndex)
                }
            },
            Err(e) => Err(e),
        }
    }
}

/// The key of the `index`-th account of an instruction: the key at the place
/// that the instruction gives for it.
pub open spec fn account_of<T: Cocoa>(instruction: &T, index: int, account_keys: Seq<Pubkey>) -> Result<
    Pubkey,
    ErrorCode,
> {
    match instruction.account_index_spec(index) {
        Ok(place) => key_at(account_keys, place as int),
        Err(e) => Err(e),
    }
}

impl Cocoa for CompiledInstruction {
    open spec fn program_key_spec(&self, account_keys: Seq<Pubkey>) -> Result<Pubkey, ErrorCode> {
        key_at(account_keys, self.program_id_index as int)
    }

    open spec fn account_index_spec(&self, index: int) -> Result<u8, ErrorCode> {
        if 0 <= index < self.accounts@.len() {
            Ok(self.accounts@[index])
        } else {
            Err(ErrorCode::BadAccountKeyIndex)
        }
    }

    open spec fn roast_spec(&self) -> Result<MetadataInstructionView, ErrorCode> {
        match metadata_decoding(self.data@) {
            Some(instruction) => Ok(instruction),
            None => Err(ErrorCode::FailedInstructionDeserialization),
        }
    }

    open spec fn bake_spec(&self) -> Result<TokenInstruction, ErrorCode> {
        match token_decoding(self.data@) {
            Some(instruction) => Ok(instruction),
            None => Err(ErrorCode::FailedInstructionDeserialization),
        }
    }

    fn program_key(&self, account_keys: &[Pubkey]) -> (key: Result<Pubkey, ErrorCode>) {
        let place = self.program_id_index as usize;
        if place < account_keys.len() {
            Ok(account_keys[place])
        } else {
            Err(ErrorCode::BadAccountKeyIndex)
        }
    }

    fn account_index(&self, index: usize) -> (place: Result<u8, ErrorCode>) {
        if index < self.accounts.len() {
            Ok(self.accounts[index])
        } else {
            Err(ErrorCode::BadAccountKeyIndex)
        }
    }

    fn roast(&self) -> (roasted: Result<MetadataInstruction, ErrorCode>) {
        match decode_metadata(self.data.as_slice()) {
            Some(instruction) => Ok(instruction),
            None => Err(ErrorCode::FailedInstructionDeserialization),
        }
    }

    fn bake(&self) -> (baked: Result<TokenInstruction, ErrorCode>) {
        match decode_token(self.data.as_slice()) {
            Some(instruction) => Ok(instruction),
            None => Err(ErrorCode::FailedInstructionDeserialization),
        }
    }
}

/// An instruction with what surrounds it in its transaction.
pub struct InstructionContext<'a, T: Cocoa> {
    pub instruction: &'a T,
    pub account_keys: &'a [Pubkey],
    /// The owners that the balance snapshots of the transaction give.
    pub owners: &'a [TransactionTokenOwnerMeta],
    pub instruction_index: InstructionIndex,
    /// The token accounts that the transaction has initialised and not yet
    /// closed, and of which the balance snapshots say nothing.
    pub transient_metas: &'a mut Vec<TransactionTokenOwnerMeta>,
}

/// What applying an instruction leaves behind.
pub struct Outcome {
    pub bonbon: BonbonView,
    pub transient_metas: Seq<TransactionTokenOwnerMeta>,
    pub result: Result<(), ErrorCode>,
}


/// The metadata address that the metadata program derives for a mint, if it
/// derives one.
pub fn find_metadata_account(mint: &Pubkey) -> (address: Option<Pubkey>)
    ensures
        derived_view(address) == metadata_address(mint@),
{
    derive_metadata_address(mint)
}

/// The view of a derived metadata address.
pub open spec fn derived_view(derived: Option<Pubkey>) -> Option<Seq<u8>> {
    match derived {
        Some(key) => Some(key@),
        None => None,
    }
}

/// The metadata of a mint is created: the metadata account must be the
/// address derived from the mint, and becomes the record's metadata key; a
/// revision is appended.
pub open spec fn metadata_created(
    bonbon: BonbonView,
    metadata_account: Result<Pubkey, ErrorCode>,
    derived: Option<Seq<u8>>,
    glazing: GlazingView,
) -> (BonbonView, Result<(), ErrorCode>) {
    match metadata_account {
        Err(e) => (bonbon, Err(e)),
        Ok(metadata_key) => if derived != Some(metadata_key@) {
            (bonbon, Err(ErrorCode::InvalidMetadataCreate))
        } else {
            (BonbonView { metadata_key, ..bonbon }.with_glazing(glazing), Ok(()))
        },
    }
}

/// The metadata of a mint is updated: the metadata account must be the
/// record's metadata key; a revision is appended where the update carries one.
pub open spec fn metadata_updated(
    bonbon: BonbonView,
    metadata_account: Result<Pubkey, ErrorCode>,
    glazing: Option<GlazingView>,
) -> (BonbonView, Result<(), ErrorCode>) {
    match metadata_account {
        Err(e) => (bonbon, Err(e)),
        Ok(metadata_key) => if bonbon.metadata_key != metadata_key {
            (bonbon, Err(ErrorCode::InvalidMetadataUpdate))
        } else {
            match glazing {
                Some(g) => (bonbon.with_glazing(g), Ok(())),
                None => (bonbon, Ok(())),
            }
        },
    }
}

/// A master edition is created: the metadata account must be the record's
/// metadata key, and the record must have no edition yet.
pub open spec fn master_edition_created(
    bonbon: BonbonView,
    metadata_account: Result<Pubkey, ErrorCode>,
) -> (BonbonView, Result<(), ErrorCode>) {
    match metadata_account {
        Err(e) => (bonbon, Err(e)),
        Ok(metadata_key) => if bonbon.metadata_key != metadata_key || bonbon.edition_status
            != EditionStatus::NoEdition {
            (bonbon, Err(ErrorCode::InvalidMasterEditionCreate))
        } else {
            (BonbonView { edition_status: EditionStatus::Master, ..bonbon }, Ok(()))
        },
    }
}

/// A limited edition is minted from a master: the metadata account must be
/// the address derived from the mint; the record becomes a limited edition
/// and, where the master's account resolves, refers back to the master.
pub open spec fn edition_minted(
    bonbon: BonbonView,
    metadata_account: Result<Pubkey, ErrorCode>,
    derived: Option<Seq<u8>>,
    master_account: Result<Pubkey, ErrorCode>,
    edition_num: Option<i64>,
    instruction_index: InstructionIndex,
) -> (BonbonView, Result<(), ErrorCode>) {
    match metadata_account {
        Err(e) => (bonbon, Err(e)),
        Ok(metadata_key) => if derived != Some(metadata_key@) {
            (bonbon, Err(ErrorCode::InvalidMetadataCreate))
        } else {
            let limited = BonbonView {
                metadata_key,
                edition_status: EditionStatus::Limited,
                ..bonbon
            };
            match master_account {
                Err(e) => (limited, Err(e)),
                Ok(master_key) => (
                    BonbonView {
                        limited_edition: Some(
                            LimitedEdition { master_key, edition_num, instruction_index },
                        ),
                        ..limited
                    },
                    Ok(()),
                ),
            }
        },
    }
}

/// A creator signs the metadata or withdraws the signature: the metadata
/// account must be the record's metadata key.
pub open spec fn creator_verified(
    bonbon: BonbonView,
    metadata_account: Result<Pubkey, ErrorCode>,
    creator_account: Result<Pubkey, ErrorCode>,
    verified: bool,
    instruction_index: InstructionIndex,
) -> (BonbonView, Result<(), ErrorCode>) {
    match metadata_account {
        Err(e) => (bonbon, Err(e)),
        Ok(metadata_key) => if bonbon.metadata_key != metadata_key {
            (bonbon, Err(ErrorCode::InvalidMetadataVerifyOperation))
        } else {
            match creator_account {
                Err(e) => (bonbon, Err(e)),
                Ok(creator_key) => (
                    bonbon.with_creator_verification(creator_key, verified, instruction_index),
                    Ok(()),
                ),
            }
        },
    }
}

/// The asset's collection is set, verified or unverified: the metadata
/// account must be the record's metadata key.
pub open spec fn collection_verified(
    bonbon: BonbonView,
    metadata_account: Result<Pubkey, ErrorCode>,
    collection_account: Result<Pubkey, ErrorCode>,
    verified: bool,
    instruction_index: InstructionIndex,
) -> (BonbonView, Result<(), ErrorCode>) {
    match metadata_account {
        Err(e) => (bonbon, Err(e)),
        Ok(metadata_key) => if bonbon.metadata_key != metadata_key {
            (bonbon, Err(ErrorCode::InvalidMetadataVerifyOperation))
        } else {
            match collection_account {
                Err(e) => (bonbon, Err(e)),
                Ok(collection_key) => (
                    bonbon.with_collection_verification(collection_key, verified, instruction_index),
                    Ok(()),
                ),
            }
        },
    }
}

/// Whether applying the instruction asks for the address derived from the
/// record's mint.
pub open spec fn needs_derived_address(decoded: MetadataInstructionView) -> bool {
    decoded is CreateMetadataAccount || decoded is CreateMetadataAccountV2
        || decoded is CreateMetadataAccountV3
        || decoded is DeprecatedMintNewEditionFromMasterEditionViaPrintingToken
        || decoded is MintNewEditionFromMasterEditionViaToken
        || decoded is MintNewEditionFromMasterEditionViaVaultProxy
}

/// The transition of the assembler on a decoded instruction of the metadata
/// program. `derived` is the metadata address derived from the record's mint.
pub open spec fn metadata_transition<T: Cocoa>(
    bonbon: BonbonView,
    decoded: MetadataInstructionView,
    derived: Option<Seq<u8>>,
    instruction: &T,
    account_keys: Seq<Pubkey>,
    instruction_index: InstructionIndex,
) -> (BonbonView, Result<(), ErrorCode>) {
    let account = |index: int| account_of(instruction, index, account_keys);
    match decoded {
        MetadataInstructionView::CreateMetadataAccount(data) => metadata_created(
            bonbon,
            account(0),
            derived,
            GlazingView::of_data(data, instruction_index),
        ),
        MetadataInstructionView::CreateMetadataAccountV2(data) => metadata_created(
            bonbon,
            account(0),
            derived,
            GlazingView::of_data_v2(data, instruction_index),
        ),
        MetadataInstructionView::CreateMetadataAccountV3(data) => metadata_created(
            bonbon,
            account(0),
            derived,
            GlazingView::of_data_v2(data, instruction_index),
        ),
        MetadataInstructionView::UpdateMetadataAccount(data) => metadata_updated(
            bonbon,
            account(0),
            match data {
                Some(d) => Some(GlazingView::of_data(d, instruction_index)),
                None => None,
            },
        ),
        MetadataInstructionView::UpdateMetadataAccountV2(data) => metadata_updated(
            bonbon,
            account(0),
            match data {
                Some(d) => Some(GlazingView::of_data_v2(d, instruction_index)),
                None => None,
            },
        ),
        MetadataInstructionView::DeprecatedCreateMasterEdition => master_edition_created(
            bonbon,
            account(7),
        ),
        MetadataInstructionView::CreateMasterEdition => master_edition_created(bonbon, account(5)),
        MetadataInstructionView::CreateMasterEditionV3 => master_edition_created(
            bonbon,
            account(5),
        ),
        MetadataInstructionView::DeprecatedMintNewEditionFromMasterEditionViaPrintingToken => edition_minted(
            bonbon,
            account(0),
            derived,
            account(11),
            None,
            instruction_index,
        ),
        MetadataInstructionView::MintNewEditionFromMasterEditionViaToken(edition) => edition_minted(
            bonbon,
            account(0),
            derived,
            account(10),
            Some(edition as i64),
            instruction_index,
        ),
        MetadataInstructionView::MintNewEditionFromMasterEditionViaVaultProxy(edition) => edition_minted(
            bonbon,
            account(0),
            derived,
            account(12),
            Some(edition as i64),
            instruction_index,
        ),
        MetadataInstructionView::SignMetadata => creator_verified(
            bonbon,
            account(0),
            account(1),
            true,
            instruction_index,
        ),
        MetadataInstructionView::RemoveCreatorVerification => creator_verified(
            bonbon,
            account(0),
            account(1),
            false,
            instruction_index,
        ),
        MetadataInstructionView::VerifyCollection => collection_verified(
            bonbon,
            account(0),
            account(3),
            true,
            instruction_index,
        ),
        MetadataInstructionView::VerifySizedCollectionItem => collection_verified(
            bonbon,
            account(0),
            account(3),
            true,
            instruction_index,
        ),
        MetadataInstructionView::UnverifyCollection => collection_verified(
            bonbon,
            account(0),
            account(3),
            false,
            instruction_index,
        ),
        MetadataInstructionView::UnverifySizedCollectionItem => collection_verified(
            bonbon,
            account(0),
            account(3),
            false,
            instruction_index,
        ),
        MetadataInstructionView::SetAndVerifyCollection => collection_verified(
            bonbon,
            account(0),
            account(4),
            true,
            instruction_index,
        ),
        MetadataInstructionView::SetAndVerifySizedCollectionItem => collection_verified(
            bonbon,
            account(0),
            account(4),
            true,
            instruction_index,
        ),
        MetadataInstructionView::BurnNft => (
            bonbon.with_ownership(None, instruction_index.slot),
            Ok(()),
        ),
        _ => (bonbon, Ok(())),
    }
}

/// What `update_metadata_instruction` does to a record: nothing where the
/// payload does not decode, else the transition on the decoded instruction,
/// with the metadata address that the metadata program derives from the
/// record's mint.
pub open spec fn metadata_update<T: Cocoa>(
    bonbon: BonbonView,
    instruction: &T,
    account_keys: Seq<Pubkey>,
    instruction_index: InstructionIndex,
) -> (BonbonView, Result<(), ErrorCode>) {
    match instruction.roast_spec() {
        Err(e) => (bonbon, Err(e)),
        Ok(decoded) => metadata_transition(
            bonbon,
            decoded,
            metadata_address(bonbon.mint_key@),
            instruction,
            account_keys,
            instruction_index,
        ),
    }
}

fn create_metadata(
    bonbon: &mut Bonbon,
    metadata_account: Result<Pubkey, ErrorCode>,
    derived: Option<Pubkey>,
    glazing: crate::bonbon::Glazing,
) -> (result: Result<(), ErrorCode>)
    ensures
        (final(bonbon)@, result) == metadata_created(
            old(bonbon)@,
            metadata_account,
            derived_view(derived),
            glazing@,
        ),
{
    let metadata_key = match metadata_account {
        Ok(key) => key,
        Err(e) => { return Err(e); },
    };
    let matches = match derived {
        Some(address) => {
            proof {
                lemma_pubkey_view_injective(address, metadata_key);
            }
            address == metadata_key
        },
        None => false,
    };
    if !matches {
        return Err(ErrorCode::InvalidMetadataCreate);
    }
    bonbon.metadata_key = metadata_key;
    bonbon.push_glazing(glazing);
    Ok(())
}

fn update_metadata(
    bonbon: &mut Bonbon,
    metadata_account: Result<Pubkey, ErrorCode>,
    glazing: Option<crate::bonbon::Glazing>,
) -> (result: Result<(), ErrorCode>)
    ensures
        (final(bonbon)@, result) == metadata_updated(
            old(bonbon)@,
            metadata_account,
            match glazing {
                Some(g) => Some(g@),
                None => None,
            },
        ),
{
    let metadata_key = match metadata_account {
        Ok(key) => key,
        Err(e) => { return Err(e); },
    };
    if bonbon.metadata_key != metadata_key {
        return Err(ErrorCode::InvalidMetadataUpdate);
    }
    if let Some(g) = glazing {
        bonbon.push_glazing(g);
    }
    Ok(())
}

fn create_master_edition(bonbon: &mut Bonbon, metadata_account: Result<Pubkey, ErrorCode>) -> (result:
    Result<(), ErrorCode>)
    ensures
        (final(bonbon)@, result) == master_edition_created(old(bonbon)@, metadata_account),
{
    let metadata_key = match metadata_account {
        Ok(key) => key,
        Err(e) => { return Err(e); },
    };
    if bonbon.metadata_key != metadata_key || bonbon.edition_status != EditionStatus::NoEdition {
        return Err(ErrorCode::InvalidMasterEditionCreate);
    }
    bonbon.edition_status = EditionStatus::Master;
    Ok(())
}

fn mint_edition(
    bonbon: &mut Bonbon,
    metadata_account: Result<Pubkey, ErrorCode>,
    derived: Option<Pubkey>,
    master_account: Result<Pubkey, ErrorCode>,
    edition_num: Option<i64>,
    instruction_index: InstructionIndex,
) -> (result: Result<(), ErrorCode>)
    ensures
        (final(bonbon)@, result) == edition_minted(
            old(bonbon)@,
            metadata_account,
            derived_view(derived),
            master_account,
            edition_num,
            instruction_index,
        ),
{
    let metadata_key = match metadata_account {
        Ok(key) => key,
        Err(e) => { return Err(e); },
    };
    let matches = match derived {
        Some(address) => {
            proof {
                lemma_pubkey_view_injective(address, metadata_key);
            }
            address == metadata_key
        },
        None => false,
    };
    if !matches {
        return Err(ErrorCode::InvalidMetadataCreate);
    }
    bonbon.metadata_key = metadata_key;
    bonbon.edition_status = EditionStatus::Limited;
    let master_key = match master_account {
        Ok(key) => key,
        Err(e) => { return Err(e); },
    };
    bonbon.limited_edition = Some(LimitedEdition { master_key, edition_num, instruction_index });
    Ok(())
}

fn verify_creator(
    bonbon: &mut Bonbon,
    metadata_account: Result<Pubkey, ErrorCode>,
    creator_account: Result<Pubkey, ErrorCode>,
    verified: bool,
    instruction_index: InstructionIndex,
) -> (result: Result<(), ErrorCode>)
    ensures
        (final(bonbon)@, result) == creator_verified(
            old(bonbon)@,
            metadata_account,
            creator_account,
            verified,
            instruction_index,
        ),
{
    let metadata_key = match metadata_account {
        Ok(key) => key,
        Err(e) => { return Err(e); },
    };
    if bonbon.metadata_key != metadata_key {
        return Err(ErrorCode::InvalidMetadataVerifyOperation);
    }
    let creator_key = match creator_account {
        Ok(key) => key,
        Err(e) => { return Err(e); },
    };
    bonbon.apply_creator_verification(creator_key, verified, instruction_index);
    Ok(())
}

fn verify_collection(
    bonbon: &mut Bonbon,
    metadata_account: Result<Pubkey, ErrorCode>,
    collection_account: Result<Pubkey, ErrorCode>,
    verified: bool,
    instruction_index: InstructionIndex,
) -> (result: Result<(), ErrorCode>)
    ensures
        (final(bonbon)@, result) == collection_verified(
            old(bonbon)@,
            metadata_account,
            collection_account,
            verified,
            instruction_index,
        ),
{
    let metadata_key = match metadata_account {
        Ok(key) => key,
        Err(e) => { return Err(e); },
    };
    if bonbon.metadata_key != metadata_key {
        return Err(ErrorCode::InvalidMetadataVerifyOperation);
    }
    let collection_key = match collection_account {
        Ok(key) => key,
        Err(e) => { return Err(e); },
    };
    bonbon.apply_collection_verification(collection_key, verified, instruction_index);
    Ok(())
}

/// Applies a decoded instruction of the metadata program to a record.
/// `derived` is the metadata address derived from the record's mint; it is
/// read only where `needs_derived_address` holds of the instruction.
pub fn apply_metadata_instruction<T: Cocoa>(
    bonbon: &mut Bonbon,
    decoded: MetadataInstruction,
    derived: Option<Pubkey>,
    instruction: &T,
    account_keys: &[Pubkey],
    instruction_index: InstructionIndex,
) -> (result: Result<(), ErrorCode>)
    ensures
        (final(bonbon)@, result) == metadata_transition(
            old(bonbon)@,
            decoded@,
            derived_view(derived),
            instruction,
            account_keys@,
            instruction_index,
        ),
{
    match decoded {
        MetadataInstruction::CreateMetadataAccount(data) => {
            let metadata_account = instruction.account(0, account_keys);
            create_metadata(bonbon, metadata_account, derived, data.into_glazing(instruction_index))
        },
        MetadataInstruction::CreateMetadataAccountV2(data) => {
            let metadata_account = instruction.account(0, account_keys);
            create_metadata(bonbon, metadata_account, derived, data.into_glazing(instruction_index))
        },
        MetadataInstruction::CreateMetadataAccountV3(data) => {
            let metadata_account = instruction.account(0, account_keys);
            create_metadata(bonbon, metadata_account, derived, data.into_glazing(instruction_index))
        },
        MetadataInstruction::UpdateMetadataAccount(data) => {
            let metadata_account = instruction.account(0, account_keys);
            let glazing = match data {
                Some(d) => Some(d.into_glazing(instruction_index)),
                None => None,
            };
            update_metadata(bonbon, metadata_account, glazing)
        },
        MetadataInstruction::UpdateMetadataAccountV2(data) => {
            let metadata_account = instruction.account(0, account_keys);
            let glazing = match data {
                Some(d) => Some(d.into_glazing(instruction_index)),
                None => None,
            };
            update_metadata(bonbon, metadata_account, glazing)
        },
        MetadataInstruction::DeprecatedCreateMasterEdition => {
            create_master_edition(bonbon, instruction.account(7, account_keys))
        },
        MetadataInstruction::CreateMasterEdition => {
            create_master_edition(bonbon, instruction.account(5, account_keys))
        },
        MetadataInstruction::CreateMasterEditionV3 => {
            create_master_edition(bonbon, instruction.account(5, account_keys))
        },
        MetadataInstruction::DeprecatedMintNewEditionFromMasterEditionViaPrintingToken => {
            let metadata_account = instruction.account(0, account_keys);
            let master_account = instruction.account(11, account_keys);
            mint_edition(bonbon, metadata_account, derived, master_account, None, instruction_index)
        },
        MetadataInstruction::MintNewEditionFromMasterEditionViaToken(edition) => {
            let metadata_account = instruction.account(0, account_keys);
            let master_account = instruction.account(10, account_keys);
            let edition_num = Some(
                #[verifier::truncate]
                (edition as i64),
            );
            mint_edition(
                bonbon,
                metadata_account,
                derived,
                master_account,
                edition_num,
                instruction_index,
            )
        },
        MetadataInstruction::MintNewEditionFromMasterEditionViaVaultProxy(edition) => {
            let metadata_account = instruction.account(0, account_keys);
            let master_account = instruction.account(12, account_keys);
            let edition_num = Some(
                #[verifier::truncate]
                (edition as i64),
            );
            mint_edition(
                bonbon,
                metadata_account,
                derived,
                master_account,
                edition_num,
                instruction_index,
            )
        },
        MetadataInstruction::SignMetadata => {
            let metadata_account = instruction.account(0, account_keys);
            let creator_account = instruction.account(1, account_keys);
            verify_creator(bonbon, metadata_account, creator_account, true, instruction_index)
        },
        MetadataInstruction::RemoveCreatorVerification => {
            let metadata_account = instruction.account(0, account_keys);
            let creator_account = instruction.account(1, account_keys);
            verify_creator(bonbon, metadata_account, creator_account, false, instruction_index)
        },
        MetadataInstruction::VerifyCollection | MetadataInstruction::VerifySizedCollectionItem => {
            let metadata_account = instruction.account(0, account_keys);
            let collection_account = instruction.account(3, account_keys);
            verify_collection(bonbon, metadata_account, collection_account, true, instruction_index)
        },
        MetadataInstruction::UnverifyCollection
        | MetadataInstruction::UnverifySizedCollectionItem => {
            let metadata_account = instruction.account(0, account_keys);
            let collection_account = instruction.account(3, account_keys);
            verify_collection(
                bonbon,
                metadata_account,
                collection_account,
                false,
                instruction_index,
            )
        },
        MetadataInstruction::SetAndVerifyCollection
        | MetadataInstruction::SetAndVerifySizedCollectionItem => {
            let metadata_account = instruction.account(0, account_keys);
            let collection_account = instruction.account(4, account_keys);
            verify_collection(bonbon, metadata_account, collection_account, true, instruction_index)
        },
        MetadataInstruction::BurnNft => {
            bonbon.apply_ownership(None, instruction_index.slot);
            Ok(())
        },
        _ => Ok(()),
    }
}

/// Whether applying the instruction asks for the address derived from the
/// record's mint.
pub fn asks_for_derived_address(decoded: &MetadataInstruction) -> (b: bool)
    ensures
        b == needs_derived_address(decoded@),
{
    match decoded {
        MetadataInstruction::CreateMetadataAccount(_) => true,
        MetadataInstruction::CreateMetadataAccountV2(_) => true,
        MetadataInstruction::CreateMetadataAccountV3(_) => true,
        MetadataInstruction::DeprecatedMintNewEditionFromMasterEditionViaPrintingToken => true,
        MetadataInstruction::MintNewEditionFromMasterEditionViaToken(_) => true,
        MetadataInstruction::MintNewEditionFromMasterEditionViaVaultProxy(_) => true,
        _ => false,
    }
}

/// The transition does not read the derived address where the instruction
/// does not ask for it.
pub proof fn lemma_derived_address_unread<T: Cocoa>(
    bonbon: BonbonView,
    decoded: MetadataInstructionView,
    derived: Option<Seq<u8>>,
    other: Option<Seq<u8>>,
    instruction: &T,
    account_keys: Seq<Pubkey>,
    instruction_index: InstructionIndex,
)
    requires
        !needs_derived_address(decoded),
    ensures
        metadata_transition(bonbon, decoded, derived, instruction, account_keys, instruction_index)
            == metadata_transition(
            bonbon,
            decoded,
            other,
            instruction,
            account_keys,
            instruction_index,
        ),
{
}

/// Applies an instruction of the metadata program to a record.
pub fn update_metadata_instruction<T: Cocoa>(
    bonbon: &mut Bonbon,
    instruction_context: InstructionContext<T>,
) -> (result: Result<(), ErrorCode>)
    ensures
        (final(bonbon)@, result) == metadata_update(
            old(bonbon)@,
            instruction_context.instruction,
            instruction_context.account_keys@,
            instruction_context.instruction_index,
        ),
        final(instruction_context.transient_metas)@ == old(instruction_context.transient_metas)@,
{
    let InstructionContext { instruction, account_keys, owners: _, instruction_index, transient_metas: _ } =
        instruction_context;
    let decoded = match instruction.roast() {
        Ok(decoded) => decoded,
        Err(e) => { return Err(e); },
    };
    let derived = if asks_for_derived_address(&decoded) {
        derive_metadata_address(&bonbon.mint_key)
    } else {
        None
    };
    proof {
        if !needs_derived_address(decoded@) {
        lemma_derived_address_unread(
            bonbon@,
            decoded@,
            derived_view(derived),
            metadata_address(bonbon.mint_key@),
            instruction,
            account_keys@,
            instruction_index,
        );
        }
    }
    apply_metadata_instruction(bonbon, decoded, derived, instruction, account_keys, instruction_index)
}


/// The condition of being the entry for an account index.
pub open spec fn for_account(account_index: u8) -> spec_fn(TransactionTokenOwnerMeta) -> bool {
    |meta: TransactionTokenOwnerMeta| meta.account_index == account_index
}

/// The entry for a token account of the transaction: the first one among the
/// owners that the balance snapshots give, else the first one among the
/// accounts that the transaction has initialised.
pub open spec fn meta_for(
    owners: Seq<TransactionTokenOwnerMeta>,
    transient_metas: Seq<TransactionTokenOwnerMeta>,
    account_index: u8,
) -> Option<TransactionTokenOwnerMeta> {
    match first_item(owners, for_account(account_index)) {
        Some(meta) => Some(meta),
        None => first_item(transient_metas, for_account(account_index)),
    }
}

/// Who owns a token account after an instruction: the owner that the
/// transaction's entry for the account gives, if it gives one; else the owner
/// that the account was initialised with; else nobody is known.
pub open spec fn resolved_owner(
    owners: Seq<TransactionTokenOwnerMeta>,
    transient_metas: Seq<TransactionTokenOwnerMeta>,
    ownerships: Map<Pubkey, Pubkey>,
    account_index: u8,
    account: Pubkey,
) -> Option<Pubkey> {
    match meta_for(owners, transient_metas, account_index) {
        Some(meta) => match meta.owner_key {
            Some(owner) => Some(owner),
            None => lookup(ownerships, account),
        },
        None => lookup(ownerships, account),
    }
}

/// The entries without the first one for the given account index; the last
/// entry takes its place.
pub open spec fn without_meta(metas: Seq<TransactionTokenOwnerMeta>, account_index: u8) -> Seq<
    TransactionTokenOwnerMeta,
> {
    match first_index(metas, for_account(account_index)) {
        Some(i) => metas.update(i, metas.last()).drop_last(),
        None => metas,
    }
}

/// A mint is initialised: its account becomes the record's mint key.
pub open spec fn mint_initialized(
    bonbon: BonbonView,
    transient_metas: Seq<TransactionTokenOwnerMeta>,
    mint_account: Result<Pubkey, ErrorCode>,
) -> Outcome {
    match mint_account {
        Ok(mint_key) => Outcome {
            bonbon: BonbonView { mint_key, ..bonbon },
            transient_metas,
            result: Ok(()),
        },
        Err(e) => Outcome { bonbon, transient_metas, result: Err(e) },
    }
}

/// A token account is initialised: its owner is remembered, and the account
/// joins the transaction's initialised accounts unless the transaction has an
/// entry for it already.
pub open spec fn account_initialized(
    bonbon: BonbonView,
    transient_metas: Seq<TransactionTokenOwnerMeta>,
    owners: Seq<TransactionTokenOwnerMeta>,
    place: Result<u8, ErrorCode>,
    account: Result<Pubkey, ErrorCode>,
    owner: Result<Pubkey, ErrorCode>,
) -> Outcome {
    match account {
        Err(e) => Outcome { bonbon, transient_metas, result: Err(e) },
        Ok(account_key) => match owner {
            Err(e) => Outcome { bonbon, transient_metas, result: Err(e) },
            Ok(owner_key) => {
                let remembered = BonbonView {
                    ownerships: bonbon.ownerships.insert(account_key, owner_key),
                    ..bonbon
                };
                match place {
                    Err(e) => Outcome { bonbon: remembered, transient_metas, result: Err(e) },
                    Ok(account_index) => if meta_for(owners, transient_metas, account_index)
                        is Some {
                        Outcome { bonbon: remembered, transient_metas, result: Ok(()) }
                    } else {
                        Outcome {
                            bonbon: remembered,
                            transient_metas: transient_metas.push(
                                TransactionTokenOwnerMeta {
                                    account_index,
                                    owner_key: Some(owner_key),
                                },
                            ),
                            result: Ok(()),
                        }
                    },
                }
            },
        },
    }
}

/// The token arrives in an account: a transfer to the account and its
/// resolved owner is appended.
pub open spec fn token_received(
    bonbon: BonbonView,
    transient_metas: Seq<TransactionTokenOwnerMeta>,
    owners: Seq<TransactionTokenOwnerMeta>,
    place: Result<u8, ErrorCode>,
    account: Result<Pubkey, ErrorCode>,
    slot: i64,
) -> (BonbonView, Result<(), ErrorCode>) {
    match place {
        Err(e) => (bonbon, Err(e)),
        Ok(account_index) => match account {
            Err(e) => (bonbon, Err(e)),
            Ok(account_key) => match resolved_owner(
                owners,
                transient_metas,
                bonbon.ownerships,
                account_index,
                account_key,
            ) {
                None => (bonbon, Err(ErrorCode::CouldNotFindTokenAccountOwner)),
                Some(owner) => (
                    bonbon.with_ownership(Some(Ownership { owner, account: account_key }), slot),
                    Ok(()),
                ),
            },
        },
    }
}

/// The token is minted into an account: it arrives there, and the minting
/// authority becomes the record's mint authority.
pub open spec fn token_minted(
    bonbon: BonbonView,
    transient_metas: Seq<TransactionTokenOwnerMeta>,
    owners: Seq<TransactionTokenOwnerMeta>,
    place: Result<u8, ErrorCode>,
    account: Result<Pubkey, ErrorCode>,
    authority: Result<Pubkey, ErrorCode>,
    slot: i64,
) -> (BonbonView, Result<(), ErrorCode>) {
    let (received, result) = token_received(bonbon, transient_metas, owners, place, account, slot);
    match result {
        Err(e) => (received, Err(e)),
        Ok(_) => match authority {
            Err(e) => (received, Err(e)),
            Ok(mint_authority) => (BonbonView { mint_authority, ..received }, Ok(())),
        },
    }
}

/// The owner of a token account is changed: where a new owner is named, a
/// transfer to the account under its new owner is appended.
pub open spec fn owner_changed(
    bonbon: BonbonView,
    authority_type: AuthorityType,
    new_authority: Option<Pubkey>,
    account: Result<Pubkey, ErrorCode>,
    slot: i64,
) -> (BonbonView, Result<(), ErrorCode>) {
    if authority_type == AuthorityType::AccountOwner && new_authority is Some {
        match account {
            Err(e) => (bonbon, Err(e)),
            Ok(account_key) => (
                bonbon.with_ownership(
                    Some(Ownership { owner: new_authority.unwrap(), account: account_key }),
                    slot,
                ),
                Ok(()),
            ),
        }
    } else {
        (bonbon, Ok(()))
    }
}

/// A token account is closed: its owner is forgotten, and it leaves the
/// transaction's initialised accounts.
pub open spec fn account_closed(
    bonbon: BonbonView,
    transient_metas: Seq<TransactionTokenOwnerMeta>,
    place: Result<u8, ErrorCode>,
    account: Result<Pubkey, ErrorCode>,
) -> Outcome {
    match account {
        Err(e) => Outcome { bonbon, transient_metas, result: Err(e) },
        Ok(account_key) => {
            let forgotten = BonbonView {
                ownerships: bonbon.ownerships.remove(account_key),
                ..bonbon
            };
            match place {
                Err(e) => Outcome { bonbon: forgotten, transient_metas, result: Err(e) },
                Ok(account_index) => Outcome {
                    bonbon: forgotten,
                    transient_metas: without_meta(transient_metas, account_index),
                    result: Ok(()),
                },
            }
        },
    }
}

/// The transition of the assembler on a decoded instruction of the token
/// program.
pub open spec fn token_transition<T: Cocoa>(
    bonbon: BonbonView,
    transient_metas: Seq<TransactionTokenOwnerMeta>,
    decoded: TokenInstruction,
    instruction: &T,
    account_keys: Seq<Pubkey>,
    owners: Seq<TransactionTokenOwnerMeta>,
    instruction_index: InstructionIndex,
) -> Outcome {
    let account = |index: int| account_of(instruction, index, account_keys);
    let place = |index: int| instruction.account_index_spec(index);
    let slot = instruction_index.slot;
    let keeping = |outcome: (BonbonView, Result<(), ErrorCode>)|
        Outcome { bonbon: outcome.0, transient_metas, result: outcome.1 };
    match decoded {
        TokenInstruction::InitializeMint { .. } => mint_initialized(
            bonbon,
            transient_metas,
            account(0),
        ),
        TokenInstruction::InitializeMint2 { .. } => mint_initialized(
            bonbon,
            transient_metas,
            account(0),
        ),
        TokenInstruction::InitializeAccount => account_initialized(
            bonbon,
            transient_metas,
            owners,
            place(0),
            account(0),
            account(2),
        ),
        TokenInstruction::InitializeAccount2 { .. } => account_initialized(
            bonbon,
            transient_metas,
            owners,
            place(0),
            account(0),
            account(2),
        ),
        TokenInstruction::InitializeAccount3 { owner } => account_initialized(
            bonbon,
            transient_metas,
            owners,
            place(0),
            account(0),
            Ok(owner),
        ),
        TokenInstruction::Transfer { .. } => keeping(
            token_received(bonbon, transient_metas, owners, place(1), account(1), slot),
        ),
        TokenInstruction::TransferChecked { .. } => keeping(
            token_received(bonbon, transient_metas, owners, place(2), account(2), slot),
        ),
        TokenInstruction::MintTo { .. } => keeping(
            token_minted(bonbon, transient_metas, owners, place(1), account(1), account(2), slot),
        ),
        TokenInstruction::MintToChecked { .. } => keeping(
            token_minted(bonbon, transient_metas, owners, place(1), account(1), account(2), slot),
        ),
        TokenInstruction::Burn { .. } => keeping((bonbon.with_ownership(None, slot), Ok(()))),
        TokenInstruction::BurnChecked { .. } => keeping(
            (bonbon.with_ownership(None, slot), Ok(())),
        ),
        TokenInstruction::SetAuthority { authority_type, new_authority } => keeping(
            owner_changed(bonbon, authority_type, new_authority, account(0), slot),
        ),
        TokenInstruction::CloseAccount => account_closed(
            bonbon,
            transient_metas,
            place(0),
            account(0),
        ),
        _ => Outcome { bonbon, transient_metas, result: Ok(()) },
    }
}

/// What `update_token_instruction` does to a record and to the transaction's
/// initialised accounts: nothing where the payload does not decode, else the
/// transition on the decoded instruction.
pub open spec fn token_update<T: Cocoa>(
    bonbon: BonbonView,
    transient_metas: Seq<TransactionTokenOwnerMeta>,
    instruction: &T,
    account_keys: Seq<Pubkey>,
    owners: Seq<TransactionTokenOwnerMeta>,
    instruction_index: InstructionIndex,
) -> Outcome {
    match instruction.bake_spec() {
        Err(e) => Outcome { bonbon, transient_metas, result: Err(e) },
        Ok(decoded) => token_transition(
            bonbon,
            transient_metas,
            decoded,
            instruction,
            account_keys,
            owners,
            instruction_index,
        ),
    }
}

/// The place of the first entry for an account index.
pub fn find_meta(metas: &[TransactionTokenOwnerMeta], account_index: u8) -> (found: Option<usize>)
    ensures
        match found {
            Some(i) => first_index(metas@, for_account(account_index)) == Some(i as int) && i
                < metas@.len(),
            None => first_index(metas@, for_account(account_index)) is None,
        },
{
    let ghost wanted = for_account(account_index);
    let mut i: usize = 0;
    while i < metas.len()
        invariant
            0 <= i <= metas@.len(),
            wanted == for_account(account_index),
            forall|j: int| 0 <= j < i ==> !wanted(#[trigger] metas@[j]),
        decreases metas@.len() - i,
    {
        if metas[i].account_index == account_index {
            proof {
                lemma_first_index(metas@, wanted, i as int);
            }
            return Some(i);
        }
        assert(!wanted(metas@[i as int]));
        i += 1;
    }
    proof {
        lemma_no_first_index(metas@, wanted);
    }
    None
}

/// The entry for a token account of the transaction.
pub fn get_token_meta_for(
    owners: &[TransactionTokenOwnerMeta],
    transient_metas: &Vec<TransactionTokenOwnerMeta>,
    account_index: u8,
) -> (meta: Option<TransactionTokenOwnerMeta>)
    ensures
        meta == meta_for(owners@, transient_metas@, account_index),
{
    match find_meta(owners, account_index) {
        Some(i) => Some(owners[i]),
        None => match find_meta(transient_metas.as_slice(), account_index) {
            Some(i) => Some(transient_metas[i]),
            None => None,
        },
    }
}

fn initialize_mint(bonbon: &mut Bonbon, mint_account: Result<Pubkey, ErrorCode>) -> (result: Result<
    (),
    ErrorCode,
>)
    ensures
        forall|t: Seq<TransactionTokenOwnerMeta>|
            #![trigger mint_initialized(old(bonbon)@, t, mint_account)]
            (Outcome { bonbon: final(bonbon)@, transient_metas: t, result }) == mint_initialized(
                old(bonbon)@,
                t,
                mint_account,
            ),
{
    match mint_account {
        Ok(mint_key) => {
            bonbon.mint_key = mint_key;
            Ok(())
        },
        Err(e) => Err(e),
    }
}

fn initialize_account(
    bonbon: &mut Bonbon,
    transient_metas: &mut Vec<TransactionTokenOwnerMeta>,
    owners: &[TransactionTokenOwnerMeta],
    place: Result<u8, ErrorCode>,
    account: Result<Pubkey, ErrorCode>,
    owner: Result<Pubkey, ErrorCode>,
) -> (result: Result<(), ErrorCode>)
    ensures
        (Outcome { bonbon: final(bonbon)@, transient_metas: final(transient_metas)@, result })
            == account_initialized(
            old(bonbon)@,
            old(transient_metas)@,
            owners@,
            place,
            account,
            owner,
        ),
{
    let account_key = match account {
        Ok(key) => key,
        Err(e) => { return Err(e); },
    };
    let owner_key = match owner {
        Ok(key) => key,
        Err(e) => { return Err(e); },
    };
    bonbon.ownerships.insert(account_key, owner_key);
    let account_index = match place {
        Ok(index) => index,
        Err(e) => { return Err(e); },
    };
    if get_token_meta_for(owners, transient_metas, account_index).is_none() {
        transient_metas.push(TransactionTokenOwnerMeta { account_index, owner_key: Some(owner_key) });
    }
    Ok(())
}

fn receive_token(
    bonbon: &mut Bonbon,
    transient_metas: &Vec<TransactionTokenOwnerMeta>,
    owners: &[TransactionTokenOwnerMeta],
    place: Result<u8, ErrorCode>,
    account: Result<Pubkey, ErrorCode>,
    slot: i64,
) -> (result: Result<(), ErrorCode>)
    ensures
        (final(bonbon)@, result) == token_received(
            old(bonbon)@,
            transient_metas@,
            owners@,
            place,
            account,
            slot,
        ),
{
    let account_index = match place {
        Ok(index) => index,
        Err(e) => { return Err(e); },
    };
    let account_key = match account {
        Ok(key) => key,
        Err(e) => { return Err(e); },
    };
    let known = match get_token_meta_for(owners, transient_metas, account_index) {
        Some(meta) => meta.owner_key,
        None => None,
    };
    let resolved = match known {
        Some(owner) => Some(owner),
        None => bonbon.ownerships.get(&account_key),
    };
    match resolved {
        Some(owner) => {
            bonbon.apply_ownership(Some(Ownership { owner, account: account_key }), slot);
            Ok(())
        },
        None => Err(ErrorCode::CouldNotFindTokenAccountOwner),
    }
}

fn mint_token(
    bonbon: &mut Bonbon,
    transient_metas: &Vec<TransactionTokenOwnerMeta>,
    owners: &[TransactionTokenOwnerMeta],
    place: Result<u8, ErrorCode>,
    account: Result<Pubkey, ErrorCode>,
    authority: Result<Pubkey, ErrorCode>,
    slot: i64,
) -> (result: Result<(), ErrorCode>)
    ensures
        (final(bonbon)@, result) == token_minted(
            old(bonbon)@,
            transient_metas@,
            owners@,
            place,
            account,
            authority,
            slot,
        ),
{
    match receive_token(bonbon, transient_metas, owners, place, account, slot) {
        Ok(_) => {},
        Err(e) => { return Err(e); },
    }
    match authority {
        Ok(mint_authority) => {
            bonbon.mint_authority = mint_authority;
            Ok(())
        },
        Err(e) => Err(e),
    }
}

fn close_account(
    bonbon: &mut Bonbon,
    transient_metas: &mut Vec<TransactionTokenOwnerMeta>,
    place: Result<u8, ErrorCode>,
    account: Result<Pubkey, ErrorCode>,
) -> (result: Result<(), ErrorCode>)
    ensures
        (Outcome { bonbon: final(bonbon)@, transient_metas: final(transient_metas)@, result })
            == account_closed(old(bonbon)@, old(transient_metas)@, place, account),
{
    let account_key = match account {
        Ok(key) => key,
        Err(e) => { return Err(e); },
    };
    bonbon.ownerships.remove(&account_key);
    let account_index = match place {
        Ok(index) => index,
        Err(e) => { return Err(e); },
    };
    if let Some(i) = find_meta(transient_metas.as_slice(), account_index) {
        let _ = transient_metas.swap_remove(i);
    }
    Ok(())
}

/// Applies a decoded instruction of the token program to a record and to the
/// transaction's initialised accounts.
pub fn apply_token_instruction<T: Cocoa>(
    bonbon: &mut Bonbon,
    decoded: TokenInstruction,
    instruction: &T,
    account_keys: &[Pubkey],
    owners: &[TransactionTokenOwnerMeta],
    instruction_index: InstructionIndex,
    transient_metas: &mut Vec<TransactionTokenOwnerMeta>,
) -> (result: Result<(), ErrorCode>)
    ensures
        (Outcome { bonbon: final(bonbon)@, transient_metas: final(transient_metas)@, result })
            == token_transition(
            old(bonbon)@,
            old(transient_metas)@,
            decoded,
            instruction,
            account_keys@,
            owners@,
            instruction_index,
        ),
{
    let slot = instruction_index.slot;
    match decoded {
        TokenInstruction::InitializeMint { .. } | TokenInstruction::InitializeMint2 { .. } => {
            let mint_account = instruction.account(0, account_keys);
            let result = initialize_mint(bonbon, mint_account);
            assert((Outcome { bonbon: bonbon@, transient_metas: transient_metas@, result })
                == mint_initialized(old(bonbon)@, transient_metas@, mint_account));
            result
        },
        TokenInstruction::InitializeAccount | TokenInstruction::InitializeAccount2 { .. } => {
            let place = instruction.account_index(0);
            let account = instruction.account(0, account_keys);
            let owner = instruction.account(2, account_keys);
            initialize_account(bonbon, transient_metas, owners, place, account, owner)
        },
        TokenInstruction::InitializeAccount3 { owner } => {
            let place = instruction.account_index(0);
            let account = instruction.account(0, account_keys);
            initialize_account(bonbon, transient_metas, owners, place, account, Ok(owner))
        },
        TokenInstruction::Transfer { .. } => {
            let place = instruction.account_index(1);
            let account = instruction.account(1, account_keys);
            receive_token(bonbon, transient_metas, owners, place, account, slot)
        },
        TokenInstruction::TransferChecked { .. } => {
            let place = instruction.account_index(2);
            let account = instruction.account(2, account_keys);
            receive_token(bonbon, transient_metas, owners, place, account, slot)
        },
        TokenInstruction::MintTo { .. } | TokenInstruction::MintToChecked { .. } => {
            let place = instruction.account_index(1);
            let account = instruction.account(1, account_keys);
            let authority = instruction.account(2, account_keys);
            mint_token(bonbon, transient_metas, owners, place, account, authority, slot)
        },
        TokenInstruction::Burn { .. } | TokenInstruction::BurnChecked { .. } => {
            bonbon.apply_ownership(None, slot);
            Ok(())
        },
        TokenInstruction::SetAuthority { authority_type, new_authority } => {
            match (authority_type, new_authority) {
                (AuthorityType::AccountOwner, Some(owner)) => {
                    match instruction.account(0, account_keys) {
                        Ok(account) => {
                            bonbon.apply_ownership(Some(Ownership { owner, account }), slot);
                            Ok(())
                        },
                        Err(e) => Err(e),
                    }
                },
                _ => Ok(()),
            }
        },
        TokenInstruction::CloseAccount => {
            let place = instruction.account_index(0);
            let account = instruction.account(0, account_keys);
            close_account(bonbon, transient_metas, place, account)
        },
        _ => Ok(()),
    }
}

/// Applies an instruction of the token program to a record.
pub fn update_token_instruction<T: Cocoa>(
    bonbon: &mut Bonbon,
    instruction_context: InstructionContext<T>,
) -> (result: Result<(), ErrorCode>)
    ensures
        (Outcome {
            bonbon: final(bonbon)@,
            transient_metas: final(instruction_context.transient_metas)@,
            result,
        }) == token_update(
            old(bonbon)@,
            old(instruction_context.transient_metas)@,
            instruction_context.instruction,
            instruction_context.account_keys@,
            instruction_context.owners@,
            instruction_context.instruction_index,
        ),
{
    let InstructionContext { instruction, account_keys, owners, instruction_index, transient_metas } =
        instruction_context;
    let decoded = match instruction.bake() {
        Ok(decoded) => decoded,
        Err(e) => { return Err(e); },
    };
    apply_token_instruction(
        bonbon,
        decoded,
        instruction,
        account_keys,
        owners,
        instruction_index,
        transient_metas,
    )
}


/// Which of the two programs' rules an updater applies.
#[derive(Clone, Copy, Debug, PartialEq, Eq, Structural)]
pub enum Update {
    /// The rules of `update_token_instruction`.
    Token,
    /// The rules of `update_metadata_instruction`.
    Metadata,
}

/// The rules to apply to the instructions of one program.
#[derive(Clone, Copy, Debug, PartialEq, Eq)]
pub struct BonbonUpdater {
    pub program_id: Pubkey,
    pub update: Update,
}

impl BonbonUpdater {
    /// The token program's rules, under the token program's identifier.
    pub fn token() -> (updater: BonbonUpdater)
        ensures
            is_token_program(updater.program_id@),
            updater.update == Update::Token,
    {
        BonbonUpdater { program_id: token_program_key(), update: Update::Token }
    }

    /// The metadata program's rules, under the metadata program's identifier.
    pub fn metadata() -> (updater: BonbonUpdater)
        ensures
            is_metadata_program(updater.program_id@),
            updater.update == Update::Metadata,
    {
        BonbonUpdater { program_id: metadata_program_key(), update: Update::Metadata }
    }
}

/// The first updater for a program, if there is one.
pub open spec fn updater_for(updaters: Seq<BonbonUpdater>, program_id: Pubkey) -> Option<
    BonbonUpdater,
> {
    first_item(updaters, |u: BonbonUpdater| u.program_id == program_id)
}

/// What `Bonbon::update` does to a record and to the transaction's
/// initialised accounts: it applies the rules of the first updater for the
/// instruction's program, and nothing where there is none.
pub open spec fn bonbon_update<T: Cocoa>(
    bonbon: BonbonView,
    transient_metas: Seq<TransactionTokenOwnerMeta>,
    instruction: &T,
    account_keys: Seq<Pubkey>,
    owners: Seq<TransactionTokenOwnerMeta>,
    instruction_index: InstructionIndex,
    updaters: Seq<BonbonUpdater>,
) -> Outcome {
    match instruction.program_key_spec(account_keys) {
        Err(e) => Outcome { bonbon, transient_metas, result: Err(e) },
        Ok(program_id) => match updater_for(updaters, program_id) {
            None => Outcome { bonbon, transient_metas, result: Ok(()) },
            Some(updater) => match updater.update {
                Update::Token => token_update(
                    bonbon,
                    transient_metas,
                    instruction,
                    account_keys,
                    owners,
                    instruction_index,
                ),
                Update::Metadata => {
                    let (updated, result) = metadata_update(
                        bonbon,
                        instruction,
                        account_keys,
                        instruction_index,
                    );
                    Outcome { bonbon: updated, transient_metas, result }
                },
            },
        },
    }
}

/// The first updater for a program.
pub fn find_updater(updaters: &[BonbonUpdater], program_id: &Pubkey) -> (found: Option<
    BonbonUpdater,
>)
    ensures
        found == updater_for(updaters@, *program_id),
{
    let ghost wanted = |u: BonbonUpdater| u.program_id == *program_id;
    let mut i: usize = 0;
    while i < updaters.len()
        invariant
            0 <= i <= updaters@.len(),
            wanted == (|u: BonbonUpdater| u.program_id == *program_id),
            forall|j: int| 0 <= j < i ==> !wanted(#[trigger] updaters@[j]),
        decreases updaters@.len() - i,
    {
        if updaters[i].program_id == *program_id {
            proof {
                lemma_first_index(updaters@, wanted, i as int);
            }
            return Some(updaters[i]);
        }
        i += 1;
    }
    proof {
        lemma_no_first_index(updaters@, wanted);
    }
    None
}

impl Bonbon {
    /// Applies an instruction to the record, by the rules of the first
    /// updater for the instruction's program.
    pub fn update<T: Cocoa>(
        &mut self,
        instruction_context: InstructionContext<T>,
        updaters: &[BonbonUpdater],
    ) -> (result: Result<(), ErrorCode>)
        ensures
            (Outcome {
                bonbon: final(self)@,
                transient_metas: final(instruction_context.transient_metas)@,
                result,
            }) == bonbon_update(
                old(self)@,
                old(instruction_context.transient_metas)@,
                instruction_context.instruction,
                instruction_context.account_keys@,
                instruction_context.owners@,
                instruction_context.instruction_index,
                updaters@,
            ),
    {
        let program_id = match instruction_context.instruction.program_key(
            instruction_context.account_keys,
        ) {
            Ok(key) => key,
            Err(e) => { return Err(e); },
        };
        match find_updater(updaters, &program_id) {
            Some(updater) => match updater.update {
                Update::Token => update_token_instruction(self, instruction_context),
                Update::Metadata => update_metadata_instruction(self, instruction_context),
            },
            None => Ok(()),
        }
    }
}

/// One instruction of a mint's stream, with the account table and the owners
/// of its transaction.
pub struct Step<T: Cocoa> {
    pub instruction: T,
    pub account_keys: Vec<Pubkey>,
    pub owners: Vec<TransactionTokenOwnerMeta>,
    pub instruction_index: InstructionIndex,
}

/// Whether two places in the ledger lie in one transaction.
pub open spec fn same_transaction(a: InstructionIndex, b: InstructionIndex) -> bool {
    a.slot == b.slot && a.block_index == b.block_index
}

/// The record and the initialised accounts after the first `n` steps, or the
/// error of the first step that failed. The initialised accounts start empty
/// with every transaction.
pub open spec fn assembly<T: Cocoa>(steps: Seq<Step<T>>, updaters: Seq<BonbonUpdater>, n: int) -> Result<
    (BonbonView, Seq<TransactionTokenOwnerMeta>),
    ErrorCode,
>
    decreases n,
{
    if n <= 0 {
        Ok((BonbonView::initial(), Seq::empty()))
    } else {
        match assembly(steps, updaters, n - 1) {
            Err(e) => Err(e),
            Ok((bonbon, transient_metas)) => {
                let step = steps[n - 1];
                let carried = if n >= 2 && same_transaction(
                    steps[n - 2].instruction_index,
                    step.instruction_index,
                ) {
                    transient_metas
                } else {
                    Seq::empty()
                };
                let outcome = bonbon_update(
                    bonbon,
                    carried,
                    &step.instruction,
                    step.account_keys@,
                    step.owners@,
                    step.instruction_index,
                    updaters,
                );
                match outcome.result {
                    Ok(_) => Ok((outcome.bonbon, outcome.transient_metas)),
                    Err(e) => Err(e),
                }
            },
        }
    }
}

/// What assembling a mint's stream gives: the error of the first step that
/// failed; else nothing where the record never got a metadata key; else the
/// record.
pub open spec fn assembled<T: Cocoa>(steps: Seq<Step<T>>, updaters: Seq<BonbonUpdater>) -> Result<
    Option<BonbonView>,
    ErrorCode,
> {
    match assembly(steps, updaters, steps.len() as int) {
        Err(e) => Err(e),
        Ok((bonbon, _)) => if bonbon.metadata_key.is_zero() {
            Ok(None)
        } else {
            Ok(Some(bonbon))
        },
    }
}

/// The view of what assembling gave.
pub open spec fn assembled_view(result: Result<Option<Bonbon>, ErrorCode>) -> Result<
    Option<BonbonView>,
    ErrorCode,
> {
    match result {
        Ok(Some(bonbon)) => Ok(Some(bonbon@)),
        Ok(None) => Ok(None),
        Err(e) => Err(e),
    }
}

/// Assembles the record of one mint from its stream of instructions, which
/// is expected in ledger order. The first instruction that cannot be applied
/// ends the assembly with its error; a record that never got a metadata key
/// is not given out.
pub fn assemble<T: Cocoa>(steps: &[Step<T>], updaters: &[BonbonUpdater]) -> (result: Result<
    Option<Bonbon>,
    ErrorCode,
>)
    ensures
        assembled_view(result) == assembled(steps@, updaters@),
        result matches Ok(Some(bonbon)) ==> bonbon@.chain_consistent(),
        result matches Ok(Some(bonbon)) ==> (crate::laws::in_ledger_order(steps@)
            ==> crate::laws::glazings_ordered(bonbon@) && crate::laws::transfers_ordered(bonbon@)),
        result matches Ok(Some(bonbon)) ==> (crate::laws::mint_stays(steps@, updaters@)
            ==> metadata_address(bonbon.mint_key@) == Some(bonbon.metadata_key@)),
{
    proof {
        crate::laws::law_assembled_chain(steps@, updaters@, steps@.len() as int);
        if crate::laws::in_ledger_order(steps@) {
            crate::laws::law_assembled_in_order(steps@, updaters@, steps@.len() as int);
        }
        if crate::laws::mint_stays(steps@, updaters@) {
            crate::laws::law_assembled_pda(steps@, updaters@, steps@.len() as int);
        }
    }
    let mut bonbon = Bonbon::default();
    let mut transient_metas: Vec<TransactionTokenOwnerMeta> = Vec::new();
    let mut i: usize = 0;
    while i < steps.len()
        invariant
            0 <= i <= steps@.len(),
            assembly(steps@, updaters@, i as int) == Ok::<
                (BonbonView, Seq<TransactionTokenOwnerMeta>),
                ErrorCode,
            >((bonbon@, transient_metas@)),
        decreases steps@.len() - i,
    {
        let step = &steps[i];
        if i > 0 {
            let previous = &steps[i - 1].instruction_index;
            if previous.slot != step.instruction_index.slot || previous.block_index
                != step.instruction_index.block_index {
                transient_metas.clear();
            }
        }
        let instruction_context = InstructionContext {
            instruction: &step.instruction,
            account_keys: step.account_keys.as_slice(),
            owners: step.owners.as_slice(),
            instruction_index: step.instruction_index,
            transient_metas: &mut transient_metas,
        };
        match bonbon.update(instruction_context, updaters) {
            Ok(_) => {},
            Err(e) => {
                proof {
                    lemma_assembly_stays_failed(steps@, updaters@, i + 1, steps@.len() as int);
                }
                return Err(e);
            },
        }
        i += 1;
    }
    if bonbon.metadata_key.is_default() {
        Ok(None)
    } else {
        Ok(Some(bonbon))
    }
}

/// Once a step has failed, the assembly stays failed with that step's error.
pub proof fn lemma_assembly_stays_failed<T: Cocoa>(
    steps: Seq<Step<T>>,
    updaters: Seq<BonbonUpdater>,
    n: int,
    m: int,
)
    requires
        assembly(steps, updaters, n) is Err,
        n <= m,
    ensures
        assembly(steps, updaters, m) == assembly(steps, updaters, n),
    decreases m - n,
{
    if n < m {
        lemma_assembly_stays_failed(steps, updaters, n, m - 1);
    }
}

} // verus!
