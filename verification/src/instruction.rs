//! Compiled instructions and the decoded forms of their payloads.
//!
//! A compiled instruction names its program and accounts by index into the
//! account table of its transaction and carries an opaque payload. The two
//! decoded forms, one per program, hold what the partitioner and the
//! assembler read of a payload.

use vstd::prelude::*;
use crate::pubkey::Pubkey;
use crate::trusted::{
    bake_account_care, bake_authority_type, bake_checked_movement, bake_extension, bake_movement,
    bake_new_authority, bake_setup, metadata_decoding, roast_create, roast_create_v2,
    roast_create_v3, roast_early_plain, roast_edition, roast_late_plain, roast_middle_plain,
    roast_update, roast_update_v2, token_decoding,
};

verus! {

/// An instruction as it stands in a transaction message.
#[derive(Debug, PartialEq, Eq)]
pub struct CompiledInstruction {
    pub program_id_index: u8,
    pub accounts: Vec<u8>,
    pub data: Vec<u8>,
}

pub struct CompiledInstructionView {
    pub program_id_index: u8,
    pub accounts: Seq<u8>,
    pub data: Seq<u8>,
}

impl View for CompiledInstruction {
    type V = CompiledInstructionView;

    open spec fn view(&self) -> CompiledInstructionView {
        CompiledInstructionView {
            program_id_index: self.program_id_index,
            accounts: self.accounts@,
            data: self.data@,
        }
    }
}

impl CompiledInstruction {
    pub fn new(program_id_index: u8, accounts: Vec<u8>, data: Vec<u8>) -> (instruction:
        CompiledInstruction)
        ensures
            instruction.program_id_index == program_id_index,
            instruction.accounts == accounts,
            instruction.data == data,
    {
        CompiledInstruction { program_id_index, accounts, data }
    }
}

/// A copy of a byte vector.
pub fn copy_bytes(bytes: &Vec<u8>) -> (out: Vec<u8>)
    ensures
        out@ == bytes@,
{
    let mut out: Vec<u8> = Vec::new();
    let mut i: usize = 0;
    while i < bytes.len()
        invariant
            0 <= i <= bytes@.len(),
            out@ == bytes@.subrange(0, i as int),
        decreases bytes@.len() - i,
    {
        out.push(bytes[i]);
        assert(out@ =~= bytes@.subrange(0, i + 1));
        i += 1;
    }
    assert(out@ =~= bytes@);
    out
}

impl Clone for CompiledInstruction {
    fn clone(&self) -> (out: CompiledInstruction)
        ensures
            out@ == self@,
    {
        CompiledInstruction {
            program_id_index: self.program_id_index,
            accounts: copy_bytes(&self.accounts),
            data: copy_bytes(&self.data),
        }
    }
}

/// A creator as a metadata payload lists it; `share` is a percentage.
#[derive(Clone, Copy, Debug, PartialEq, Eq)]
pub struct CreatorArgs {
    pub address: Pubkey,
    pub verified: bool,
    pub share: u8,
}

impl CreatorArgs {
    pub fn new(address: [u8; 32], verified: bool, share: u8) -> (creator: CreatorArgs)
        ensures
            creator == (CreatorArgs { address: Pubkey { bytes: address }, verified, share }),
    {
        CreatorArgs { address: Pubkey { bytes: address }, verified, share }
    }
}

/// A collection reference as a metadata payload holds it.
#[derive(Clone, Copy, Debug, PartialEq, Eq)]
pub struct CollectionArgs {
    pub verified: bool,
    pub key: Pubkey,
}

impl CollectionArgs {
    pub fn new(verified: bool, key: [u8; 32]) -> (collection: CollectionArgs)
        ensures
            collection == (CollectionArgs { verified, key: Pubkey { bytes: key } }),
    {
        CollectionArgs { verified, key: Pubkey { bytes: key } }
    }
}

/// The descriptive part of a first-generation metadata payload.
#[derive(Clone, Debug, PartialEq, Eq)]
pub struct Data {
    pub name: String,
    pub symbol: String,
    pub uri: String,
    pub creators: Option<Vec<CreatorArgs>>,
}

pub struct DataView {
    pub name: Seq<char>,
    pub symbol: Seq<char>,
    pub uri: Seq<char>,
    pub creators: Option<Seq<CreatorArgs>>,
}

/// The view of an optional list of creators.
pub open spec fn creators_view(creators: Option<Vec<CreatorArgs>>) -> Option<Seq<CreatorArgs>> {
    match creators {
        Some(list) => Some(list@),
        None => None,
    }
}

impl View for Data {
    type V = DataView;

    open spec fn view(&self) -> DataView {
        DataView {
            name: self.name@,
            symbol: self.symbol@,
            uri: self.uri@,
            creators: creators_view(self.creators),
        }
    }
}

/// The descriptive part of a second-generation metadata payload, which may
/// name a collection.
#[derive(Clone, Debug, PartialEq, Eq)]
pub struct DataV2 {
    pub name: String,
    pub symbol: String,
    pub uri: String,
    pub creators: Option<Vec<CreatorArgs>>,
    pub collection: Option<CollectionArgs>,
}

pub struct DataV2View {
    pub name: Seq<char>,
    pub symbol: Seq<char>,
    pub uri: Seq<char>,
    pub creators: Option<Seq<CreatorArgs>>,
    pub collection: Option<CollectionArgs>,
}

impl View for DataV2 {
    type V = DataV2View;

    open spec fn view(&self) -> DataV2View {
        DataV2View {
            name: self.name@,
            symbol: self.symbol@,
            uri: self.uri@,
            creators: creators_view(self.creators),
            collection: self.collection,
        }
    }
}

/// The view of an optional first-generation payload.
pub open spec fn optional_data_view(data: Option<Data>) -> Option<DataView> {
    match data {
        Some(d) => Some(d@),
        None => None,
    }
}

/// The view of an optional second-generation payload.
pub open spec fn optional_data_v2_view(data: Option<DataV2>) -> Option<DataV2View> {
    match data {
        Some(d) => Some(d@),
        None => None,
    }
}

/// A decoded instruction of the metadata program.
#[derive(Clone, Debug, PartialEq, Eq)]
pub enum MetadataInstruction {
    CreateMetadataAccount(Data),
    UpdateMetadataAccount(Option<Data>),
    DeprecatedCreateMasterEdition,
    DeprecatedMintNewEditionFromMasterEditionViaPrintingToken,
    UpdatePrimarySaleHappenedViaToken,
    DeprecatedSetReservationList,
    DeprecatedCreateReservationList,
    SignMetadata,
    DeprecatedMintPrintingTokensViaToken,
    DeprecatedMintPrintingTokens,
    CreateMasterEdition,
    MintNewEditionFromMasterEditionViaToken(u64),
    ConvertMasterEditionV1ToV2,
    MintNewEditionFromMasterEditionViaVaultProxy(u64),
    PuffMetadata,
    UpdateMetadataAccountV2(Option<DataV2>),
    CreateMetadataAccountV2(DataV2),
    CreateMasterEditionV3,
    VerifyCollection,
    Utilize,
    ApproveUseAuthority,
    RevokeUseAuthority,
    UnverifyCollection,
    ApproveCollectionAuthority,
    RevokeCollectionAuthority,
    SetAndVerifyCollection,
    FreezeDelegatedAccount,
    ThawDelegatedAccount,
    RemoveCreatorVerification,
    BurnNft,
    VerifySizedCollectionItem,
    UnverifySizedCollectionItem,
    SetAndVerifySizedCollectionItem,
    CreateMetadataAccountV3(DataV2),
    SetCollectionSize,
    SetTokenStandard,
}

pub enum MetadataInstructionView {
    CreateMetadataAccount(DataView),
    UpdateMetadataAccount(Option<DataView>),
    DeprecatedCreateMasterEdition,
    DeprecatedMintNewEditionFromMasterEditionViaPrintingToken,
    UpdatePrimarySaleHappenedViaToken,
    DeprecatedSetReservationList,
    DeprecatedCreateReservationList,
    SignMetadata,
    DeprecatedMintPrintingTokensViaToken,
    DeprecatedMintPrintingTokens,
    CreateMasterEdition,
    MintNewEditionFromMasterEditionViaToken(u64),
    ConvertMasterEditionV1ToV2,
    MintNewEditionFromMasterEditionViaVaultProxy(u64),
    PuffMetadata,
    UpdateMetadataAccountV2(Option<DataV2View>),
    CreateMetadataAccountV2(DataV2View),
    CreateMasterEditionV3,
    VerifyCollection,
    Utilize,
    ApproveUseAuthority,
    RevokeUseAuthority,
    UnverifyCollection,
    ApproveCollectionAuthority,
    RevokeCollectionAuthority,
    SetAndVerifyCollection,
    FreezeDelegatedAccount,
    ThawDelegatedAccount,
    RemoveCreatorVerification,
    BurnNft,
    VerifySizedCollectionItem,
    UnverifySizedCollectionItem,
    SetAndVerifySizedCollectionItem,
    CreateMetadataAccountV3(DataV2View),
    SetCollectionSize,
    SetTokenStandard,
}

impl View for MetadataInstruction {
    type V = MetadataInstructionView;

    open spec fn view(&self) -> MetadataInstructionView {
        match *self {
            MetadataInstruction::CreateMetadataAccount(d) => MetadataInstructionView::CreateMetadataAccount(d@),
            MetadataInstruction::UpdateMetadataAccount(d) => MetadataInstructionView::UpdateMetadataAccount(
                optional_data_view(d),
            ),
            MetadataInstruction::DeprecatedCreateMasterEdition => MetadataInstructionView::DeprecatedCreateMasterEdition,
            MetadataInstruction::DeprecatedMintNewEditionFromMasterEditionViaPrintingToken => MetadataInstructionView::DeprecatedMintNewEditionFromMasterEditionViaPrintingToken,
            MetadataInstruction::UpdatePrimarySaleHappenedViaToken => MetadataInstructionView::UpdatePrimarySaleHappenedViaToken,
            MetadataInstruction::DeprecatedSetReservationList => MetadataInstructionView::DeprecatedSetReservationList,
            MetadataInstruction::DeprecatedCreateReservationList => MetadataInstructionView::DeprecatedCreateReservationList,
            MetadataInstruction::SignMetadata => MetadataInstructionView::SignMetadata,
            MetadataInstruction::DeprecatedMintPrintingTokensViaToken => MetadataInstructionView::DeprecatedMintPrintingTokensViaToken,
            MetadataInstruction::DeprecatedMintPrintingTokens => MetadataInstructionView::DeprecatedMintPrintingTokens,
            MetadataInstruction::CreateMasterEdition => MetadataInstructionView::CreateMasterEdition,
            MetadataInstruction::MintNewEditionFromMasterEditionViaToken(e) => MetadataInstructionView::MintNewEditionFromMasterEditionViaToken(e),
            MetadataInstruction::ConvertMasterEditionV1ToV2 => MetadataInstructionView::ConvertMasterEditionV1ToV2,
            MetadataInstruction::MintNewEditionFromMasterEditionViaVaultProxy(e) => MetadataInstructionView::MintNewEditionFromMasterEditionViaVaultProxy(e),
            MetadataInstruction::PuffMetadata => MetadataInstructionView::PuffMetadata,
            MetadataInstruction::UpdateMetadataAccountV2(d) => MetadataInstructionView::UpdateMetadataAccountV2(
                optional_data_v2_view(d),
            ),
            MetadataInstruction::CreateMetadataAccountV2(d) => MetadataInstructionView::CreateMetadataAccountV2(d@),
            MetadataInstruction::CreateMasterEditionV3 => MetadataInstructionView::CreateMasterEditionV3,
            MetadataInstruction::VerifyCollection => MetadataInstructionView::VerifyCollection,
            MetadataInstruction::Utilize => MetadataInstructionView::Utilize,
            MetadataInstruction::ApproveUseAuthority => MetadataInstructionView::ApproveUseAuthority,
            MetadataInstruction::RevokeUseAuthority => MetadataInstructionView::RevokeUseAuthority,
            MetadataInstruction::UnverifyCollection => MetadataInstructionView::UnverifyCollection,
            MetadataInstruction::ApproveCollectionAuthority => MetadataInstructionView::ApproveCollectionAuthority,
            MetadataInstruction::RevokeCollectionAuthority => MetadataInstructionView::RevokeCollectionAuthority,
            MetadataInstruction::SetAndVerifyCollection => MetadataInstructionView::SetAndVerifyCollection,
            MetadataInstruction::FreezeDelegatedAccount => MetadataInstructionView::FreezeDelegatedAccount,
            MetadataInstruction::ThawDelegatedAccount => MetadataInstructionView::ThawDelegatedAccount,
            MetadataInstruction::RemoveCreatorVerification => MetadataInstructionView::RemoveCreatorVerification,
            MetadataInstruction::BurnNft => MetadataInstructionView::BurnNft,
            MetadataInstruction::VerifySizedCollectionItem => MetadataInstructionView::VerifySizedCollectionItem,
            MetadataInstruction::UnverifySizedCollectionItem => MetadataInstructionView::UnverifySizedCollectionItem,
            MetadataInstruction::SetAndVerifySizedCollectionItem => MetadataInstructionView::SetAndVerifySizedCollectionItem,
            MetadataInstruction::CreateMetadataAccountV3(d) => MetadataInstructionView::CreateMetadataAccountV3(d@),
            MetadataInstruction::SetCollectionSize => MetadataInstructionView::SetCollectionSize,
            MetadataInstruction::SetTokenStandard => MetadataInstructionView::SetTokenStandard,
        }
    }
}

/// What a `SetAuthority` instruction of the token program changes.
#[derive(Clone, Copy, Debug, PartialEq, Eq)]
pub enum AuthorityType {
    MintTokens,
    FreezeAccount,
    AccountOwner,
    CloseAccount,
    TransferFeeConfig,
    WithheldWithdraw,
    CloseMint,
    InterestRate,
    PermanentDelegate,
    ConfidentialTransferMint,
}

/// A decoded instruction of the token program.
#[derive(Clone, Copy, Debug, PartialEq, Eq)]
pub enum TokenInstruction {
    InitializeMint { decimals: u8 },
    InitializeAccount,
    InitializeMultisig,
    Transfer { amount: u64 },
    Approve { amount: u64 },
    Revoke,
    SetAuthority { authority_type: AuthorityType, new_authority: Option<Pubkey> },
    MintTo { amount: u64 },
    Burn { amount: u64 },
    CloseAccount,
    FreezeAccount,
    ThawAccount,
    TransferChecked { amount: u64, decimals: u8 },
    ApproveChecked { amount: u64, decimals: u8 },
    MintToChecked { amount: u64, decimals: u8 },
    BurnChecked { amount: u64, decimals: u8 },
    InitializeAccount2 { owner: Pubkey },
    SyncNative,
    InitializeAccount3 { owner: Pubkey },
    InitializeMultisig2,
    InitializeMint2 { decimals: u8 },
    GetAccountDataSize,
    InitializeImmutableOwner,
    AmountToUiAmount,
    UiAmountToAmount,
    InitializeMintCloseAuthority,
    TransferFeeExtension,
    ConfidentialTransferExtension,
    DefaultAccountStateExtension,
    Reallocate,
    MemoTransferExtension,
    CreateNativeMint,
    InitializeNonTransferableMint,
    InterestBearingMintExtension,
    CpiGuardExtension,
    InitializePermanentDelegate,
}

/// The view of an optional metadata instruction.
pub open spec fn optional_metadata_view(instruction: Option<MetadataInstruction>) -> Option<
    MetadataInstructionView,
> {
    match instruction {
        Some(i) => Some(i@),
        None => None,
    }
}

/// Decodes a payload of the metadata program, with the program's own decoder.
/// `None` where the decoder rejects the payload.
pub fn decode_metadata(data: &[u8]) -> (decoded: Option<MetadataInstruction>)
    ensures
        optional_metadata_view(decoded) == metadata_decoding(data@),
{
    if let Some(instruction) = roast_early_plain(data) {
        return Some(instruction);
    }
    if let Some(instruction) = roast_middle_plain(data) {
        return Some(instruction);
    }
    if let Some(instruction) = roast_late_plain(data) {
        return Some(instruction);
    }
    if let Some(instruction) = roast_edition(data) {
        return Some(instruction);
    }
    if let Some(payload) = roast_create(data) {
        return Some(MetadataInstruction::CreateMetadataAccount(payload));
    }
    if let Some(payload) = roast_update(data) {
        return Some(MetadataInstruction::UpdateMetadataAccount(payload));
    }
    if let Some(payload) = roast_create_v2(data) {
        return Some(MetadataInstruction::CreateMetadataAccountV2(payload));
    }
    if let Some(payload) = roast_update_v2(data) {
        return Some(MetadataInstruction::UpdateMetadataAccountV2(payload));
    }
    if let Some(payload) = roast_create_v3(data) {
        return Some(MetadataInstruction::CreateMetadataAccountV3(payload));
    }
    None
}

/// Decodes a payload of the token program, with the program's own decoder.
/// `None` where the decoder rejects the payload.
pub fn decode_token(data: &[u8]) -> (decoded: Option<TokenInstruction>)
    ensures
        decoded == token_decoding(data@),
{
    if let Some(instruction) = bake_setup(data) {
        return Some(instruction);
    }
    if let Some(instruction) = bake_movement(data) {
        return Some(instruction);
    }
    if let Some(instruction) = bake_checked_movement(data) {
        return Some(instruction);
    }
    if let Some(instruction) = bake_account_care(data) {
        return Some(instruction);
    }
    if let Some(instruction) = bake_extension(data) {
        return Some(instruction);
    }
    match bake_authority_type(data) {
        Some(authority_type) => {
            let new_authority = bake_new_authority(data);
            Some(TokenInstruction::SetAuthority { authority_type, new_authority })
        },
        None => None,
    }
}

} // verus!
