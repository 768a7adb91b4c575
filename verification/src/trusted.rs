//! The calls into the token program's and the metadata program's own crates,
//! and into the base-58 codec.
//!
//! Nothing in this file is proved. Each function states what the rest of the
//! library believes of the outside function that it calls.

use vstd::prelude::*;
use borsh::BorshDeserialize;
use mpl_token_metadata::instruction::MetadataInstruction as Mpl;
use solana_program::program_option::COption;
use solana_transaction_status::EncodedTransaction;
use solana_transaction_status::TransactionBinaryEncoding as Encoding;
use solana_program::pubkey::Pubkey as Address;
use spl_token_2022::instruction::AuthorityType as SplAuthority;
use spl_token_2022::instruction::TokenInstruction as Spl;
use crate::instruction::{
    AuthorityType, CollectionArgs, CreatorArgs, Data, DataV2, MetadataInstruction, MetadataInstructionView, TokenInstruction,
};
use crate::instruction::CompiledInstruction;
use crate::pubkey::Pubkey;
use crate::transaction::{
    instruction_views, lookup_views, MessageAddressTableLookup, MessageHeader, Signature,
    VersionedTransactionView,
};

verus! {

/// What the metadata program's decoder makes of a payload: `None` where it
/// rejects the payload.
pub uninterp spec fn metadata_decoding(data: Seq<u8>) -> Option<MetadataInstructionView>;

/// What the token program's decoder makes of a payload: `None` where it
/// rejects the payload.
pub uninterp spec fn token_decoding(data: Seq<u8>) -> Option<TokenInstruction>;

/// The metadata address that the metadata program derives for a mint: `None`
/// where no bump seed yields an address off the curve.
pub uninterp spec fn metadata_address(mint: Seq<u8>) -> Option<Seq<u8>>;

/// The bytes that a text stands for in base 58: `None` where it is not base 58.
pub uninterp spec fn base58_decoding(text: Seq<char>) -> Option<Seq<u8>>;

/// Whether a key is the token program's identifier.
pub uninterp spec fn is_token_program(key: Seq<u8>) -> bool;

/// Whether a key is the metadata program's identifier.
pub uninterp spec fn is_metadata_program(key: Seq<u8>) -> bool;

/// The metadata instructions without a payload that stand first in the
/// program's list.
pub open spec fn early_plain(v: MetadataInstructionView) -> bool {
    v is DeprecatedCreateMasterEdition
        || v is DeprecatedMintNewEditionFromMasterEditionViaPrintingToken
        || v is UpdatePrimarySaleHappenedViaToken || v is DeprecatedSetReservationList
        || v is DeprecatedCreateReservationList || v is SignMetadata
        || v is DeprecatedMintPrintingTokensViaToken || v is DeprecatedMintPrintingTokens
        || v is CreateMasterEdition || v is ConvertMasterEditionV1ToV2
}

/// The metadata instructions without a payload that stand in the middle of the
/// program's list.
pub open spec fn middle_plain(v: MetadataInstructionView) -> bool {
    v is PuffMetadata || v is CreateMasterEditionV3 || v is VerifyCollection || v is Utilize
        || v is ApproveUseAuthority || v is RevokeUseAuthority || v is UnverifyCollection
        || v is ApproveCollectionAuthority || v is RevokeCollectionAuthority
        || v is SetAndVerifyCollection
}

/// The metadata instructions without a payload that stand last in the
/// program's list.
pub open spec fn late_plain(v: MetadataInstructionView) -> bool {
    v is FreezeDelegatedAccount || v is ThawDelegatedAccount || v is RemoveCreatorVerification
        || v is BurnNft || v is VerifySizedCollectionItem || v is UnverifySizedCollectionItem
        || v is SetAndVerifySizedCollectionItem || v is SetCollectionSize || v is SetTokenStandard
}

/// Calls `MetadataInstruction::try_from_slice`. Claims: the result is the
/// decoded instruction where that is one of `early_plain`, with the payload of
/// such an instruction left out, and `None` otherwise.
#[verifier::external_body]
pub(crate) fn roast_early_plain(data: &[u8]) -> (r: Option<MetadataInstruction>)
    ensures
        match metadata_decoding(data@) {
            Some(v) => if early_plain(v) { r is Some && r.unwrap()@ == v } else { r is None },
            None => r is None,
        },
{
    match Mpl::try_from_slice(data) {
        Ok(Mpl::DeprecatedCreateMasterEdition(_)) => Some(MetadataInstruction::DeprecatedCreateMasterEdition),
        Ok(Mpl::DeprecatedMintNewEditionFromMasterEditionViaPrintingToken) => Some(MetadataInstruction::DeprecatedMintNewEditionFromMasterEditionViaPrintingToken),
        Ok(Mpl::UpdatePrimarySaleHappenedViaToken) => Some(MetadataInstruction::UpdatePrimarySaleHappenedViaToken),
        Ok(Mpl::DeprecatedSetReservationList(_)) => Some(MetadataInstruction::DeprecatedSetReservationList),
        Ok(Mpl::DeprecatedCreateReservationList) => Some(MetadataInstruction::DeprecatedCreateReservationList),
        Ok(Mpl::SignMetadata) => Some(MetadataInstruction::SignMetadata),
        Ok(Mpl::DeprecatedMintPrintingTokensViaToken(_)) => Some(MetadataInstruction::DeprecatedMintPrintingTokensViaToken),
        Ok(Mpl::DeprecatedMintPrintingTokens(_)) => Some(MetadataInstruction::DeprecatedMintPrintingTokens),
        Ok(Mpl::CreateMasterEdition(_)) => Some(MetadataInstruction::CreateMasterEdition),
        Ok(Mpl::ConvertMasterEditionV1ToV2) => Some(MetadataInstruction::ConvertMasterEditionV1ToV2),
        _ => None,
    }
}

/// Calls `MetadataInstruction::try_from_slice`. Claims: the result is the
/// decoded instruction where that is one of `middle_plain`, with the payload
/// of such an instruction left out, and `None` otherwise.
#[verifier::external_body]
pub(crate) fn roast_middle_plain(data: &[u8]) -> (r: Option<MetadataInstruction>)
    ensures
        match metadata_decoding(data@) {
            Some(v) => if middle_plain(v) { r is Some && r.unwrap()@ == v } else { r is None },
            None => r is None,
        },
{
    match Mpl::try_from_slice(data) {
        Ok(Mpl::PuffMetadata) => Some(MetadataInstruction::PuffMetadata),
        Ok(Mpl::CreateMasterEditionV3(_)) => Some(MetadataInstruction::CreateMasterEditionV3),
        Ok(Mpl::VerifyCollection) => Some(MetadataInstruction::VerifyCollection),
        Ok(Mpl::Utilize(_)) => Some(MetadataInstruction::Utilize),
        Ok(Mpl::ApproveUseAuthority(_)) => Some(MetadataInstruction::ApproveUseAuthority),
        Ok(Mpl::RevokeUseAuthority) => Some(MetadataInstruction::RevokeUseAuthority),
        Ok(Mpl::UnverifyCollection) => Some(MetadataInstruction::UnverifyCollection),
        Ok(Mpl::ApproveCollectionAuthority) => Some(MetadataInstruction::ApproveCollectionAuthority),
        Ok(Mpl::RevokeCollectionAuthority) => Some(MetadataInstruction::RevokeCollectionAuthority),
        Ok(Mpl::SetAndVerifyCollection) => Some(MetadataInstruction::SetAndVerifyCollection),
        _ => None,
    }
}

/// Calls `MetadataInstruction::try_from_slice`. Claims: the result is the
/// decoded instruction where that is one of `late_plain`, with the payload of
/// such an instruction left out, and `None` otherwise.
#[verifier::external_body]
pub(crate) fn roast_late_plain(data: &[u8]) -> (r: Option<MetadataInstruction>)
    ensures
        match metadata_decoding(data@) {
            Some(v) => if late_plain(v) { r is Some && r.unwrap()@ == v } else { r is None },
            None => r is None,
        },
{
    match Mpl::try_from_slice(data) {
        Ok(Mpl::FreezeDelegatedAccount) => Some(MetadataInstruction::FreezeDelegatedAccount),
        Ok(Mpl::ThawDelegatedAccount) => Some(MetadataInstruction::ThawDelegatedAccount),
        Ok(Mpl::RemoveCreatorVerification) => Some(MetadataInstruction::RemoveCreatorVerification),
        Ok(Mpl::BurnNft) => Some(MetadataInstruction::BurnNft),
        Ok(Mpl::VerifySizedCollectionItem) => Some(MetadataInstruction::VerifySizedCollectionItem),
        Ok(Mpl::UnverifySizedCollectionItem) => Some(MetadataInstruction::UnverifySizedCollectionItem),
        Ok(Mpl::SetAndVerifySizedCollectionItem) => Some(MetadataInstruction::SetAndVerifySizedCollectionItem),
        Ok(Mpl::SetCollectionSize(_)) => Some(MetadataInstruction::SetCollectionSize),
        Ok(Mpl::SetTokenStandard) => Some(MetadataInstruction::SetTokenStandard),
        _ => None,
    }
}

/// Calls `MetadataInstruction::try_from_slice`. Claims: the result is the
/// edition-minting instruction that the payload decodes to, with its edition
/// number, and `None` where it decodes to anything else or not at all.
#[verifier::external_body]
pub(crate) fn roast_edition(data: &[u8]) -> (r: Option<MetadataInstruction>)
    ensures
        match metadata_decoding(data@) {
            Some(MetadataInstructionView::MintNewEditionFromMasterEditionViaToken(e)) => r
                == Some(MetadataInstruction::MintNewEditionFromMasterEditionViaToken(e)),
            Some(MetadataInstructionView::MintNewEditionFromMasterEditionViaVaultProxy(e)) => r
                == Some(MetadataInstruction::MintNewEditionFromMasterEditionViaVaultProxy(e)),
            _ => r is None,
        },
{
    match Mpl::try_from_slice(data) {
        Ok(Mpl::MintNewEditionFromMasterEditionViaToken(a)) => Some(MetadataInstruction::MintNewEditionFromMasterEditionViaToken(a.edition)),
        Ok(Mpl::MintNewEditionFromMasterEditionViaVaultProxy(a)) => Some(MetadataInstruction::MintNewEditionFromMasterEditionViaVaultProxy(a.edition)),
        _ => None,
    }
}

/// Calls `MetadataInstruction::try_from_slice`. Claims: where the payload
/// decodes to `CreateMetadataAccount`, the result holds the name, symbol, URI
/// and creators of its data, and it is `None` otherwise.
#[verifier::external_body]
pub(crate) fn roast_create(data: &[u8]) -> (r: Option<Data>)
    ensures
        match metadata_decoding(data@) {
            Some(MetadataInstructionView::CreateMetadataAccount(d)) => r is Some && r.unwrap()@ == d,
            _ => r is None,
        },
{
    match Mpl::try_from_slice(data) {
        Ok(Mpl::CreateMetadataAccount(a)) => Some(Data {
            name: a.data.name,
            symbol: a.data.symbol,
            uri: a.data.uri,
            creators: a.data.creators.map(|v| v.iter().map(|c| CreatorArgs::new(c.address.to_bytes(), c.verified, c.share)).collect()),
        }),
        _ => None,
    }
}

/// Calls `MetadataInstruction::try_from_slice`. Claims: where the payload
/// decodes to `UpdateMetadataAccount`, the result holds the name, symbol, URI
/// and creators of its data, if it has any, and it is `None` otherwise.
#[verifier::external_body]
pub(crate) fn roast_update(data: &[u8]) -> (r: Option<Option<Data>>)
    ensures
        match metadata_decoding(data@) {
            Some(MetadataInstructionView::UpdateMetadataAccount(d)) => r is Some
                && crate::instruction::optional_data_view(r.unwrap()) == d,
            _ => r is None,
        },
{
    match Mpl::try_from_slice(data) {
        Ok(Mpl::UpdateMetadataAccount(a)) => Some(a.data.map(|d| Data {
            name: d.name,
            symbol: d.symbol,
            uri: d.uri,
            creators: d.creators.map(|v| v.iter().map(|c| CreatorArgs::new(c.address.to_bytes(), c.verified, c.share)).collect()),
        })),
        _ => None,
    }
}

/// Calls `MetadataInstruction::try_from_slice`. Claims: where the payload
/// decodes to `CreateMetadataAccountV2`, the result holds the name, symbol,
/// URI, creators and collection of its data, and it is `None` otherwise.
#[verifier::external_body]
pub(crate) fn roast_create_v2(data: &[u8]) -> (r: Option<DataV2>)
    ensures
        match metadata_decoding(data@) {
            Some(MetadataInstructionView::CreateMetadataAccountV2(d)) => r is Some && r.unwrap()@ == d,
            _ => r is None,
        },
{
    match Mpl::try_from_slice(data) {
        Ok(Mpl::CreateMetadataAccountV2(a)) => Some(DataV2 {
            name: a.data.name,
            symbol: a.data.symbol,
            uri: a.data.uri,
            creators: a.data.creators.map(|v| v.iter().map(|c| CreatorArgs::new(c.address.to_bytes(), c.verified, c.share)).collect()),
            collection: a.data.collection.map(|c| CollectionArgs::new(c.verified, c.key.to_bytes())),
        }),
        _ => None,
    }
}

/// Calls `MetadataInstruction::try_from_slice`. Claims: where the payload
/// decodes to `UpdateMetadataAccountV2`, the result holds the name, symbol,
/// URI, creators and collection of its data, if it has any, and it is `None`
/// otherwise.
#[verifier::external_body]
pub(crate) fn roast_update_v2(data: &[u8]) -> (r: Option<Option<DataV2>>)
    ensures
        match metadata_decoding(data@) {
            Some(MetadataInstructionView::UpdateMetadataAccountV2(d)) => r is Some
                && crate::instruction::optional_data_v2_view(r.unwrap()) == d,
            _ => r is None,
        },
{
    match Mpl::try_from_slice(data) {
        Ok(Mpl::UpdateMetadataAccountV2(a)) => Some(a.data.map(|d| DataV2 {
            name: d.name,
            symbol: d.symbol,
            uri: d.uri,
            creators: d.creators.map(|v| v.iter().map(|c| CreatorArgs::new(c.address.to_bytes(), c.verified, c.share)).collect()),
            collection: d.collection.map(|c| CollectionArgs::new(c.verified, c.key.to_bytes())),
        })),
        _ => None,
    }
}

/// Calls `MetadataInstruction::try_from_slice`. Claims: where the payload
/// decodes to `CreateMetadataAccountV3`, the result holds the name, symbol,
/// URI, creators and collection of its data, and it is `None` otherwise.
#[verifier::external_body]
pub(crate) fn roast_create_v3(data: &[u8]) -> (r: Option<DataV2>)
    ensures
        match metadata_decoding(data@) {
            Some(MetadataInstructionView::CreateMetadataAccountV3(d)) => r is Some && r.unwrap()@ == d,
            _ => r is None,
        },
{
    match Mpl::try_from_slice(data) {
        Ok(Mpl::CreateMetadataAccountV3(a)) => Some(DataV2 {
            name: a.data.name,
            symbol: a.data.symbol,
            uri: a.data.uri,
            creators: a.data.creators.map(|v| v.iter().map(|c| CreatorArgs::new(c.address.to_bytes(), c.verified, c.share)).collect()),
            collection: a.data.collection.map(|c| CollectionArgs::new(c.verified, c.key.to_bytes())),
        }),
        _ => None,
    }
}

/// The token instructions that set up mints, accounts and multisigs.
pub open spec fn is_setup(v: TokenInstruction) -> bool {
    v is InitializeMint || v is InitializeAccount || v is InitializeMultisig
        || v is InitializeAccount2 || v is InitializeAccount3 || v is InitializeMultisig2
        || v is InitializeMint2
}

/// The token instructions that move, approve, mint or burn an amount without
/// stating the decimals.
pub open spec fn is_movement(v: TokenInstruction) -> bool {
    v is Transfer || v is Approve || v is MintTo || v is Burn
}

/// The token instructions that move, approve, mint or burn an amount and
/// state the decimals.
pub open spec fn is_checked_movement(v: TokenInstruction) -> bool {
    v is TransferChecked || v is ApproveChecked || v is MintToChecked || v is BurnChecked
}

/// The token instructions on an account's standing.
pub open spec fn is_account_care(v: TokenInstruction) -> bool {
    v is Revoke || v is CloseAccount || v is FreezeAccount || v is ThawAccount || v is SyncNative
        || v is GetAccountDataSize || v is InitializeImmutableOwner || v is AmountToUiAmount
        || v is UiAmountToAmount || v is InitializeMintCloseAuthority
}

/// The token instructions of the program's later extensions.
pub open spec fn is_extension(v: TokenInstruction) -> bool {
    v is TransferFeeExtension || v is ConfidentialTransferExtension
        || v is DefaultAccountStateExtension || v is Reallocate || v is MemoTransferExtension
        || v is CreateNativeMint || v is InitializeNonTransferableMint
        || v is InterestBearingMintExtension || v is CpiGuardExtension
        || v is InitializePermanentDelegate
}

/// Calls `TokenInstruction::unpack`. Claims: the result is the decoded
/// instruction where that is one of `is_setup`, with its decimals or owner,
/// and `None` otherwise.
#[verifier::external_body]
pub(crate) fn bake_setup(data: &[u8]) -> (r: Option<TokenInstruction>)
    ensures
        match token_decoding(data@) {
            Some(v) => if is_setup(v) { r == Some(v) } else { r is None },
            None => r is None,
        },
{
    match Spl::unpack(data) {
        Ok(Spl::InitializeMint { decimals, .. }) => Some(TokenInstruction::InitializeMint { decimals }),
        Ok(Spl::InitializeAccount) => Some(TokenInstruction::InitializeAccount),
        Ok(Spl::InitializeMultisig { .. }) => Some(TokenInstruction::InitializeMultisig),
        Ok(Spl::InitializeAccount2 { owner }) => Some(TokenInstruction::InitializeAccount2 { owner: Pubkey::new_from_array(owner.to_bytes()) }),
        Ok(Spl::InitializeAccount3 { owner }) => Some(TokenInstruction::InitializeAccount3 { owner: Pubkey::new_from_array(owner.to_bytes()) }),
        Ok(Spl::InitializeMultisig2 { .. }) => Some(TokenInstruction::InitializeMultisig2),
        Ok(Spl::InitializeMint2 { decimals, .. }) => Some(TokenInstruction::InitializeMint2 { decimals }),
        _ => None,
    }
}

/// Calls `TokenInstruction::unpack`. Claims: the result is the decoded
/// instruction where that is one of `is_movement`, with its amount, and `None`
/// otherwise.
#[verifier::external_body]
pub(crate) fn bake_movement(data: &[u8]) -> (r: Option<TokenInstruction>)
    ensures
        match token_decoding(data@) {
            Some(v) => if is_movement(v) { r == Some(v) } else { r is None },
            None => r is None,
        },
{
    #[allow(deprecated)]
    match Spl::unpack(data) {
        Ok(Spl::Transfer { amount }) => Some(TokenInstruction::Transfer { amount }),
        Ok(Spl::Approve { amount }) => Some(TokenInstruction::Approve { amount }),
        Ok(Spl::MintTo { amount }) => Some(TokenInstruction::MintTo { amount }),
        Ok(Spl::Burn { amount }) => Some(TokenInstruction::Burn { amount }),
        _ => None,
    }
}

/// Calls `TokenInstruction::unpack`. Claims: the result is the decoded
/// instruction where that is one of `is_checked_movement`, with its amount and
/// decimals, and `None` otherwise.
#[verifier::external_body]
pub(crate) fn bake_checked_movement(data: &[u8]) -> (r: Option<TokenInstruction>)
    ensures
        match token_decoding(data@) {
            Some(v) => if is_checked_movement(v) { r == Some(v) } else { r is None },
            None => r is None,
        },
{
    match Spl::unpack(data) {
        Ok(Spl::TransferChecked { amount, decimals }) => Some(TokenInstruction::TransferChecked { amount, decimals }),
        Ok(Spl::ApproveChecked { amount, decimals }) => Some(TokenInstruction::ApproveChecked { amount, decimals }),
        Ok(Spl::MintToChecked { amount, decimals }) => Some(TokenInstruction::MintToChecked { amount, decimals }),
        Ok(Spl::BurnChecked { amount, decimals }) => Some(TokenInstruction::BurnChecked { amount, decimals }),
        _ => None,
    }
}

/// Calls `TokenInstruction::unpack`. Claims: the result is the decoded
/// instruction where that is one of `is_account_care`, with the payload of
/// such an instruction left out, and `None` otherwise.
#[verifier::external_body]
pub(crate) fn bake_account_care(data: &[u8]) -> (r: Option<TokenInstruction>)
    ensures
        match token_decoding(data@) {
            Some(v) => if is_account_care(v) { r == Some(v) } else { r is None },
            None => r is None,
        },
{
    match Spl::unpack(data) {
        Ok(Spl::Revoke) => Some(TokenInstruction::Revoke),
        Ok(Spl::CloseAccount) => Some(TokenInstruction::CloseAccount),
        Ok(Spl::FreezeAccount) => Some(TokenInstruction::FreezeAccount),
        Ok(Spl::ThawAccount) => Some(TokenInstruction::ThawAccount),
        Ok(Spl::SyncNative) => Some(TokenInstruction::SyncNative),
        Ok(Spl::GetAccountDataSize { .. }) => Some(TokenInstruction::GetAccountDataSize),
        Ok(Spl::InitializeImmutableOwner) => Some(TokenInstruction::InitializeImmutableOwner),
        Ok(Spl::AmountToUiAmount { .. }) => Some(TokenInstruction::AmountToUiAmount),
        Ok(Spl::UiAmountToAmount { .. }) => Some(TokenInstruction::UiAmountToAmount),
        Ok(Spl::InitializeMintCloseAuthority { .. }) => Some(TokenInstruction::InitializeMintCloseAuthority),
        _ => None,
    }
}

/// Calls `TokenInstruction::unpack`. Claims: the result is the decoded
/// instruction where that is one of `is_extension`, with the payload of such
/// an instruction left out, and `None` otherwise.
#[verifier::external_body]
pub(crate) fn bake_extension(data: &[u8]) -> (r: Option<TokenInstruction>)
    ensures
        match token_decoding(data@) {
            Some(v) => if is_extension(v) { r == Some(v) } else { r is None },
            None => r is None,
        },
{
    match Spl::unpack(data) {
        Ok(Spl::TransferFeeExtension(_)) => Some(TokenInstruction::TransferFeeExtension),
        Ok(Spl::ConfidentialTransferExtension) => Some(TokenInstruction::ConfidentialTransferExtension),
        Ok(Spl::DefaultAccountStateExtension) => Some(TokenInstruction::DefaultAccountStateExtension),
        Ok(Spl::Reallocate { .. }) => Some(TokenInstruction::Reallocate),
        Ok(Spl::MemoTransferExtension) => Some(TokenInstruction::MemoTransferExtension),
        Ok(Spl::CreateNativeMint) => Some(TokenInstruction::CreateNativeMint),
        Ok(Spl::InitializeNonTransferableMint) => Some(TokenInstruction::InitializeNonTransferableMint),
        Ok(Spl::InterestBearingMintExtension) => Some(TokenInstruction::InterestBearingMintExtension),
        Ok(Spl::CpiGuardExtension) => Some(TokenInstruction::CpiGuardExtension),
        Ok(Spl::InitializePermanentDelegate { .. }) => Some(TokenInstruction::InitializePermanentDelegate),
        _ => None,
    }
}

/// Calls `TokenInstruction::unpack`. Claims: where the payload decodes to
/// `SetAuthority`, the result is the kind of authority that it sets, and it is
/// `None` otherwise.
#[verifier::external_body]
pub(crate) fn bake_authority_type(data: &[u8]) -> (r: Option<AuthorityType>)
    ensures
        match token_decoding(data@) {
            Some(TokenInstruction::SetAuthority { authority_type, new_authority }) => r == Some(authority_type),
            _ => r is None,
        },
{
    let Ok(Spl::SetAuthority { authority_type, .. }) = Spl::unpack(data) else { return None; };
    Some(match authority_type {
        SplAuthority::MintTokens => AuthorityType::MintTokens,
        SplAuthority::FreezeAccount => AuthorityType::FreezeAccount,
        SplAuthority::AccountOwner => AuthorityType::AccountOwner,
        SplAuthority::CloseAccount => AuthorityType::CloseAccount,
        SplAuthority::TransferFeeConfig => AuthorityType::TransferFeeConfig,
        SplAuthority::WithheldWithdraw => AuthorityType::WithheldWithdraw,
        SplAuthority::CloseMint => AuthorityType::CloseMint,
        SplAuthority::InterestRate => AuthorityType::InterestRate,
        SplAuthority::PermanentDelegate => AuthorityType::PermanentDelegate,
        SplAuthority::ConfidentialTransferMint => AuthorityType::ConfidentialTransferMint,
    })
}

/// Calls `TokenInstruction::unpack`. Claims: where the payload decodes to
/// `SetAuthority` with a new authority, the result is that authority, and it
/// is `None` otherwise.
#[verifier::external_body]
pub(crate) fn bake_new_authority(data: &[u8]) -> (r: Option<Pubkey>)
    ensures
        match token_decoding(data@) {
            Some(TokenInstruction::SetAuthority { authority_type, new_authority }) => r == new_authority,
            _ => r is None,
        },
{
    match Spl::unpack(data) {
        Ok(Spl::SetAuthority { new_authority: COption::Some(key), .. }) => Some(Pubkey::new_from_array(key.to_bytes())),
        _ => None,
    }
}

/// Calls `Pubkey::try_find_program_address` with the seeds that the metadata
/// program's `find_metadata_account` uses: its prefix, its identifier and the
/// mint. Claims: the result is the address found, without the bump seed, and
/// depends on the mint alone.
#[verifier::external_body]
pub(crate) fn derive_metadata_address(mint: &Pubkey) -> (r: Option<Pubkey>)
    ensures
        match metadata_address(mint@) {
            Some(address) => r is Some && r.unwrap()@ == address,
            None => r is None,
        },
{
    let program = mpl_token_metadata::id();
    let seeds = [mpl_token_metadata::state::PREFIX.as_bytes(), program.as_ref(), mint.bytes.as_slice()];
    Address::try_find_program_address(&seeds, &program).map(|found| Pubkey::new_from_array(found.0.to_bytes()))
}

/// Calls `bs58::decode` and `into_vec` on its builder. Claims: the result is
/// the decoded bytes, `None` where the decoder reports an error, and depends
/// on the text alone.
#[verifier::external_body]
pub(crate) fn base58_decode(text: &str) -> (r: Option<Vec<u8>>)
    ensures
        match base58_decoding(text@) {
            Some(bytes) => r is Some && r.unwrap()@ == bytes,
            None => r is None,
        },
{
    bs58::decode(text).into_vec().ok()
}

/// Calls `spl_token::check_id`. Claims: the result depends on the key alone.
#[verifier::external_body]
pub(crate) fn check_token_program(key: &Pubkey) -> (b: bool)
    ensures
        b == is_token_program(key@),
{
    spl_token::check_id(&Address::new_from_array(key.bytes))
}

/// Calls `spl_token::id`. Claims: the result is a key that
/// `spl_token::check_id` accepts.
#[verifier::external_body]
pub(crate) fn token_program_key() -> (key: Pubkey)
    ensures
        is_token_program(key@),
{
    Pubkey::new_from_array(spl_token::id().to_bytes())
}

/// Calls `mpl_token_metadata::check_id`. Claims: the result depends on the key
/// alone.
#[verifier::external_body]
pub(crate) fn check_metadata_program(key: &Pubkey) -> (b: bool)
    ensures
        b == is_metadata_program(key@),
{
    mpl_token_metadata::check_id(&Address::new_from_array(key.bytes))
}

/// Calls `mpl_token_metadata::id`. Claims: the result is a key that
/// `mpl_token_metadata::check_id` accepts.
#[verifier::external_body]
pub(crate) fn metadata_program_key() -> (key: Pubkey)
    ensures
        is_metadata_program(key@),
{
    Pubkey::new_from_array(mpl_token_metadata::id().to_bytes())
}


/// The transaction that a text stands for, in base 64 or else in base 58:
/// `None` where the text does not decode to a transaction that passes the
/// ledger's sanity checks.
pub uninterp spec fn binary_decoding(blob: Seq<char>, base64: bool) -> Option<
    VersionedTransactionView,
>;

/// Calls `EncodedTransaction::decode` on a binary transaction in the given
/// encoding. Claims: the result holds the signatures of the decoded
/// transaction, and is `None` where there is none.
#[verifier::external_body]
pub(crate) fn decoded_signatures(blob: &str, base64: bool) -> (r: Option<Vec<Signature>>)
    ensures
        match binary_decoding(blob@, base64) {
            Some(transaction) => r is Some && r.unwrap()@ == transaction.signatures,
            None => r is None,
        },
{
    let encoding = if base64 { Encoding::Base64 } else { Encoding::Base58 };
    let decoded = EncodedTransaction::Binary(blob.to_string(), encoding).decode()?;
    Some(decoded.signatures.iter().map(|s| Signature::new_from_array(<[u8; 64]>::from(*s))).collect())
}

/// Calls `EncodedTransaction::decode` on a binary transaction in the given
/// encoding. Claims: the result is the header of the decoded transaction's
/// message, and is `None` where there is none.
#[verifier::external_body]
pub(crate) fn decoded_header(blob: &str, base64: bool) -> (r: Option<MessageHeader>)
    ensures
        match binary_decoding(blob@, base64) {
            Some(transaction) => r == Some(transaction.message.header),
            None => r is None,
        },
{
    let encoding = if base64 { Encoding::Base64 } else { Encoding::Base58 };
    let decoded = EncodedTransaction::Binary(blob.to_string(), encoding).decode()?;
    let header = decoded.message.header();
    Some(MessageHeader::new(header.num_required_signatures, header.num_readonly_signed_accounts, header.num_readonly_unsigned_accounts))
}

/// Calls `EncodedTransaction::decode` on a binary transaction in the given
/// encoding. Claims: the result holds the keys that the decoded
/// transaction's message lists, and is `None` where there is none.
#[verifier::external_body]
pub(crate) fn decoded_account_keys(blob: &str, base64: bool) -> (r: Option<Vec<Pubkey>>)
    ensures
        match binary_decoding(blob@, base64) {
            Some(transaction) => r is Some && r.unwrap()@ == transaction.message.account_keys,
            None => r is None,
        },
{
    let encoding = if base64 { Encoding::Base64 } else { Encoding::Base58 };
    let decoded = EncodedTransaction::Binary(blob.to_string(), encoding).decode()?;
    Some(decoded.message.static_account_keys().iter().map(|k| Pubkey::new_from_array(k.to_bytes())).collect())
}

/// Calls `EncodedTransaction::decode` on a binary transaction in the given
/// encoding. Claims: the result is the block hash that the decoded
/// transaction's message names, and is `None` where there is none.
#[verifier::external_body]
pub(crate) fn decoded_blockhash(blob: &str, base64: bool) -> (r: Option<crate::transaction::Hash>)
    ensures
        match binary_decoding(blob@, base64) {
            Some(transaction) => r == Some(transaction.message.recent_blockhash),
            None => r is None,
        },
{
    let encoding = if base64 { Encoding::Base64 } else { Encoding::Base58 };
    let decoded = EncodedTransaction::Binary(blob.to_string(), encoding).decode()?;
    Some(crate::transaction::Hash::new_from_array(decoded.message.recent_blockhash().to_bytes()))
}

/// Calls `EncodedTransaction::decode` on a binary transaction in the given
/// encoding. Claims: the result holds the instructions of the decoded
/// transaction's message, and is `None` where there is none.
#[verifier::external_body]
pub(crate) fn decoded_instructions(blob: &str, base64: bool) -> (r: Option<Vec<CompiledInstruction>>)
    ensures
        match binary_decoding(blob@, base64) {
            Some(transaction) => r is Some && instruction_views(r.unwrap()@)
                == transaction.message.instructions,
            None => r is None,
        },
{
    let encoding = if base64 { Encoding::Base64 } else { Encoding::Base58 };
    let decoded = EncodedTransaction::Binary(blob.to_string(), encoding).decode()?;
    Some(decoded.message.instructions().iter().map(|i| CompiledInstruction::new(i.program_id_index, i.accounts.clone(), i.data.clone())).collect())
}

/// Calls `EncodedTransaction::decode` on a binary transaction in the given
/// encoding. Claims: the result holds the address table lookups of the
/// decoded transaction's message, and is `None` where there is no
/// transaction or its message is in the first format, which has none.
#[verifier::external_body]
pub(crate) fn decoded_lookups(blob: &str, base64: bool) -> (r: Option<Vec<MessageAddressTableLookup>>)
    ensures
        match binary_decoding(blob@, base64) {
            Some(transaction) => match transaction.message.address_table_lookups {
                Some(lookups) => r is Some && lookup_views(r.unwrap()@) == lookups,
                None => r is None,
            },
            None => r is None,
        },
{
    let encoding = if base64 { Encoding::Base64 } else { Encoding::Base58 };
    let decoded = EncodedTransaction::Binary(blob.to_string(), encoding).decode()?;
    let lookups = decoded.message.address_table_lookups()?;
    Some(lookups.iter().map(|l| MessageAddressTableLookup::new(l.account_key.to_bytes(), l.writable_indexes.clone(), l.readonly_indexes.clone())).collect())
}


/// The text that stands for the bytes in base 58.
pub uninterp spec fn base58_encoding(bytes: Seq<u8>) -> Seq<char>;

/// Calls `bs58::encode` and `into_string` on its builder. Claims: the result
/// is the encoded text, and depends on the bytes alone.
#[verifier::external_body]
pub(crate) fn base58_encode(bytes: &[u8]) -> (text: String)
    ensures
        text@ == base58_encoding(bytes@),
{
    bs58::encode(bytes).into_string()
}

} // verus!
