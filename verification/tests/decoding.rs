use bonbon::assemble::{Cocoa, ErrorCode};
use bonbon::instruction::{
    decode_metadata, decode_token, AuthorityType, CollectionArgs, CompiledInstruction, CreatorArgs,
    Data, DataV2, MetadataInstruction, TokenInstruction,
};
use bonbon::pubkey::Pubkey;
use borsh::BorshSerialize;
use mpl_token_metadata::instruction as program;
use mpl_token_metadata::instruction::MetadataInstruction as P;
use mpl_token_metadata::state;
use solana_program::program_option::COption;
use solana_program::pubkey::Pubkey as Address;
use spl_token_2022::instruction as token;
use spl_token_2022::instruction::TokenInstruction as T;

fn key(n: u8) -> Pubkey {
    Pubkey { bytes: [n; 32] }
}

fn address(n: u8) -> Address {
    Address::new_from_array([n; 32])
}

fn roasted(instruction: P) -> Option<MetadataInstruction> {
    decode_metadata(&instruction.try_to_vec().unwrap())
}

fn baked(instruction: T) -> Option<TokenInstruction> {
    decode_token(&instruction.pack())
}

fn first_payload() -> state::Data {
    state::Data {
        name: "n".to_string(),
        symbol: "s".to_string(),
        uri: "u".to_string(),
        seller_fee_basis_points: 250,
        creators: Some(vec![
            state::Creator { address: address(1), verified: true, share: 60 },
            state::Creator { address: address(2), verified: false, share: 40 },
        ]),
    }
}

fn first_payload_decoded() -> Data {
    Data {
        name: "n".to_string(),
        symbol: "s".to_string(),
        uri: "u".to_string(),
        creators: Some(vec![
            CreatorArgs { address: key(1), verified: true, share: 60 },
            CreatorArgs { address: key(2), verified: false, share: 40 },
        ]),
    }
}

fn second_payload() -> state::DataV2 {
    state::DataV2 {
        name: "name".to_string(),
        symbol: "".to_string(),
        uri: "https://example.org/1".to_string(),
        seller_fee_basis_points: 0,
        creators: None,
        collection: Some(state::Collection { verified: false, key: address(9) }),
        uses: None,
    }
}

fn second_payload_decoded() -> DataV2 {
    DataV2 {
        name: "name".to_string(),
        symbol: "".to_string(),
        uri: "https://example.org/1".to_string(),
        creators: None,
        collection: Some(CollectionArgs { verified: false, key: key(9) }),
    }
}

#[test]
fn metadata_instructions_without_payload() {
    assert_eq!(roasted(P::SignMetadata), Some(MetadataInstruction::SignMetadata));
    assert_eq!(
        roasted(P::DeprecatedMintNewEditionFromMasterEditionViaPrintingToken),
        Some(MetadataInstruction::DeprecatedMintNewEditionFromMasterEditionViaPrintingToken)
    );
    assert_eq!(
        roasted(P::CreateMasterEdition(program::CreateMasterEditionArgs { max_supply: None })),
        Some(MetadataInstruction::CreateMasterEdition)
    );
    assert_eq!(
        roasted(P::DeprecatedCreateMasterEdition(program::CreateMasterEditionArgs {
            max_supply: Some(3)
        })),
        Some(MetadataInstruction::DeprecatedCreateMasterEdition)
    );
    assert_eq!(roasted(P::ConvertMasterEditionV1ToV2), Some(MetadataInstruction::ConvertMasterEditionV1ToV2));
    assert_eq!(roasted(P::PuffMetadata), Some(MetadataInstruction::PuffMetadata));
    assert_eq!(
        roasted(P::CreateMasterEditionV3(program::CreateMasterEditionArgs { max_supply: Some(1) })),
        Some(MetadataInstruction::CreateMasterEditionV3)
    );
    assert_eq!(roasted(P::VerifyCollection), Some(MetadataInstruction::VerifyCollection));
    assert_eq!(roasted(P::UnverifyCollection), Some(MetadataInstruction::UnverifyCollection));
    assert_eq!(roasted(P::SetAndVerifyCollection), Some(MetadataInstruction::SetAndVerifyCollection));
    assert_eq!(
        roasted(P::Utilize(program::UtilizeArgs { number_of_uses: 2 })),
        Some(MetadataInstruction::Utilize)
    );
    assert_eq!(roasted(P::FreezeDelegatedAccount), Some(MetadataInstruction::FreezeDelegatedAccount));
    assert_eq!(roasted(P::RemoveCreatorVerification), Some(MetadataInstruction::RemoveCreatorVerification));
    assert_eq!(roasted(P::BurnNft), Some(MetadataInstruction::BurnNft));
    assert_eq!(roasted(P::VerifySizedCollectionItem), Some(MetadataInstruction::VerifySizedCollectionItem));
    assert_eq!(
        roasted(P::SetCollectionSize(program::SetCollectionSizeArgs { size: 12 })),
        Some(MetadataInstruction::SetCollectionSize)
    );
    assert_eq!(roasted(P::SetTokenStandard), Some(MetadataInstruction::SetTokenStandard));
}

#[test]
fn metadata_instructions_with_edition() {
    assert_eq!(
        roasted(P::MintNewEditionFromMasterEditionViaToken(
            program::MintNewEditionFromMasterEditionViaTokenArgs { edition: 7 }
        )),
        Some(MetadataInstruction::MintNewEditionFromMasterEditionViaToken(7))
    );
    assert_eq!(
        roasted(P::MintNewEditionFromMasterEditionViaVaultProxy(
            program::MintNewEditionFromMasterEditionViaTokenArgs { edition: u64::MAX }
        )),
        Some(MetadataInstruction::MintNewEditionFromMasterEditionViaVaultProxy(u64::MAX))
    );
}

#[test]
fn metadata_instructions_with_first_payload() {
    assert_eq!(
        roasted(P::CreateMetadataAccount(program::CreateMetadataAccountArgs {
            data: first_payload(),
            is_mutable: false,
        })),
        Some(MetadataInstruction::CreateMetadataAccount(first_payload_decoded()))
    );
    assert_eq!(
        roasted(P::UpdateMetadataAccount(program::UpdateMetadataAccountArgs {
            data: Some(first_payload()),
            update_authority: Some(address(3)),
            primary_sale_happened: None,
        })),
        Some(MetadataInstruction::UpdateMetadataAccount(Some(first_payload_decoded())))
    );
    assert_eq!(
        roasted(P::UpdateMetadataAccount(program::UpdateMetadataAccountArgs {
            data: None,
            update_authority: None,
            primary_sale_happened: Some(true),
        })),
        Some(MetadataInstruction::UpdateMetadataAccount(None))
    );
}

#[test]
fn metadata_instructions_with_second_payload() {
    assert_eq!(
        roasted(P::CreateMetadataAccountV2(program::CreateMetadataAccountArgsV2 {
            data: second_payload(),
            is_mutable: true,
        })),
        Some(MetadataInstruction::CreateMetadataAccountV2(second_payload_decoded()))
    );
    assert_eq!(
        roasted(P::UpdateMetadataAccountV2(program::UpdateMetadataAccountArgsV2 {
            data: Some(second_payload()),
            update_authority: None,
            primary_sale_happened: None,
            is_mutable: None,
        })),
        Some(MetadataInstruction::UpdateMetadataAccountV2(Some(second_payload_decoded())))
    );
    assert_eq!(
        roasted(P::UpdateMetadataAccountV2(program::UpdateMetadataAccountArgsV2 {
            data: None,
            update_authority: None,
            primary_sale_happened: None,
            is_mutable: Some(false),
        })),
        Some(MetadataInstruction::UpdateMetadataAccountV2(None))
    );
    assert_eq!(
        roasted(P::CreateMetadataAccountV3(program::CreateMetadataAccountArgsV3 {
            data: second_payload(),
            is_mutable: true,
            collection_details: None,
        })),
        Some(MetadataInstruction::CreateMetadataAccountV3(second_payload_decoded()))
    );
}

#[test]
fn metadata_payloads_that_do_not_decode() {
    assert_eq!(decode_metadata(&[]), None);
    assert_eq!(decode_metadata(&[200]), None);
    // a payload with bytes left over is rejected
    assert_eq!(decode_metadata(&[7, 0]), None);
    assert_eq!(decode_metadata(&[7]), Some(MetadataInstruction::SignMetadata));
}

#[test]
fn token_instructions_of_every_group() {
    assert_eq!(
        baked(T::InitializeMint {
            decimals: 6,
            mint_authority: address(1),
            freeze_authority: COption::Some(address(2)),
        }),
        Some(TokenInstruction::InitializeMint { decimals: 6 })
    );
    assert_eq!(
        baked(T::InitializeMint2 {
            decimals: 0,
            mint_authority: address(1),
            freeze_authority: COption::None,
        }),
        Some(TokenInstruction::InitializeMint2 { decimals: 0 })
    );
    assert_eq!(baked(T::InitializeAccount), Some(TokenInstruction::InitializeAccount));
    assert_eq!(
        baked(T::InitializeAccount2 { owner: address(5) }),
        Some(TokenInstruction::InitializeAccount2 { owner: key(5) })
    );
    assert_eq!(
        baked(T::InitializeAccount3 { owner: address(6) }),
        Some(TokenInstruction::InitializeAccount3 { owner: key(6) })
    );
    assert_eq!(baked(T::InitializeMultisig { m: 2 }), Some(TokenInstruction::InitializeMultisig));
    #[allow(deprecated)]
    let transfer = T::Transfer { amount: 1 };
    assert_eq!(baked(transfer), Some(TokenInstruction::Transfer { amount: 1 }));
    assert_eq!(baked(T::Approve { amount: 3 }), Some(TokenInstruction::Approve { amount: 3 }));
    assert_eq!(baked(T::MintTo { amount: 1 }), Some(TokenInstruction::MintTo { amount: 1 }));
    assert_eq!(baked(T::Burn { amount: u64::MAX }), Some(TokenInstruction::Burn { amount: u64::MAX }));
    assert_eq!(
        baked(T::TransferChecked { amount: 2, decimals: 9 }),
        Some(TokenInstruction::TransferChecked { amount: 2, decimals: 9 })
    );
    assert_eq!(
        baked(T::ApproveChecked { amount: 1, decimals: 0 }),
        Some(TokenInstruction::ApproveChecked { amount: 1, decimals: 0 })
    );
    assert_eq!(
        baked(T::MintToChecked { amount: 1, decimals: 0 }),
        Some(TokenInstruction::MintToChecked { amount: 1, decimals: 0 })
    );
    assert_eq!(
        baked(T::BurnChecked { amount: 1, decimals: 2 }),
        Some(TokenInstruction::BurnChecked { amount: 1, decimals: 2 })
    );
    assert_eq!(baked(T::Revoke), Some(TokenInstruction::Revoke));
    assert_eq!(baked(T::CloseAccount), Some(TokenInstruction::CloseAccount));
    assert_eq!(baked(T::FreezeAccount), Some(TokenInstruction::FreezeAccount));
    assert_eq!(baked(T::ThawAccount), Some(TokenInstruction::ThawAccount));
    assert_eq!(baked(T::SyncNative), Some(TokenInstruction::SyncNative));
    assert_eq!(baked(T::InitializeImmutableOwner), Some(TokenInstruction::InitializeImmutableOwner));
    assert_eq!(baked(T::AmountToUiAmount { amount: 4 }), Some(TokenInstruction::AmountToUiAmount));
    assert_eq!(baked(T::CreateNativeMint), Some(TokenInstruction::CreateNativeMint));
    assert_eq!(
        baked(T::InitializeNonTransferableMint),
        Some(TokenInstruction::InitializeNonTransferableMint)
    );
    assert_eq!(
        baked(T::InitializePermanentDelegate { delegate: address(3) }),
        Some(TokenInstruction::InitializePermanentDelegate)
    );
}

#[test]
fn token_instructions_that_set_an_authority() {
    assert_eq!(
        baked(T::SetAuthority {
            authority_type: token::AuthorityType::AccountOwner,
            new_authority: COption::Some(address(8)),
        }),
        Some(TokenInstruction::SetAuthority {
            authority_type: AuthorityType::AccountOwner,
            new_authority: Some(key(8)),
        })
    );
    assert_eq!(
        baked(T::SetAuthority {
            authority_type: token::AuthorityType::MintTokens,
            new_authority: COption::None,
        }),
        Some(TokenInstruction::SetAuthority {
            authority_type: AuthorityType::MintTokens,
            new_authority: None,
        })
    );
    assert_eq!(
        baked(T::SetAuthority {
            authority_type: token::AuthorityType::CloseMint,
            new_authority: COption::Some(address(1)),
        }),
        Some(TokenInstruction::SetAuthority {
            authority_type: AuthorityType::CloseMint,
            new_authority: Some(key(1)),
        })
    );
}

#[test]
fn token_payloads_that_do_not_decode() {
    assert_eq!(decode_token(&[]), None);
    assert_eq!(decode_token(&[3, 1, 0]), None);
    assert_eq!(decode_token(&[250]), None);
    assert_eq!(decode_token(&[9]), Some(TokenInstruction::CloseAccount));
}

#[test]
fn an_instruction_resolves_its_accounts() {
    let instruction = CompiledInstruction { program_id_index: 2, accounts: vec![1, 0, 5], data: vec![9] };
    let table = vec![key(10), key(11), key(12)];
    assert_eq!(instruction.program_key(&table), Ok(key(12)));
    assert_eq!(instruction.program_key(&table[..2]), Err(ErrorCode::BadAccountKeyIndex));
    assert_eq!(instruction.account_index(0), Ok(1));
    assert_eq!(instruction.account_index(2), Ok(5));
    assert_eq!(instruction.account_index(3), Err(ErrorCode::BadAccountKeyIndex));
    assert_eq!(instruction.account(0, &table), Ok(key(11)));
    assert_eq!(instruction.account(1, &table), Ok(key(10)));
    assert_eq!(instruction.account(2, &table), Err(ErrorCode::BadAccountKeyIndex));
    assert_eq!(instruction.account(3, &table), Err(ErrorCode::BadAccountKeyIndex));
    assert_eq!(instruction.bake(), Ok(TokenInstruction::CloseAccount));
    // as a payload of the metadata program, the byte lacks its arguments
    assert_eq!(instruction.roast(), Err(ErrorCode::FailedInstructionDeserialization));
    let signing = CompiledInstruction { program_id_index: 0, accounts: vec![], data: vec![7] };
    assert_eq!(signing.roast(), Ok(MetadataInstruction::SignMetadata));
    let opaque = CompiledInstruction { program_id_index: 0, accounts: vec![], data: vec![255, 1] };
    assert_eq!(opaque.roast(), Err(ErrorCode::FailedInstructionDeserialization));
    assert_eq!(opaque.bake(), Err(ErrorCode::FailedInstructionDeserialization));
}
