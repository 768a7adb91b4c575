use bonbon::assemble::{
    apply_metadata_instruction, apply_token_instruction, assemble, find_meta, get_token_meta_for,
    update_metadata_instruction, update_token_instruction, BonbonUpdater, ErrorCode,
    InstructionContext, Step, TransactionTokenOwnerMeta, Update,
};
use bonbon::bonbon::{
    from_creators, Bonbon, Collection, Creator, EditionStatus, Glazing, InstructionIndex,
    LimitedEdition,
};
use bonbon::instruction::{
    AuthorityType, CollectionArgs, CompiledInstruction, CreatorArgs, Data, DataV2,
    MetadataInstruction, TokenInstruction,
};
use bonbon::ownership::{Ownership, Ownerships, Transfer};
use bonbon::pubkey::Pubkey;
use borsh::BorshSerialize;
use mpl_token_metadata::instruction::MetadataInstruction as P;
use solana_program::pubkey::Pubkey as Address;
use spl_token_2022::instruction::TokenInstruction as T;

fn key(n: u8) -> Pubkey {
    Pubkey { bytes: [n; 32] }
}

fn derived(mint: &Pubkey) -> Pubkey {
    let mint = Address::new_from_array(mint.bytes);
    Pubkey { bytes: mpl_token_metadata::pda::find_metadata_account(&mint).0.to_bytes() }
}

fn token_program() -> Pubkey {
    Pubkey { bytes: spl_token::id().to_bytes() }
}

fn metadata_program() -> Pubkey {
    Pubkey { bytes: mpl_token_metadata::id().to_bytes() }
}

/// Place 0 holds the token program, place 1 the metadata program, place 2
/// the address derived from the mint at place 3, and place `n` the key of
/// `n` for every other `n` below 16.
fn table() -> Vec<Pubkey> {
    let mut keys = vec![token_program(), metadata_program(), derived(&key(3))];
    for n in 3..16 {
        keys.push(key(n));
    }
    keys
}

fn token(accounts: Vec<u8>, instruction: T) -> CompiledInstruction {
    CompiledInstruction { program_id_index: 0, accounts, data: instruction.pack() }
}

fn metadata(accounts: Vec<u8>, instruction: P) -> CompiledInstruction {
    CompiledInstruction { program_id_index: 1, accounts, data: instruction.try_to_vec().unwrap() }
}

fn bare(accounts: Vec<u8>) -> CompiledInstruction {
    CompiledInstruction { program_id_index: 0, accounts, data: vec![] }
}

fn at(slot: i64, outer_index: i64) -> InstructionIndex {
    InstructionIndex { slot, block_index: 0, outer_index, inner_index: None }
}

fn apply(bonbon: &mut Bonbon, decoded: MetadataInstruction, accounts: Vec<u8>) -> Result<(), ErrorCode> {
    let address = derived(&bonbon.mint_key);
    apply_metadata_instruction(bonbon, decoded, Some(address), &bare(accounts), &table(), at(5, 1))
}

fn apply_token(
    bonbon: &mut Bonbon,
    decoded: TokenInstruction,
    accounts: Vec<u8>,
    owners: &[TransactionTokenOwnerMeta],
    transient_metas: &mut Vec<TransactionTokenOwnerMeta>,
) -> Result<(), ErrorCode> {
    apply_token_instruction(bonbon, decoded, &bare(accounts), &table(), owners, at(5, 1), transient_metas)
}

fn minted() -> Bonbon {
    let mut bonbon = Bonbon::default();
    bonbon.mint_key = key(3);
    bonbon
}

fn payload(uri: &str) -> Data {
    Data {
        name: "n".to_string(),
        symbol: "s".to_string(),
        uri: uri.to_string(),
        creators: Some(vec![
            CreatorArgs { address: key(20), verified: false, share: 50 },
            CreatorArgs { address: key(21), verified: false, share: 30 },
            CreatorArgs { address: key(20), verified: false, share: 20 },
        ]),
    }
}

fn with_metadata() -> Bonbon {
    let mut bonbon = minted();
    apply(&mut bonbon, MetadataInstruction::CreateMetadataAccount(payload("u")), vec![2]).unwrap();
    bonbon
}

#[test]
fn a_fresh_record_is_empty() {
    let bonbon = Bonbon::default();
    assert_eq!(bonbon.mint_key, Pubkey::default());
    assert_eq!(bonbon.mint_key, Pubkey { bytes: [0; 32] });
    assert_eq!(bonbon.metadata_key, Pubkey::default());
    assert_eq!(bonbon.mint_authority, Pubkey::default());
    assert!(bonbon.mint_key.is_default());
    assert!(!key(1).is_default());
    assert!(bonbon.transfers.is_empty());
    assert!(bonbon.glazings.is_empty());
    assert_eq!(bonbon.current_owner, None);
    assert_eq!(bonbon.edition_status, EditionStatus::NoEdition);
    assert_eq!(EditionStatus::default(), EditionStatus::NoEdition);
    assert_eq!(bonbon.limited_edition, None);
    assert_eq!(bonbon.ownerships.get(&key(1)), None);
    assert_eq!(Glazing::default().uri, "");
    assert_eq!(Ownership::default(), Ownership { owner: Pubkey::default(), account: Pubkey::default() });
    assert_eq!(Transfer::default(), Transfer { slot: 0, start: None, end: None });
    assert_eq!(InstructionIndex::default(), at(0, 0));
}

#[test]
fn the_ledger_order() {
    let index = |slot, block_index, outer_index, inner_index| InstructionIndex {
        slot,
        block_index,
        outer_index,
        inner_index,
    };
    let ordered = vec![
        index(1, 9, 9, None),
        index(2, 0, 7, Some(3)),
        index(2, 1, 0, Some(0)),
        index(2, 1, 0, Some(1)),
        index(2, 1, 0, None),
        index(2, 1, 1, None),
        index(2, 1, 2, Some(0)),
        index(3, 0, 0, Some(0)),
    ];
    for (i, a) in ordered.iter().enumerate() {
        for (j, b) in ordered.iter().enumerate() {
            assert_eq!(a.is_before(b), i < j, "{:?} before {:?}", a, b);
        }
    }
}

#[test]
fn creators_and_collections_of_a_payload() {
    assert_eq!(from_creators(None), vec![]);
    assert_eq!(from_creators(Some(vec![])), vec![]);
    assert_eq!(
        from_creators(Some(vec![
            CreatorArgs { address: key(1), verified: true, share: 255 },
            CreatorArgs { address: key(2), verified: false, share: 0 },
        ])),
        vec![
            Creator { address: key(1), verified: true, share: 255 },
            Creator { address: key(2), verified: false, share: 0 },
        ]
    );
    assert_eq!(
        Creator::from(CreatorArgs { address: key(1), verified: true, share: 100 }),
        Creator { address: key(1), verified: true, share: 100 }
    );
    assert_eq!(
        Collection::from(CollectionArgs { verified: true, key: key(4) }),
        Collection { address: key(4), verified: true }
    );
    let glazing = payload("u").into_glazing(at(1, 2));
    assert_eq!(glazing.name, "n");
    assert_eq!(glazing.symbol, "s");
    assert_eq!(glazing.uri, "u");
    assert_eq!(glazing.creators.len(), 3);
    assert_eq!(glazing.creators[1], Creator { address: key(21), verified: false, share: 30 });
    assert_eq!(glazing.collection, None);
    assert_eq!(glazing.instruction_index, at(1, 2));
    let second = DataV2 {
        name: "n2".to_string(),
        symbol: "s2".to_string(),
        uri: "u2".to_string(),
        creators: None,
        collection: Some(CollectionArgs { verified: false, key: key(30) }),
    }
    .into_glazing(at(1, 3));
    assert_eq!(second.uri, "u2");
    assert!(second.creators.is_empty());
    assert_eq!(second.collection, Some(Collection { address: key(30), verified: false }));
    assert_eq!(glazing.clone(), glazing);
}

#[test]
fn metadata_is_created_at_the_derived_address_only() {
    let mut bonbon = minted();
    assert_eq!(
        apply(&mut bonbon, MetadataInstruction::CreateMetadataAccount(payload("u")), vec![4]),
        Err(ErrorCode::InvalidMetadataCreate)
    );
    assert_eq!(
        apply(&mut bonbon, MetadataInstruction::CreateMetadataAccount(payload("u")), vec![]),
        Err(ErrorCode::BadAccountKeyIndex)
    );
    assert_eq!(
        apply_metadata_instruction(
            &mut bonbon,
            MetadataInstruction::CreateMetadataAccount(payload("u")),
            None,
            &bare(vec![2]),
            &table(),
            at(5, 1)
        ),
        Err(ErrorCode::InvalidMetadataCreate)
    );
    assert_eq!(bonbon, minted());
    assert_eq!(apply(&mut bonbon, MetadataInstruction::CreateMetadataAccount(payload("u")), vec![2]), Ok(()));
    assert_eq!(bonbon.metadata_key, derived(&key(3)));
    assert_eq!(bonbon.glazings.len(), 1);
    assert_eq!(bonbon.glazings[0].uri, "u");
    assert_eq!(bonbon.glazings[0].instruction_index, at(5, 1));
    let second = DataV2 {
        name: "".to_string(),
        symbol: "".to_string(),
        uri: "v3".to_string(),
        creators: None,
        collection: Some(CollectionArgs { verified: true, key: key(9) }),
    };
    assert_eq!(apply(&mut bonbon, MetadataInstruction::CreateMetadataAccountV3(second), vec![2]), Ok(()));
    assert_eq!(bonbon.glazings.len(), 2);
    assert_eq!(bonbon.glazings[1].collection, Some(Collection { address: key(9), verified: true }));
}

#[test]
fn metadata_is_updated_under_its_key_only() {
    let mut bonbon = with_metadata();
    assert_eq!(
        apply(&mut bonbon, MetadataInstruction::UpdateMetadataAccount(Some(payload("w"))), vec![4]),
        Err(ErrorCode::InvalidMetadataUpdate)
    );
    assert_eq!(bonbon.glazings.len(), 1);
    assert_eq!(apply(&mut bonbon, MetadataInstruction::UpdateMetadataAccount(None), vec![2]), Ok(()));
    assert_eq!(bonbon.glazings.len(), 1);
    assert_eq!(
        apply(&mut bonbon, MetadataInstruction::UpdateMetadataAccount(Some(payload("w"))), vec![2]),
        Ok(())
    );
    assert_eq!(bonbon.glazings.len(), 2);
    assert_eq!(bonbon.glazings[1].uri, "w");
    assert_eq!(apply(&mut bonbon, MetadataInstruction::UpdateMetadataAccountV2(None), vec![2]), Ok(()));
    assert_eq!(
        apply(&mut bonbon, MetadataInstruction::UpdateMetadataAccountV2(None), vec![5]),
        Err(ErrorCode::InvalidMetadataUpdate)
    );
}

#[test]
fn a_master_edition_is_created_once() {
    let mut bonbon = with_metadata();
    assert_eq!(
        apply(&mut bonbon, MetadataInstruction::CreateMasterEdition, vec![9, 9, 9, 9, 9, 4]),
        Err(ErrorCode::InvalidMasterEditionCreate)
    );
    assert_eq!(
        apply(&mut bonbon, MetadataInstruction::CreateMasterEdition, vec![9, 9, 9, 9, 9]),
        Err(ErrorCode::BadAccountKeyIndex)
    );
    assert_eq!(bonbon.edition_status, EditionStatus::NoEdition);
    assert_eq!(apply(&mut bonbon, MetadataInstruction::CreateMasterEdition, vec![9, 9, 9, 9, 9, 2]), Ok(()));
    assert_eq!(bonbon.edition_status, EditionStatus::Master);
    assert_eq!(
        apply(&mut bonbon, MetadataInstruction::CreateMasterEditionV3, vec![9, 9, 9, 9, 9, 2]),
        Err(ErrorCode::InvalidMasterEditionCreate)
    );
    assert_eq!(
        apply(
            &mut bonbon,
            MetadataInstruction::DeprecatedCreateMasterEdition,
            vec![9, 9, 9, 9, 9, 9, 9, 2]
        ),
        Err(ErrorCode::InvalidMasterEditionCreate)
    );
    assert_eq!(bonbon.edition_status, EditionStatus::Master);
    let mut other = with_metadata();
    assert_eq!(
        apply(&mut other, MetadataInstruction::DeprecatedCreateMasterEdition, vec![9, 9, 9, 9, 9, 9, 9, 2]),
        Ok(())
    );
    assert_eq!(other.edition_status, EditionStatus::Master);
}

#[test]
fn a_limited_edition_refers_to_its_master() {
    let accounts = |master_at: usize| {
        let mut accounts = vec![9u8; 13];
        accounts[0] = 2;
        accounts[master_at] = 7;
        accounts
    };
    let mut bonbon = minted();
    assert_eq!(
        apply(&mut bonbon, MetadataInstruction::MintNewEditionFromMasterEditionViaToken(4), accounts(10)),
        Ok(())
    );
    assert_eq!(bonbon.metadata_key, derived(&key(3)));
    assert_eq!(bonbon.edition_status, EditionStatus::Limited);
    assert_eq!(
        bonbon.limited_edition,
        Some(LimitedEdition { master_key: key(7), edition_num: Some(4), instruction_index: at(5, 1) })
    );
    let mut bonbon = minted();
    assert_eq!(
        apply(
            &mut bonbon,
            MetadataInstruction::MintNewEditionFromMasterEditionViaVaultProxy(u64::MAX),
            accounts(12)
        ),
        Ok(())
    );
    assert_eq!(bonbon.limited_edition.unwrap().master_key, key(7));
    assert_eq!(bonbon.limited_edition.unwrap().edition_num, Some(-1));
    let mut bonbon = minted();
    assert_eq!(
        apply(
            &mut bonbon,
            MetadataInstruction::DeprecatedMintNewEditionFromMasterEditionViaPrintingToken,
            accounts(11)
        ),
        Ok(())
    );
    assert_eq!(
        bonbon.limited_edition,
        Some(LimitedEdition { master_key: key(7), edition_num: None, instruction_index: at(5, 1) })
    );
    let mut bonbon = minted();
    let mut elsewhere = accounts(10);
    elsewhere[0] = 4;
    assert_eq!(
        apply(&mut bonbon, MetadataInstruction::MintNewEditionFromMasterEditionViaToken(4), elsewhere),
        Err(ErrorCode::InvalidMetadataCreate)
    );
    assert_eq!(bonbon, minted());
    // without the account of the master, the record is a limited edition
    // without a back-reference
    assert_eq!(
        apply(&mut bonbon, MetadataInstruction::MintNewEditionFromMasterEditionViaToken(4), vec![2, 9]),
        Err(ErrorCode::BadAccountKeyIndex)
    );
    assert_eq!(bonbon.metadata_key, derived(&key(3)));
    assert_eq!(bonbon.edition_status, EditionStatus::Limited);
    assert_eq!(bonbon.limited_edition, None);
}

#[test]
fn the_first_creator_of_an_address_is_verified() {
    let mut bonbon = with_metadata();
    assert_eq!(apply(&mut bonbon, MetadataInstruction::SignMetadata, vec![2, 20 - 3 + 3]), Err(ErrorCode::BadAccountKeyIndex));
    let mut keys = table();
    keys.push(key(20));
    keys.push(key(21));
    let sign = |bonbon: &mut Bonbon, decoded, accounts: Vec<u8>| {
        let address = derived(&bonbon.mint_key);
        apply_metadata_instruction(bonbon, decoded, Some(address), &bare(accounts), &keys, at(6, 0))
    };
    assert_eq!(sign(&mut bonbon, MetadataInstruction::SignMetadata, vec![2, 16]), Ok(()));
    assert_eq!(bonbon.glazings.len(), 2);
    let flags: Vec<bool> = bonbon.glazings[1].creators.iter().map(|c| c.verified).collect();
    assert_eq!(flags, vec![true, false, false]);
    assert_eq!(bonbon.glazings[1].creators[0].share, 50);
    assert_eq!(bonbon.glazings[1].uri, "u");
    assert_eq!(bonbon.glazings[1].instruction_index, at(6, 0));
    assert_eq!(sign(&mut bonbon, MetadataInstruction::SignMetadata, vec![2, 17]), Ok(()));
    let flags: Vec<bool> = bonbon.glazings[2].creators.iter().map(|c| c.verified).collect();
    assert_eq!(flags, vec![true, true, false]);
    assert_eq!(sign(&mut bonbon, MetadataInstruction::RemoveCreatorVerification, vec![2, 16]), Ok(()));
    let flags: Vec<bool> = bonbon.glazings[3].creators.iter().map(|c| c.verified).collect();
    assert_eq!(flags, vec![false, true, false]);
    // a creator that the metadata does not list changes nothing but the place
    assert_eq!(sign(&mut bonbon, MetadataInstruction::SignMetadata, vec![2, 5]), Ok(()));
    assert_eq!(bonbon.glazings[4].creators, bonbon.glazings[3].creators);
    assert_eq!(
        sign(&mut bonbon, MetadataInstruction::SignMetadata, vec![4, 16]),
        Err(ErrorCode::InvalidMetadataVerifyOperation)
    );
    assert_eq!(
        sign(&mut bonbon, MetadataInstruction::RemoveCreatorVerification, vec![2]),
        Err(ErrorCode::BadAccountKeyIndex)
    );
    assert_eq!(bonbon.glazings.len(), 5);
}

#[test]
fn a_creator_without_metadata_stands_alone() {
    let mut bonbon = Bonbon::default();
    bonbon.apply_creator_verification(key(20), true, at(4, 0));
    assert_eq!(bonbon.glazings.len(), 1);
    assert_eq!(bonbon.glazings[0].creators, vec![Creator { address: key(20), verified: true, share: 0 }]);
    assert_eq!(bonbon.glazings[0].uri, "");
    assert_eq!(bonbon.glazings[0].collection, None);
    assert_eq!(bonbon.glazings[0].instruction_index, at(4, 0));
}

#[test]
fn collections_are_set_and_verified() {
    let mut bonbon = with_metadata();
    let accounts = vec![2, 9, 9, 6, 7];
    assert_eq!(apply(&mut bonbon, MetadataInstruction::VerifyCollection, accounts.clone()), Ok(()));
    assert_eq!(bonbon.glazings[1].collection, Some(Collection { address: key(6), verified: true }));
    assert_eq!(bonbon.glazings[1].creators, bonbon.glazings[0].creators);
    assert_eq!(apply(&mut bonbon, MetadataInstruction::UnverifyCollection, accounts.clone()), Ok(()));
    assert_eq!(bonbon.glazings[2].collection, Some(Collection { address: key(6), verified: false }));
    assert_eq!(apply(&mut bonbon, MetadataInstruction::SetAndVerifyCollection, accounts.clone()), Ok(()));
    assert_eq!(bonbon.glazings[3].collection, Some(Collection { address: key(7), verified: true }));
    assert_eq!(apply(&mut bonbon, MetadataInstruction::VerifySizedCollectionItem, accounts.clone()), Ok(()));
    assert_eq!(bonbon.glazings[4].collection, Some(Collection { address: key(6), verified: true }));
    assert_eq!(apply(&mut bonbon, MetadataInstruction::UnverifySizedCollectionItem, accounts.clone()), Ok(()));
    assert_eq!(bonbon.glazings[5].collection, Some(Collection { address: key(6), verified: false }));
    assert_eq!(
        apply(&mut bonbon, MetadataInstruction::SetAndVerifySizedCollectionItem, accounts.clone()),
        Ok(())
    );
    assert_eq!(bonbon.glazings[6].collection, Some(Collection { address: key(7), verified: true }));
    assert_eq!(
        apply(&mut bonbon, MetadataInstruction::VerifyCollection, vec![4, 9, 9, 6]),
        Err(ErrorCode::InvalidMetadataVerifyOperation)
    );
    assert_eq!(
        apply(&mut bonbon, MetadataInstruction::SetAndVerifyCollection, vec![2, 9, 9, 6]),
        Err(ErrorCode::BadAccountKeyIndex)
    );
    assert_eq!(bonbon.glazings.len(), 7);
}

#[test]
fn other_metadata_instructions_change_nothing() {
    let mut bonbon = with_metadata();
    for decoded in [
        MetadataInstruction::UpdatePrimarySaleHappenedViaToken,
        MetadataInstruction::DeprecatedSetReservationList,
        MetadataInstruction::ConvertMasterEditionV1ToV2,
        MetadataInstruction::PuffMetadata,
        MetadataInstruction::Utilize,
        MetadataInstruction::ApproveCollectionAuthority,
        MetadataInstruction::FreezeDelegatedAccount,
        MetadataInstruction::SetCollectionSize,
        MetadataInstruction::SetTokenStandard,
    ] {
        assert_eq!(apply(&mut bonbon, decoded, vec![]), Ok(()));
    }
    assert_eq!(bonbon, with_metadata());
}

#[test]
fn burning_through_the_metadata_program_ends_the_chain() {
    let mut bonbon = with_metadata();
    bonbon.apply_ownership(Some(Ownership { owner: key(5), account: key(6) }), 4);
    assert_eq!(apply(&mut bonbon, MetadataInstruction::BurnNft, vec![]), Ok(()));
    assert_eq!(
        bonbon.transfers,
        vec![
            Transfer { slot: 4, start: None, end: Some(Ownership { owner: key(5), account: key(6) }) },
            Transfer { slot: 5, start: Some(Ownership { owner: key(5), account: key(6) }), end: None },
        ]
    );
    assert_eq!(bonbon.current_owner, None);
}

fn entry(account_index: u8, owner: Option<u8>) -> TransactionTokenOwnerMeta {
    TransactionTokenOwnerMeta { account_index, owner_key: owner.map(key) }
}

#[test]
fn the_owner_of_an_account_is_resolved_in_order() {
    #[allow(deprecated)]
    let transfer = TokenInstruction::Transfer { amount: 1 };
    let to = |place: u8| vec![9, place, 9];
    // the transaction's entry comes first
    let mut bonbon = Bonbon::default();
    bonbon.ownerships.insert(key(6), key(40));
    let mut transient = vec![entry(6, Some(41))];
    assert_eq!(apply_token(&mut bonbon, transfer, to(6), &[entry(6, Some(42))], &mut transient), Ok(()));
    assert_eq!(bonbon.current_owner, Some(Ownership { owner: key(42), account: key(6) }));
    // then the accounts that the transaction initialised
    assert_eq!(apply_token(&mut bonbon, transfer, to(6), &[entry(5, Some(42))], &mut transient), Ok(()));
    assert_eq!(bonbon.current_owner, Some(Ownership { owner: key(41), account: key(6) }));
    // then the owner that the account was initialised with
    assert_eq!(apply_token(&mut bonbon, transfer, to(6), &[], &mut vec![]), Ok(()));
    assert_eq!(bonbon.current_owner, Some(Ownership { owner: key(40), account: key(6) }));
    // an entry that does not tell the owner falls back to it as well
    assert_eq!(apply_token(&mut bonbon, transfer, to(6), &[entry(6, None)], &mut vec![]), Ok(()));
    assert_eq!(bonbon.current_owner, Some(Ownership { owner: key(40), account: key(6) }));
    assert_eq!(bonbon.transfers.len(), 4);
    // nobody is known
    assert_eq!(
        apply_token(&mut bonbon, transfer, to(7), &[entry(7, None)], &mut vec![]),
        Err(ErrorCode::CouldNotFindTokenAccountOwner)
    );
    assert_eq!(
        apply_token(&mut bonbon, transfer, to(7), &[], &mut vec![]),
        Err(ErrorCode::CouldNotFindTokenAccountOwner)
    );
    assert_eq!(
        apply_token(&mut bonbon, transfer, vec![9], &[], &mut vec![]),
        Err(ErrorCode::BadAccountKeyIndex)
    );
    assert_eq!(
        apply_token(&mut bonbon, transfer, to(200), &[entry(200, Some(1))], &mut vec![]),
        Err(ErrorCode::BadAccountKeyIndex)
    );
    assert_eq!(bonbon.transfers.len(), 4);
    // a checked transfer names its destination one place later
    assert_eq!(
        apply_token(
            &mut bonbon,
            TokenInstruction::TransferChecked { amount: 1, decimals: 0 },
            vec![9, 9, 6, 9],
            &[entry(6, Some(43))],
            &mut vec![]
        ),
        Ok(())
    );
    assert_eq!(bonbon.current_owner, Some(Ownership { owner: key(43), account: key(6) }));
}

#[test]
fn entries_are_found_by_their_account_index() {
    let owners = vec![entry(4, Some(1)), entry(5, None), entry(4, Some(2))];
    assert_eq!(find_meta(&owners, 4), Some(0));
    assert_eq!(find_meta(&owners, 5), Some(1));
    assert_eq!(find_meta(&owners, 6), None);
    assert_eq!(find_meta(&[], 0), None);
    let transient = vec![entry(6, Some(3)), entry(5, Some(4))];
    assert_eq!(get_token_meta_for(&owners, &transient, 5), Some(entry(5, None)));
    assert_eq!(get_token_meta_for(&owners, &transient, 6), Some(entry(6, Some(3))));
    assert_eq!(get_token_meta_for(&owners, &transient, 7), None);
    assert_eq!(TransactionTokenOwnerMeta::from_stored(7, Some(key(1))), entry(7, Some(1)));
    assert_eq!(TransactionTokenOwnerMeta::from_stored(255, None), entry(255, None));
    assert_eq!(TransactionTokenOwnerMeta::from_stored(256 + 3, None), entry(3, None));
    assert_eq!(TransactionTokenOwnerMeta::from_stored(-1, None), entry(255, None));
}

#[test]
fn minting_sets_the_mint_authority() {
    let mut bonbon = Bonbon::default();
    let owners = [entry(6, Some(42))];
    assert_eq!(
        apply_token(&mut bonbon, TokenInstruction::MintTo { amount: 1 }, vec![3, 6, 8], &owners, &mut vec![]),
        Ok(())
    );
    assert_eq!(bonbon.mint_authority, key(8));
    assert_eq!(
        bonbon.transfers,
        vec![Transfer { slot: 5, start: None, end: Some(Ownership { owner: key(42), account: key(6) }) }]
    );
    // without the account of the authority, the token has arrived all the same
    assert_eq!(
        apply_token(
            &mut bonbon,
            TokenInstruction::MintToChecked { amount: 1, decimals: 0 },
            vec![3, 6],
            &owners,
            &mut vec![]
        ),
        Err(ErrorCode::BadAccountKeyIndex)
    );
    assert_eq!(bonbon.transfers.len(), 2);
    assert_eq!(bonbon.mint_authority, key(8));
    assert_eq!(
        apply_token(&mut bonbon, TokenInstruction::MintTo { amount: 1 }, vec![3, 7, 8], &owners, &mut vec![]),
        Err(ErrorCode::CouldNotFindTokenAccountOwner)
    );
    assert_eq!(bonbon.transfers.len(), 2);
}

#[test]
fn accounts_are_remembered_and_forgotten() {
    let mut bonbon = Bonbon::default();
    let mut transient = vec![];
    let owners = [entry(7, Some(50))];
    assert_eq!(
        apply_token(&mut bonbon, TokenInstruction::InitializeAccount, vec![6, 3, 8], &owners, &mut transient),
        Ok(())
    );
    assert_eq!(bonbon.ownerships.get(&key(6)), Some(key(8)));
    assert_eq!(transient, vec![entry(6, Some(8))]);
    // the second form names its owner at the same place
    assert_eq!(
        apply_token(
            &mut bonbon,
            TokenInstruction::InitializeAccount2 { owner: key(60) },
            vec![9, 3, 10],
            &owners,
            &mut transient
        ),
        Ok(())
    );
    assert_eq!(bonbon.ownerships.get(&key(9)), Some(key(10)));
    // the third form carries its owner
    assert_eq!(
        apply_token(
            &mut bonbon,
            TokenInstruction::InitializeAccount3 { owner: key(61) },
            vec![11, 3],
            &owners,
            &mut transient
        ),
        Ok(())
    );
    assert_eq!(bonbon.ownerships.get(&key(11)), Some(key(61)));
    assert_eq!(transient, vec![entry(6, Some(8)), entry(9, Some(10)), entry(11, Some(61))]);
    // an account with an entry of the transaction does not join them
    assert_eq!(
        apply_token(&mut bonbon, TokenInstruction::InitializeAccount, vec![7, 3, 8], &owners, &mut transient),
        Ok(())
    );
    assert_eq!(bonbon.ownerships.get(&key(7)), Some(key(8)));
    assert_eq!(transient.len(), 3);
    // initialising anew replaces the owner
    assert_eq!(
        apply_token(
            &mut bonbon,
            TokenInstruction::InitializeAccount3 { owner: key(62) },
            vec![6],
            &owners,
            &mut transient
        ),
        Ok(())
    );
    assert_eq!(bonbon.ownerships.get(&key(6)), Some(key(62)));
    assert_eq!(transient.len(), 3);
    assert_eq!(
        apply_token(&mut bonbon, TokenInstruction::InitializeAccount, vec![6, 3], &owners, &mut transient),
        Err(ErrorCode::BadAccountKeyIndex)
    );
    assert_eq!(
        apply_token(&mut bonbon, TokenInstruction::InitializeAccount, vec![], &owners, &mut transient),
        Err(ErrorCode::BadAccountKeyIndex)
    );
    // closing forgets the account; the last one takes its place
    assert_eq!(
        apply_token(&mut bonbon, TokenInstruction::CloseAccount, vec![6, 9, 9], &owners, &mut transient),
        Ok(())
    );
    assert_eq!(bonbon.ownerships.get(&key(6)), None);
    assert_eq!(bonbon.ownerships.get(&key(9)), Some(key(10)));
    assert_eq!(transient, vec![entry(11, Some(61)), entry(9, Some(10))]);
    assert_eq!(
        apply_token(&mut bonbon, TokenInstruction::CloseAccount, vec![], &owners, &mut transient),
        Err(ErrorCode::BadAccountKeyIndex)
    );
    assert!(bonbon.transfers.is_empty());
}

#[test]
fn the_table_of_owners() {
    let mut owners = Ownerships::new();
    assert_eq!(owners.get(&key(1)), None);
    owners.insert(key(1), key(2));
    owners.insert(key(3), key(4));
    owners.insert(key(1), key(5));
    assert_eq!(owners.get(&key(1)), Some(key(5)));
    assert_eq!(owners.get(&key(3)), Some(key(4)));
    owners.remove(&key(1));
    assert_eq!(owners.get(&key(1)), None);
    assert_eq!(owners.get(&key(3)), Some(key(4)));
    owners.remove(&key(9));
    assert_eq!(owners.get(&key(3)), Some(key(4)));
    assert_eq!(Ownerships::default().get(&key(3)), None);
}

#[test]
fn authorities_and_mints() {
    let mut bonbon = Bonbon::default();
    let mut transient = vec![];
    let set = |authority_type, new_authority: Option<u8>| TokenInstruction::SetAuthority {
        authority_type,
        new_authority: new_authority.map(key),
    };
    assert_eq!(
        apply_token(&mut bonbon, TokenInstruction::InitializeMint { decimals: 0 }, vec![3], &[], &mut transient),
        Ok(())
    );
    assert_eq!(bonbon.mint_key, key(3));
    assert_eq!(
        apply_token(&mut bonbon, TokenInstruction::InitializeMint2 { decimals: 9 }, vec![4], &[], &mut transient),
        Ok(())
    );
    assert_eq!(bonbon.mint_key, key(4));
    assert_eq!(
        apply_token(&mut bonbon, TokenInstruction::InitializeMint { decimals: 0 }, vec![], &[], &mut transient),
        Err(ErrorCode::BadAccountKeyIndex)
    );
    assert_eq!(apply_token(&mut bonbon, set(AuthorityType::MintTokens, Some(70)), vec![6], &[], &mut transient), Ok(()));
    assert_eq!(apply_token(&mut bonbon, set(AuthorityType::AccountOwner, None), vec![6], &[], &mut transient), Ok(()));
    assert_eq!(apply_token(&mut bonbon, set(AuthorityType::CloseAccount, Some(70)), vec![], &[], &mut transient), Ok(()));
    assert!(bonbon.transfers.is_empty());
    assert_eq!(
        apply_token(&mut bonbon, set(AuthorityType::AccountOwner, Some(70)), vec![], &[], &mut transient),
        Err(ErrorCode::BadAccountKeyIndex)
    );
    assert_eq!(apply_token(&mut bonbon, set(AuthorityType::AccountOwner, Some(70)), vec![6], &[], &mut transient), Ok(()));
    assert_eq!(bonbon.current_owner, Some(Ownership { owner: key(70), account: key(6) }));
    for decoded in [
        TokenInstruction::Approve { amount: 1 },
        TokenInstruction::Revoke,
        TokenInstruction::FreezeAccount,
        TokenInstruction::ThawAccount,
        TokenInstruction::SyncNative,
        TokenInstruction::InitializeMultisig,
        TokenInstruction::ApproveChecked { amount: 1, decimals: 0 },
        TokenInstruction::Reallocate,
    ] {
        assert_eq!(apply_token(&mut bonbon, decoded, vec![], &[], &mut transient), Ok(()));
    }
    assert_eq!(bonbon.transfers.len(), 1);
    assert_eq!(apply_token(&mut bonbon, TokenInstruction::BurnChecked { amount: 1, decimals: 0 }, vec![], &[], &mut transient), Ok(()));
    assert_eq!(bonbon.current_owner, None);
    assert_eq!(bonbon.transfers.len(), 2);
    assert!(transient.is_empty());
}

#[test]
fn an_instruction_goes_to_the_rules_of_its_program() {
    let keys = table();
    let mut bonbon = Bonbon::default();
    let mut transient = vec![];
    let mut update = |bonbon: &mut Bonbon, instruction: &CompiledInstruction, updaters: &[BonbonUpdater]| {
        bonbon.update(
            InstructionContext {
                instruction,
                account_keys: &keys,
                owners: &[],
                instruction_index: at(9, 0),
                transient_metas: &mut transient,
            },
            updaters,
        )
    };
    let both = [BonbonUpdater::token(), BonbonUpdater::metadata()];
    assert_eq!(both[0], BonbonUpdater { program_id: token_program(), update: Update::Token });
    assert_eq!(both[1], BonbonUpdater { program_id: metadata_program(), update: Update::Metadata });
    let initialize = token(
        vec![3],
        T::InitializeMint2 {
            decimals: 0,
            mint_authority: Address::new_from_array([1; 32]),
            freeze_authority: solana_program::program_option::COption::None,
        },
    );
    // without an updater for its program, an instruction changes nothing
    assert_eq!(update(&mut bonbon, &initialize, &[]), Ok(()));
    assert_eq!(update(&mut bonbon, &initialize, &both[1..]), Ok(()));
    assert_eq!(bonbon, Bonbon::default());
    assert_eq!(update(&mut bonbon, &initialize, &both), Ok(()));
    assert_eq!(bonbon.mint_key, key(3));
    let elsewhere = CompiledInstruction { program_id_index: 200, accounts: vec![], data: vec![] };
    assert_eq!(update(&mut bonbon, &elsewhere, &both), Err(ErrorCode::BadAccountKeyIndex));
    let opaque = CompiledInstruction { program_id_index: 0, accounts: vec![], data: vec![99] };
    assert_eq!(update(&mut bonbon, &opaque, &both), Err(ErrorCode::FailedInstructionDeserialization));
    let opaque = CompiledInstruction { program_id_index: 1, accounts: vec![], data: vec![99] };
    assert_eq!(update(&mut bonbon, &opaque, &both), Err(ErrorCode::FailedInstructionDeserialization));
    // the first updater for a program decides
    let swapped = [
        BonbonUpdater { program_id: token_program(), update: Update::Metadata },
        BonbonUpdater::token(),
    ];
    let burn = token(vec![3], T::Burn { amount: 1 });
    // as a payload of the metadata program, the burning changes nothing
    assert_eq!(update(&mut bonbon, &burn, &swapped), Ok(()));
    assert!(bonbon.transfers.is_empty());
    assert_eq!(update(&mut bonbon, &burn, &both), Ok(()));
    assert_eq!(bonbon.transfers.len(), 1);
}

#[test]
fn the_two_programs_through_their_own_functions() {
    let keys = table();
    let mut bonbon = Bonbon::default();
    let mut transient = vec![];
    let initialize = token(vec![6, 3, 8], T::InitializeAccount);
    assert_eq!(
        update_token_instruction(
            &mut bonbon,
            InstructionContext {
                instruction: &initialize,
                account_keys: &keys,
                owners: &[],
                instruction_index: at(9, 0),
                transient_metas: &mut transient,
            }
        ),
        Ok(())
    );
    assert_eq!(transient.len(), 1);
    bonbon.mint_key = key(3);
    let create = metadata(
        vec![2],
        P::CreateMetadataAccount(mpl_token_metadata::instruction::CreateMetadataAccountArgs {
            data: mpl_token_metadata::state::Data {
                name: "a".to_string(),
                symbol: "b".to_string(),
                uri: "c".to_string(),
                seller_fee_basis_points: 1,
                creators: None,
            },
            is_mutable: true,
        }),
    );
    assert_eq!(
        update_metadata_instruction(
            &mut bonbon,
            InstructionContext {
                instruction: &create,
                account_keys: &keys,
                owners: &[],
                instruction_index: at(9, 1),
                transient_metas: &mut transient,
            }
        ),
        Ok(())
    );
    assert_eq!(bonbon.metadata_key, derived(&key(3)));
    assert_eq!(bonbon.glazings[0].uri, "c");
    assert_eq!(transient.len(), 1);
    // the address derived from another mint does not do
    bonbon.mint_key = key(4);
    assert_eq!(
        update_metadata_instruction(
            &mut bonbon,
            InstructionContext {
                instruction: &create,
                account_keys: &keys,
                owners: &[],
                instruction_index: at(9, 2),
                transient_metas: &mut transient,
            }
        ),
        Err(ErrorCode::InvalidMetadataCreate)
    );
}

fn step(instruction: CompiledInstruction, slot: i64, block_index: i64, outer_index: i64) -> Step<CompiledInstruction> {
    Step {
        instruction,
        account_keys: table(),
        owners: vec![],
        instruction_index: InstructionIndex { slot, block_index, outer_index, inner_index: None },
    }
}

fn updaters() -> Vec<BonbonUpdater> {
    vec![BonbonUpdater::token(), BonbonUpdater::metadata()]
}

#[test]
fn a_record_without_metadata_is_not_given_out() {
    assert_eq!(assemble::<CompiledInstruction>(&[], &updaters()), Ok(None));
    let steps = vec![
        step(token(vec![6, 3, 8], T::InitializeAccount), 1, 0, 0),
        step(token(vec![3, 6, 9], T::MintTo { amount: 1 }), 1, 0, 1),
    ];
    assert_eq!(assemble(&steps, &updaters()), Ok(None));
    assert_eq!(assemble(&steps, &[]), Ok(None));
}

#[test]
fn initialised_accounts_are_known_within_their_transaction_only() {
    #[allow(deprecated)]
    let transfer = T::Transfer { amount: 1 };
    let closing = |slot, block_index| {
        vec![
            step(token(vec![6, 3, 8], T::InitializeAccount), 1, 0, 0),
            step(token(vec![6, 9, 9], T::CloseAccount), 1, 0, 1),
            step(token(vec![9, 6, 9], transfer.clone()), slot, block_index, 2),
        ]
    };
    // once the account is closed nobody is known to own it
    assert_eq!(assemble(&closing(1, 0), &updaters()), Err(ErrorCode::CouldNotFindTokenAccountOwner));
    // the owner that an account was initialised with is remembered across
    // transactions
    let steps = vec![
        step(token(vec![6, 3, 8], T::InitializeAccount), 1, 0, 0),
        step(token(vec![9, 6, 9], transfer.clone()), 1, 1, 0),
        step(token(vec![9, 6, 9], transfer.clone()), 2, 0, 0),
    ];
    assert_eq!(assemble(&steps, &updaters()), Ok(None));
}
