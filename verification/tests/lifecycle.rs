use bonbon::assemble::{
    assemble, BonbonUpdater, ErrorCode, Step, TransactionTokenOwnerMeta,
};
use bonbon::bonbon::{Bonbon, Collection, Creator, EditionStatus, InstructionIndex, LimitedEdition};
use bonbon::instruction::CompiledInstruction;
use bonbon::ownership::{Ownership, Transfer};
use bonbon::partition::{
    partition_transaction, InstructionPartitioner, Reason,
};
use bonbon::pubkey::Pubkey;
use bonbon::transaction::{
    LoadedAddresses, Message, MessageHeader, TransactionStatusMeta, TransactionTokenBalance,
    TransactionWithStatusMeta, UiTokenAmount, VersionedMessage, VersionedTransaction,
    VersionedTransactionWithStatusMeta,
};
use borsh::BorshSerialize;
use mpl_token_metadata::instruction::{
    CreateMasterEditionArgs, CreateMetadataAccountArgsV2, MetadataInstruction,
    MintNewEditionFromMasterEditionViaTokenArgs,
};
use mpl_token_metadata::state::{Creator as ProgramCreator, DataV2};
use solana_program::program_option::COption;
use solana_program::pubkey::Pubkey as Address;
use spl_token_2022::instruction::{AuthorityType, TokenInstruction};

const SLOT: i64 = 1234;

fn key(n: u8) -> Pubkey {
    Pubkey { bytes: [n; 32] }
}

fn address(key: &Pubkey) -> Address {
    Address::new_from_array(key.bytes)
}

fn derived(mint: &Pubkey) -> Pubkey {
    Pubkey { bytes: mpl_token_metadata::pda::find_metadata_account(&address(mint)).0.to_bytes() }
}

fn token_program() -> Pubkey {
    Pubkey { bytes: spl_token::id().to_bytes() }
}

fn metadata_program() -> Pubkey {
    Pubkey { bytes: mpl_token_metadata::id().to_bytes() }
}

fn mint() -> Pubkey {
    key(10)
}

fn account() -> Pubkey {
    key(11)
}

fn owner() -> Pubkey {
    key(12)
}

fn authority() -> Pubkey {
    key(13)
}

fn creator() -> Pubkey {
    key(14)
}

fn second_account() -> Pubkey {
    key(15)
}

fn second_owner() -> Pubkey {
    key(16)
}

fn third_owner() -> Pubkey {
    key(17)
}

fn second_mint() -> Pubkey {
    key(18)
}

/// The account table of every transaction below.
fn table() -> Vec<Pubkey> {
    vec![
        token_program(),     // 0
        metadata_program(),  // 1
        mint(),              // 2
        account(),           // 3
        owner(),             // 4
        authority(),         // 5
        derived(&mint()),    // 6
        creator(),           // 7
        second_account(),    // 8
        second_mint(),       // 9
        derived(&second_mint()), // 10
        key(99),             // 11
    ]
}

fn token(accounts: Vec<u8>, instruction: TokenInstruction) -> CompiledInstruction {
    CompiledInstruction { program_id_index: 0, accounts, data: instruction.pack() }
}

fn metadata(accounts: Vec<u8>, instruction: MetadataInstruction) -> CompiledInstruction {
    CompiledInstruction { program_id_index: 1, accounts, data: instruction.try_to_vec().unwrap() }
}

fn at(outer_index: i64) -> InstructionIndex {
    InstructionIndex { slot: SLOT, block_index: 0, outer_index, inner_index: None }
}

fn step(instruction: CompiledInstruction, outer_index: i64) -> Step<CompiledInstruction> {
    Step {
        instruction,
        account_keys: table(),
        owners: vec![],
        instruction_index: at(outer_index),
    }
}

fn updaters() -> Vec<BonbonUpdater> {
    vec![BonbonUpdater::token(), BonbonUpdater::metadata()]
}

fn payload() -> DataV2 {
    DataV2 {
        name: "first".to_string(),
        symbol: "FST".to_string(),
        uri: "u1".to_string(),
        seller_fee_basis_points: 0,
        creators: Some(vec![ProgramCreator { address: address(&creator()), verified: false, share: 100 }]),
        collection: None,
        uses: None,
    }
}

/// The simple mint: the mint and an account of it are initialised, the token
/// is minted to the account, and its metadata is created.
fn simple_mint() -> Vec<Step<CompiledInstruction>> {
    vec![
        step(
            token(
                vec![2, 11],
                TokenInstruction::InitializeMint {
                    decimals: 0,
                    mint_authority: address(&authority()),
                    freeze_authority: COption::None,
                },
            ),
            0,
        ),
        step(token(vec![3, 2, 4, 11], TokenInstruction::InitializeAccount), 1),
        step(token(vec![2, 3, 5], TokenInstruction::MintTo { amount: 1 }), 2),
        step(
            metadata(
                vec![6, 2, 5, 5, 5, 11, 11],
                MetadataInstruction::CreateMetadataAccountV2(CreateMetadataAccountArgsV2 {
                    data: payload(),
                    is_mutable: true,
                }),
            ),
            3,
        ),
    ]
}

fn assembled(steps: Vec<Step<CompiledInstruction>>) -> Bonbon {
    assemble(&steps, &updaters()).unwrap().unwrap()
}

fn held(owner: Pubkey, account: Pubkey) -> Option<Ownership> {
    Some(Ownership { owner, account })
}

#[test]
fn simple_nft_mint() {
    let bonbon = assembled(simple_mint());
    assert_eq!(bonbon.mint_key, mint());
    assert_eq!(bonbon.metadata_key, derived(&mint()));
    assert_eq!(bonbon.mint_authority, authority());
    assert_eq!(bonbon.edition_status, EditionStatus::NoEdition);
    assert_eq!(bonbon.limited_edition, None);
    assert_eq!(bonbon.glazings.len(), 1);
    assert_eq!(bonbon.glazings[0].name, "first");
    assert_eq!(bonbon.glazings[0].symbol, "FST");
    assert_eq!(bonbon.glazings[0].uri, "u1");
    assert_eq!(
        bonbon.glazings[0].creators,
        vec![Creator { address: creator(), verified: false, share: 100 }]
    );
    assert_eq!(bonbon.glazings[0].collection, None);
    assert_eq!(bonbon.glazings[0].instruction_index, at(3));
    assert_eq!(
        bonbon.transfers,
        vec![Transfer { slot: SLOT, start: None, end: held(owner(), account()) }]
    );
    assert_eq!(bonbon.current_owner, held(owner(), account()));
}

#[test]
fn creator_verification() {
    let mut steps = simple_mint();
    steps.push(Step {
        instruction: metadata(vec![6, 7], MetadataInstruction::SignMetadata),
        account_keys: table(),
        owners: vec![],
        instruction_index: InstructionIndex {
            slot: SLOT,
            block_index: 0,
            outer_index: 4,
            inner_index: None,
        },
    });
    let before = assembled(simple_mint());
    let bonbon = assembled(steps);
    assert_eq!(bonbon.glazings.len(), 2);
    assert!(bonbon.glazings[1].creators[0].verified);
    assert_eq!(bonbon.glazings[1].creators[0].address, creator());
    assert_eq!(bonbon.glazings[1].creators[0].share, 100);
    assert_eq!(bonbon.glazings[1].uri, "u1");
    assert_eq!(bonbon.glazings[1].instruction_index, at(4));
    assert_eq!(bonbon.glazings[0], before.glazings[0]);
    assert!(!bonbon.glazings[0].creators[0].verified);
}

#[test]
fn creator_verification_at_the_place_of_the_instruction() {
    let mut bonbon = assembled(simple_mint());
    let place = InstructionIndex { slot: SLOT, block_index: 0, outer_index: 1, inner_index: None };
    bonbon.apply_creator_verification(creator(), true, place);
    assert_eq!(bonbon.glazings.len(), 2);
    assert!(bonbon.glazings[1].creators[0].verified);
    assert_eq!(bonbon.glazings[1].instruction_index, place);
}

#[test]
fn master_and_limited_edition() {
    let mut steps = simple_mint();
    steps.push(step(
        metadata(
            vec![11, 2, 5, 5, 5, 6, 0, 11, 11],
            MetadataInstruction::CreateMasterEditionV3(CreateMasterEditionArgs {
                max_supply: Some(10),
            }),
        ),
        4,
    ));
    let master = assembled(steps);
    assert_eq!(master.edition_status, EditionStatus::Master);
    assert_eq!(master.limited_edition, None);

    let minting = metadata(
        vec![10, 11, 11, 9, 11, 11, 11, 11, 11, 11, 2, 0, 11, 11],
        MetadataInstruction::MintNewEditionFromMasterEditionViaToken(
            MintNewEditionFromMasterEditionViaTokenArgs { edition: 7 },
        ),
    );
    let limited = assembled(vec![
        step(
            token(
                vec![9, 11],
                TokenInstruction::InitializeMint {
                    decimals: 0,
                    mint_authority: address(&authority()),
                    freeze_authority: COption::None,
                },
            ),
            0,
        ),
        step(minting, 1),
    ]);
    assert_eq!(limited.mint_key, second_mint());
    assert_eq!(limited.metadata_key, derived(&second_mint()));
    assert_eq!(limited.edition_status, EditionStatus::Limited);
    assert_eq!(
        limited.limited_edition,
        Some(LimitedEdition { master_key: mint(), edition_num: Some(7), instruction_index: at(1) })
    );
}

#[test]
fn transfer_then_burn() {
    let mut steps = simple_mint();
    #[allow(deprecated)]
    let transfer = token(vec![3, 8, 4], TokenInstruction::Transfer { amount: 1 });
    steps.push(Step {
        instruction: transfer,
        account_keys: table(),
        owners: vec![TransactionTokenOwnerMeta { account_index: 8, owner_key: Some(second_owner()) }],
        instruction_index: at(4),
    });
    steps.push(step(token(vec![8, 2, 16], TokenInstruction::Burn { amount: 1 }), 5));
    let bonbon = assembled(steps);
    assert_eq!(
        bonbon.transfers,
        vec![
            Transfer { slot: SLOT, start: None, end: held(owner(), account()) },
            Transfer {
                slot: SLOT,
                start: held(owner(), account()),
                end: held(second_owner(), second_account()),
            },
            Transfer { slot: SLOT, start: held(second_owner(), second_account()), end: None },
        ]
    );
    assert_eq!(bonbon.current_owner, None);
}

#[test]
fn set_authority_account_owner() {
    let mut steps = simple_mint();
    steps.push(step(
        token(
            vec![3, 4],
            TokenInstruction::SetAuthority {
                authority_type: AuthorityType::AccountOwner,
                new_authority: COption::Some(address(&third_owner())),
            },
        ),
        4,
    ));
    let bonbon = assembled(steps);
    assert_eq!(bonbon.transfers.len(), 2);
    assert_eq!(
        bonbon.transfers[1],
        Transfer {
            slot: SLOT,
            start: held(owner(), account()),
            end: held(third_owner(), account()),
        }
    );
    assert_eq!(bonbon.current_owner, held(third_owner(), account()));
}

fn balance(account_index: u8, mint: &Pubkey, owner: &Pubkey, amount: &str) -> TransactionTokenBalance {
    TransactionTokenBalance {
        account_index,
        mint: bs58::encode(mint.bytes).into_string(),
        ui_token_amount: UiTokenAmount {
            decimals: 0,
            amount: amount.to_string(),
            ui_amount_string: amount.to_string(),
        },
        owner: bs58::encode(owner.bytes).into_string(),
    }
}

fn transaction(
    instructions: Vec<CompiledInstruction>,
    pre: Vec<TransactionTokenBalance>,
    post: Vec<TransactionTokenBalance>,
) -> TransactionWithStatusMeta {
    TransactionWithStatusMeta::Complete(VersionedTransactionWithStatusMeta {
        transaction: VersionedTransaction {
            signatures: vec![],
            message: VersionedMessage::Legacy(Message {
                header: MessageHeader {
                    num_required_signatures: 1,
                    num_readonly_signed_accounts: 0,
                    num_readonly_unsigned_accounts: 0,
                },
                account_keys: table(),
                recent_blockhash: bonbon::transaction::Hash { bytes: [0; 32] },
                instructions,
            }),
        },
        meta: TransactionStatusMeta {
            succeeded: true,
            fee: 5000,
            pre_balances: vec![],
            post_balances: vec![],
            inner_instructions: None,
            log_messages: None,
            pre_token_balances: Some(pre),
            post_token_balances: Some(post),
            rewards: None,
            loaded_addresses: LoadedAddresses { writable: vec![], readonly: vec![] },
        },
    })
}

#[test]
fn amount_over_one_is_ignored_by_partitioner() {
    let moving = token(
        vec![3, 2, 8, 4],
        TokenInstruction::TransferChecked { amount: 2, decimals: 0 },
    );
    let partitions = partition_transaction(
        transaction(
            vec![moving.clone()],
            vec![balance(3, &mint(), &owner(), "1")],
            vec![balance(3, &mint(), &owner(), "0")],
        ),
        &[InstructionPartitioner::token(), InstructionPartitioner::metadata()],
    )
    .unwrap();
    assert!(partitions.partitioned.is_empty());
    assert_eq!(partitions.other.len(), 1);
    assert_eq!(partitions.other[0].reason, Reason::PartitionerReturnedNone);
    assert_eq!(partitions.other[0].instruction, moving);
    assert_eq!(partitions.other[0].program_key, token_program());
    assert_eq!(partitions.other[0].outer_index, 0);
    assert_eq!(partitions.other[0].inner_index, None);
}

#[test]
fn collection_of_a_fresh_record() {
    let mut bonbon = Bonbon::default();
    bonbon.apply_collection_verification(key(40), true, at(9));
    assert_eq!(bonbon.glazings.len(), 1);
    assert_eq!(bonbon.glazings[0].collection, Some(Collection { address: key(40), verified: true }));
    assert_eq!(bonbon.glazings[0].uri, "");
    assert!(bonbon.glazings[0].creators.is_empty());
}

#[test]
fn a_failing_step_ends_the_assembly() {
    let mut steps = simple_mint();
    steps.push(step(metadata(vec![7, 7], MetadataInstruction::SignMetadata), 4));
    steps.push(step(token(vec![8, 2, 16], TokenInstruction::Burn { amount: 1 }), 5));
    assert_eq!(assemble(&steps, &updaters()), Err(ErrorCode::InvalidMetadataVerifyOperation));
}
