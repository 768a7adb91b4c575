use bonbon::assemble::{assemble, BonbonUpdater, Step, TransactionTokenOwnerMeta};
use bonbon::bonbon::{Bonbon, EditionStatus, InstructionIndex};
use bonbon::instruction::CompiledInstruction;
use bonbon::partition::{partition_transaction, ErrorCode, InstructionPartitioner};
use bonbon::pubkey::Pubkey;
use bonbon::transaction::{
    LoadedAddresses, Message, MessageHeader, TransactionStatusMeta, TransactionWithStatusMeta,
    VersionedMessage, VersionedTransaction, VersionedTransactionWithStatusMeta,
};
use borsh::BorshSerialize;
use mpl_token_metadata::instruction::{
    CreateMasterEditionArgs, CreateMetadataAccountArgsV3, MetadataInstruction as P,
    UpdateMetadataAccountArgsV2,
};
use mpl_token_metadata::state::{Collection, Creator, DataV2};
use solana_program::program_option::COption;
use solana_program::pubkey::Pubkey as Address;
use spl_token_2022::instruction::{AuthorityType, TokenInstruction as T};

fn key(n: u8) -> Pubkey {
    Pubkey { bytes: [n; 32] }
}

fn address(n: u8) -> Address {
    Address::new_from_array([n; 32])
}

fn derived(mint: &Pubkey) -> Pubkey {
    let mint = Address::new_from_array(mint.bytes);
    Pubkey { bytes: mpl_token_metadata::pda::find_metadata_account(&mint).0.to_bytes() }
}

fn table() -> Vec<Pubkey> {
    let mut keys = vec![
        Pubkey { bytes: spl_token::id().to_bytes() },
        Pubkey { bytes: mpl_token_metadata::id().to_bytes() },
        derived(&key(3)),
    ];
    for n in 3..16 {
        keys.push(key(n));
    }
    keys
}

fn token(accounts: Vec<u8>, instruction: T) -> CompiledInstruction {
    CompiledInstruction { program_id_index: 0, accounts, data: instruction.pack() }
}

fn metadata(accounts: Vec<u8>, instruction: P) -> CompiledInstruction {
    CompiledInstruction { program_id_index: 1, accounts, data: instruction.try_to_vec().unwrap() }
}

fn payload(uri: &str) -> DataV2 {
    DataV2 {
        name: "n".to_string(),
        symbol: "s".to_string(),
        uri: uri.to_string(),
        seller_fee_basis_points: 0,
        creators: Some(vec![Creator { address: address(7), verified: false, share: 100 }]),
        collection: Some(Collection { verified: false, key: address(8) }),
        uses: None,
    }
}

/// The life of one token over four transactions in three slots.
fn stream() -> Vec<Step<CompiledInstruction>> {
    let mut steps = vec![];
    let mut push = |instruction, slot, block_index, outer_index, inner_index, owners: Vec<(u8, u8)>| {
        steps.push(Step {
            instruction,
            account_keys: table(),
            owners: owners
                .into_iter()
                .map(|(account_index, owner)| TransactionTokenOwnerMeta {
                    account_index,
                    owner_key: Some(key(owner)),
                })
                .collect(),
            instruction_index: InstructionIndex { slot, block_index, outer_index, inner_index },
        });
    };
    let initialize = T::InitializeMint {
        decimals: 0,
        mint_authority: address(5),
        freeze_authority: COption::None,
    };
    push(token(vec![3, 15], initialize), 10, 0, 0, Some(0), vec![]);
    push(token(vec![4, 3, 6, 15], T::InitializeAccount), 10, 0, 0, Some(1), vec![]);
    push(token(vec![3, 4, 5], T::MintTo { amount: 1 }), 10, 0, 0, Some(2), vec![]);
    push(
        metadata(
            vec![2, 3, 5, 5, 5, 15, 15],
            P::CreateMetadataAccountV3(CreateMetadataAccountArgsV3 {
                data: payload("u1"),
                is_mutable: true,
                collection_details: None,
            }),
        ),
        10,
        0,
        0,
        None,
        vec![],
    );
    push(
        metadata(
            vec![15, 3, 5, 5, 5, 2, 0, 15, 15],
            P::CreateMasterEditionV3(CreateMasterEditionArgs { max_supply: Some(0) }),
        ),
        10,
        0,
        1,
        None,
        vec![],
    );
    push(metadata(vec![2, 7], P::SignMetadata), 10, 4, 0, None, vec![]);
    push(metadata(vec![2, 5, 5, 8, 15, 15], P::VerifyCollection), 10, 4, 1, Some(0), vec![]);
    push(
        metadata(
            vec![2, 5],
            P::UpdateMetadataAccountV2(UpdateMetadataAccountArgsV2 {
                data: Some(payload("u2")),
                update_authority: None,
                primary_sale_happened: None,
                is_mutable: None,
            }),
        ),
        10,
        4,
        1,
        None,
        vec![],
    );
    #[allow(deprecated)]
    let transfer = T::Transfer { amount: 1 };
    push(token(vec![4, 9, 6], transfer), 12, 0, 3, None, vec![(9, 10)]);
    push(
        token(
            vec![9, 10],
            T::SetAuthority {
                authority_type: AuthorityType::AccountOwner,
                new_authority: COption::Some(address(11)),
            },
        ),
        12,
        0,
        4,
        None,
        vec![],
    );
    push(token(vec![9, 3, 11], T::Burn { amount: 1 }), 15, 2, 0, None, vec![]);
    steps
}

fn updaters() -> Vec<BonbonUpdater> {
    vec![BonbonUpdater::token(), BonbonUpdater::metadata()]
}

fn assembled_from(steps: &[Step<CompiledInstruction>]) -> Bonbon {
    assemble(steps, &updaters()).unwrap().unwrap()
}

#[test]
fn the_metadata_key_is_derived_from_the_mint() {
    let bonbon = assembled_from(&stream());
    assert_eq!(bonbon.mint_key, key(3));
    assert_eq!(bonbon.metadata_key, derived(&bonbon.mint_key));
    assert_eq!(
        bonbon.metadata_key.bytes,
        mpl_token_metadata::pda::find_metadata_account(&address(3)).0.to_bytes()
    );
}

#[test]
fn revisions_and_transfers_come_in_ledger_order() {
    let steps = stream();
    for pair in steps.windows(2) {
        assert!(pair[0].instruction_index.is_before(&pair[1].instruction_index));
    }
    let bonbon = assembled_from(&steps);
    assert_eq!(bonbon.glazings.len(), 4);
    for pair in bonbon.glazings.windows(2) {
        assert!(pair[0].instruction_index.is_before(&pair[1].instruction_index));
    }
    let places: Vec<_> = bonbon
        .glazings
        .iter()
        .map(|g| (g.instruction_index.block_index, g.instruction_index.outer_index, g.instruction_index.inner_index))
        .collect();
    assert_eq!(places, vec![(0, 0, None), (4, 0, None), (4, 1, Some(0)), (4, 1, None)]);
    let slots: Vec<i64> = bonbon.transfers.iter().map(|t| t.slot).collect();
    assert_eq!(slots, vec![10, 12, 12, 15]);
    for pair in bonbon.transfers.windows(2) {
        assert!(pair[0].slot <= pair[1].slot);
    }
}

#[test]
fn every_transfer_starts_where_the_one_before_ended() {
    let steps = stream();
    for n in 1..=steps.len() {
        let bonbon = match assemble(&steps[..n], &updaters()).unwrap() {
            Some(bonbon) => bonbon,
            None => continue,
        };
        for pair in bonbon.transfers.windows(2) {
            assert_eq!(pair[1].start, pair[0].end);
        }
        assert_eq!(bonbon.transfers.first().and_then(|t| t.start), None);
        assert_eq!(bonbon.current_owner, bonbon.transfers.last().and_then(|t| t.end));
    }
    let bonbon = assembled_from(&steps);
    assert_eq!(bonbon.transfers.len(), 4);
    assert_eq!(bonbon.current_owner, None);
}

#[test]
fn an_edition_stays_what_it_is() {
    let steps = stream();
    let mut seen = EditionStatus::NoEdition;
    for n in 4..=steps.len() {
        let status = assembled_from(&steps[..n]).edition_status;
        if seen != EditionStatus::NoEdition {
            assert_eq!(status, seen);
        }
        seen = status;
    }
    assert_eq!(seen, EditionStatus::Master);
}

#[test]
fn assembling_twice_gives_the_same() {
    let first = assemble(&stream(), &updaters());
    let second = assemble(&stream(), &updaters());
    assert_eq!(first, second);
    let first = first.unwrap().unwrap();
    let second = second.unwrap().unwrap();
    assert_eq!(first.row(), second.row());
    assert_eq!(first.glazing_rows(), second.glazing_rows());
    assert_eq!(first.transfer_rows(), second.transfer_rows());
}

fn transaction(instructions: Vec<CompiledInstruction>) -> TransactionWithStatusMeta {
    TransactionWithStatusMeta::Complete(VersionedTransactionWithStatusMeta {
        transaction: VersionedTransaction {
            signatures: vec![],
            message: VersionedMessage::Legacy(Message {
                header: MessageHeader {
                    num_required_signatures: 1,
                    num_readonly_signed_accounts: 0,
                    num_readonly_unsigned_accounts: 0,
                },
                account_keys: table(),
                recent_blockhash: bonbon::transaction::Hash { bytes: [0; 32] },
                instructions,
            }),
        },
        meta: TransactionStatusMeta {
            succeeded: true,
            fee: 0,
            pre_balances: vec![],
            post_balances: vec![],
            inner_instructions: None,
            log_messages: None,
            pre_token_balances: None,
            post_token_balances: None,
            rewards: None,
            loaded_addresses: LoadedAddresses { writable: vec![], readonly: vec![] },
        },
    })
}

#[test]
fn no_initialised_account_is_left_behind() {
    let partitioners = [InstructionPartitioner::token(), InstructionPartitioner::metadata()];
    let opening = |place: u8| token(vec![place, 3, 6, 15], T::InitializeAccount);
    let closing = |place: u8| token(vec![place, 6, 6], T::CloseAccount);
    for (instructions, left) in [
        (vec![], 0),
        (vec![opening(4)], 1),
        (vec![opening(4), closing(4)], 0),
        (vec![opening(4), opening(9), closing(4)], 1),
        (vec![opening(4), opening(9), closing(9), closing(4)], 0),
        (vec![opening(4), closing(9)], 1),
        (vec![closing(4), opening(4)], 1),
    ] {
        let partitioned = partition_transaction(transaction(instructions), &partitioners);
        if left == 0 {
            assert!(partitioned.is_ok());
        } else {
            assert_eq!(partitioned, Err(ErrorCode::FailedTransientTokenAccountMatching));
        }
    }
}
