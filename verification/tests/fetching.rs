use bonbon::bonbon::{Bonbon, Collection, Creator, EditionStatus, Glazing, InstructionIndex, LimitedEdition};
use bonbon::config::Config;
use bonbon::fetch::{
    is_replayed, is_stored, mentions_tracked_program, parse_block_range, FetchPlan, FetchStep,
    CHUNK_SIZE,
};
use bonbon::ownership::{Ownership, Transfer};
use bonbon::partition::TransactionTokenMeta;
use bonbon::pubkey::Pubkey;
use bonbon::rows::{BonbonRow, CreatorRow, GlazingRow, LimitedEditionRow, TokenMetaRow, TransferRow};
use bonbon::transaction::{
    LoadedAddresses, Message, MessageHeader, Transaction, TransactionStatusMeta,
    TransactionWithStatusMeta, VersionedMessage, VersionedTransaction,
    VersionedTransactionWithStatusMeta,
};

fn key(n: u8) -> Pubkey {
    Pubkey { bytes: [n; 32] }
}

fn text(n: u8) -> String {
    bs58::encode([n; 32]).into_string()
}

#[test]
fn block_ranges() {
    assert_eq!(parse_block_range("5-9"), Some((5, 9)));
    assert_eq!(parse_block_range("0-0"), Some((0, 0)));
    assert_eq!(parse_block_range("007-0010"), Some((7, 10)));
    assert_eq!(parse_block_range("123456789-987654321"), Some((123456789, 987654321)));
    assert_eq!(
        parse_block_range("18446744073709551615-18446744073709551615"),
        Some((u64::MAX, u64::MAX))
    );
    assert_eq!(parse_block_range("0-18446744073709551616"), None);
    assert_eq!(parse_block_range("99999999999999999999-1"), None);
    assert_eq!(parse_block_range("9-5"), None);
    assert_eq!(parse_block_range(""), None);
    assert_eq!(parse_block_range("-"), None);
    assert_eq!(parse_block_range("5-"), None);
    assert_eq!(parse_block_range("-9"), None);
    assert_eq!(parse_block_range("59"), None);
    assert_eq!(parse_block_range("5-9-12"), None);
    assert_eq!(parse_block_range("5--9"), None);
    assert_eq!(parse_block_range(" 5-9"), None);
    assert_eq!(parse_block_range("5-9\n"), None);
    assert_eq!(parse_block_range("+5-9"), None);
    assert_eq!(parse_block_range("5-0x9"), None);
    assert_eq!(parse_block_range("a-b"), None);
    assert_eq!(parse_block_range("٥-٩"), None);
    assert_eq!(parse_block_range("5–9"), None);
    assert_eq!(parse_block_range("5-9é"), None);
}

#[test]
fn the_fetch_stage_asks_in_chunks() {
    assert_eq!(CHUNK_SIZE, 16);
    let plan = FetchPlan::new(100, 140);
    assert_eq!(plan, FetchPlan { chunk_start: Some(100), block_end: 140 });
    assert_eq!(plan.step(), FetchStep::ListBlocks { start: 100, limit: 16 });
    let plan = plan.listed(&[100, 101, 130]);
    assert_eq!(plan, FetchPlan { chunk_start: Some(131), block_end: 140 });
    assert_eq!(plan.step(), FetchStep::ListBlocks { start: 131, limit: 9 });
    // where no block is listed, nothing is left to ask for
    let done = plan.listed(&[]);
    assert_eq!(done, FetchPlan { chunk_start: Some(141), block_end: 140 });
    assert_eq!(done.step(), FetchStep::Finish);
    assert_eq!(plan.listed(&[139]).step(), FetchStep::Finish);
    assert_eq!(plan.listed(&[138]).step(), FetchStep::ListBlocks { start: 139, limit: 1 });
    assert_eq!(FetchPlan::new(7, 7).step(), FetchStep::Finish);
    assert_eq!(FetchPlan::new(8, 7).step(), FetchStep::Finish);
    assert_eq!(FetchPlan::new(0, 16).step(), FetchStep::ListBlocks { start: 0, limit: 16 });
    assert_eq!(FetchPlan::new(0, 15).step(), FetchStep::ListBlocks { start: 0, limit: 15 });
    assert_eq!(
        FetchPlan::new(0, u64::MAX).step(),
        FetchStep::ListBlocks { start: 0, limit: 16 }
    );
    let end = FetchPlan::new(0, u64::MAX).listed(&[u64::MAX]);
    assert_eq!(end.chunk_start, None);
    assert_eq!(end.step(), FetchStep::Finish);
    assert_eq!(FetchPlan::new(0, u64::MAX).listed(&[]).chunk_start, None);
    assert_eq!(FetchPlan::new(0, u64::MAX).listed(&[u64::MAX - 1]).step(), FetchStep::Finish);
}

fn transaction(account_keys: Vec<Pubkey>, loaded: Vec<Pubkey>, succeeded: bool) -> TransactionWithStatusMeta {
    TransactionWithStatusMeta::Complete(VersionedTransactionWithStatusMeta {
        transaction: VersionedTransaction {
            signatures: vec![],
            message: VersionedMessage::Legacy(message(account_keys)),
        },
        meta: TransactionStatusMeta {
            succeeded,
            fee: 0,
            pre_balances: vec![],
            post_balances: vec![],
            inner_instructions: None,
            log_messages: None,
            pre_token_balances: None,
            post_token_balances: None,
            rewards: None,
            loaded_addresses: LoadedAddresses { writable: vec![], readonly: loaded },
        },
    })
}

fn message(account_keys: Vec<Pubkey>) -> Message {
    Message {
        header: MessageHeader {
            num_required_signatures: 1,
            num_readonly_signed_accounts: 0,
            num_readonly_unsigned_accounts: 0,
        },
        account_keys,
        recent_blockhash: bonbon::transaction::Hash { bytes: [0; 32] },
        instructions: vec![],
    }
}

#[test]
fn transactions_that_are_stored() {
    let token = Pubkey { bytes: spl_token::id().to_bytes() };
    let metadata = Pubkey { bytes: mpl_token_metadata::id().to_bytes() };
    assert!(!mentions_tracked_program(&[]));
    assert!(!mentions_tracked_program(&[key(1), key(2)]));
    assert!(mentions_tracked_program(&[key(1), token]));
    assert!(mentions_tracked_program(&[metadata, key(2)]));
    assert!(is_stored(&transaction(vec![key(1), token], vec![], true)));
    assert!(is_stored(&transaction(vec![key(1)], vec![metadata], true)));
    assert!(!is_stored(&transaction(vec![key(1)], vec![key(2)], true)));
    assert!(!is_stored(&transaction(vec![key(1), token], vec![], false)));
    assert!(is_replayed(&transaction(vec![], vec![], true)));
    assert!(!is_replayed(&transaction(vec![], vec![], false)));
    let missing = |keys| TransactionWithStatusMeta::MissingMetadata(Transaction { signatures: vec![], message: message(keys) });
    assert!(is_stored(&missing(vec![token])));
    assert!(!is_stored(&missing(vec![key(3)])));
    assert!(is_replayed(&missing(vec![])));
    assert_eq!(transaction(vec![key(1)], vec![key(2)], true).account_keys(), vec![key(1), key(2)]);
    assert_eq!(missing(vec![key(3)]).account_keys(), vec![key(3)]);
    assert!(missing(vec![key(3)]).get_status_meta().is_none());
    assert!(transaction(vec![], vec![], true).get_status_meta().is_some());
}

#[test]
fn the_settings() {
    assert_eq!(Config::new(None, None), None);
    assert_eq!(Config::new(None, Some("x.log".to_string())), None);
    assert_eq!(
        Config::new(Some("host=db".to_string()), None),
        Some(Config { psql_config: "host=db".to_string(), log_file: "bonbon.log".to_string() })
    );
    assert_eq!(
        Config::new(Some("host=db".to_string()), Some("x.log".to_string())),
        Some(Config { psql_config: "host=db".to_string(), log_file: "x.log".to_string() })
    );
}

#[test]
fn keys_as_text() {
    assert_eq!(key(0).to_text(), "11111111111111111111111111111111");
    assert_eq!(
        Pubkey { bytes: spl_token::id().to_bytes() }.to_text(),
        "TokenkegQfeZyiNwAJbNbGKPFXCWuBvf9Ss623VQ5DA"
    );
    assert_eq!(
        Pubkey { bytes: mpl_token_metadata::id().to_bytes() }.to_text(),
        "metaqbxxUerdq28cj1RbAWkYQm3ybzjb6a8bt518x1s"
    );
    assert_eq!(key(9).to_vec(), vec![9; 32]);
    assert_eq!(Pubkey::from_slice(&[9; 32]), Some(key(9)));
    assert_eq!(Pubkey::from_slice(&[9; 31]), None);
    assert_eq!(Pubkey::from_slice(&[9; 33]), None);
    assert_eq!(Pubkey::new_from_array([9; 32]), key(9));
    let mut different = key(9);
    different.bytes[31] = 8;
    assert!(different != key(9));
    different.bytes[31] = 9;
    assert!(different == key(9));
}

fn creator(n: u8) -> Creator {
    Creator { address: key(n), verified: n % 2 == 0, share: n as i16 }
}

fn creator_row(n: u8) -> Option<CreatorRow> {
    Some(CreatorRow { address: text(n), verified: n % 2 == 0, share: n as i16 })
}

#[test]
fn the_rows_of_a_record() {
    let index = InstructionIndex { slot: 4, block_index: 3, outer_index: 2, inner_index: Some(1) };
    let mut bonbon = Bonbon::default();
    bonbon.mint_key = key(1);
    bonbon.metadata_key = key(2);
    bonbon.mint_authority = key(3);
    assert_eq!(
        bonbon.row(),
        BonbonRow {
            metadata_key: text(2),
            mint_key: text(1),
            mint_authority: text(3),
            current_owner_owner: None,
            current_owner_account: None,
            edition_status: EditionStatus::NoEdition,
            limited_edition: None,
        }
    );
    bonbon.apply_ownership(Some(Ownership { owner: key(4), account: key(5) }), 7);
    bonbon.apply_ownership(None, 8);
    bonbon.apply_ownership(Some(Ownership { owner: key(6), account: key(7) }), 9);
    bonbon.edition_status = EditionStatus::Limited;
    bonbon.limited_edition =
        Some(LimitedEdition { master_key: key(8), edition_num: Some(12), instruction_index: index });
    assert_eq!(
        bonbon.row(),
        BonbonRow {
            metadata_key: text(2),
            mint_key: text(1),
            mint_authority: text(3),
            current_owner_owner: Some(text(6)),
            current_owner_account: Some(text(7)),
            edition_status: EditionStatus::Limited,
            limited_edition: Some(LimitedEditionRow {
                master_key: text(8),
                edition_num: Some(12),
                instruction_index: index,
            }),
        }
    );
    assert_eq!(
        bonbon.transfer_rows(),
        vec![
            TransferRow {
                mint_key: text(1),
                slot: 7,
                start_owner: None,
                start_account: None,
                end_owner: Some(text(4)),
                end_account: Some(text(5)),
            },
            TransferRow {
                mint_key: text(1),
                slot: 8,
                start_owner: Some(text(4)),
                start_account: Some(text(5)),
                end_owner: None,
                end_account: None,
            },
            TransferRow {
                mint_key: text(1),
                slot: 9,
                start_owner: None,
                start_account: None,
                end_owner: Some(text(6)),
                end_account: Some(text(7)),
            },
        ]
    );
    assert_eq!(bonbon.transfers[1].row(&key(1)), bonbon.transfer_rows().remove(1));
    assert_eq!(bonbon.glazing_rows(), vec![]);
    bonbon.push_glazing(Glazing {
        name: "n".to_string(),
        symbol: "s".to_string(),
        uri: "u".to_string(),
        creators: (10..17).map(creator).collect(),
        collection: Some(Collection { address: key(9), verified: true }),
        instruction_index: index,
    });
    bonbon.push_glazing(Glazing {
        name: "n".to_string(),
        symbol: "s".to_string(),
        uri: "v".to_string(),
        creators: vec![creator(20), creator(21)],
        collection: None,
        instruction_index: InstructionIndex { inner_index: None, ..index },
    });
    assert_eq!(
        bonbon.glazing_rows(),
        vec![
            GlazingRow {
                metadata_key: text(2),
                uri: "u".to_string(),
                collection_address: Some(text(9)),
                collection_verified: Some(true),
                creator0: creator_row(10),
                creator1: creator_row(11),
                creator2: creator_row(12),
                creator3: creator_row(13),
                creator4: creator_row(14),
                slot: 4,
                block_index: 3,
                outer_index: 2,
                inner_index: Some(1),
            },
            GlazingRow {
                metadata_key: text(2),
                uri: "v".to_string(),
                collection_address: None,
                collection_verified: None,
                creator0: creator_row(20),
                creator1: creator_row(21),
                creator2: None,
                creator3: None,
                creator4: None,
                slot: 4,
                block_index: 3,
                outer_index: 2,
                inner_index: None,
            },
        ]
    );
    assert_eq!(bonbon.glazings[1].row(&key(2)), bonbon.glazing_rows().remove(1));
}

#[test]
fn the_row_of_an_entry() {
    let meta = TransactionTokenMeta {
        account_index: 200,
        decimals: 0,
        pre_amount: Some("1".to_string()),
        post_amount: None,
        mint_key: key(1),
        owner_key: Some(key(2)),
    };
    assert_eq!(meta.row(), TokenMetaRow { account_index: 200, mint_key: key(1), owner_key: Some(key(2)) });
}
