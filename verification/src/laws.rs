//! What holds of everything that the partitioner and the assembler give
//! out.

use vstd::prelude::*;
use crate::assemble::{
    account_of, assembled, assembled_view, assembly, bonbon_update, collection_verified, creator_verified,
    metadata_created, metadata_transition, metadata_updated, token_transition,
    updater_for, BonbonUpdater, Cocoa, ErrorCode, Step, TransactionTokenOwnerMeta,
    Update,
};
use crate::bonbon::{
    lemma_ledger_order, Bonbon, BonbonView, EditionStatus, GlazingView, InstructionIndex,
};
use crate::partition::{
    partitions_view, progress_of, transaction_partition, InstructionPartitioner, Partitions,
};
use crate::rows::{bonbon_row_of, glazing_row_of, transfer_row_of};
use crate::transaction::TransactionWithStatusMeta;
use crate::instruction::{MetadataInstructionView, TokenInstruction};
use crate::pubkey::Pubkey;
use crate::trusted::metadata_address;

verus! {

/// Chain consistency: no rule of either program breaks the chain of
/// transfers. Each transfer starts where the one before it ended, and the
/// current holder is where the last one ended.
pub proof fn law_update_keeps_chain<T: Cocoa>(
    bonbon: BonbonView,
    transient_metas: Seq<TransactionTokenOwnerMeta>,
    instruction: &T,
    account_keys: Seq<Pubkey>,
    owners: Seq<TransactionTokenOwnerMeta>,
    instruction_index: InstructionIndex,
    updaters: Seq<BonbonUpdater>,
)
    requires
        bonbon.chain_consistent(),
    ensures
        bonbon_update(
            bonbon,
            transient_metas,
            instruction,
            account_keys,
            owners,
            instruction_index,
            updaters,
        ).bonbon.chain_consistent(),
{
    let after = bonbon_update(
        bonbon,
        transient_metas,
        instruction,
        account_keys,
        owners,
        instruction_index,
        updaters,
    ).bonbon;
    lemma_update_touches_little(
        bonbon,
        transient_metas,
        instruction,
        account_keys,
        owners,
        instruction_index,
        updaters,
    );
    if after.transfers != bonbon.transfers {
        let last = after.transfers.last();
        assert(after.transfers.drop_last() == bonbon.transfers);
        assert forall|i: int| 0 <= i < after.transfers.len() - 1 implies (
        #[trigger] after.transfers[i + 1]).start == after.transfers[i].end by {
            if i + 1 < bonbon.transfers.len() {
                assert(after.transfers[i + 1] == bonbon.transfers[i + 1]);
                assert(after.transfers[i] == bonbon.transfers[i]);
            } else {
                assert(after.transfers[i] == bonbon.transfers.last());
            }
        }
    }
}

/// What one update may do to the transfers and revisions of a record: it
/// leaves the transfers as they are or appends one, in the slot of the
/// instruction, from the holder before to the holder after; and it leaves the
/// revisions as they are or appends one, at the place of the instruction.
pub open spec fn small_step(before: BonbonView, after: BonbonView, instruction_index: InstructionIndex) -> bool {
    &&& (after.transfers == before.transfers && after.current_owner == before.current_owner) || (
    after.transfers.len() == before.transfers.len() + 1 && after.transfers.drop_last()
        == before.transfers && after.transfers.last().slot == instruction_index.slot
        && after.transfers.last().start == before.current_owner && after.transfers.last().end
        == after.current_owner)
    &&& after.glazings == before.glazings || (after.glazings.len() == before.glazings.len() + 1
        && after.glazings.drop_last() == before.glazings
        && after.glazings.last().instruction_index == instruction_index)
}

proof fn lemma_appending_is_small(before: BonbonView, after: BonbonView, instruction_index: InstructionIndex)
    requires
        after.transfers == before.transfers,
        after.current_owner == before.current_owner,
        after.glazings == before.glazings || (after.glazings.len() == before.glazings.len() + 1
            && after.glazings.last().instruction_index == instruction_index && (forall|i: int|
            0 <= i < before.glazings.len() ==> after.glazings[i] == before.glazings[i])),
    ensures
        small_step(before, after, instruction_index),
{
    if after.glazings != before.glazings {
        assert(after.glazings.drop_last() =~= before.glazings);
    }
}

proof fn lemma_created_is_small(
    bonbon: BonbonView,
    metadata_account: Result<Pubkey, ErrorCode>,
    derived: Option<Seq<u8>>,
    glazing: GlazingView,
)
    ensures
        small_step(
            bonbon,
            metadata_created(bonbon, metadata_account, derived, glazing).0,
            glazing.instruction_index,
        ),
{
    lemma_appending_is_small(
        bonbon,
        metadata_created(bonbon, metadata_account, derived, glazing).0,
        glazing.instruction_index,
    );
}

proof fn lemma_updated_is_small(
    bonbon: BonbonView,
    metadata_account: Result<Pubkey, ErrorCode>,
    glazing: Option<GlazingView>,
    instruction_index: InstructionIndex,
)
    requires
        glazing is Some ==> glazing.unwrap().instruction_index == instruction_index,
    ensures
        small_step(bonbon, metadata_updated(bonbon, metadata_account, glazing).0, instruction_index),
{
    lemma_appending_is_small(
        bonbon,
        metadata_updated(bonbon, metadata_account, glazing).0,
        instruction_index,
    );
}

proof fn lemma_creator_verified_is_small(
    bonbon: BonbonView,
    metadata_account: Result<Pubkey, ErrorCode>,
    creator_account: Result<Pubkey, ErrorCode>,
    verified: bool,
    instruction_index: InstructionIndex,
)
    ensures
        small_step(
            bonbon,
            creator_verified(
                bonbon,
                metadata_account,
                creator_account,
                verified,
                instruction_index,
            ).0,
            instruction_index,
        ),
{
    lemma_appending_is_small(
        bonbon,
        creator_verified(bonbon, metadata_account, creator_account, verified, instruction_index).0,
        instruction_index,
    );
}

proof fn lemma_collection_verified_is_small(
    bonbon: BonbonView,
    metadata_account: Result<Pubkey, ErrorCode>,
    collection_account: Result<Pubkey, ErrorCode>,
    verified: bool,
    instruction_index: InstructionIndex,
)
    ensures
        small_step(
            bonbon,
            collection_verified(
                bonbon,
                metadata_account,
                collection_account,
                verified,
                instruction_index,
            ).0,
            instruction_index,
        ),
{
    lemma_appending_is_small(
        bonbon,
        collection_verified(
            bonbon,
            metadata_account,
            collection_account,
            verified,
            instruction_index,
        ).0,
        instruction_index,
    );
}

/// A rule of the metadata program takes a small step.
pub proof fn lemma_metadata_step_is_small<T: Cocoa>(
    bonbon: BonbonView,
    decoded: MetadataInstructionView,
    derived: Option<Seq<u8>>,
    instruction: &T,
    account_keys: Seq<Pubkey>,
    instruction_index: InstructionIndex,
)
    ensures
        small_step(
            bonbon,
            metadata_transition(
                bonbon,
                decoded,
                derived,
                instruction,
                account_keys,
                instruction_index,
            ).0,
            instruction_index,
        ),
{
    let account = |index: int| account_of(instruction, index, account_keys);
    match decoded {
        MetadataInstructionView::CreateMetadataAccount(data) => {
            lemma_created_is_small(
                bonbon,
                account(0),
                derived,
                GlazingView::of_data(data, instruction_index),
            );
        },
        MetadataInstructionView::CreateMetadataAccountV2(data) => {
            lemma_created_is_small(
                bonbon,
                account(0),
                derived,
                GlazingView::of_data_v2(data, instruction_index),
            );
        },
        MetadataInstructionView::CreateMetadataAccountV3(data) => {
            lemma_created_is_small(
                bonbon,
                account(0),
                derived,
                GlazingView::of_data_v2(data, instruction_index),
            );
        },
        MetadataInstructionView::UpdateMetadataAccount(data) => {
            lemma_updated_is_small(
                bonbon,
                account(0),
                match data {
                    Some(d) => Some(GlazingView::of_data(d, instruction_index)),
                    None => None,
                },
                instruction_index,
            );
        },
        MetadataInstructionView::UpdateMetadataAccountV2(data) => {
            lemma_updated_is_small(
                bonbon,
                account(0),
                match data {
                    Some(d) => Some(GlazingView::of_data_v2(d, instruction_index)),
                    None => None,
                },
                instruction_index,
            );
        },
        MetadataInstructionView::SignMetadata => {
            lemma_creator_verified_is_small(bonbon, account(0), account(1), true, instruction_index);
        },
        MetadataInstructionView::RemoveCreatorVerification => {
            lemma_creator_verified_is_small(
                bonbon,
                account(0),
                account(1),
                false,
                instruction_index,
            );
        },
        MetadataInstructionView::VerifyCollection => {
            lemma_collection_verified_is_small(
                bonbon,
                account(0),
                account(3),
                true,
                instruction_index,
            );
        },
        MetadataInstructionView::VerifySizedCollectionItem => {
            lemma_collection_verified_is_small(
                bonbon,
                account(0),
                account(3),
                true,
                instruction_index,
            );
        },
        MetadataInstructionView::UnverifyCollection => {
            lemma_collection_verified_is_small(
                bonbon,
                account(0),
                account(3),
                false,
                instruction_index,
            );
        },
        MetadataInstructionView::UnverifySizedCollectionItem => {
            lemma_collection_verified_is_small(
                bonbon,
                account(0),
                account(3),
                false,
                instruction_index,
            );
        },
        MetadataInstructionView::SetAndVerifyCollection => {
            lemma_collection_verified_is_small(
                bonbon,
                account(0),
                account(4),
                true,
                instruction_index,
            );
        },
        MetadataInstructionView::SetAndVerifySizedCollectionItem => {
            lemma_collection_verified_is_small(
                bonbon,
                account(0),
                account(4),
                true,
                instruction_index,
            );
        },
        MetadataInstructionView::BurnNft => {
            let after = bonbon.with_ownership(None, instruction_index.slot);
            assert(after.transfers.drop_last() =~= bonbon.transfers);
        },
        _ => {},
    }
}

/// A rule of the token program takes a small step.
pub proof fn lemma_token_step_is_small<T: Cocoa>(
    bonbon: BonbonView,
    transient_metas: Seq<TransactionTokenOwnerMeta>,
    decoded: TokenInstruction,
    instruction: &T,
    account_keys: Seq<Pubkey>,
    owners: Seq<TransactionTokenOwnerMeta>,
    instruction_index: InstructionIndex,
)
    ensures
        small_step(
            bonbon,
            token_transition(
                bonbon,
                transient_metas,
                decoded,
                instruction,
                account_keys,
                owners,
                instruction_index,
            ).bonbon,
            instruction_index,
        ),
{
    let after = token_transition(
        bonbon,
        transient_metas,
        decoded,
        instruction,
        account_keys,
        owners,
        instruction_index,
    ).bonbon;
    if after.transfers != bonbon.transfers {
        assert(after.transfers.drop_last() =~= bonbon.transfers);
    }
    assert(after.glazings == bonbon.glazings);
}

/// Every update takes a small step.
pub proof fn lemma_update_touches_little<T: Cocoa>(
    bonbon: BonbonView,
    transient_metas: Seq<TransactionTokenOwnerMeta>,
    instruction: &T,
    account_keys: Seq<Pubkey>,
    owners: Seq<TransactionTokenOwnerMeta>,
    instruction_index: InstructionIndex,
    updaters: Seq<BonbonUpdater>,
)
    ensures
        small_step(
            bonbon,
            bonbon_update(
                bonbon,
                transient_metas,
                instruction,
                account_keys,
                owners,
                instruction_index,
                updaters,
            ).bonbon,
            instruction_index,
        ),
{
    match instruction.roast_spec() {
        Ok(decoded) => {
            lemma_metadata_step_is_small(
                bonbon,
                decoded,
                metadata_address(bonbon.mint_key@),
                instruction,
                account_keys,
                instruction_index,
            );
        },
        Err(_) => {},
    }
    match instruction.bake_spec() {
        Ok(decoded) => {
            lemma_token_step_is_small(
                bonbon,
                transient_metas,
                decoded,
                instruction,
                account_keys,
                owners,
                instruction_index,
            );
        },
        Err(_) => {},
    }
}


/// Chain consistency of what is given out: the chain of transfers of every
/// assembled record is consistent.
pub proof fn law_assembled_chain<T: Cocoa>(steps: Seq<Step<T>>, updaters: Seq<BonbonUpdater>, n: int)
    requires
        0 <= n <= steps.len(),
    ensures
        assembly(steps, updaters, n) is Ok ==> assembly(
            steps,
            updaters,
            n,
        ).unwrap().0.chain_consistent(),
        n == steps.len() ==> match assembled(steps, updaters) {
            Ok(Some(bonbon)) => bonbon.chain_consistent(),
            _ => true,
        },
    decreases n,
{
    if n > 0 {
        law_assembled_chain(steps, updaters, n - 1);
        match assembly(steps, updaters, n - 1) {
            Ok((bonbon, transient_metas)) => {
                let step = steps[n - 1];
                let carried = if n >= 2 && crate::assemble::same_transaction(
                    steps[n - 2].instruction_index,
                    step.instruction_index,
                ) {
                    transient_metas
                } else {
                    Seq::empty()
                };
                law_update_keeps_chain(
                    bonbon,
                    carried,
                    &step.instruction,
                    step.account_keys@,
                    step.owners@,
                    step.instruction_index,
                    updaters,
                );
            },
            Err(_) => {},
        }
    }
}

/// The revisions of a record stand in strict ledger order.
pub open spec fn glazings_ordered(bonbon: BonbonView) -> bool {
    forall|i: int, j: int|
        0 <= i < j < bonbon.glazings.len() ==> (#[trigger] bonbon.glazings[i]).instruction_index.precedes(
            (#[trigger] bonbon.glazings[j]).instruction_index,
        )
}

/// The transfers of a record stand in the order of their slots.
pub open spec fn transfers_ordered(bonbon: BonbonView) -> bool {
    forall|i: int, j: int|
        0 <= i < j < bonbon.transfers.len() ==> (#[trigger] bonbon.transfers[i]).slot <= (
        #[trigger] bonbon.transfers[j]).slot
}

/// Every revision of the record was made strictly before the given place in
/// the ledger, and every transfer in its slot or an earlier one.
pub open spec fn settled_before(bonbon: BonbonView, instruction_index: InstructionIndex) -> bool {
    &&& forall|i: int|
        0 <= i < bonbon.glazings.len() ==> (#[trigger] bonbon.glazings[i]).instruction_index.precedes(
            instruction_index,
        )
    &&& forall|i: int|
        0 <= i < bonbon.transfers.len() ==> (#[trigger] bonbon.transfers[i]).slot
            <= instruction_index.slot
}

/// Every revision of the record was made at the given place in the ledger or
/// before it, and every transfer in its slot or an earlier one.
pub open spec fn settled_by(bonbon: BonbonView, instruction_index: InstructionIndex) -> bool {
    &&& forall|i: int|
        0 <= i < bonbon.glazings.len() ==> (#[trigger] bonbon.glazings[i]).instruction_index
            == instruction_index || bonbon.glazings[i].instruction_index.precedes(
            instruction_index,
        )
    &&& forall|i: int|
        0 <= i < bonbon.transfers.len() ==> (#[trigger] bonbon.transfers[i]).slot
            <= instruction_index.slot
}

proof fn lemma_small_step_keeps_order(before: BonbonView, after: BonbonView, instruction_index: InstructionIndex)
    requires
        small_step(before, after, instruction_index),
        glazings_ordered(before),
        transfers_ordered(before),
        settled_before(before, instruction_index),
    ensures
        glazings_ordered(after),
        transfers_ordered(after),
        settled_by(after, instruction_index),
{
    assert forall|i: int| 0 <= i < after.glazings.len() implies (#[trigger] after.glazings[i]).instruction_index
        == instruction_index || after.glazings[i].instruction_index.precedes(instruction_index) by {
        if i < before.glazings.len() {
            assert(after.glazings[i] == before.glazings[i]) by {
                if after.glazings != before.glazings {
                    assert(after.glazings.drop_last()[i] == after.glazings[i]);
                }
            }
        }
    }
    assert forall|i: int| 0 <= i < after.transfers.len() implies (#[trigger] after.transfers[i]).slot
        <= instruction_index.slot by {
        if i < before.transfers.len() {
            assert(after.transfers[i] == before.transfers[i]) by {
                if after.transfers != before.transfers {
                    assert(after.transfers.drop_last()[i] == after.transfers[i]);
                }
            }
        }
    }
    assert forall|i: int, j: int| 0 <= i < j < after.glazings.len() implies (
    #[trigger] after.glazings[i]).instruction_index.precedes(
        (#[trigger] after.glazings[j]).instruction_index,
    ) by {
        assert(after.glazings != before.glazings ==> after.glazings.drop_last()[i]
            == after.glazings[i]);
        if j < before.glazings.len() {
            assert(after.glazings != before.glazings ==> after.glazings.drop_last()[j]
                == after.glazings[j]);
        } else {
            assert(before.glazings[i].instruction_index.precedes(instruction_index));
        }
    }
    assert forall|i: int, j: int| 0 <= i < j < after.transfers.len() implies (
    #[trigger] after.transfers[i]).slot <= (#[trigger] after.transfers[j]).slot by {
        assert(after.transfers != before.transfers ==> after.transfers.drop_last()[i]
            == after.transfers[i]);
        if j < before.transfers.len() {
            assert(after.transfers != before.transfers ==> after.transfers.drop_last()[j]
                == after.transfers[j]);
        } else {
            assert(before.transfers[i].slot <= instruction_index.slot);
        }
    }
}

/// Ordering, step by step: an update at a place in the ledger that lies after
/// everything in the record keeps the revisions in strict ledger order and
/// the transfers in the order of their slots.
pub proof fn law_update_keeps_order<T: Cocoa>(
    bonbon: BonbonView,
    transient_metas: Seq<TransactionTokenOwnerMeta>,
    instruction: &T,
    account_keys: Seq<Pubkey>,
    owners: Seq<TransactionTokenOwnerMeta>,
    instruction_index: InstructionIndex,
    updaters: Seq<BonbonUpdater>,
)
    requires
        glazings_ordered(bonbon),
        transfers_ordered(bonbon),
        settled_before(bonbon, instruction_index),
    ensures
        ({
            let after = bonbon_update(
                bonbon,
                transient_metas,
                instruction,
                account_keys,
                owners,
                instruction_index,
                updaters,
            ).bonbon;
            &&& glazings_ordered(after)
            &&& transfers_ordered(after)
            &&& settled_by(after, instruction_index)
        }),
{
    lemma_update_touches_little(
        bonbon,
        transient_metas,
        instruction,
        account_keys,
        owners,
        instruction_index,
        updaters,
    );
    lemma_small_step_keeps_order(
        bonbon,
        bonbon_update(
            bonbon,
            transient_metas,
            instruction,
            account_keys,
            owners,
            instruction_index,
            updaters,
        ).bonbon,
        instruction_index,
    );
}

/// The steps of a stream stand in strict ledger order.
pub open spec fn in_ledger_order<T: Cocoa>(steps: Seq<Step<T>>) -> bool {
    forall|i: int|
        0 <= i < steps.len() - 1 ==> (#[trigger] steps[i]).instruction_index.precedes(
            steps[i + 1].instruction_index,
        )
}

/// Ordering of what is given out: from a stream in strict ledger order, the
/// revisions of the assembled record come out in strict ledger order and its
/// transfers in the order of their slots.
pub proof fn law_assembled_in_order<T: Cocoa>(steps: Seq<Step<T>>, updaters: Seq<BonbonUpdater>, n: int)
    requires
        in_ledger_order(steps),
        0 <= n <= steps.len(),
    ensures
        match assembly(steps, updaters, n) {
            Ok((bonbon, _)) => glazings_ordered(bonbon) && transfers_ordered(bonbon) && (n > 0
                ==> settled_by(bonbon, steps[n - 1].instruction_index)) && (n == 0 ==> bonbon
                == BonbonView::initial()),
            Err(_) => true,
        },
        n == steps.len() ==> match assembled(steps, updaters) {
            Ok(Some(bonbon)) => glazings_ordered(bonbon) && transfers_ordered(bonbon),
            _ => true,
        },
    decreases n,
{
    if n > 0 {
        law_assembled_in_order(steps, updaters, n - 1);
        match assembly(steps, updaters, n - 1) {
            Ok((bonbon, transient_metas)) => {
                let step = steps[n - 1];
                let carried = if n >= 2 && crate::assemble::same_transaction(
                    steps[n - 2].instruction_index,
                    step.instruction_index,
                ) {
                    transient_metas
                } else {
                    Seq::empty()
                };
                assert(settled_before(bonbon, step.instruction_index)) by {
                    if n >= 2 {
                        let earlier = steps[n - 2].instruction_index;
                        assert(earlier.precedes(step.instruction_index));
                        assert forall|i: int| 0 <= i < bonbon.glazings.len() implies (
                        #[trigger] bonbon.glazings[i]).instruction_index.precedes(
                            step.instruction_index,
                        ) by {
                            lemma_ledger_order(
                                bonbon.glazings[i].instruction_index,
                                earlier,
                                step.instruction_index,
                            );
                        }
                    }
                }
                law_update_keeps_order(
                    bonbon,
                    carried,
                    &step.instruction,
                    step.account_keys@,
                    step.owners@,
                    step.instruction_index,
                    updaters,
                );
            },
            Err(_) => {},
        }
    }
}

/// The metadata key of the record is not set, or it is the address that the
/// metadata program derives from the record's mint.
pub open spec fn pda_consistent(bonbon: BonbonView) -> bool {
    bonbon.metadata_key.is_zero() || metadata_address(bonbon.mint_key@) == Some(
        bonbon.metadata_key@,
    )
}

/// Address consistency, step by step: an update keeps the metadata key the
/// address derived from the mint, unless it gives the record another mint
/// after the metadata key was set.
pub proof fn law_update_keeps_pda<T: Cocoa>(
    bonbon: BonbonView,
    transient_metas: Seq<TransactionTokenOwnerMeta>,
    instruction: &T,
    account_keys: Seq<Pubkey>,
    owners: Seq<TransactionTokenOwnerMeta>,
    instruction_index: InstructionIndex,
    updaters: Seq<BonbonUpdater>,
)
    requires
        pda_consistent(bonbon),
        bonbon.metadata_key.is_zero() || bonbon_update(
            bonbon,
            transient_metas,
            instruction,
            account_keys,
            owners,
            instruction_index,
            updaters,
        ).bonbon.mint_key == bonbon.mint_key,
    ensures
        pda_consistent(
            bonbon_update(
                bonbon,
                transient_metas,
                instruction,
                account_keys,
                owners,
                instruction_index,
                updaters,
            ).bonbon,
        ),
{
    let after = bonbon_update(
        bonbon,
        transient_metas,
        instruction,
        account_keys,
        owners,
        instruction_index,
        updaters,
    ).bonbon;
    match instruction.roast_spec() {
        Ok(decoded) => {
            lemma_metadata_step_keys(
                bonbon,
                decoded,
                metadata_address(bonbon.mint_key@),
                instruction,
                account_keys,
                instruction_index,
            );
        },
        Err(_) => {},
    }
    match instruction.bake_spec() {
        Ok(decoded) => {
            lemma_token_step_keys(
                bonbon,
                transient_metas,
                decoded,
                instruction,
                account_keys,
                owners,
                instruction_index,
            );
        },
        Err(_) => {},
    }
}

/// Between the two records, the mint key, the mint authority and the
/// remembered owners are the same, and the metadata key is the same or the
/// derived address.
pub open spec fn keeps_keys(before: BonbonView, after: BonbonView, derived: Option<Seq<u8>>) -> bool {
    &&& after.mint_key == before.mint_key
    &&& after.mint_authority == before.mint_authority
    &&& after.ownerships == before.ownerships
    &&& after.metadata_key == before.metadata_key || derived == Some(after.metadata_key@)
}

/// A rule of the metadata program leaves the mint key alone, and sets the
/// metadata key to nothing but the derived address.
pub proof fn lemma_metadata_step_keys<T: Cocoa>(
    bonbon: BonbonView,
    decoded: MetadataInstructionView,
    derived: Option<Seq<u8>>,
    instruction: &T,
    account_keys: Seq<Pubkey>,
    instruction_index: InstructionIndex,
)
    ensures
        keeps_keys(
            bonbon,
            metadata_transition(
                bonbon,
                decoded,
                derived,
                instruction,
                account_keys,
                instruction_index,
            ).0,
            derived,
        ),
{
}

/// A rule of the token program leaves the metadata key and the edition alone.
pub proof fn lemma_token_step_keys<T: Cocoa>(
    bonbon: BonbonView,
    transient_metas: Seq<TransactionTokenOwnerMeta>,
    decoded: TokenInstruction,
    instruction: &T,
    account_keys: Seq<Pubkey>,
    owners: Seq<TransactionTokenOwnerMeta>,
    instruction_index: InstructionIndex,
)
    ensures
        ({
            let after = token_transition(
                bonbon,
                transient_metas,
                decoded,
                instruction,
                account_keys,
                owners,
                instruction_index,
            ).bonbon;
            &&& after.metadata_key == bonbon.metadata_key
            &&& after.edition_status == bonbon.edition_status
            &&& after.limited_edition == bonbon.limited_edition
            &&& after.glazings == bonbon.glazings
        }),
{
}

/// No step of the stream gives the record another mint once its metadata key
/// is set.
pub open spec fn mint_stays<T: Cocoa>(steps: Seq<Step<T>>, updaters: Seq<BonbonUpdater>) -> bool {
    forall|n: int|
        0 <= n < steps.len() ==> match (
            assembly(steps, updaters, n),
            #[trigger] assembly(steps, updaters, n + 1),
        ) {
            (Ok(before), Ok(after)) => before.0.metadata_key.is_zero() || after.0.mint_key
                == before.0.mint_key,
            _ => true,
        }
}

/// Address consistency of what is given out: the metadata key of every
/// assembled record is the address that the metadata program derives from
/// its mint, for every stream that gives the record no other mint once its
/// metadata key is set.
pub proof fn law_assembled_pda<T: Cocoa>(steps: Seq<Step<T>>, updaters: Seq<BonbonUpdater>, n: int)
    requires
        mint_stays(steps, updaters),
        0 <= n <= steps.len(),
    ensures
        assembly(steps, updaters, n) is Ok ==> pda_consistent(
            assembly(steps, updaters, n).unwrap().0,
        ),
        n == steps.len() ==> match assembled(steps, updaters) {
            Ok(Some(bonbon)) => metadata_address(bonbon.mint_key@) == Some(bonbon.metadata_key@),
            _ => true,
        },
    decreases n,
{
    if n > 0 {
        law_assembled_pda(steps, updaters, n - 1);
        match assembly(steps, updaters, n - 1) {
            Ok((bonbon, transient_metas)) => {
                let step = steps[n - 1];
                let carried = if n >= 2 && crate::assemble::same_transaction(
                    steps[n - 2].instruction_index,
                    step.instruction_index,
                ) {
                    transient_metas
                } else {
                    Seq::empty()
                };
                if assembly(steps, updaters, n) is Ok {
                    assert(assembly(steps, updaters, (n - 1) + 1) is Ok);
                    law_update_keeps_pda(
                        bonbon,
                        carried,
                        &step.instruction,
                        step.account_keys@,
                        step.owners@,
                        step.instruction_index,
                        updaters,
                    );
                }
            },
            Err(_) => {},
        }
    }
}

/// The instructions that mint a limited edition from a master.
pub open spec fn is_edition_mint(decoded: MetadataInstructionView) -> bool {
    decoded is DeprecatedMintNewEditionFromMasterEditionViaPrintingToken
        || decoded is MintNewEditionFromMasterEditionViaToken
        || decoded is MintNewEditionFromMasterEditionViaVaultProxy
}

/// The update mints a limited edition for a record that is a master edition:
/// the instruction goes to the metadata program's rules, decodes to an
/// edition mint, and names the address derived from the record's mint.
pub open spec fn remints_master<T: Cocoa>(
    bonbon: BonbonView,
    instruction: &T,
    account_keys: Seq<Pubkey>,
    updaters: Seq<BonbonUpdater>,
) -> bool {
    &&& bonbon.edition_status == EditionStatus::Master
    &&& instruction.program_key_spec(account_keys) matches Ok(program_id)
    &&& updater_for(updaters, program_id) matches Some(updater)
    &&& updater.update == Update::Metadata
    &&& instruction.roast_spec() matches Ok(decoded)
    &&& is_edition_mint(decoded)
    &&& account_of(instruction, 0, account_keys) matches Ok(metadata_key)
    &&& metadata_address(bonbon.mint_key@) == Some(metadata_key@)
}

/// Edition finality: the edition status changes from none only. Once a
/// record is a master or a limited edition, every update leaves its status
/// as it is, but for the minting of a limited edition for a master edition.
pub proof fn law_edition_is_final<T: Cocoa>(
    bonbon: BonbonView,
    transient_metas: Seq<TransactionTokenOwnerMeta>,
    instruction: &T,
    account_keys: Seq<Pubkey>,
    owners: Seq<TransactionTokenOwnerMeta>,
    instruction_index: InstructionIndex,
    updaters: Seq<BonbonUpdater>,
)
    requires
        bonbon.edition_status != EditionStatus::NoEdition,
        !remints_master(bonbon, instruction, account_keys, updaters),
    ensures
        bonbon_update(
            bonbon,
            transient_metas,
            instruction,
            account_keys,
            owners,
            instruction_index,
            updaters,
        ).bonbon.edition_status == bonbon.edition_status,
{
    match instruction.bake_spec() {
        Ok(decoded) => {
            lemma_token_step_keys(
                bonbon,
                transient_metas,
                decoded,
                instruction,
                account_keys,
                owners,
                instruction_index,
            );
        },
        Err(_) => {},
    }
}

/// Where an update changes the edition status of a record that is a master
/// edition, it is the minting of a limited edition: the law above leaves out
/// no other update.
pub proof fn law_edition_changes_by_reminting_only<T: Cocoa>(
    bonbon: BonbonView,
    transient_metas: Seq<TransactionTokenOwnerMeta>,
    instruction: &T,
    account_keys: Seq<Pubkey>,
    owners: Seq<TransactionTokenOwnerMeta>,
    instruction_index: InstructionIndex,
    updaters: Seq<BonbonUpdater>,
)
    requires
        remints_master(bonbon, instruction, account_keys, updaters),
    ensures
        bonbon_update(
            bonbon,
            transient_metas,
            instruction,
            account_keys,
            owners,
            instruction_index,
            updaters,
        ).bonbon.edition_status == EditionStatus::Limited,
{
}


/// Idempotence of the partition stage: two runs on one transaction, with the
/// same partitioners, give the same partitions or the same error.
pub proof fn law_partition_is_repeatable(
    transaction: TransactionWithStatusMeta,
    partitioners: Seq<InstructionPartitioner>,
    first: Result<Partitions, crate::partition::ErrorCode>,
    second: Result<Partitions, crate::partition::ErrorCode>,
)
    requires
        partitions_view(first) == transaction_partition(transaction, partitioners),
        partitions_view(second) == transaction_partition(transaction, partitioners),
    ensures
        partitions_view(first) == partitions_view(second),
{
}

/// Idempotence of the reassemble stage: two runs on one stream, with the
/// same updaters, give the same record, and with it the same rows, or the
/// same error.
pub proof fn law_assembly_is_repeatable<T: Cocoa>(
    steps: Seq<Step<T>>,
    updaters: Seq<BonbonUpdater>,
    first: Result<Option<Bonbon>, ErrorCode>,
    second: Result<Option<Bonbon>, ErrorCode>,
)
    requires
        assembled_view(first) == assembled(steps, updaters),
        assembled_view(second) == assembled(steps, updaters),
    ensures
        assembled_view(first) == assembled_view(second),
        match (first, second) {
            (Ok(Some(a)), Ok(Some(b))) => {
                &&& bonbon_row_of(a@) == bonbon_row_of(b@)
                &&& a@.glazings.len() == b@.glazings.len()
                &&& forall|i: int|
                    0 <= i < a@.glazings.len() ==> glazing_row_of(
                        a.metadata_key,
                        #[trigger] a@.glazings[i],
                    ) == glazing_row_of(b.metadata_key, b@.glazings[i])
                &&& a@.transfers.len() == b@.transfers.len()
                &&& forall|i: int|
                    0 <= i < a@.transfers.len() ==> transfer_row_of(
                        a.mint_key,
                        #[trigger] a@.transfers[i],
                    ) == transfer_row_of(b.mint_key, b@.transfers[i])
            },
            _ => true,
        },
{
}


/// No leaked transient accounts: where a transaction is partitioned, every
/// account that it initialised and of which its balance snapshots say
/// nothing has been closed by its end.
pub proof fn law_no_leaked_transient_metas(
    transaction: TransactionWithStatusMeta,
    partitioners: Seq<InstructionPartitioner>,
)
    ensures
        transaction_partition(transaction, partitioners) is Ok ==> transaction is Complete
            && progress_of(transaction->Complete_0, partitioners).transient_metas.len() == 0,
{
}

/// Failures stay with their instruction: a transaction with status metadata
/// is partitioned unless it leaves an initialised account behind.
pub proof fn law_partition_fails_for_two_reasons(
    transaction: TransactionWithStatusMeta,
    partitioners: Seq<InstructionPartitioner>,
)
    ensures
        match transaction_partition(transaction, partitioners) {
            Ok(_) => true,
            Err(e) => e == crate::partition::ErrorCode::MissingTransactionStatusMeta || e
                == crate::partition::ErrorCode::FailedTransientTokenAccountMatching,
        },
{
}

} // verus!
