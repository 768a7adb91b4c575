//! The per-mint record that assembly produces, its parts, and the three
//! operations that extend it.

use vstd::prelude::*;
use vstd::std_specs::convert::FromSpecImpl;
use crate::instruction::{CollectionArgs, CreatorArgs, Data, DataV2, DataV2View, DataView};
use crate::ownership::{Ownership, Ownerships, Transfer};
use crate::pubkey::Pubkey;
use crate::search::{first_index, is_first, lemma_first_index, lemma_no_first_index};

verus! {

/// Whether a mint is a master edition, a limited edition, or neither (yet).
#[derive(Clone, Copy, Debug, PartialEq, Eq, Structural)]
pub enum EditionStatus {
    /// No edition has been created. Every mint starts here, since its metadata
    /// is created before its edition.
    NoEdition,
    Master,
    Limited,
}

impl Default for EditionStatus {
    fn default() -> (status: EditionStatus)
        ensures
            status == EditionStatus::NoEdition,
    {
        EditionStatus::NoEdition
    }
}

/// The place of an instruction in the ledger.
#[derive(Clone, Copy, Debug, PartialEq, Eq, Structural)]
pub struct InstructionIndex {
    pub slot: i64,
    pub block_index: i64,
    pub outer_index: i64,
    pub inner_index: Option<i64>,
}

impl InstructionIndex {
    /// The ledger order: by slot, then block index, then outer index; the
    /// inner instructions of an outer instruction come in their own order,
    /// all of them before the outer instruction itself.
    pub open spec fn precedes(self, other: InstructionIndex) -> bool {
        if self.slot != other.slot {
            self.slot < other.slot
        } else if self.block_index != other.block_index {
            self.block_index < other.block_index
        } else if self.outer_index != other.outer_index {
            self.outer_index < other.outer_index
        } else {
            match (self.inner_index, other.inner_index) {
                (Some(a), Some(b)) => a < b,
                (Some(_), None) => true,
                (None, _) => false,
            }
        }
    }

    /// Whether this index comes strictly before the other in ledger order.
    pub fn is_before(&self, other: &InstructionIndex) -> (b: bool)
        ensures
            b == self.precedes(*other),
    {
        if self.slot != other.slot {
            self.slot < other.slot
        } else if self.block_index != other.block_index {
            self.block_index < other.block_index
        } else if self.outer_index != other.outer_index {
            self.outer_index < other.outer_index
        } else {
            match (self.inner_index, other.inner_index) {
                (Some(a), Some(b)) => a < b,
                (Some(_), None) => true,
                (None, _) => false,
            }
        }
    }
}

impl Default for InstructionIndex {
    fn default() -> (index: InstructionIndex)
        ensures
            index == (InstructionIndex { slot: 0, block_index: 0, outer_index: 0, inner_index: None }),
    {
        InstructionIndex { slot: 0, block_index: 0, outer_index: 0, inner_index: None }
    }
}

/// The ledger order is a strict total order.
pub proof fn lemma_ledger_order(a: InstructionIndex, b: InstructionIndex, c: InstructionIndex)
    ensures
        !a.precedes(a),
        a.precedes(b) && b.precedes(c) ==> a.precedes(c),
        a.precedes(b) || b.precedes(a) || a == b,
        !(a.precedes(b) && b.precedes(a)),
{
}

/// The back-reference of a limited edition to its master.
#[derive(Clone, Copy, Debug, PartialEq, Eq)]
pub struct LimitedEdition {
    pub master_key: Pubkey,
    pub edition_num: Option<i64>,
    pub instruction_index: InstructionIndex,
}

/// A creator of an asset; `share` is a percentage.
#[derive(Clone, Copy, Debug, PartialEq, Eq)]
pub struct Creator {
    pub address: Pubkey,
    pub verified: bool,
    pub share: i16,
}

impl Creator {
    pub open spec fn of(creator: CreatorArgs) -> Creator {
        Creator { address: creator.address, verified: creator.verified, share: creator.share as i16 }
    }
}

impl From<CreatorArgs> for Creator {
    fn from(creator: CreatorArgs) -> (converted: Creator) {
        Creator { address: creator.address, verified: creator.verified, share: creator.share as i16 }
    }
}

impl FromSpecImpl<CreatorArgs> for Creator {
    open spec fn obeys_from_spec() -> bool {
        true
    }

    open spec fn from_spec(creator: CreatorArgs) -> Creator {
        Creator::of(creator)
    }
}

/// The creators of a payload, none where it lists none.
pub open spec fn creators_of(creators: Option<Seq<CreatorArgs>>) -> Seq<Creator> {
    match creators {
        Some(list) => list.map_values(|c: CreatorArgs| Creator::of(c)),
        None => Seq::empty(),
    }
}

/// Converts the creators of a payload, none where it lists none.
pub fn from_creators(creators: Option<Vec<CreatorArgs>>) -> (converted: Vec<Creator>)
    ensures
        converted@ == creators_of(crate::instruction::creators_view(creators)),
{
    let mut converted: Vec<Creator> = Vec::new();
    match creators {
        Some(list) => {
            let mut i: usize = 0;
            while i < list.len()
                invariant
                    0 <= i <= list@.len(),
                    converted@.len() == i,
                    forall|j: int| 0 <= j < i ==> converted@[j] == Creator::of(list@[j]),
                decreases list@.len() - i,
            {
                converted.push(Creator::from(list[i]));
                i += 1;
            }
            assert(converted@ =~= list@.map_values(|c: CreatorArgs| Creator::of(c)));
        },
        None => {
            assert(converted@ =~= Seq::<Creator>::empty());
        },
    }
    converted
}

/// The collection that an asset belongs to.
#[derive(Clone, Copy, Debug, PartialEq, Eq)]
pub struct Collection {
    pub address: Pubkey,
    pub verified: bool,
}

impl Collection {
    pub open spec fn of(collection: CollectionArgs) -> Collection {
        Collection { address: collection.key, verified: collection.verified }
    }
}

impl From<CollectionArgs> for Collection {
    fn from(collection: CollectionArgs) -> (converted: Collection) {
        Collection { address: collection.key, verified: collection.verified }
    }
}

impl FromSpecImpl<CollectionArgs> for Collection {
    open spec fn obeys_from_spec() -> bool {
        true
    }

    open spec fn from_spec(collection: CollectionArgs) -> Collection {
        Collection::of(collection)
    }
}

/// One revision of an asset's metadata.
#[derive(Debug, PartialEq, Eq)]
pub struct Glazing {
    pub name: String,
    pub symbol: String,
    pub uri: String,
    pub creators: Vec<Creator>,
    pub collection: Option<Collection>,
    pub instruction_index: InstructionIndex,
}

pub struct GlazingView {
    pub name: Seq<char>,
    pub symbol: Seq<char>,
    pub uri: Seq<char>,
    pub creators: Seq<Creator>,
    pub collection: Option<Collection>,
    pub instruction_index: InstructionIndex,
}

impl View for Glazing {
    type V = GlazingView;

    open spec fn view(&self) -> GlazingView {
        GlazingView {
            name: self.name@,
            symbol: self.symbol@,
            uri: self.uri@,
            creators: self.creators@,
            collection: self.collection,
            instruction_index: self.instruction_index,
        }
    }
}

impl GlazingView {
    /// The revision with nothing in it.
    pub open spec fn empty() -> GlazingView {
        GlazingView {
            name: Seq::empty(),
            symbol: Seq::empty(),
            uri: Seq::empty(),
            creators: Seq::empty(),
            collection: None,
            instruction_index: InstructionIndex {
                slot: 0,
                block_index: 0,
                outer_index: 0,
                inner_index: None,
            },
        }
    }

    /// The revision that a first-generation payload describes.
    pub open spec fn of_data(data: DataView, instruction_index: InstructionIndex) -> GlazingView {
        GlazingView {
            name: data.name,
            symbol: data.symbol,
            uri: data.uri,
            creators: creators_of(data.creators),
            collection: None,
            instruction_index,
        }
    }

    /// The revision that a second-generation payload describes.
    pub open spec fn of_data_v2(data: DataV2View, instruction_index: InstructionIndex) -> GlazingView {
        GlazingView {
            name: data.name,
            symbol: data.symbol,
            uri: data.uri,
            creators: creators_of(data.creators),
            collection: match data.collection {
                Some(c) => Some(Collection::of(c)),
                None => None,
            },
            instruction_index,
        }
    }
}

impl Default for Glazing {
    fn default() -> (glazing: Glazing)
        ensures
            glazing@ == GlazingView::empty(),
    {
        Glazing {
            name: String::new(),
            symbol: String::new(),
            uri: String::new(),
            creators: Vec::new(),
            collection: None,
            instruction_index: InstructionIndex::default(),
        }
    }
}

impl Clone for Glazing {
    fn clone(&self) -> (copy: Glazing)
        ensures
            copy@ == self@,
    {
        let mut creators: Vec<Creator> = Vec::new();
        let mut i: usize = 0;
        while i < self.creators.len()
            invariant
                0 <= i <= self.creators@.len(),
                creators@ == self.creators@.subrange(0, i as int),
            decreases self.creators@.len() - i,
        {
            creators.push(self.creators[i]);
            assert(creators@ =~= self.creators@.subrange(0, i + 1));
            i += 1;
        }
        assert(creators@ =~= self.creators@);
        Glazing {
            name: self.name.clone(),
            symbol: self.symbol.clone(),
            uri: self.uri.clone(),
            creators,
            collection: self.collection,
            instruction_index: self.instruction_index,
        }
    }
}

impl Data {
    /// The revision that this payload describes; it names no collection.
    pub fn into_glazing(self, instruction_index: InstructionIndex) -> (glazing: Glazing)
        ensures
            glazing@ == GlazingView::of_data(self@, instruction_index),
    {
        Glazing {
            name: self.name,
            symbol: self.symbol,
            uri: self.uri,
            creators: from_creators(self.creators),
            collection: None,
            instruction_index,
        }
    }
}

impl DataV2 {
    /// The revision that this payload describes, with its collection if it
    /// names one.
    pub fn into_glazing(self, instruction_index: InstructionIndex) -> (glazing: Glazing)
        ensures
            glazing@ == GlazingView::of_data_v2(self@, instruction_index),
    {
        let collection = match self.collection {
            Some(c) => Some(Collection::from(c)),
            None => None,
        };
        Glazing {
            name: self.name,
            symbol: self.symbol,
            uri: self.uri,
            creators: from_creators(self.creators),
            collection,
            instruction_index,
        }
    }
}

/// The condition of being a creator with the given address.
pub open spec fn has_address(address: Pubkey) -> spec_fn(Creator) -> bool {
    |creator: Creator| creator.address == address
}

/// The creators with the verification flag of the first creator of the given
/// address set; unchanged where no creator has that address.
pub open spec fn with_verification(creators: Seq<Creator>, address: Pubkey, verified: bool) -> Seq<
    Creator,
> {
    match first_index(creators, has_address(address)) {
        Some(i) => creators.update(i, Creator { address, verified, share: creators[i].share }),
        None => creators,
    }
}

/// The views of a list of revisions.
pub open spec fn glazing_views(glazings: Seq<Glazing>) -> Seq<GlazingView> {
    Seq::new(glazings.len(), |i: int| glazings[i]@)
}

/// The per-mint record.
#[derive(Debug, PartialEq, Eq)]
pub struct Bonbon {
    pub mint_key: Pubkey,
    pub metadata_key: Pubkey,
    pub mint_authority: Pubkey,
    pub transfers: Vec<Transfer>,
    pub current_owner: Option<Ownership>,
    pub edition_status: EditionStatus,
    pub limited_edition: Option<LimitedEdition>,
    /// Every revision is kept, so that the values in force at any place in the
    /// ledger can be found again.
    pub glazings: Vec<Glazing>,
    /// The owner that each token account was initialised with. Balance
    /// snapshots normally give the owner; where the ledger lacks them, this
    /// table does.
    pub ownerships: Ownerships,
}

pub struct BonbonView {
    pub mint_key: Pubkey,
    pub metadata_key: Pubkey,
    pub mint_authority: Pubkey,
    pub transfers: Seq<Transfer>,
    pub current_owner: Option<Ownership>,
    pub edition_status: EditionStatus,
    pub limited_edition: Option<LimitedEdition>,
    pub glazings: Seq<GlazingView>,
    pub ownerships: Map<Pubkey, Pubkey>,
}

impl View for Bonbon {
    type V = BonbonView;

    open spec fn view(&self) -> BonbonView {
        BonbonView {
            mint_key: self.mint_key,
            metadata_key: self.metadata_key,
            mint_authority: self.mint_authority,
            transfers: self.transfers@,
            current_owner: self.current_owner,
            edition_status: self.edition_status,
            limited_edition: self.limited_edition,
            glazings: glazing_views(self.glazings@),
            ownerships: self.ownerships@,
        }
    }
}

impl BonbonView {
    /// The record of a mint of which nothing has been seen.
    pub open spec fn initial() -> BonbonView {
        BonbonView {
            mint_key: Pubkey::zero(),
            metadata_key: Pubkey::zero(),
            mint_authority: Pubkey::zero(),
            transfers: Seq::empty(),
            current_owner: None,
            edition_status: EditionStatus::NoEdition,
            limited_edition: None,
            glazings: Seq::empty(),
            ownerships: Map::empty(),
        }
    }

    /// The latest revision, or the empty one where there is none.
    pub open spec fn latest_glazing(self) -> GlazingView {
        if self.glazings.len() > 0 {
            self.glazings.last()
        } else {
            GlazingView::empty()
        }
    }

    /// A new revision is appended: the latest one with the flag of the first
    /// creator of that address set or, where there is no revision yet, one
    /// that holds only that creator.
    pub open spec fn with_creator_verification(
        self,
        creator_key: Pubkey,
        verified: bool,
        instruction_index: InstructionIndex,
    ) -> BonbonView {
        let next = if self.glazings.len() > 0 {
            GlazingView {
                creators: with_verification(self.glazings.last().creators, creator_key, verified),
                instruction_index,
                ..self.glazings.last()
            }
        } else {
            GlazingView {
                creators: seq![Creator { address: creator_key, verified, share: 0 }],
                instruction_index,
                ..GlazingView::empty()
            }
        };
        BonbonView { glazings: self.glazings.push(next), ..self }
    }

    /// A new revision is appended: the latest one, or the empty one, with the
    /// given collection.
    pub open spec fn with_collection_verification(
        self,
        collection_key: Pubkey,
        verified: bool,
        instruction_index: InstructionIndex,
    ) -> BonbonView {
        let next = GlazingView {
            collection: Some(Collection { address: collection_key, verified }),
            instruction_index,
            ..self.latest_glazing()
        };
        BonbonView { glazings: self.glazings.push(next), ..self }
    }

    /// A transfer from the current holder to the new one is appended, and the
    /// new one becomes the current holder.
    pub open spec fn with_ownership(self, new_owner: Option<Ownership>, slot: i64) -> BonbonView {
        BonbonView {
            transfers: self.transfers.push(
                Transfer { slot, start: self.current_owner, end: new_owner },
            ),
            current_owner: new_owner,
            ..self
        }
    }

    /// A new revision is appended.
    pub open spec fn with_glazing(self, glazing: GlazingView) -> BonbonView {
        BonbonView { glazings: self.glazings.push(glazing), ..self }
    }

    /// Each transfer starts where the one before it ended, and the current
    /// holder is where the last one ended.
    pub open spec fn chain_consistent(self) -> bool {
        &&& forall|i: int|
            0 <= i < self.transfers.len() - 1 ==> (#[trigger] self.transfers[i + 1]).start
                == self.transfers[i].end
        &&& self.current_owner == if self.transfers.len() > 0 {
            self.transfers.last().end
        } else {
            None
        }
    }
}

impl Default for Bonbon {
    fn default() -> (bonbon: Bonbon)
        ensures
            bonbon@ == BonbonView::initial(),
    {
        let bonbon = Bonbon {
            mint_key: Pubkey::default(),
            metadata_key: Pubkey::default(),
            mint_authority: Pubkey::default(),
            transfers: Vec::new(),
            current_owner: None,
            edition_status: EditionStatus::NoEdition,
            limited_edition: None,
            glazings: Vec::new(),
            ownerships: Ownerships::new(),
        };
        assert(bonbon@.glazings =~= Seq::<GlazingView>::empty());
        bonbon
    }
}

impl Bonbon {
    /// Appends a revision.
    pub fn push_glazing(&mut self, glazing: Glazing)
        ensures
            final(self)@ == old(self)@.with_glazing(glazing@),
    {
        self.glazings.push(glazing);
        assert(self@.glazings =~= old(self)@.glazings.push(glazing@));
    }

    /// Records that a creator has signed or withdrawn their signature.
    pub fn apply_creator_verification(
        &mut self,
        creator_key: Pubkey,
        verified: bool,
        instruction_index: InstructionIndex,
    )
        ensures
            final(self)@ == old(self)@.with_creator_verification(
                creator_key,
                verified,
                instruction_index,
            ),
    {
        let count = self.glazings.len();
        if count > 0 {
            let mut next: Glazing = self.glazings[count - 1].clone();
            let ghost before = next.creators@;
            let ghost base = next@;
            assert(old(self)@.glazings.last() == base);
            let ghost wanted = has_address(creator_key);
            let mut i: usize = 0;
            let mut found = false;
            while i < next.creators.len() && !found
                invariant
                    0 <= i <= next.creators@.len(),
                    next.creators@.len() == before.len(),
                    next@ == (GlazingView { creators: next.creators@, ..base }),
                    wanted == has_address(creator_key),
                    !found ==> next.creators@ == before,
                    !found ==> forall|j: int| 0 <= j < i ==> !wanted(#[trigger] before[j]),
                    found ==> i > 0 && is_first(before, wanted, i - 1) && next.creators@
                        == before.update(
                        i - 1,
                        Creator { address: creator_key, verified, share: before[i - 1].share },
                    ),
                decreases next.creators@.len() - i,
            {
                let creator = next.creators[i];
                if creator.address == creator_key {
                    next.creators.set(
                        i,
                        Creator { address: creator.address, verified, share: creator.share },
                    );
                    found = true;
                } else {
                    assert(!wanted(before[i as int]));
                }
                i += 1;
            }
            proof {
                if found {
                    lemma_first_index(before, wanted, i - 1);
                } else {
                    lemma_no_first_index(before, wanted);
                }
            }
            next.instruction_index = instruction_index;
            self.push_glazing(next);
        } else {
            let mut creators: Vec<Creator> = Vec::new();
            creators.push(Creator { address: creator_key, verified, share: 0 });
            let next = Glazing {
                name: String::new(),
                symbol: String::new(),
                uri: String::new(),
                creators,
                collection: None,
                instruction_index,
            };
            assert(next@.creators =~= seq![Creator { address: creator_key, verified, share: 0 }]);
            self.push_glazing(next);
        }
    }

    /// Records that the asset was put into a collection, or that its
    /// membership was verified or unverified.
    pub fn apply_collection_verification(
        &mut self,
        collection_key: Pubkey,
        verified: bool,
        instruction_index: InstructionIndex,
    )
        ensures
            final(self)@ == old(self)@.with_collection_verification(
                collection_key,
                verified,
                instruction_index,
            ),
    {
        let count = self.glazings.len();
        let mut next: Glazing = if count > 0 {
            self.glazings[count - 1].clone()
        } else {
            Glazing::default()
        };
        next.collection = Some(Collection { address: collection_key, verified });
        next.instruction_index = instruction_index;
        self.push_glazing(next);
    }

    /// Records a change of holder; `None` stands for a burn. Keeps the chain
    /// of transfers consistent.
    pub fn apply_ownership(&mut self, new_owner: Option<Ownership>, slot: i64)
        ensures
            final(self)@ == old(self)@.with_ownership(new_owner, slot),
            old(self)@.chain_consistent() ==> final(self)@.chain_consistent(),
    {
        let transfer = Transfer { slot, start: self.current_owner, end: new_owner };
        self.transfers.push(transfer);
        self.current_owner = new_owner;
        proof {
            if old(self)@.chain_consistent() {
                lemma_ownership_keeps_chain(old(self)@, new_owner, slot);
            }
        }
    }
}

/// Appending a change of holder keeps the chain of transfers consistent.
pub proof fn lemma_ownership_keeps_chain(before: BonbonView, new_owner: Option<Ownership>, slot: i64)
    requires
        before.chain_consistent(),
    ensures
        before.with_ownership(new_owner, slot).chain_consistent(),
{
    let after = before.with_ownership(new_owner, slot);
    assert forall|i: int| 0 <= i < after.transfers.len() - 1 implies (#[trigger] after.transfers[i
        + 1]).start == after.transfers[i].end by {
        if i + 1 < before.transfers.len() {
            assert(after.transfers[i + 1] == before.transfers[i + 1]);
            assert(after.transfers[i] == before.transfers[i]);
        } else {
            assert(after.transfers[i] == before.transfers.last());
        }
    }
}

} // verus!
