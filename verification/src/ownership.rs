//! Token accounts, their holders, and the table that remembers which holder
//! an account was initialised with.

use vstd::prelude::*;
use crate::pubkey::Pubkey;

verus! {

/// A token account together with its holder at the moment observed.
#[derive(Clone, Copy, Debug, PartialEq, Eq)]
pub struct Ownership {
    pub owner: Pubkey,
    pub account: Pubkey,
}

impl Default for Ownership {
    fn default() -> (ownership: Ownership)
        ensures
            ownership == (Ownership { owner: Pubkey::zero(), account: Pubkey::zero() }),
    {
        Ownership { owner: Pubkey::default(), account: Pubkey::default() }
    }
}

/// One change of holder. `start` is absent for the first recorded holder,
/// `end` is absent after a burn.
#[derive(Clone, Copy, Debug, PartialEq, Eq)]
pub struct Transfer {
    pub slot: i64,
    pub start: Option<Ownership>,
    pub end: Option<Ownership>,
}

impl Default for Transfer {
    fn default() -> (transfer: Transfer)
        ensures
            transfer == (Transfer { slot: 0, start: None, end: None }),
    {
        Transfer { slot: 0, start: None, end: None }
    }
}

/// One remembered pair of a token account and its owner.
#[derive(Clone, Copy, Debug, PartialEq, Eq)]
pub struct OwnerEntry {
    pub account: Pubkey,
    pub owner: Pubkey,
}

/// The map that a list of entries stands for: a later entry overrides an
/// earlier one for the same account.
pub open spec fn owners_of(entries: Seq<OwnerEntry>) -> Map<Pubkey, Pubkey>
    decreases entries.len(),
{
    if entries.len() == 0 {
        Map::empty()
    } else {
        owners_of(entries.drop_last()).insert(entries.last().account, entries.last().owner)
    }
}

/// What a map knows of a key.
pub open spec fn lookup(map: Map<Pubkey, Pubkey>, key: Pubkey) -> Option<Pubkey> {
    if map.contains_key(key) {
        Some(map[key])
    } else {
        None
    }
}

/// A map from token accounts to their owners, filled from the instructions
/// that initialise accounts.
#[derive(Debug, PartialEq, Eq)]
pub struct Ownerships {
    entries: Vec<OwnerEntry>,
}

impl View for Ownerships {
    type V = Map<Pubkey, Pubkey>;

    closed spec fn view(&self) -> Map<Pubkey, Pubkey> {
        owners_of(self.entries@)
    }
}

impl Ownerships {
    pub fn new() -> (table: Ownerships)
        ensures
            table@ == Map::<Pubkey, Pubkey>::empty(),
    {
        Ownerships { entries: Vec::new() }
    }

    /// The owner recorded for an account, if any.
    pub fn get(&self, account: &Pubkey) -> (owner: Option<Pubkey>)
        ensures
            owner == lookup(self@, *account),
    {
        let mut found: Option<Pubkey> = None;
        let mut i: usize = 0;
        while i < self.entries.len()
            invariant
                0 <= i <= self.entries@.len(),
                found == lookup(owners_of(self.entries@.subrange(0, i as int)), *account),
            decreases self.entries@.len() - i,
        {
            let entry = self.entries[i];
            proof {
                let next = self.entries@.subrange(0, i + 1);
                assert(next.drop_last() =~= self.entries@.subrange(0, i as int));
            }
            if entry.account == *account {
                found = Some(entry.owner);
            }
            i += 1;
        }
        assert(self.entries@.subrange(0, i as int) =~= self.entries@);
        found
    }

    /// Forgets the account.
    pub fn remove(&mut self, account: &Pubkey)
        ensures
            final(self)@ == old(self)@.remove(*account),
    {
        let mut kept: Vec<OwnerEntry> = Vec::new();
        let mut i: usize = 0;
        while i < self.entries.len()
            invariant
                0 <= i <= self.entries@.len(),
                owners_of(kept@) == owners_of(self.entries@.subrange(0, i as int)).remove(*account),
            decreases self.entries@.len() - i,
        {
            let entry = self.entries[i];
            proof {
                let next = self.entries@.subrange(0, i + 1);
                assert(next.drop_last() =~= self.entries@.subrange(0, i as int));
            }
            if entry.account != *account {
                let ghost before = kept@;
                kept.push(entry);
                proof {
                    assert(kept@.drop_last() =~= before);
                    assert(owners_of(kept@) =~= owners_of(
                        self.entries@.subrange(0, i + 1),
                    ).remove(*account));
                }
            } else {
                assert(owners_of(kept@) =~= owners_of(self.entries@.subrange(0, i + 1)).remove(
                    *account,
                ));
            }
            i += 1;
        }
        assert(self.entries@.subrange(0, i as int) =~= self.entries@);
        self.entries = kept;
    }

    /// Records the owner of an account, in place of what was recorded before.
    pub fn insert(&mut self, account: Pubkey, owner: Pubkey)
        ensures
            final(self)@ == old(self)@.insert(account, owner),
    {
        self.remove(&account);
        let ghost before = self.entries@;
        self.entries.push(OwnerEntry { account, owner });
        proof {
            assert(self.entries@.drop_last() =~= before);
            assert(self@ =~= old(self)@.insert(account, owner));
        }
    }
}

impl Default for Ownerships {
    fn default() -> (table: Ownerships)
        ensures
            table@ == Map::<Pubkey, Pubkey>::empty(),
    {
        Ownerships::new()
    }
}

} // verus!
