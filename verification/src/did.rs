//! Who owns each DID: the registry that access conditions consult.
use vstd::prelude::*;
use crate::table::Table;
use crate::types::AccountId;

verus! {

/// The owner of each registered DID.
pub struct DidRegistry {
    owners: Table<AccountId, AccountId>,
}

impl View for DidRegistry {
    type V = Map<AccountId, AccountId>;

    closed spec fn view(&self) -> Map<AccountId, AccountId> {
        self.owners@
    }
}

impl DidRegistry {
    pub closed spec fn wf(&self) -> bool {
        self.owners.wf()
    }

    /// A registry with no DID in it.
    pub fn new() -> (r: Self)
        ensures
            r.wf(),
            r@ == Map::<AccountId, AccountId>::empty(),
    {
        DidRegistry { owners: Table::new() }
    }

    /// Records `owner` as the owner of `did`.
    pub fn set_owner(&mut self, did: AccountId, owner: AccountId)
        requires
            old(self).wf(),
        ensures
            final(self).wf(),
            final(self)@ == old(self)@.insert(did, owner),
    {
        self.owners.insert(did, owner);
    }

    /// The owner of `did`, if it is registered.
    pub fn owner_of(&self, did: &AccountId) -> (r: Option<AccountId>)
        requires
            self.wf(),
        ensures
            r == self@.get(*did),
    {
        match self.owners.get(did) {
            Some(o) => Some(*o),
            None => None,
        }
    }
}

} // verus!
