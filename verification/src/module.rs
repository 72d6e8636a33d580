//! The access-condition module: its storage and its calls.
use vstd::prelude::*;
use crate::did::DidRegistry;
use crate::scale::{encode_account, encode_u32, encode_u8};
use crate::spec::{
    conclude_spec, create_spec, get_access_condition_spec, reaches_signature_check, refused,
    settle_spec, settlement_message, signers_accept, state_message, ModuleView,
};
use crate::sr25519::verify_signature;
use crate::table::Table;
use crate::types::{
    AccessCondition, AccountId, AppState, AppStatus, BlockNumber, DispatchError, DispatchResult,
    Error, Event, EventView, Origin, Signature, StateProof,
};

verus! {

/// The module's storage: the access conditions by address, the data
/// access rights, and the events deposited.
pub struct Module {
    condition_list: Table<AccountId, AccessCondition>,
    permissions: Table<(AccountId, AccountId), u8>,
    events: Vec<Event>,
    block_number: BlockNumber,
}

impl View for Module {
    type V = ModuleView;

    closed spec fn view(&self) -> ModuleView {
        ModuleView {
            conditions: self.condition_list@,
            permissions: self.permissions@,
            events: self.events@.map_values(|e: Event| e@),
            block_number: self.block_number,
        }
    }
}

/// The SCALE encoding of a channel state's nonce, sequence number,
/// condition address and op, one after the other.
fn encode_state(a: &AppState) -> (r: Vec<u8>)
    ensures
        r@ == state_message(*a),
{
    let mut encoded = encode_u32(a.nonce);
    let mut part = encode_u32(a.seq_num);
    encoded.append(&mut part);
    let mut part = encode_account(&a.state.condition_address);
    encoded.append(&mut part);
    let mut part = encode_u8(a.state.op);
    encoded.append(&mut part);
    encoded
}

impl Module {
    /// The storage tables are well formed and every access condition in
    /// them is.
    pub closed spec fn wf(&self) -> bool {
        &&& self.condition_list.wf()
        &&& self.permissions.wf()
        &&& self@.valid()
    }

    /// A module with no access condition, no right granted, no event, at
    /// block 0.
    pub fn new() -> (m: Self)
        ensures
            m.wf(),
            m@ == (ModuleView {
                conditions: Map::empty(),
                permissions: Map::empty(),
                events: Seq::empty(),
                block_number: 0,
            }),
    {
        let m = Module {
            condition_list: Table::new(),
            permissions: Table::new(),
            events: Vec::new(),
            block_number: 0,
        };
        assert(m@.events =~= Seq::<EventView>::empty());
        m
    }

    /// Moves to block `n`: later events are stamped with it.
    pub fn set_block_number(&mut self, n: BlockNumber)
        requires
            old(self).wf(),
        ensures
            final(self).wf(),
            final(self)@ == (ModuleView { block_number: n, ..old(self)@ }),
    {
        self.block_number = n;
    }

    /// The block that new events are stamped with.
    pub fn block_number(&self) -> (r: BlockNumber)
        ensures
            r == self@.block_number,
    {
        self.block_number
    }

    /// The events deposited so far, oldest first.
    pub fn events(&self) -> (r: &Vec<Event>)
        ensures
            r@.map_values(|e: Event| e@) == self@.events,
    {
        &self.events
    }

    fn deposit_event(&mut self, e: Event)
        ensures
            final(self).condition_list == old(self).condition_list,
            final(self).permissions == old(self).permissions,
            final(self).block_number == old(self).block_number,
            final(self)@.events == old(self)@.events.push(e@),
    {
        self.events.push(e);
        assert(self@.events =~= old(self)@.events.push(e@));
    }

    /// The access condition stored at `condition_address`, if any.
    pub fn condition_list(&self, condition_address: &AccountId) -> (r: Option<AccessCondition>)
        requires
            self.wf(),
        ensures
            match r {
                Some(c) => self@.conditions.contains_key(*condition_address)
                    && c@ == self@.conditions[*condition_address],
                None => !self@.conditions.contains_key(*condition_address),
            },
    {
        match self.condition_list.get(condition_address) {
            Some(c) => Some(c.duplicate()),
            None => None,
        }
    }

    /// The permission flag of `grantee` on the data of `identity`: `1`
    /// when granted, `0` when never set.
    pub fn permission(&self, identity: &AccountId, grantee: &AccountId) -> (r: u8)
        requires
            self.wf(),
        ensures
            r == self@.permission(*identity, *grantee),
    {
        match self.permissions.get(&(*identity, *grantee)) {
            Some(v) => *v,
            None => 0,
        }
    }

    /// Checks that the first two signatures are by the first two signers
    /// over `encoded`, in either order.
    pub fn valid_signers(signatures: Vec<Signature>, encoded: &[u8], signers: Vec<AccountId>) -> (r:
        DispatchResult)
        requires
            signatures.len() >= 2,
            signers.len() >= 2,
        ensures
            r == if signers_accept(signatures@, encoded@, signers@[0], signers@[1]) {
                Ok(())
            } else {
                refused(Error::InvalidSignature)
            },
    {
        let signature1 = &signatures[0];
        let signature2 = &signatures[1];
        if verify_signature(signature1, encoded, &signers[0]) && verify_signature(
            signature2,
            encoded,
            &signers[1],
        ) {
            Ok(())
        } else if verify_signature(signature1, encoded, &signers[1]) && verify_signature(
            signature2,
            encoded,
            &signers[0],
        ) {
            Ok(())
        } else {
            Err(DispatchError::Module(Error::InvalidSignature))
        }
    }

    /// Opens the access condition at `condition_address` between `owner`
    /// and `grantee`, idle at sequence number 0, and records it.
    fn set_access_condition(
        &mut self,
        condition_address: AccountId,
        nonce: u32,
        owner: AccountId,
        grantee: AccountId,
    ) -> (r: DispatchResult)
        requires
            old(self).wf(),
        ensures
            final(self).wf(),
            final(self)@ == (ModuleView {
                conditions: old(self)@.conditions.insert(
                    condition_address,
                    crate::spec::opened_condition(nonce, owner, grantee),
                ),
                events: old(self)@.events.push(
                    EventView::AccessConditionCreated(condition_address, owner, grantee),
                ),
                ..old(self)@
            }),
            r == Ok::<(), DispatchError>(()),
    {
        let players: Vec<AccountId> = vec![owner, grantee];
        let access_condition = AccessCondition {
            nonce: nonce,
            players: players,
            seq_num: 0,
            status: AppStatus::IDLE,
            outcome: false,
            owner: owner,
            grantee: grantee,
        };
        assert(access_condition@.players =~= seq![owner, grantee]);
        self.condition_list.insert(condition_address, access_condition);
        self.deposit_event(Event::AccessConditionCreated(condition_address, owner, grantee));
        assert(self@.conditions =~= old(self)@.conditions.insert(
            condition_address,
            crate::spec::opened_condition(nonce, owner, grantee),
        ));
        Ok(())
    }

    /// Opens an access condition for `did` between the two channel
    /// `players`: the one who owns the DID becomes its owner, the other its
    /// grantee.
    pub fn create_access_condition(
        &mut self,
        origin: Origin,
        players: Vec<AccountId>,
        nonce: u32,
        did: AccountId,
        condition_address: AccountId,
        dids: &DidRegistry,
    ) -> (r: DispatchResult)
        requires
            old(self).wf(),
            dids.wf(),
        ensures
            final(self).wf(),
            final(self)@ == create_spec(old(self)@, origin, players@, nonce, did, condition_address, dids@).0,
            r == create_spec(old(self)@, origin, players@, nonce, did, condition_address, dids@).1,
    {
        match origin {
            Origin::Signed(_) => {},
            _ => return Err(DispatchError::BadOrigin),
        }
        if players.len() != 2 {
            return Err(DispatchError::Module(Error::InvalidPlayerLength));
        }
        let owner = match dids.owner_of(&did) {
            Some(o) => o,
            None => return Err(DispatchError::Module(Error::NotExist)),
        };
        if !(owner.same_as(&players[0]) || owner.same_as(&players[1])) {
            return Err(DispatchError::Module(Error::NotOwner));
        }
        if self.condition_list.contains_key(&condition_address) {
            return Err(DispatchError::Module(Error::ExistAddress));
        }
        if owner.same_as(&players[0]) {
            self.set_access_condition(condition_address, nonce, players[0], players[1])
        } else {
            self.set_access_condition(condition_address, nonce, players[1], players[0])
        }
    }

    /// Finishes a settlement of `app_state` whose signatures have been
    /// judged: `verdict` is `Ok` when they were found valid, or the refusal
    /// to return.
    pub fn conclude_settle(&mut self, app_state: AppState, verdict: DispatchResult, dids: &DidRegistry) -> (r:
        DispatchResult)
        requires
            old(self).wf(),
            dids.wf(),
            reaches_signature_check(old(self)@, app_state),
        ensures
            final(self).wf(),
            final(self)@ == conclude_spec(old(self)@, app_state, verdict, dids@).0,
            r == conclude_spec(old(self)@, app_state, verdict, dids@).1,
    {
        match verdict {
            Err(e) => return Err(e),
            Ok(()) => {},
        }
        let condition_address = app_state.state.condition_address;
        let access_condition = match self.condition_list.get(&condition_address) {
            Some(c) => c.duplicate(),
            None => return Err(DispatchError::Module(Error::InvalidConditionAddress)),
        };
        let ghost c = old(self)@.conditions[condition_address];
        assert(crate::spec::condition_ok(c));
        if app_state.state.op == 2 {
            let did = match app_state.state.did {
                Some(d) => d,
                None => return Err(DispatchError::Module(Error::NotExist)),
            };
            let did_owner = match dids.owner_of(&did) {
                Some(o) => o,
                None => return Err(DispatchError::Module(Error::NotExist)),
            };
            if !did_owner.same_as(&access_condition.owner) {
                return Err(DispatchError::Module(Error::NotOwner));
            }
            if access_condition.status != AppStatus::IDLE {
                return Err(DispatchError::Module(Error::NotIdleStatus));
            }
            let grantee = access_condition.grantee;
            let new_access_condition = AccessCondition {
                nonce: access_condition.nonce,
                players: access_condition.players,
                seq_num: app_state.seq_num,
                status: AppStatus::FINALIZED,
                outcome: true,
                owner: access_condition.owner,
                grantee: access_condition.grantee,
            };
            self.condition_list.insert(condition_address, new_access_condition);
            self.permissions.insert((did, grantee), 1);
            let block = self.block_number;
            self.deposit_event(Event::IntendSettle(condition_address, block));
            let ghost expected = conclude_spec(old(self)@, app_state, verdict, dids@).0;
            assert(self@.conditions =~= expected.conditions);
            assert(self@ =~= expected);
            Ok(())
        } else {
            if access_condition.status != AppStatus::FINALIZED {
                return Err(DispatchError::Module(Error::NotFinalizedStatus));
            }
            let players: Vec<AccountId> = vec![access_condition.players[0], access_condition.players[1]];
            let swap = app_state.state.op == 0;
            let new_access_condition = AccessCondition {
                nonce: access_condition.nonce,
                players: players,
                seq_num: app_state.seq_num,
                status: AppStatus::IDLE,
                outcome: false,
                owner: if swap { access_condition.grantee } else { access_condition.owner },
                grantee: if swap { access_condition.owner } else { access_condition.grantee },
            };
            assert(new_access_condition@.players =~= seq![c.players[0], c.players[1]]);
            self.condition_list.insert(condition_address, new_access_condition);
            let block = self.block_number;
            if swap {
                self.deposit_event(Event::SwapPosition(condition_address, block));
            } else {
                self.deposit_event(Event::SetIdle(condition_address, block));
            }
            let ghost expected = conclude_spec(old(self)@, app_state, verdict, dids@).0;
            assert(self@.conditions =~= expected.conditions);
            assert(self@ =~= expected);
            Ok(())
        }
    }

    /// Applies a co-signed state proof to its access condition. Op 0 sets
    /// a finalized condition idle and swaps its owner and grantee; op 1
    /// sets it idle; op 2 finalizes an idle condition and grants the
    /// grantee the right to the DID's data. Any other op changes nothing.
    pub fn intend_settle(&mut self, origin: Origin, transaction: StateProof, dids: &DidRegistry) -> (r:
        DispatchResult)
        requires
            old(self).wf(),
            dids.wf(),
            reaches_signature_check(old(self)@, transaction.app_state) ==> transaction.sigs.len() >= 2,
        ensures
            final(self).wf(),
            final(self)@ == settle_spec(old(self)@, origin, transaction.app_state, transaction.sigs@, dids@).0,
            r == settle_spec(old(self)@, origin, transaction.app_state, transaction.sigs@, dids@).1,
    {
        match origin {
            Origin::Signed(_) => {},
            _ => return Err(DispatchError::BadOrigin),
        }
        let StateProof { app_state, sigs } = transaction;
        let condition_address = app_state.state.condition_address;
        let (nonce, seq_num, owner, grantee) = match self.condition_list.get(&condition_address) {
            Some(c) => (c.nonce, c.seq_num, c.owner, c.grantee),
            None => return Err(DispatchError::Module(Error::InvalidConditionAddress)),
        };
        if nonce != app_state.nonce {
            return Err(DispatchError::Module(Error::InvalidNonce));
        }
        if !(seq_num < app_state.seq_num) {
            return Err(DispatchError::Module(Error::InvalidSeqNum));
        }
        let players: Vec<AccountId> = vec![owner, grantee];
        let op = app_state.state.op;
        if op == 0 || op == 1 {
            let encoded = encode_state(&app_state);
            let verdict = Self::valid_signers(sigs, encoded.as_slice(), players);
            self.conclude_settle(app_state, verdict, dids)
        } else if op == 2 {
            let did = match app_state.state.did {
                Some(d) => d,
                None => return Err(DispatchError::Module(Error::NotExist)),
            };
            let mut encoded = encode_state(&app_state);
            let mut part = encode_account(&did);
            encoded.append(&mut part);
            assert(encoded@ == settlement_message(app_state));
            let verdict = Self::valid_signers(sigs, encoded.as_slice(), players);
            self.conclude_settle(app_state, verdict, dids)
        } else {
            Ok(())
        }
    }

    /// Records the fields of the access condition at `condition_address`
    /// as an event.
    pub fn get_access_condition(&mut self, origin: Origin, condition_address: AccountId) -> (r:
        DispatchResult)
        requires
            old(self).wf(),
        ensures
            final(self).wf(),
            final(self)@ == get_access_condition_spec(old(self)@, origin, condition_address).0,
            r == get_access_condition_spec(old(self)@, origin, condition_address).1,
    {
        match origin {
            Origin::Signed(_) => {},
            _ => return Err(DispatchError::BadOrigin),
        }
        let access_condition = match self.condition_list.get(&condition_address) {
            Some(c) => c.duplicate(),
            None => return Err(DispatchError::Module(Error::InvalidConditionAddress)),
        };
        self.deposit_event(
            Event::AccessCondition(
                access_condition.nonce,
                access_condition.players,
                access_condition.seq_num,
                access_condition.owner,
                access_condition.grantee,
            ),
        );
        assert(self@ =~= get_access_condition_spec(old(self)@, origin, condition_address).0);
        Ok(())
    }

    /// Whether the access condition at `condition_address` exists and is
    /// finalized.
    pub fn is_finalized(&self, condition_address: &AccountId) -> (r: bool)
        requires
            self.wf(),
        ensures
            r == (self@.conditions.contains_key(*condition_address)
                && self@.conditions[*condition_address].status == AppStatus::FINALIZED),
    {
        let access_condition = match self.condition_list.get(condition_address) {
            Some(c) => c,
            None => return false,
        };
        let status = access_condition.status;
        if status == AppStatus::FINALIZED {
            return true;
        } else {
            return false;
        }
    }

    /// Whether the access condition at `condition_address` exists and its
    /// outcome is set.
    pub fn get_outcome(&self, condition_address: &AccountId) -> (r: bool)
        requires
            self.wf(),
        ensures
            r == (self@.conditions.contains_key(*condition_address)
                && self@.conditions[*condition_address].outcome),
    {
        let access_condition = match self.condition_list.get(condition_address) {
            Some(c) => c,
            None => return false,
        };
        let outcome = access_condition.outcome;
        if outcome == true {
            return true;
        } else {
            return false;
        }
    }

    /// Whether `grantee` holds the right to the data of `identity`.
    pub fn check_permissions(&self, identity: AccountId, grantee: AccountId) -> (r: bool)
        requires
            self.wf(),
        ensures
            r == (self@.permission(identity, grantee) == 1),
    {
        if self.permission(&identity, &grantee) == 1 {
            return true;
        } else {
            return false;
        }
    }

    /// The nonce of the access condition at `condition_address`.
    pub fn get_nonce(&self, condition_address: AccountId) -> (r: Option<u32>)
        requires
            self.wf(),
        ensures
            r == if self@.conditions.contains_key(condition_address) {
                Some(self@.conditions[condition_address].nonce)
            } else {
                None::<u32>
            },
    {
        let access_condition = match self.condition_list.get(&condition_address) {
            Some(c) => c,
            None => return None,
        };
        return Some(access_condition.nonce);
    }

    /// The sequence number of the access condition at `condition_address`.
    pub fn get_seq_num(&self, condition_address: AccountId) -> (r: Option<u32>)
        requires
            self.wf(),
        ensures
            r == if self@.conditions.contains_key(condition_address) {
                Some(self@.conditions[condition_address].seq_num)
            } else {
                None::<u32>
            },
    {
        let access_condition = match self.condition_list.get(&condition_address) {
            Some(c) => c,
            None => return None,
        };
        return Some(access_condition.seq_num);
    }

    /// The status of the access condition at `condition_address`.
    pub fn get_status(&self, condition_address: AccountId) -> (r: Option<AppStatus>)
        requires
            self.wf(),
        ensures
            r == if self@.conditions.contains_key(condition_address) {
                Some(self@.conditions[condition_address].status)
            } else {
                None::<AppStatus>
            },
    {
        let access_condition = match self.condition_list.get(&condition_address) {
            Some(c) => c,
            None => return None,
        };
        if access_condition.status == AppStatus::IDLE {
            return Some(AppStatus::IDLE);
        } else {
            return Some(AppStatus::FINALIZED);
        }
    }

    /// The owner of the access condition at `condition_address`.
    pub fn get_owner(&self, condition_address: AccountId) -> (r: Option<AccountId>)
        requires
            self.wf(),
        ensures
            r == if self@.conditions.contains_key(condition_address) {
                Some(self@.conditions[condition_address].owner)
            } else {
                None::<AccountId>
            },
    {
        let access_condition = match self.condition_list.get(&condition_address) {
            Some(c) => c,
            None => return None,
        };
        return Some(access_condition.owner);
    }

    /// The grantee of the access condition at `condition_address`.
    pub fn get_grantee(&self, condition_address: AccountId) -> (r: Option<AccountId>)
        requires
            self.wf(),
        ensures
            r == if self@.conditions.contains_key(condition_address) {
                Some(self@.conditions[condition_address].grantee)
            } else {
                None::<AccountId>
            },
    {
        let access_condition = match self.condition_list.get(&condition_address) {
            Some(c) => c,
            None => return None,
        };
        return Some(access_condition.grantee);
    }
}

} // verus!
