//! The module's state as a mathematical value, and what each call does to it.
use vstd::prelude::*;
use crate::scale::le_bytes_u32;
use crate::sr25519::sr25519_verifies;
use crate::types::{
    AccessConditionView, AccountId, AppState, AppStatus, BlockNumber, DispatchError, DispatchResult,
    Error, EventView, Origin, Signature,
};

verus! {

/// The module's storage, event log and current block.
#[verifier::ext_equal]
pub struct ModuleView {
    /// Each condition address's access condition.
    pub conditions: Map<AccountId, AccessConditionView>,
    /// Data access rights: (DID, grantee) to a flag, `1` when granted.
    pub permissions: Map<(AccountId, AccountId), u8>,
    /// The events deposited so far, oldest first.
    pub events: Seq<EventView>,
    /// The block that new events are stamped with.
    pub block_number: BlockNumber,
}

/// The refusal that carries one of this module's errors.
pub open spec fn refused(e: Error) -> DispatchResult {
    Err(DispatchError::Module(e))
}

/// An access condition keeps two players, who are its owner and its
/// grantee in some order, and its outcome is set exactly when it is
/// finalized.
pub open spec fn condition_ok(c: AccessConditionView) -> bool {
    &&& c.players.len() == 2
    &&& {
        ||| c.players[0] == c.owner && c.players[1] == c.grantee
        ||| c.players[0] == c.grantee && c.players[1] == c.owner
    }
    &&& c.outcome <==> c.status == AppStatus::FINALIZED
}

impl ModuleView {
    /// Every stored access condition is well formed.
    pub open spec fn valid(self) -> bool {
        forall|a: AccountId| #[trigger] self.conditions.contains_key(a) ==> condition_ok(self.conditions[a])
    }

    /// The permission flag of `grantee` on `identity`'s data (`0` if unset).
    pub open spec fn permission(self, identity: AccountId, grantee: AccountId) -> u8 {
        if self.permissions.contains_key((identity, grantee)) {
            self.permissions[(identity, grantee)]
        } else {
            0
        }
    }
}

/// A freshly opened access condition.
pub open spec fn opened_condition(nonce: u32, owner: AccountId, grantee: AccountId) -> AccessConditionView {
    AccessConditionView {
        nonce,
        players: seq![owner, grantee],
        seq_num: 0,
        status: AppStatus::IDLE,
        outcome: false,
        owner,
        grantee,
    }
}

/// `create_access_condition`: the state after the call and its result.
pub open spec fn create_spec(
    s: ModuleView,
    origin: Origin,
    players: Seq<AccountId>,
    nonce: u32,
    did: AccountId,
    condition_address: AccountId,
    dids: Map<AccountId, AccountId>,
) -> (ModuleView, DispatchResult) {
    if !(origin is Signed) {
        (s, Err(DispatchError::BadOrigin))
    } else if players.len() != 2 {
        (s, refused(Error::InvalidPlayerLength))
    } else if !dids.contains_key(did) {
        (s, refused(Error::NotExist))
    } else if dids[did] != players[0] && dids[did] != players[1] {
        (s, refused(Error::NotOwner))
    } else if s.conditions.contains_key(condition_address) {
        (s, refused(Error::ExistAddress))
    } else {
        let owner = dids[did];
        let grantee = if owner == players[0] { players[1] } else { players[0] };
        (
            ModuleView {
                conditions: s.conditions.insert(condition_address, opened_condition(nonce, owner, grantee)),
                events: s.events.push(EventView::AccessConditionCreated(condition_address, owner, grantee)),
                ..s
            },
            Ok(()),
        )
    }
}

/// The bytes that both peers sign for a channel state: the SCALE
/// encodings of its nonce, sequence number, condition address and op, in
/// that order.
pub open spec fn state_message(a: AppState) -> Seq<u8> {
    le_bytes_u32(a.nonce) + le_bytes_u32(a.seq_num) + a.state.condition_address.0@ + seq![a.state.op]
}

/// The bytes signed for a settlement: for op 2 the DID's bytes follow.
pub open spec fn settlement_message(a: AppState) -> Seq<u8> {
    if a.state.op == 2 && a.state.did is Some {
        state_message(a) + (a.state.did->0).0@
    } else {
        state_message(a)
    }
}

/// The first two signatures are by `first` and `second`, in either order.
pub open spec fn signers_accept(sigs: Seq<Signature>, message: Seq<u8>, first: AccountId, second: AccountId) -> bool {
    ||| sr25519_verifies(sigs[0].0@, message, first.0@) && sr25519_verifies(sigs[1].0@, message, second.0@)
    ||| sr25519_verifies(sigs[0].0@, message, second.0@) && sr25519_verifies(sigs[1].0@, message, first.0@)
}

/// Whether a settlement of `a` gets as far as checking its signatures.
pub open spec fn reaches_signature_check(s: ModuleView, a: AppState) -> bool {
    let addr = a.state.condition_address;
    &&& s.conditions.contains_key(addr)
    &&& s.conditions[addr].nonce == a.nonce
    &&& s.conditions[addr].seq_num < a.seq_num
    &&& {
        ||| a.state.op == 0
        ||| a.state.op == 1
        ||| a.state.op == 2 && a.state.did is Some
    }
}

/// What a settlement does once the signatures have been judged:
/// `verdict` is `Ok` when they were found valid.
pub open spec fn conclude_spec(
    s: ModuleView,
    a: AppState,
    verdict: DispatchResult,
    dids: Map<AccountId, AccountId>,
) -> (ModuleView, DispatchResult) {
    let addr = a.state.condition_address;
    let c = s.conditions[addr];
    if verdict is Err {
        (s, verdict)
    } else if a.state.op == 2 {
        let did = a.state.did->0;
        if !dids.contains_key(did) {
            (s, refused(Error::NotExist))
        } else if dids[did] != c.owner {
            (s, refused(Error::NotOwner))
        } else if c.status != AppStatus::IDLE {
            (s, refused(Error::NotIdleStatus))
        } else {
            (
                ModuleView {
                    conditions: s.conditions.insert(
                        addr,
                        AccessConditionView {
                            seq_num: a.seq_num,
                            status: AppStatus::FINALIZED,
                            outcome: true,
                            ..c
                        },
                    ),
                    permissions: s.permissions.insert((did, c.grantee), 1),
                    events: s.events.push(EventView::IntendSettle(addr, s.block_number)),
                    ..s
                },
                Ok(()),
            )
        }
    } else if c.status != AppStatus::FINALIZED {
        (s, refused(Error::NotFinalizedStatus))
    } else if a.state.op == 0 {
        (
            ModuleView {
                conditions: s.conditions.insert(
                    addr,
                    AccessConditionView {
                        players: seq![c.players[0], c.players[1]],
                        seq_num: a.seq_num,
                        status: AppStatus::IDLE,
                        outcome: false,
                        owner: c.grantee,
                        grantee: c.owner,
                        ..c
                    },
                ),
                events: s.events.push(EventView::SwapPosition(addr, s.block_number)),
                ..s
            },
            Ok(()),
        )
    } else {
        (
            ModuleView {
                conditions: s.conditions.insert(
                    addr,
                    AccessConditionView {
                        players: seq![c.players[0], c.players[1]],
                        seq_num: a.seq_num,
                        status: AppStatus::IDLE,
                        outcome: false,
                        ..c
                    },
                ),
                events: s.events.push(EventView::SetIdle(addr, s.block_number)),
                ..s
            },
            Ok(()),
        )
    }
}

/// `intend_settle`: the state after the call and its result.
pub open spec fn settle_spec(
    s: ModuleView,
    origin: Origin,
    a: AppState,
    sigs: Seq<Signature>,
    dids: Map<AccountId, AccountId>,
) -> (ModuleView, DispatchResult) {
    let addr = a.state.condition_address;
    if !(origin is Signed) {
        (s, Err(DispatchError::BadOrigin))
    } else if !s.conditions.contains_key(addr) {
        (s, refused(Error::InvalidConditionAddress))
    } else if s.conditions[addr].nonce != a.nonce {
        (s, refused(Error::InvalidNonce))
    } else if !(s.conditions[addr].seq_num < a.seq_num) {
        (s, refused(Error::InvalidSeqNum))
    } else if a.state.op > 2 {
        (s, Ok(()))
    } else if a.state.op == 2 && a.state.did is None {
        (s, refused(Error::NotExist))
    } else {
        let c = s.conditions[addr];
        let verdict = if signers_accept(sigs, settlement_message(a), c.owner, c.grantee) {
            Ok(())
        } else {
            refused(Error::InvalidSignature)
        };
        conclude_spec(s, a, verdict, dids)
    }
}

/// `get_access_condition`: the state after the call and its result.
pub open spec fn get_access_condition_spec(
    s: ModuleView,
    origin: Origin,
    condition_address: AccountId,
) -> (ModuleView, DispatchResult) {
    if !(origin is Signed) {
        (s, Err(DispatchError::BadOrigin))
    } else if !s.conditions.contains_key(condition_address) {
        (s, refused(Error::InvalidConditionAddress))
    } else {
        let c = s.conditions[condition_address];
        (
            ModuleView {
                events: s.events.push(
                    EventView::AccessCondition(c.nonce, c.players, c.seq_num, c.owner, c.grantee),
                ),
                ..s
            },
            Ok(()),
        )
    }
}

} // verus!
