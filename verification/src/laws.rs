//! What holds of every call of the module, whatever its arguments.
use vstd::prelude::*;
use crate::spec::{
    condition_ok, create_spec, get_access_condition_spec, refused, settle_spec, settlement_message,
    signers_accept, ModuleView,
};
use crate::scale::le_bytes_u32;
use crate::sr25519::sr25519_verifies;
use crate::types::{
    AccessConditionView, AccountId, AppState, AppStatus, DispatchError, Error, EventView, Origin, Signature,
};

verus! {

/// The effect of one call on the module's state, whichever call it is.
pub enum Call {
    Create {
        origin: Origin,
        players: Seq<AccountId>,
        nonce: u32,
        did: AccountId,
        condition_address: AccountId,
    },
    Settle { origin: Origin, app_state: AppState, sigs: Seq<Signature> },
    GetAccessCondition { origin: Origin, condition_address: AccountId },
}

/// The state after `call` and its result.
pub open spec fn apply(
    s: ModuleView,
    call: Call,
    dids: Map<AccountId, AccountId>,
) -> (ModuleView, Result<(), DispatchError>) {
    match call {
        Call::Create { origin, players, nonce, did, condition_address } => create_spec(
            s,
            origin,
            players,
            nonce,
            did,
            condition_address,
            dids,
        ),
        Call::Settle { origin, app_state, sigs } => settle_spec(s, origin, app_state, sigs, dids),
        Call::GetAccessCondition { origin, condition_address } => get_access_condition_spec(
            s,
            origin,
            condition_address,
        ),
    }
}

/// Every call keeps every access condition well formed: two players, who
/// are its owner and grantee, and an outcome set exactly when finalized.
pub proof fn calls_keep_conditions_valid(s: ModuleView, call: Call, dids: Map<AccountId, AccountId>)
    requires
        s.valid(),
    ensures
        apply(s, call, dids).0.valid(),
{
    let t = apply(s, call, dids).0;
    assert forall|a: AccountId| #[trigger] t.conditions.contains_key(a) implies condition_ok(t.conditions[a]) by {
        if s.conditions.contains_key(a) {
            assert(condition_ok(s.conditions[a]));
        }
    }
}

/// A refused call changes nothing: not the conditions, the rights, nor
/// the event log.
pub proof fn refused_calls_change_nothing(s: ModuleView, call: Call, dids: Map<AccountId, AccountId>)
    requires
        apply(s, call, dids).1 is Err,
    ensures
        apply(s, call, dids).0 == s,
{
}

/// No call removes an access condition or changes its nonce or its
/// players, and none lowers its sequence number.
pub proof fn conditions_are_never_lost(
    s: ModuleView,
    call: Call,
    dids: Map<AccountId, AccountId>,
    a: AccountId,
)
    requires
        s.valid(),
        s.conditions.contains_key(a),
    ensures
        apply(s, call, dids).0.conditions.contains_key(a),
        apply(s, call, dids).0.conditions[a].nonce == s.conditions[a].nonce,
        apply(s, call, dids).0.conditions[a].players == s.conditions[a].players,
        apply(s, call, dids).0.conditions[a].seq_num >= s.conditions[a].seq_num,
{
    let c = s.conditions[a];
    assert(condition_ok(c));
    let t = apply(s, call, dids).0;
    if t.conditions[a].players != c.players {
        assert(t.conditions[a].players =~= c.players);
    }
}

/// No call takes a data access right away once it is granted.
pub proof fn permissions_are_never_revoked(
    s: ModuleView,
    call: Call,
    dids: Map<AccountId, AccountId>,
    identity: AccountId,
    grantee: AccountId,
)
    requires
        s.permission(identity, grantee) == 1,
    ensures
        apply(s, call, dids).0.permission(identity, grantee) == 1,
{
}

/// Once a state proof has been accepted for op 0, 1 or 2, submitting it
/// again is refused: by origin if the call is unsigned, else for its
/// sequence number, whatever signatures come with it.
pub proof fn settled_proof_cannot_be_replayed(
    s: ModuleView,
    origin: Origin,
    a: AppState,
    sigs: Seq<Signature>,
    dids: Map<AccountId, AccountId>,
    origin2: Origin,
    sigs2: Seq<Signature>,
    dids2: Map<AccountId, AccountId>,
)
    requires
        settle_spec(s, origin, a, sigs, dids).1 is Ok,
        a.state.op <= 2,
    ensures
        settle_spec(settle_spec(s, origin, a, sigs, dids).0, origin2, a, sigs2, dids2).1 == if origin2 is Signed {
            refused(Error::InvalidSeqNum)
        } else {
            Err(DispatchError::BadOrigin)
        },
{
}

/// An accepted settlement for op 0, 1 or 2 moves the condition to the
/// proof's sequence number, which is above the one it had: op 2 from idle
/// to finalized with its outcome set, ops 0 and 1 from finalized to idle
/// with the outcome cleared.
pub proof fn settlement_alternates_status(
    s: ModuleView,
    origin: Origin,
    a: AppState,
    sigs: Seq<Signature>,
    dids: Map<AccountId, AccountId>,
)
    requires
        settle_spec(s, origin, a, sigs, dids).1 is Ok,
        a.state.op <= 2,
    ensures
        ({
            let addr = a.state.condition_address;
            let before = s.conditions[addr];
            let after = settle_spec(s, origin, a, sigs, dids).0.conditions[addr];
            &&& s.conditions.contains_key(addr)
            &&& before.seq_num < a.seq_num
            &&& after.seq_num == a.seq_num
            &&& a.state.op == 2 ==> {
                &&& before.status == AppStatus::IDLE
                &&& after.status == AppStatus::FINALIZED
                &&& after.outcome
            }
            &&& a.state.op != 2 ==> {
                &&& before.status == AppStatus::FINALIZED
                &&& after.status == AppStatus::IDLE
                &&& !after.outcome
            }
        }),
{
}

/// An accepted op 0 exchanges the condition's owner and grantee; an
/// accepted op 1 or 2 keeps them.
pub proof fn swap_exchanges_owner_and_grantee(
    s: ModuleView,
    origin: Origin,
    a: AppState,
    sigs: Seq<Signature>,
    dids: Map<AccountId, AccountId>,
)
    requires
        settle_spec(s, origin, a, sigs, dids).1 is Ok,
    ensures
        ({
            let addr = a.state.condition_address;
            let before = s.conditions[addr];
            let after = settle_spec(s, origin, a, sigs, dids).0.conditions[addr];
            &&& a.state.op == 0 ==> after.owner == before.grantee && after.grantee == before.owner
            &&& a.state.op != 0 ==> after.owner == before.owner && after.grantee == before.grantee
        }),
{
}

/// An accepted op 2 was signed for a DID that the condition's owner owns,
/// and gives the condition's grantee the right to that DID's data.
pub proof fn finalizing_grants_the_grantee(
    s: ModuleView,
    origin: Origin,
    a: AppState,
    sigs: Seq<Signature>,
    dids: Map<AccountId, AccountId>,
)
    requires
        settle_spec(s, origin, a, sigs, dids).1 is Ok,
        a.state.op == 2,
    ensures
        ({
            let addr = a.state.condition_address;
            let did = a.state.did->0;
            &&& a.state.did is Some
            &&& dids.contains_key(did)
            &&& dids[did] == s.conditions[addr].owner
            &&& settle_spec(s, origin, a, sigs, dids).0.permission(did, s.conditions[addr].grantee) == 1
        }),
{
}

/// A state proof whose op is not 0, 1 or 2 changes nothing.
pub proof fn unknown_ops_change_nothing(
    s: ModuleView,
    origin: Origin,
    a: AppState,
    sigs: Seq<Signature>,
    dids: Map<AccountId, AccountId>,
)
    requires
        a.state.op > 2,
    ensures
        settle_spec(s, origin, a, sigs, dids).0 == s,
{
}

/// A signature check does not depend on the order of the two signers.
pub proof fn signer_order_does_not_matter(sigs: Seq<Signature>, message: Seq<u8>, first: AccountId, second: AccountId)
    ensures
        signers_accept(sigs, message, first, second) == signers_accept(sigs, message, second, first),
{
}

/// An access condition is created as the DID owner's: the player who owns
/// the DID becomes its owner and the other its grantee, idle at sequence
/// number 0 with its outcome unset.
pub proof fn creation_makes_the_did_owner_owner(
    s: ModuleView,
    origin: Origin,
    players: Seq<AccountId>,
    nonce: u32,
    did: AccountId,
    condition_address: AccountId,
    dids: Map<AccountId, AccountId>,
)
    requires
        create_spec(s, origin, players, nonce, did, condition_address, dids).1 is Ok,
    ensures
        ({
            let c = create_spec(s, origin, players, nonce, did, condition_address, dids).0.conditions[condition_address];
            &&& !s.conditions.contains_key(condition_address)
            &&& players.len() == 2
            &&& dids.contains_key(did)
            &&& c.owner == dids[did]
            &&& c.owner == players[0] ==> c.grantee == players[1]
            &&& c.owner != players[0] ==> c.owner == players[1] && c.grantee == players[0]
            &&& c.nonce == nonce
            &&& c.seq_num == 0
            &&& c.status == AppStatus::IDLE
            &&& !c.outcome
        }),
{
}

/// In a valid state the outcome of a condition is set exactly when it is
/// finalized.
pub proof fn outcome_is_set_exactly_when_finalized(s: ModuleView, a: AccountId)
    requires
        s.valid(),
        s.conditions.contains_key(a),
    ensures
        s.conditions[a].outcome <==> s.conditions[a].status == AppStatus::FINALIZED,
{
    assert(condition_ok(s.conditions[a]));
}

/// An existing access condition changes only through a state proof for
/// it that both of its peers, owner and grantee, have signed.
pub proof fn changes_need_both_signatures(
    s: ModuleView,
    call: Call,
    dids: Map<AccountId, AccountId>,
    a: AccountId,
)
    requires
        s.conditions.contains_key(a),
        apply(s, call, dids).0.conditions[a] != s.conditions[a],
    ensures
        call matches Call::Settle { origin, app_state, sigs } && {
            &&& app_state.state.condition_address == a
            &&& signers_accept(sigs, settlement_message(app_state), s.conditions[a].owner, s.conditions[a].grantee)
        },
{
}

/// A data access right is granted only by an accepted op 2 for that DID,
/// signed by both peers of a condition whose grantee receives it.
pub proof fn rights_come_only_from_cosigned_finalization(
    s: ModuleView,
    call: Call,
    dids: Map<AccountId, AccountId>,
    identity: AccountId,
    grantee: AccountId,
)
    requires
        s.permission(identity, grantee) != 1,
        apply(s, call, dids).0.permission(identity, grantee) == 1,
    ensures
        call matches Call::Settle { origin, app_state, sigs } && {
            let c = s.conditions[app_state.state.condition_address];
            &&& app_state.state.op == 2
            &&& app_state.state.did == Some(identity)
            &&& c.grantee == grantee
            &&& signers_accept(sigs, settlement_message(app_state), c.owner, c.grantee)
        },
{
}

/// The SCALE bytes of a channel state's nonce, sequence number, condition
/// address and op, written out.
pub open spec fn scale_state(nonce: u32, seq_num: u32, address: AccountId, op: u8) -> Seq<u8> {
    le_bytes_u32(nonce) + le_bytes_u32(seq_num) + address.0@ + seq![op]
}

/// The first two signatures verify over `message`, one by `p` and the
/// other by `q`, in either order.
pub open spec fn cosigned(sigs: Seq<Signature>, message: Seq<u8>, p: AccountId, q: AccountId) -> bool {
    ||| sr25519_verifies(sigs[0].0@, message, p.0@) && sr25519_verifies(sigs[1].0@, message, q.0@)
    ||| sr25519_verifies(sigs[0].0@, message, q.0@) && sr25519_verifies(sigs[1].0@, message, p.0@)
}

/// Opening is complete: a signed call with two players, one of whom owns
/// the registered DID, at an unused address, is accepted for every nonce.
/// It stores an idle condition at sequence number 0 whose owner is the
/// DID's owner and whose grantee is the other player, records the
/// creation, and changes nothing else.
pub proof fn creation_is_complete(
    s: ModuleView,
    origin: Origin,
    players: Seq<AccountId>,
    nonce: u32,
    did: AccountId,
    condition_address: AccountId,
    dids: Map<AccountId, AccountId>,
)
    requires
        origin is Signed,
        players.len() == 2,
        dids.contains_key(did),
        dids[did] == players[0] || dids[did] == players[1],
        !s.conditions.contains_key(condition_address),
    ensures
        ({
            let (t, r) = create_spec(s, origin, players, nonce, did, condition_address, dids);
            let owner = dids[did];
            let grantee = if owner == players[0] { players[1] } else { players[0] };
            &&& r == Ok::<(), DispatchError>(())
            &&& t.conditions == s.conditions.insert(
                condition_address,
                AccessConditionView {
                    nonce,
                    players: seq![owner, grantee],
                    seq_num: 0,
                    status: AppStatus::IDLE,
                    outcome: false,
                    owner,
                    grantee,
                },
            )
            &&& t.permissions == s.permissions
            &&& t.events == s.events.push(EventView::AccessConditionCreated(condition_address, owner, grantee))
            &&& t.block_number == s.block_number
        }),
{
}

/// Opening is refused exactly for an unsigned call, a player count other
/// than two, an unregistered DID, a DID that neither player owns, or an
/// address already in use, checked in that order.
pub proof fn creation_refusals(
    s: ModuleView,
    origin: Origin,
    players: Seq<AccountId>,
    nonce: u32,
    did: AccountId,
    condition_address: AccountId,
    dids: Map<AccountId, AccountId>,
)
    ensures
        ({
            let r = create_spec(s, origin, players, nonce, did, condition_address, dids).1;
            &&& !(origin is Signed) ==> r == Err::<(), DispatchError>(DispatchError::BadOrigin)
            &&& origin is Signed && players.len() != 2 ==> r == refused(Error::InvalidPlayerLength)
            &&& origin is Signed && players.len() == 2 && !dids.contains_key(did) ==> r == refused(
                Error::NotExist,
            )
            &&& origin is Signed && players.len() == 2 && dids.contains_key(did) && dids[did] != players[0]
                && dids[did] != players[1] ==> r == refused(Error::NotOwner)
            &&& origin is Signed && players.len() == 2 && dids.contains_key(did) && (dids[did] == players[0]
                || dids[did] == players[1]) && s.conditions.contains_key(condition_address) ==> r == refused(
                Error::ExistAddress,
            )
        }),
{
}

/// Finalizing is complete: a signed op 2 proof for an existing idle
/// condition, with its nonce and a higher sequence number, naming a DID
/// registered to the condition's current owner, and signed by owner and
/// grantee (in either order) over the SCALE state followed by the DID, is
/// accepted. The condition becomes finalized with its outcome set at the
/// proof's sequence number, keeping its nonce, players, owner and grantee;
/// the grantee gets the right to the DID's data; the settlement is
/// recorded at the current block; nothing else changes.
pub proof fn finalizing_is_complete(
    s: ModuleView,
    origin: Origin,
    a: AppState,
    sigs: Seq<Signature>,
    dids: Map<AccountId, AccountId>,
    did: AccountId,
)
    requires
        origin is Signed,
        s.conditions.contains_key(a.state.condition_address),
        s.conditions[a.state.condition_address].nonce == a.nonce,
        s.conditions[a.state.condition_address].seq_num < a.seq_num,
        s.conditions[a.state.condition_address].status == AppStatus::IDLE,
        a.state.op == 2,
        a.state.did == Some(did),
        dids.contains_key(did),
        dids[did] == s.conditions[a.state.condition_address].owner,
        cosigned(
            sigs,
            scale_state(a.nonce, a.seq_num, a.state.condition_address, 2) + did.0@,
            s.conditions[a.state.condition_address].owner,
            s.conditions[a.state.condition_address].grantee,
        ),
    ensures
        ({
            let addr = a.state.condition_address;
            let c = s.conditions[addr];
            let (t, r) = settle_spec(s, origin, a, sigs, dids);
            &&& r == Ok::<(), DispatchError>(())
            &&& t.conditions == s.conditions.insert(
                addr,
                AccessConditionView {
                    nonce: c.nonce,
                    players: c.players,
                    seq_num: a.seq_num,
                    status: AppStatus::FINALIZED,
                    outcome: true,
                    owner: c.owner,
                    grantee: c.grantee,
                },
            )
            &&& t.permissions == s.permissions.insert((did, c.grantee), 1)
            &&& t.events == s.events.push(EventView::IntendSettle(addr, s.block_number))
            &&& t.block_number == s.block_number
        }),
{
    assert(settlement_message(a) =~= scale_state(a.nonce, a.seq_num, a.state.condition_address, 2) + did.0@);
}

/// Setting idle is complete: a signed op 0 or op 1 proof for an existing
/// finalized condition, with its nonce and any higher sequence number,
/// signed by owner and grantee (in either order) over the SCALE state, is
/// accepted. The condition becomes idle with its outcome cleared at the
/// proof's sequence number, keeping its nonce and players; op 0 exchanges
/// owner and grantee, op 1 keeps them; the change is recorded at the
/// current block; rights and other conditions stay as they were.
pub proof fn idling_is_complete(
    s: ModuleView,
    origin: Origin,
    a: AppState,
    sigs: Seq<Signature>,
    dids: Map<AccountId, AccountId>,
)
    requires
        s.valid(),
        origin is Signed,
        s.conditions.contains_key(a.state.condition_address),
        s.conditions[a.state.condition_address].nonce == a.nonce,
        s.conditions[a.state.condition_address].seq_num < a.seq_num,
        s.conditions[a.state.condition_address].status == AppStatus::FINALIZED,
        a.state.op == 0 || a.state.op == 1,
        cosigned(
            sigs,
            scale_state(a.nonce, a.seq_num, a.state.condition_address, a.state.op),
            s.conditions[a.state.condition_address].owner,
            s.conditions[a.state.condition_address].grantee,
        ),
    ensures
        ({
            let addr = a.state.condition_address;
            let c = s.conditions[addr];
            let swap = a.state.op == 0;
            let (t, r) = settle_spec(s, origin, a, sigs, dids);
            &&& r == Ok::<(), DispatchError>(())
            &&& t.conditions == s.conditions.insert(
                addr,
                AccessConditionView {
                    nonce: c.nonce,
                    players: c.players,
                    seq_num: a.seq_num,
                    status: AppStatus::IDLE,
                    outcome: false,
                    owner: if swap { c.grantee } else { c.owner },
                    grantee: if swap { c.owner } else { c.grantee },
                },
            )
            &&& t.permissions == s.permissions
            &&& t.events == s.events.push(
                if swap {
                    EventView::SwapPosition(addr, s.block_number)
                } else {
                    EventView::SetIdle(addr, s.block_number)
                },
            )
            &&& t.block_number == s.block_number
        }),
{
    let addr = a.state.condition_address;
    let c = s.conditions[addr];
    assert(condition_ok(c));
    assert(seq![c.players[0], c.players[1]] =~= c.players);
    assert(settlement_message(a) =~= scale_state(a.nonce, a.seq_num, addr, a.state.op));
}

/// A settlement is refused exactly for: an unsigned call; an unknown
/// condition address; a wrong nonce; a sequence number not above the
/// stored one; op 2 without a DID; signatures that are not one by the
/// owner and one by the grantee over the signed bytes; for op 2, a DID
/// that is unregistered, registered to someone other than the current
/// owner, or a condition that is not idle; for ops 0 and 1, a condition
/// that is not finalized. An op above 2 that passes the first checks is
/// accepted and changes nothing.
pub proof fn settlement_refusals(
    s: ModuleView,
    origin: Origin,
    a: AppState,
    sigs: Seq<Signature>,
    dids: Map<AccountId, AccountId>,
)
    ensures
        ({
            let addr = a.state.condition_address;
            let c = s.conditions[addr];
            let op = a.state.op;
            let (t, r) = settle_spec(s, origin, a, sigs, dids);
            let checked = origin is Signed && s.conditions.contains_key(addr) && c.nonce == a.nonce
                && c.seq_num < a.seq_num;
            let bytes = scale_state(a.nonce, a.seq_num, addr, op);
            let signed = if op == 2 {
                cosigned(sigs, bytes + (a.state.did->0).0@, c.owner, c.grantee)
            } else {
                cosigned(sigs, bytes, c.owner, c.grantee)
            };
            let did = a.state.did->0;
            &&& !(origin is Signed) ==> r == Err::<(), DispatchError>(DispatchError::BadOrigin)
            &&& origin is Signed && !s.conditions.contains_key(addr) ==> r == refused(
                Error::InvalidConditionAddress,
            )
            &&& origin is Signed && s.conditions.contains_key(addr) && c.nonce != a.nonce ==> r == refused(
                Error::InvalidNonce,
            )
            &&& origin is Signed && s.conditions.contains_key(addr) && c.nonce == a.nonce && c.seq_num
                >= a.seq_num ==> r == refused(Error::InvalidSeqNum)
            &&& checked && op > 2 ==> r == Ok::<(), DispatchError>(()) && t == s
            &&& checked && op == 2 && a.state.did is None ==> r == refused(Error::NotExist)
            &&& checked && (op <= 1 || (op == 2 && a.state.did is Some)) && !signed ==> r == refused(
                Error::InvalidSignature,
            )
            &&& checked && op == 2 && a.state.did is Some && signed && !dids.contains_key(did) ==> r
                == refused(Error::NotExist)
            &&& checked && op == 2 && a.state.did is Some && signed && dids.contains_key(did) && dids[did]
                != c.owner ==> r == refused(Error::NotOwner)
            &&& checked && op == 2 && a.state.did is Some && signed && dids.contains_key(did) && dids[did]
                == c.owner && c.status != AppStatus::IDLE ==> r == refused(Error::NotIdleStatus)
            &&& checked && op <= 1 && signed && c.status != AppStatus::FINALIZED ==> r == refused(
                Error::NotFinalizedStatus,
            )
        }),
{
    let addr = a.state.condition_address;
    if a.state.op == 2 && a.state.did is Some {
        assert(settlement_message(a) =~= scale_state(a.nonce, a.seq_num, addr, 2) + (a.state.did->0).0@);
    } else {
        assert(settlement_message(a) =~= scale_state(a.nonce, a.seq_num, addr, a.state.op));
    }
}

/// Exchanging the first two signatures of a state proof changes neither
/// the result of the settlement nor the state after it.
pub proof fn settlement_ignores_signature_order(
    s: ModuleView,
    origin: Origin,
    a: AppState,
    sigs: Seq<Signature>,
    dids: Map<AccountId, AccountId>,
)
    requires
        sigs.len() >= 2,
    ensures
        settle_spec(s, origin, a, sigs, dids) == settle_spec(
            s,
            origin,
            a,
            sigs.update(0, sigs[1]).update(1, sigs[0]),
            dids,
        ),
{
    let swapped = sigs.update(0, sigs[1]).update(1, sigs[0]);
    assert(swapped[0] == sigs[1] && swapped[1] == sigs[0]);
}

/// Reporting a condition succeeds exactly for a signed call on an existing
/// address. It records one event carrying the condition's nonce, players,
/// sequence number, and its current owner and grantee (the values that
/// `get_owner` and `get_grantee` give), and changes nothing else.
pub proof fn report_carries_current_owner_and_grantee(
    s: ModuleView,
    origin: Origin,
    condition_address: AccountId,
)
    ensures
        ({
            let (t, r) = get_access_condition_spec(s, origin, condition_address);
            &&& r is Ok <==> origin is Signed && s.conditions.contains_key(condition_address)
            &&& r is Ok ==> {
                let c = s.conditions[condition_address];
                &&& t.conditions == s.conditions
                &&& t.permissions == s.permissions
                &&& t.block_number == s.block_number
                &&& t.events.len() == s.events.len() + 1
                &&& t.events.drop_last() == s.events
                &&& t.events.last() matches EventView::AccessCondition(n, p, q, o, g) && {
                    &&& n == c.nonce
                    &&& p == c.players
                    &&& q == c.seq_num
                    &&& o == c.owner
                    &&& g == c.grantee
                }
            }
        }),
{
    let (t, r) = get_access_condition_spec(s, origin, condition_address);
    if r is Ok {
        assert(t.events.drop_last() =~= s.events);
    }
}

/// The signature check behind `valid_signers` accepts exactly when one of
/// the first two signatures verifies for each of the two signers.
pub proof fn signature_check_needs_both_signers(
    sigs: Seq<Signature>,
    message: Seq<u8>,
    first: AccountId,
    second: AccountId,
)
    ensures
        signers_accept(sigs, message, first, second) <==> cosigned(sigs, message, first, second),
{
}

} // verus!
