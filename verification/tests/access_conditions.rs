use did_offchain_trade::did::DidRegistry;
use did_offchain_trade::module::Module;
use did_offchain_trade::types::{
    AccessCondition, AccountId, AppState, AppStatus, DispatchError, Error, Event, Origin, Signature,
    State, StateProof,
};
use parity_scale_codec::Encode;
use sp_core::Pair;

fn key(seed: u8) -> sp_core::sr25519::Pair {
    sp_core::sr25519::Pair::from_seed(&[seed; 32])
}

fn account(p: &sp_core::sr25519::Pair) -> AccountId {
    AccountId(p.public().0)
}

fn sign(p: &sp_core::sr25519::Pair, message: &[u8]) -> Signature {
    Signature(p.sign(message).0)
}

fn message(nonce: u32, seq_num: u32, address: AccountId, op: u8, did: Option<AccountId>) -> Vec<u8> {
    let mut m = nonce.encode();
    m.extend(seq_num.encode());
    m.extend(sp_core::crypto::AccountId32::new(address.0).encode());
    m.extend(op.encode());
    if let Some(d) = did {
        m.extend(sp_core::crypto::AccountId32::new(d.0).encode());
    }
    m
}

fn refused(e: Error) -> Result<(), DispatchError> {
    Err(DispatchError::Module(e))
}

struct World {
    alice: sp_core::sr25519::Pair,
    bob: sp_core::sr25519::Pair,
    did: AccountId,
    address: AccountId,
    dids: DidRegistry,
    module: Module,
}

fn world() -> World {
    let alice = key(1);
    let bob = key(2);
    let did = AccountId([7; 32]);
    let address = AccountId([9; 32]);
    let mut dids = DidRegistry::new();
    dids.set_owner(did, account(&alice));
    World { alice, bob, did, address, dids, module: Module::new() }
}

/// A world with an access condition at `address`: owner alice, grantee bob, nonce 5.
fn opened() -> World {
    let mut w = world();
    let r = w.module.create_access_condition(
        Origin::Signed(account(&w.bob)),
        vec![account(&w.bob), account(&w.alice)],
        5,
        w.did,
        w.address,
        &w.dids,
    );
    assert_eq!(r, Ok(()));
    w
}

fn state_proof(
    w: &World,
    nonce: u32,
    seq_num: u32,
    op: u8,
    did: Option<AccountId>,
    first: &sp_core::sr25519::Pair,
    second: &sp_core::sr25519::Pair,
) -> StateProof {
    let m = message(nonce, seq_num, w.address, op, did);
    StateProof {
        app_state: AppState { nonce, seq_num, state: State { condition_address: w.address, op, did } },
        sigs: vec![sign(first, &m), sign(second, &m)],
    }
}

fn settle(w: &mut World, p: StateProof) -> Result<(), DispatchError> {
    w.module.intend_settle(Origin::Signed(account(&w.alice)), p, &w.dids)
}

/// A world whose condition was finalized by op 2 at sequence number 1.
fn finalized() -> World {
    let mut w = opened();
    let p = state_proof(&w, 5, 1, 2, Some(w.did), &w.alice, &w.bob);
    assert_eq!(settle(&mut w, p), Ok(()));
    w
}

#[test]
fn create_makes_the_did_owner_owner() {
    let w = opened();
    let alice = account(&w.alice);
    let bob = account(&w.bob);
    assert_eq!(w.module.get_owner(w.address), Some(alice));
    assert_eq!(w.module.get_grantee(w.address), Some(bob));
    assert_eq!(w.module.get_nonce(w.address), Some(5));
    assert_eq!(w.module.get_seq_num(w.address), Some(0));
    assert_eq!(w.module.get_status(w.address), Some(AppStatus::IDLE));
    assert!(!w.module.is_finalized(&w.address));
    assert!(!w.module.get_outcome(&w.address));
    assert_eq!(
        w.module.condition_list(&w.address),
        Some(AccessCondition {
            nonce: 5,
            players: vec![alice, bob],
            seq_num: 0,
            status: AppStatus::IDLE,
            outcome: false,
            owner: alice,
            grantee: bob,
        })
    );
    assert_eq!(w.module.events(), &vec![Event::AccessConditionCreated(w.address, alice, bob)]);
}

#[test]
fn create_with_owner_listed_first() {
    let mut w = world();
    let alice = account(&w.alice);
    let bob = account(&w.bob);
    let r = w.module.create_access_condition(Origin::Signed(alice), vec![alice, bob], 0, w.did, w.address, &w.dids);
    assert_eq!(r, Ok(()));
    assert_eq!(w.module.get_owner(w.address), Some(alice));
    assert_eq!(w.module.get_grantee(w.address), Some(bob));
}

#[test]
fn create_refusals() {
    let mut w = world();
    let alice = account(&w.alice);
    let bob = account(&w.bob);
    let carol = account(&key(3));
    let a = w.address;
    let d = w.did;
    assert_eq!(
        w.module.create_access_condition(Origin::Unsigned, vec![alice, bob], 0, d, a, &w.dids),
        Err(DispatchError::BadOrigin)
    );
    assert_eq!(
        w.module.create_access_condition(Origin::Root, vec![alice, bob], 0, d, a, &w.dids),
        Err(DispatchError::BadOrigin)
    );
    assert_eq!(
        w.module.create_access_condition(Origin::Signed(alice), vec![alice, bob, carol], 0, d, a, &w.dids),
        refused(Error::InvalidPlayerLength)
    );
    assert_eq!(
        w.module.create_access_condition(Origin::Signed(alice), vec![alice], 0, d, a, &w.dids),
        refused(Error::InvalidPlayerLength)
    );
    assert_eq!(
        w.module.create_access_condition(Origin::Signed(alice), vec![alice, bob], 0, carol, a, &w.dids),
        refused(Error::NotExist)
    );
    assert_eq!(
        w.module.create_access_condition(Origin::Signed(alice), vec![carol, bob], 0, d, a, &w.dids),
        refused(Error::NotOwner)
    );
    assert!(w.module.events().is_empty());
    assert_eq!(w.module.get_owner(a), None);
    assert_eq!(w.module.create_access_condition(Origin::Signed(alice), vec![alice, bob], 0, d, a, &w.dids), Ok(()));
    assert_eq!(
        w.module.create_access_condition(Origin::Signed(alice), vec![bob, alice], 3, d, a, &w.dids),
        refused(Error::ExistAddress)
    );
    assert_eq!(w.module.get_nonce(a), Some(0));
    assert_eq!(w.module.events().len(), 1);
}

#[test]
fn finalizing_grants_the_grantee() {
    let mut w = opened();
    w.module.set_block_number(42);
    let alice = account(&w.alice);
    let bob = account(&w.bob);
    assert!(!w.module.check_permissions(w.did, bob));
    assert_eq!(w.module.permission(&w.did, &bob), 0);
    let p = state_proof(&w, 5, 1, 2, Some(w.did), &w.bob, &w.alice);
    assert_eq!(settle(&mut w, p), Ok(()));
    assert!(w.module.check_permissions(w.did, bob));
    assert_eq!(w.module.permission(&w.did, &bob), 1);
    assert!(!w.module.check_permissions(w.did, alice));
    assert!(w.module.is_finalized(&w.address));
    assert!(w.module.get_outcome(&w.address));
    assert_eq!(w.module.get_status(w.address), Some(AppStatus::FINALIZED));
    assert_eq!(w.module.get_seq_num(w.address), Some(1));
    assert_eq!(w.module.get_owner(w.address), Some(alice));
    assert_eq!(w.module.get_grantee(w.address), Some(bob));
    assert_eq!(w.module.events().last(), Some(&Event::IntendSettle(w.address, 42)));
}

#[test]
fn replayed_proof_is_refused() {
    let mut w = opened();
    let p = state_proof(&w, 5, 1, 2, Some(w.did), &w.alice, &w.bob);
    assert_eq!(settle(&mut w, p.clone()), Ok(()));
    let events = w.module.events().len();
    assert_eq!(settle(&mut w, p), refused(Error::InvalidSeqNum));
    assert_eq!(w.module.events().len(), events);
}

#[test]
fn swap_exchanges_owner_and_grantee() {
    let mut w = finalized();
    w.module.set_block_number(7);
    let alice = account(&w.alice);
    let bob = account(&w.bob);
    let p = state_proof(&w, 5, 2, 0, None, &w.bob, &w.alice);
    assert_eq!(settle(&mut w, p), Ok(()));
    assert_eq!(w.module.get_owner(w.address), Some(bob));
    assert_eq!(w.module.get_grantee(w.address), Some(alice));
    assert_eq!(w.module.get_status(w.address), Some(AppStatus::IDLE));
    assert!(!w.module.get_outcome(&w.address));
    assert_eq!(w.module.get_seq_num(w.address), Some(2));
    assert_eq!(w.module.condition_list(&w.address).map(|c| c.players), Some(vec![alice, bob]));
    assert_eq!(w.module.events().last(), Some(&Event::SwapPosition(w.address, 7)));
    // The right granted before stays.
    assert!(w.module.check_permissions(w.did, bob));
}

#[test]
fn set_idle_keeps_owner_and_grantee() {
    let mut w = finalized();
    let alice = account(&w.alice);
    let bob = account(&w.bob);
    let p = state_proof(&w, 5, 9, 1, None, &w.alice, &w.bob);
    assert_eq!(settle(&mut w, p), Ok(()));
    assert_eq!(w.module.get_owner(w.address), Some(alice));
    assert_eq!(w.module.get_grantee(w.address), Some(bob));
    assert_eq!(w.module.get_status(w.address), Some(AppStatus::IDLE));
    assert_eq!(w.module.get_seq_num(w.address), Some(9));
    assert_eq!(w.module.events().last(), Some(&Event::SetIdle(w.address, 0)));
    // A finalized condition can be finalized again after going idle.
    let p = state_proof(&w, 5, 10, 2, Some(w.did), &w.alice, &w.bob);
    assert_eq!(settle(&mut w, p), Ok(()));
    assert!(w.module.is_finalized(&w.address));
}

#[test]
fn settle_status_refusals() {
    let mut w = opened();
    let p = state_proof(&w, 5, 1, 1, None, &w.alice, &w.bob);
    assert_eq!(settle(&mut w, p), refused(Error::NotFinalizedStatus));
    let p = state_proof(&w, 5, 1, 0, None, &w.alice, &w.bob);
    assert_eq!(settle(&mut w, p), refused(Error::NotFinalizedStatus));
    let mut w = finalized();
    let p = state_proof(&w, 5, 2, 2, Some(w.did), &w.alice, &w.bob);
    assert_eq!(settle(&mut w, p), refused(Error::NotIdleStatus));
    assert_eq!(w.module.get_seq_num(w.address), Some(1));
}

#[test]
fn settle_check_refusals() {
    let mut w = opened();
    let p = state_proof(&w, 5, 1, 2, Some(w.did), &w.alice, &w.bob);
    assert_eq!(w.module.intend_settle(Origin::Unsigned, p.clone(), &w.dids), Err(DispatchError::BadOrigin));
    let mut other = p.clone();
    other.app_state.state.condition_address = AccountId([4; 32]);
    assert_eq!(settle(&mut w, other), refused(Error::InvalidConditionAddress));
    let p = state_proof(&w, 6, 1, 2, Some(w.did), &w.alice, &w.bob);
    assert_eq!(settle(&mut w, p), refused(Error::InvalidNonce));
    let p = state_proof(&w, 5, 0, 2, Some(w.did), &w.alice, &w.bob);
    assert_eq!(settle(&mut w, p), refused(Error::InvalidSeqNum));
    let p = state_proof(&w, 5, 1, 2, None, &w.alice, &w.bob);
    assert_eq!(settle(&mut w, p), refused(Error::NotExist));
    assert_eq!(w.module.get_status(w.address), Some(AppStatus::IDLE));
    assert_eq!(w.module.events().len(), 1);
}

#[test]
fn settle_did_refusals() {
    let mut w = opened();
    let carol = key(3);
    let unknown = AccountId([8; 32]);
    let p = state_proof(&w, 5, 1, 2, Some(unknown), &w.alice, &w.bob);
    assert_eq!(settle(&mut w, p), refused(Error::NotExist));
    let other_did = AccountId([6; 32]);
    w.dids.set_owner(other_did, account(&carol));
    let p = state_proof(&w, 5, 1, 2, Some(other_did), &w.alice, &w.bob);
    assert_eq!(settle(&mut w, p), refused(Error::NotOwner));
    assert!(!w.module.check_permissions(other_did, account(&w.bob)));
}

#[test]
fn settle_signature_refusals() {
    let mut w = opened();
    let carol = key(3);
    // One signature by someone who is not a peer.
    let p = state_proof(&w, 5, 1, 2, Some(w.did), &w.alice, &carol);
    assert_eq!(settle(&mut w, p), refused(Error::InvalidSignature));
    // Both signatures by the same peer.
    let p = state_proof(&w, 5, 1, 2, Some(w.did), &w.alice, &w.alice);
    assert_eq!(settle(&mut w, p), refused(Error::InvalidSignature));
    // Signed over a different op than the one submitted.
    let mut p = state_proof(&w, 5, 1, 1, Some(w.did), &w.alice, &w.bob);
    p.app_state.state.op = 2;
    assert_eq!(settle(&mut w, p), refused(Error::InvalidSignature));
    // Op 2 signed without the DID's bytes.
    let m = message(5, 1, w.address, 2, None);
    let p = StateProof {
        app_state: AppState { nonce: 5, seq_num: 1, state: State { condition_address: w.address, op: 2, did: Some(w.did) } },
        sigs: vec![sign(&w.alice, &m), sign(&w.bob, &m)],
    };
    assert_eq!(settle(&mut w, p), refused(Error::InvalidSignature));
    assert!(!w.module.is_finalized(&w.address));
}

#[test]
fn settle_signed_over_big_endian_bytes_is_refused() {
    let mut w = opened();
    let mut m = 5u32.to_be_bytes().to_vec();
    m.extend(1u32.to_be_bytes());
    m.extend(w.address.0);
    m.push(2);
    m.extend(w.did.0);
    let p = StateProof {
        app_state: AppState { nonce: 5, seq_num: 1, state: State { condition_address: w.address, op: 2, did: Some(w.did) } },
        sigs: vec![sign(&w.alice, &m), sign(&w.bob, &m)],
    };
    assert_eq!(settle(&mut w, p), refused(Error::InvalidSignature));
}

#[test]
fn unknown_op_changes_nothing() {
    let mut w = opened();
    let p = StateProof {
        app_state: AppState { nonce: 5, seq_num: 3, state: State { condition_address: w.address, op: 7, did: None } },
        sigs: vec![],
    };
    assert_eq!(settle(&mut w, p), Ok(()));
    assert_eq!(w.module.get_seq_num(w.address), Some(0));
    assert_eq!(w.module.events().len(), 1);
}

#[test]
fn get_access_condition_records_an_event() {
    let mut w = finalized();
    let alice = account(&w.alice);
    let bob = account(&w.bob);
    assert_eq!(w.module.get_access_condition(Origin::Signed(bob), w.address), Ok(()));
    assert_eq!(
        w.module.events().last(),
        Some(&Event::AccessCondition(5, vec![alice, bob], 1, alice, bob))
    );
    assert_eq!(
        w.module.get_access_condition(Origin::Signed(bob), AccountId([4; 32])),
        refused(Error::InvalidConditionAddress)
    );
    assert_eq!(w.module.get_access_condition(Origin::Root, w.address), Err(DispatchError::BadOrigin));
    assert_eq!(w.module.events().len(), 3);
}

#[test]
fn getters_on_missing_condition() {
    let w = world();
    let a = AccountId([4; 32]);
    assert!(!w.module.is_finalized(&a));
    assert!(!w.module.get_outcome(&a));
    assert_eq!(w.module.get_nonce(a), None);
    assert_eq!(w.module.get_seq_num(a), None);
    assert_eq!(w.module.get_status(a), None);
    assert_eq!(w.module.get_owner(a), None);
    assert_eq!(w.module.get_grantee(a), None);
    assert_eq!(w.module.condition_list(&a), None);
    assert!(!w.module.check_permissions(a, a));
}

#[test]
fn valid_signers_accepts_either_order() {
    let alice = key(1);
    let bob = key(2);
    let m = b"channel state".to_vec();
    let sa = sign(&alice, &m);
    let sb = sign(&bob, &m);
    let signers = vec![account(&alice), account(&bob)];
    assert_eq!(Module::valid_signers(vec![sa, sb], &m, signers.clone()), Ok(()));
    assert_eq!(Module::valid_signers(vec![sb, sa], &m, signers.clone()), Ok(()));
    assert_eq!(Module::valid_signers(vec![sa, sa], &m, signers.clone()), refused(Error::InvalidSignature));
    assert_eq!(Module::valid_signers(vec![sa, sb], b"other", signers.clone()), refused(Error::InvalidSignature));
    assert_eq!(Module::valid_signers(vec![sa, sb, sa], &m, signers), Ok(()));
}

#[test]
fn did_registry_owner_of() {
    let mut dids = DidRegistry::new();
    let d = AccountId([1; 32]);
    assert_eq!(dids.owner_of(&d), None);
    dids.set_owner(d, AccountId([2; 32]));
    assert_eq!(dids.owner_of(&d), Some(AccountId([2; 32])));
    dids.set_owner(d, AccountId([3; 32]));
    assert_eq!(dids.owner_of(&d), Some(AccountId([3; 32])));
}

#[test]
fn same_as_compares_bytes() {
    let mut b = [0u8; 32];
    assert!(AccountId(b).same_as(&AccountId(b)));
    b[31] = 1;
    assert!(!AccountId([0; 32]).same_as(&AccountId(b)));
}
