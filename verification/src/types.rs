use vstd::prelude::*;

verus! {

broadcast use vstd::array::group_array_axioms;

/// An account: the 32 bytes of an sr25519 public key.
#[derive(Clone, Copy, Debug, PartialEq, Eq, Hash)]
pub struct AccountId(pub [u8; 32]);

/// An sr25519 signature: 64 bytes.
#[derive(Clone, Copy, Debug, PartialEq, Eq, Hash)]
pub struct Signature(pub [u8; 64]);

impl View for AccountId {
    type V = AccountId;

    open spec fn view(&self) -> AccountId {
        *self
    }
}

impl AccountId {
    /// Whether two accounts are the same account (byte for byte).
    pub fn same_as(&self, other: &AccountId) -> (r: bool)
        ensures
            r == (*self == *other),
    {
        let mut i: usize = 0;
        while i < 32
            invariant
                i <= 32,
                forall|j: int| 0 <= j < i ==> self.0[j] == other.0[j],
            decreases 32 - i,
        {
            if self.0[i] != other.0[i] {
                return false;
            }
            i = i + 1;
        }
        assert(self.0 =~= other.0);
        true
    }
}

} // verus!

verus! {

/// The block height that events are stamped with.
pub type BlockNumber = u64;

/// Where an access condition stands in its life: open for a trade, or
/// settled with the grantee holding the data rights.
#[allow(non_camel_case_types)]
#[derive(Clone, Copy, Debug, PartialEq, Eq, Structural, PartialOrd, Ord, Hash)]
pub enum AppStatus {
    IDLE,
    FINALIZED,
}

/// Access condition: the on-chain record of a payment channel between two
/// peers about one DID's data rights.
#[derive(Clone, Debug, PartialEq, Eq)]
pub struct AccessCondition {
    pub nonce: u32,
    pub players: Vec<AccountId>,
    pub seq_num: u32,
    pub status: AppStatus,
    pub outcome: bool,
    pub owner: AccountId,
    pub grantee: AccountId,
}

/// An access condition as a mathematical value.
#[verifier::ext_equal]
pub struct AccessConditionView {
    pub nonce: u32,
    pub players: Seq<AccountId>,
    pub seq_num: u32,
    pub status: AppStatus,
    pub outcome: bool,
    pub owner: AccountId,
    pub grantee: AccountId,
}

impl View for AccessCondition {
    type V = AccessConditionView;

    open spec fn view(&self) -> AccessConditionView {
        AccessConditionView {
            nonce: self.nonce,
            players: self.players@,
            seq_num: self.seq_num,
            status: self.status,
            outcome: self.outcome,
            owner: self.owner,
            grantee: self.grantee,
        }
    }
}

impl AccessCondition {
    /// A copy of this access condition.
    pub fn duplicate(&self) -> (r: AccessCondition)
        ensures
            r@ == self@,
    {
        let mut players: Vec<AccountId> = Vec::new();
        let mut i: usize = 0;
        while i < self.players.len()
            invariant
                i <= self.players.len(),
                players@ == self.players@.subrange(0, i as int),
            decreases self.players.len() - i,
        {
            players.push(self.players[i]);
            i = i + 1;
        }
        assert(players@ =~= self.players@);
        AccessCondition {
            nonce: self.nonce,
            players,
            seq_num: self.seq_num,
            status: self.status,
            outcome: self.outcome,
            owner: self.owner,
            grantee: self.grantee,
        }
    }
}

/// The part of an off-chain channel state that the chain acts on.
#[derive(Clone, Copy, Debug, PartialEq, Eq)]
pub struct State {
    pub condition_address: AccountId,
    pub op: u8,
    pub did: Option<AccountId>,
}

/// A channel state with its nonce and sequence number.
#[derive(Clone, Copy, Debug, PartialEq, Eq)]
pub struct AppState {
    pub nonce: u32,
    pub seq_num: u32,
    pub state: State,
}

/// Co-signed state proof: a channel state and the peers' signatures.
#[derive(Clone, Debug, PartialEq, Eq)]
pub struct StateProof {
    pub app_state: AppState,
    pub sigs: Vec<Signature>,
}

/// What a dispatchable call records.
#[derive(Clone, Debug, PartialEq, Eq)]
pub enum Event {
    /// Condition address, owner, grantee.
    AccessConditionCreated(AccountId, AccountId, AccountId),
    SwapPosition(AccountId, BlockNumber),
    SetIdle(AccountId, BlockNumber),
    IntendSettle(AccountId, BlockNumber),
    /// Nonce, players, sequence number, owner, grantee.
    AccessCondition(u32, Vec<AccountId>, u32, AccountId, AccountId),
}

/// An event as a mathematical value.
pub enum EventView {
    AccessConditionCreated(AccountId, AccountId, AccountId),
    SwapPosition(AccountId, BlockNumber),
    SetIdle(AccountId, BlockNumber),
    IntendSettle(AccountId, BlockNumber),
    AccessCondition(u32, Seq<AccountId>, u32, AccountId, AccountId),
}

impl View for Event {
    type V = EventView;

    open spec fn view(&self) -> EventView {
        match self {
            Event::AccessConditionCreated(a, o, g) => EventView::AccessConditionCreated(*a, *o, *g),
            Event::SwapPosition(a, b) => EventView::SwapPosition(*a, *b),
            Event::SetIdle(a, b) => EventView::SetIdle(*a, *b),
            Event::IntendSettle(a, b) => EventView::IntendSettle(*a, *b),
            Event::AccessCondition(n, p, s, o, g) => EventView::AccessCondition(*n, p@, *s, *o, *g),
        }
    }
}

/// The errors of this module.
#[derive(Clone, Copy, Debug, PartialEq, Eq, Structural)]
pub enum Error {
    NotOwner,
    InvalidPlayerLength,
    InvalidSender,
    InvalidState,
    InvalidNonce,
    InvalidSeqNum,
    InvalidSignature,
    ExistAddress,
    NotIdleStatus,
    NotFinalizedStatus,
    InvalidConditionAddress,
    NotExist,
}

/// Why a dispatchable call was refused.
#[derive(Clone, Copy, Debug, PartialEq, Eq, Structural)]
pub enum DispatchError {
    /// The call was not signed by an account.
    BadOrigin,
    /// One of this module's errors.
    Module(Error),
}

/// The result of a dispatchable call.
pub type DispatchResult = Result<(), DispatchError>;

/// Who makes a call.
#[derive(Clone, Copy, Debug, PartialEq, Eq)]
pub enum Origin {
    Signed(AccountId),
    Root,
    Unsigned,
}

} // verus!
