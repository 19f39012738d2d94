use vstd::prelude::*;

use crate::account::AccountId;
use crate::account::Signature;

verus! {

/// Lifecycle status of an access condition.
#[derive(Clone, Copy, PartialEq, Eq, Structural, Debug)]
pub enum AppStatus {
    IDLE,
    FINALIZED,
}

/// The escrow record for one traded DID: who currently owns the right to
/// grant access (`owner`), who the counterparty is (`grantee`), and a
/// strictly increasing version counter (`seq_num`) pinned to a fixed
/// session identifier (`nonce`).
pub struct AccessCondition {
    pub nonce: u32,
    pub players: Vec<AccountId>,
    pub seq_num: u32,
    pub status: AppStatus,
    pub outcome: bool,
    pub owner: AccountId,
    pub grantee: AccountId,
}

/// Mathematical image of an [`AccessCondition`]: accounts become byte
/// sequences.
#[verifier::ext_equal]
pub struct CondView {
    pub nonce: u32,
    pub players: Seq<Seq<u8>>,
    pub seq_num: u32,
    pub status: AppStatus,
    pub outcome: bool,
    pub owner: Seq<u8>,
    pub grantee: Seq<u8>,
}

impl View for AccessCondition {
    type V = CondView;

    open spec fn view(&self) -> CondView {
        CondView {
            nonce: self.nonce,
            players: self.players@.map_values(|p: AccountId| p@),
            seq_num: self.seq_num,
            status: self.status,
            outcome: self.outcome,
            owner: self.owner@,
            grantee: self.grantee@,
        }
    }
}

impl CondView {
    /// Well-formedness of one record: exactly two distinct players, owner
    /// and grantee drawn from them, and the outcome flag derived from the
    /// status.
    pub open spec fn wf(self) -> bool {
        &&& self.players.len() == 2
        &&& self.owner != self.grantee
        &&& (self.owner == self.players[0] || self.owner == self.players[1])
        &&& (self.grantee == self.players[0] || self.grantee == self.players[1])
        &&& (self.status is FINALIZED <==> self.outcome)
    }
}

/// The transition a state proof requests.
///
/// On the wire an operation is a single word: `0` resets and swaps the
/// roles, `1` only resets, and any other value finalizes a grant and is
/// read as the integer key of the DID being granted (DID keys start at 2,
/// so they never collide with the two reset codes).
#[derive(Clone, Copy, PartialEq, Eq, Structural, Debug)]
pub enum Op {
    RESET_AND_SWAP,
    RESET_ONLY,
    FINALIZE(u32),
}

impl Op {
    /// The word that stands for this operation in the signed message.
    pub open spec fn code(self) -> u32 {
        match self {
            Op::RESET_AND_SWAP => 0,
            Op::RESET_ONLY => 1,
            Op::FINALIZE(did_key) => did_key,
        }
    }
}

/// Returns the wire word of an operation.
pub fn op_code(op: Op) -> (r: u32)
    ensures
        r == op.code(),
{
    match op {
        Op::RESET_AND_SWAP => 0,
        Op::RESET_ONLY => 1,
        Op::FINALIZE(did_key) => did_key,
    }
}

/// The payload of a proposed state: which condition is targeted (by its
/// compact integer key) and the requested transition.
#[derive(Clone, Copy, PartialEq, Eq, Structural, Debug)]
pub struct State {
    pub condition_key: u32,
    pub op: Op,
}

/// A proposed next state for one condition: the session nonce, the new
/// sequence number, and the requested transition. These four words are
/// exactly what the two players co-sign.
#[derive(Clone, Copy, PartialEq, Eq, Structural, Debug)]
pub struct AppState {
    pub nonce: u32,
    pub seq_num: u32,
    pub state: State,
}

/// A co-signed state proof: the proposed state plus one signature from
/// each player, in either order.
pub struct StateProof {
    pub app_state: AppState,
    pub sigs: Vec<Signature>,
}

/// Every way an entry point can refuse to act.
#[derive(Clone, Copy, PartialEq, Eq, Structural, Debug)]
pub enum Error {
    NotOwner,
    InvalidPlayerLength,
    InvalidSender,
    InvalidState,
    InvalidDIDState,
    InvalidNonce,
    InvalidSeqNum,
    InvalidSignature,
    InvalidConditionAddress,
    NotExist,
    ExistAddress,
    NotIdleStatus,
    NotFinalizedStatus,
}

/// A domain event; exactly one is recorded by each successful mutation.
pub enum Event {
    AccessConditionCreated {
        condition_address: AccountId,
        owner: AccountId,
        grantee: AccountId,
        condition_key: u32,
        did_key: u32,
    },
    SwapPosition { condition_address: AccountId },
    SetIdle { condition_address: AccountId },
    IntendSettle { condition_address: AccountId },
    NewDID { did: AccountId, did_key: u32 },
}

/// Mathematical image of an [`Event`].
#[verifier::ext_equal]
pub enum EventView {
    AccessConditionCreated {
        condition_address: Seq<u8>,
        owner: Seq<u8>,
        grantee: Seq<u8>,
        condition_key: u32,
        did_key: u32,
    },
    SwapPosition { condition_address: Seq<u8> },
    SetIdle { condition_address: Seq<u8> },
    IntendSettle { condition_address: Seq<u8> },
    NewDID { did: Seq<u8>, did_key: u32 },
}

impl View for Event {
    type V = EventView;

    open spec fn view(&self) -> EventView {
        match self {
            Event::AccessConditionCreated { condition_address, owner, grantee, condition_key, did_key } =>
                EventView::AccessConditionCreated {
                    condition_address: condition_address@,
                    owner: owner@,
                    grantee: grantee@,
                    condition_key: *condition_key,
                    did_key: *did_key,
                },
            Event::SwapPosition { condition_address } =>
                EventView::SwapPosition { condition_address: condition_address@ },
            Event::SetIdle { condition_address } =>
                EventView::SetIdle { condition_address: condition_address@ },
            Event::IntendSettle { condition_address } =>
                EventView::IntendSettle { condition_address: condition_address@ },
            Event::NewDID { did, did_key } =>
                EventView::NewDID { did: did@, did_key: *did_key },
        }
    }
}

} // verus!
