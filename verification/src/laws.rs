use vstd::prelude::*;

use crate::encoding::app_state_bytes;
use crate::engine::StoreView;
use crate::engine::pair_signed;
use crate::engine::settle_error;
use crate::engine::settle_next;
use crate::engine::store_wf;
use crate::state::AppState;
use crate::state::Error;
use crate::state::Op;

verus! {

/// Anti-replay: once a settlement with sequence number `a.seq_num` has
/// been accepted, no proof for the same condition whose sequence number
/// is not strictly greater can ever be accepted again — whoever submits
/// it, whatever its signatures, and however the identity registry has
/// changed in between. If the stale proof gets past the sender,
/// signature and nonce checks, the failure is precisely the
/// sequence-number error.
pub proof fn lemma_anti_replay(
    s: StoreView,
    reg: Seq<(Seq<u8>, Seq<u8>)>,
    who: Seq<u8>,
    a: AppState,
    sigs: Seq<Seq<u8>>,
    reg2: Seq<(Seq<u8>, Seq<u8>)>,
    who2: Seq<u8>,
    a2: AppState,
    sigs2: Seq<Seq<u8>>,
)
    requires
        store_wf(s),
        settle_error(s, reg, who, a, sigs) is None,
        a2.state.condition_key == a.state.condition_key,
        a2.seq_num <= a.seq_num,
    ensures
        settle_error(settle_next(s, a), reg2, who2, a2, sigs2) is Some,
        ({
            let c = settle_next(s, a).conditions[a2.state.condition_key as int];
            (who2 == c.players[0] || who2 == c.players[1]) && pair_signed(
                sigs2,
                app_state_bytes(a2),
                c.players[0],
                c.players[1],
            ) && a2.nonce == c.nonce ==> settle_error(settle_next(s, a), reg2, who2, a2, sigs2)
                == Some(Error::InvalidSeqNum)
        }),
{
    let key = a.state.condition_key as int;
    let s1 = settle_next(s, a);
    assert(s1.addresses == s.addresses);
    assert(s1.conditions[key].seq_num == a.seq_num);
}

/// Nonce pinning: a proof whose nonce differs from the nonce fixed at
/// the condition's creation is never accepted, even with valid
/// signatures and a fresh sequence number; if it gets past the sender
/// and signature checks, the failure is precisely the nonce error.
pub proof fn lemma_nonce_pinning(
    s: StoreView,
    reg: Seq<(Seq<u8>, Seq<u8>)>,
    who: Seq<u8>,
    a: AppState,
    sigs: Seq<Seq<u8>>,
)
    requires
        a.state.condition_key < s.addresses.len(),
        a.nonce != s.conditions[a.state.condition_key as int].nonce,
    ensures
        settle_error(s, reg, who, a, sigs) is Some,
        ({
            let c = s.conditions[a.state.condition_key as int];
            (who == c.players[0] || who == c.players[1]) && pair_signed(
                sigs,
                app_state_bytes(a),
                c.players[0],
                c.players[1],
            ) ==> settle_error(s, reg, who, a, sigs) == Some(Error::InvalidNonce)
        }),
{
}

/// Status gating, finalize half: a finalize against a condition that is
/// already `FINALIZED` is never accepted; if the proof gets past the
/// sender, signature, nonce and sequence checks, the failure is
/// precisely `NotIdleStatus`.
pub proof fn lemma_status_gated_finalize(
    s: StoreView,
    reg: Seq<(Seq<u8>, Seq<u8>)>,
    who: Seq<u8>,
    a: AppState,
    sigs: Seq<Seq<u8>>,
)
    requires
        a.state.condition_key < s.addresses.len(),
        a.state.op is FINALIZE,
        s.conditions[a.state.condition_key as int].status is FINALIZED,
    ensures
        settle_error(s, reg, who, a, sigs) is Some,
        ({
            let c = s.conditions[a.state.condition_key as int];
            (who == c.players[0] || who == c.players[1]) && pair_signed(
                sigs,
                app_state_bytes(a),
                c.players[0],
                c.players[1],
            ) && a.nonce == c.nonce && a.seq_num > c.seq_num ==> settle_error(s, reg, who, a, sigs)
                == Some(Error::NotIdleStatus)
        }),
{
}

/// Status gating, reset half: a reset (with or without a swap) against a
/// condition that is still `IDLE` is never accepted; if the proof gets
/// past the sender, signature, nonce and sequence checks, the failure is
/// precisely `NotFinalizedStatus`.
pub proof fn lemma_status_gated_reset(
    s: StoreView,
    reg: Seq<(Seq<u8>, Seq<u8>)>,
    who: Seq<u8>,
    a: AppState,
    sigs: Seq<Seq<u8>>,
)
    requires
        a.state.condition_key < s.addresses.len(),
        a.state.op is RESET_AND_SWAP || a.state.op is RESET_ONLY,
        s.conditions[a.state.condition_key as int].status is IDLE,
    ensures
        settle_error(s, reg, who, a, sigs) is Some,
        ({
            let c = s.conditions[a.state.condition_key as int];
            (who == c.players[0] || who == c.players[1]) && pair_signed(
                sigs,
                app_state_bytes(a),
                c.players[0],
                c.players[1],
            ) && a.nonce == c.nonce && a.seq_num > c.seq_num ==> settle_error(s, reg, who, a, sigs)
                == Some(Error::NotFinalizedStatus)
        }),
{
}

} // verus!
