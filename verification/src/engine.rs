use vstd::prelude::*;

use crate::account::AccountId;
use crate::account::accounts_view;
use crate::account::account_eq;
use crate::account::clone_accounts;
use crate::account::signatures_view;
use crate::encoding::app_state_bytes;
use crate::encoding::encode_app_state;
use crate::registry::DidRegistry;
use crate::registry::owner_lookup;
use crate::signers::two_sig_ok;
use crate::signers::valid_signers;
use crate::state::AccessCondition;
use crate::state::AppState;
use crate::state::AppStatus;
use crate::state::CondView;
use crate::state::Error;
use crate::state::Event;
use crate::state::EventView;
use crate::state::Op;
use crate::state::StateProof;

verus! {

/// The settlement engine together with its registry store: the access
/// conditions keyed by compact integer, the integer keys of condition
/// addresses and DIDs, the permission table filled by finalized trades,
/// and the log of domain events.
///
/// Condition keys are assigned monotonically from 0 and are the indices
/// into `addresses` / `conditions`. DID keys are assigned monotonically
/// from 2 (0 and 1 are taken by the two reset operation codes on the
/// wire), so the DID with key `k` sits at index `k - 2` of `dids`.
pub struct DIDOffchainTrade {
    addresses: Vec<AccountId>,
    conditions: Vec<AccessCondition>,
    dids: Vec<AccountId>,
    permissions: Vec<(AccountId, AccountId)>,
    events: Vec<Event>,
}

/// Mathematical image of the engine's whole store.
#[verifier::ext_equal]
pub struct StoreView {
    pub addresses: Seq<Seq<u8>>,
    pub conditions: Seq<CondView>,
    pub dids: Seq<Seq<u8>>,
    pub permissions: Seq<(Seq<u8>, Seq<u8>)>,
    pub events: Seq<EventView>,
}

impl View for DIDOffchainTrade {
    type V = StoreView;

    closed spec fn view(&self) -> StoreView {
        StoreView {
            addresses: accounts_view(self.addresses@),
            conditions: self.conditions@.map_values(|c: AccessCondition| c@),
            dids: accounts_view(self.dids@),
            permissions: self.permissions@.map_values(|p: (AccountId, AccountId)| (p.0@, p.1@)),
            events: self.events@.map_values(|e: Event| e@),
        }
    }
}

/// The store's invariant: addresses and conditions run in parallel, keys
/// are never reused (all addresses and all DIDs distinct), every record
/// is well formed, and the key counters fit in 32 bits.
pub open spec fn store_wf(s: StoreView) -> bool {
    &&& s.addresses.len() == s.conditions.len()
    &&& s.addresses.len() <= 0xFFFF_FFFF
    &&& s.dids.len() + 2 <= 0xFFFF_FFFF
    &&& forall|i: int, j: int|
        0 <= i < j < s.addresses.len() ==> s.addresses[i] != s.addresses[j]
    &&& forall|i: int, j: int| 0 <= i < j < s.dids.len() ==> s.dids[i] != s.dids[j]
    &&& forall|i: int| 0 <= i < s.conditions.len() ==> (#[trigger] s.conditions[i]).wf()
}

/// Whether `sigs` is exactly one valid signature from each of the two
/// players over `msg`, in either order.
pub open spec fn pair_signed(sigs: Seq<Seq<u8>>, msg: Seq<u8>, p0: Seq<u8>, p1: Seq<u8>) -> bool {
    sigs.len() == 2 && two_sig_ok(sigs[0], sigs[1], msg, p0, p1)
}

/// The DID referenced by operation code `k`, if `k` is a registered DID
/// key.
pub open spec fn did_of_key(s: StoreView, k: u32) -> Option<Seq<u8>> {
    if 2 <= k && k - 2 < s.dids.len() {
        Some(s.dids[k - 2])
    } else {
        None
    }
}

/// The first failing check of `intend_settle`, in the order the engine
/// applies them, or `None` when the proof is accepted:
/// an out-of-range condition reference, then the sender's membership in
/// the players, the co-signature over the canonical bytes, the pinned
/// nonce, the strictly increasing sequence number, the status gate of the
/// requested operation, and — for a finalize — the resolution of the DID
/// reference and the DID-ownership check.
pub open spec fn settle_error(
    s: StoreView,
    reg: Seq<(Seq<u8>, Seq<u8>)>,
    who: Seq<u8>,
    a: AppState,
    sigs: Seq<Seq<u8>>,
) -> Option<Error> {
    if a.state.condition_key >= s.addresses.len() {
        Some(Error::InvalidState)
    } else {
        let c = s.conditions[a.state.condition_key as int];
        if !(who == c.players[0] || who == c.players[1]) {
            Some(Error::InvalidSender)
        } else if !pair_signed(sigs, app_state_bytes(a), c.players[0], c.players[1]) {
            Some(Error::InvalidSignature)
        } else if a.nonce != c.nonce {
            Some(Error::InvalidNonce)
        } else if a.seq_num <= c.seq_num {
            Some(Error::InvalidSeqNum)
        } else {
            match a.state.op {
                Op::RESET_AND_SWAP | Op::RESET_ONLY => if !(c.status is FINALIZED) {
                    Some(Error::NotFinalizedStatus)
                } else {
                    None
                },
                Op::FINALIZE(k) => if !(c.status is IDLE) {
                    Some(Error::NotIdleStatus)
                } else {
                    match did_of_key(s, k) {
                        None => Some(Error::InvalidDIDState),
                        Some(did) => match owner_lookup(reg, did) {
                            None => Some(Error::NotExist),
                            Some(o) => if o != c.owner {
                                Some(Error::NotOwner)
                            } else {
                                None
                            },
                        },
                    }
                },
            }
        }
    }
}

/// The record after an accepted transition: the sequence number becomes
/// the proof's, a reset returns to `IDLE` with a false outcome (swapping
/// the roles or not), a finalize moves to `FINALIZED` with a true
/// outcome.
pub open spec fn cond_after(c: CondView, a: AppState) -> CondView {
    match a.state.op {
        Op::RESET_AND_SWAP => CondView {
            seq_num: a.seq_num,
            status: AppStatus::IDLE,
            outcome: false,
            owner: c.grantee,
            grantee: c.owner,
            ..c
        },
        Op::RESET_ONLY => CondView {
            seq_num: a.seq_num,
            status: AppStatus::IDLE,
            outcome: false,
            ..c
        },
        Op::FINALIZE(_) => CondView {
            seq_num: a.seq_num,
            status: AppStatus::FINALIZED,
            outcome: true,
            ..c
        },
    }
}

/// The store after an accepted settlement: exactly one condition record
/// is replaced, a finalize also grants the condition's grantee the
/// permission for the referenced DID (entries are never removed), and
/// exactly one event naming the transition is recorded. Addresses and
/// DID keys are untouched.
pub open spec fn settle_next(s: StoreView, a: AppState) -> StoreView {
    let key = a.state.condition_key as int;
    let c = s.conditions[key];
    let addr = s.addresses[key];
    let conditions = s.conditions.update(key, cond_after(c, a));
    match a.state.op {
        Op::RESET_AND_SWAP => StoreView {
            conditions,
            events: s.events.push(EventView::SwapPosition { condition_address: addr }),
            ..s
        },
        Op::RESET_ONLY => StoreView {
            conditions,
            events: s.events.push(EventView::SetIdle { condition_address: addr }),
            ..s
        },
        Op::FINALIZE(k) => {
            let grant = (s.dids[k - 2], c.grantee);
            StoreView {
                conditions,
                permissions: if s.permissions.contains(grant) {
                    s.permissions
                } else {
                    s.permissions.push(grant)
                },
                events: s.events.push(EventView::IntendSettle { condition_address: addr }),
                ..s
            }
        },
    }
}

/// The first failing precondition of `create_access_condition`, or
/// `None`: the pair of players must be two distinct accounts, the DID
/// must resolve to an owner, that owner must be one of the players, and
/// the condition address must be fresh.
pub open spec fn create_error(
    s: StoreView,
    reg: Seq<(Seq<u8>, Seq<u8>)>,
    players: Seq<Seq<u8>>,
    did: Seq<u8>,
    addr: Seq<u8>,
) -> Option<Error> {
    if players.len() != 2 || players[0] == players[1] {
        Some(Error::InvalidPlayerLength)
    } else {
        match owner_lookup(reg, did) {
            None => Some(Error::NotExist),
            Some(o) => if o != players[0] && o != players[1] {
                Some(Error::NotOwner)
            } else if s.addresses.contains(addr) {
                Some(Error::ExistAddress)
            } else {
                None
            },
        }
    }
}

/// The store after a successful creation: the address is reserved under
/// the next condition key, the DID gets the next DID key unless it
/// already has one, and a fresh record starts at `IDLE` with sequence
/// number 0, owned by whichever player controls the DID. `owner` is the
/// resolved owner of `did`.
pub open spec fn create_next(
    s: StoreView,
    players: Seq<Seq<u8>>,
    nonce: u32,
    owner: Seq<u8>,
    did: Seq<u8>,
    addr: Seq<u8>,
) -> StoreView {
    let grantee = if owner == players[0] {
        players[1]
    } else {
        players[0]
    };
    let cond = CondView {
        nonce,
        players,
        seq_num: 0,
        status: AppStatus::IDLE,
        outcome: false,
        owner,
        grantee,
    };
    let did_key = if s.dids.contains(did) {
        ((choose|i: int| 0 <= i < s.dids.len() && s.dids[i] == did) + 2) as u32
    } else {
        (s.dids.len() + 2) as u32
    };
    StoreView {
        addresses: s.addresses.push(addr),
        conditions: s.conditions.push(cond),
        dids: if s.dids.contains(did) {
            s.dids
        } else {
            s.dids.push(did)
        },
        permissions: s.permissions,
        events: s.events.push(EventView::AccessConditionCreated {
            condition_address: addr,
            owner,
            grantee,
            condition_key: s.addresses.len() as u32,
            did_key,
        }),
    }
}

/// The first failing precondition of `set_new_did`, or `None`: the DID
/// must resolve to an owner, that owner must be the caller, and the DID
/// must not already hold a key.
pub open spec fn new_did_error(
    s: StoreView,
    reg: Seq<(Seq<u8>, Seq<u8>)>,
    who: Seq<u8>,
    did: Seq<u8>,
) -> Option<Error> {
    match owner_lookup(reg, did) {
        None => Some(Error::NotExist),
        Some(o) => if o != who {
            Some(Error::NotOwner)
        } else if s.dids.contains(did) {
            Some(Error::ExistAddress)
        } else {
            None
        },
    }
}

/// The store after registering a fresh DID under the next DID key.
pub open spec fn new_did_next(s: StoreView, did: Seq<u8>) -> StoreView {
    StoreView {
        dids: s.dids.push(did),
        events: s.events.push(EventView::NewDID { did, did_key: (s.dids.len() + 2) as u32 }),
        ..s
    }
}

impl DIDOffchainTrade {
    /// An engine with no conditions, no DID keys, no permissions and no
    /// events.
    pub fn new() -> (r: Self)
        ensures
            r@ == (StoreView {
                addresses: Seq::<Seq<u8>>::empty(),
                conditions: Seq::<CondView>::empty(),
                dids: Seq::<Seq<u8>>::empty(),
                permissions: Seq::<(Seq<u8>, Seq<u8>)>::empty(),
                events: Seq::<EventView>::empty(),
            }),
            store_wf(r@),
    {
        let r = DIDOffchainTrade {
            addresses: Vec::new(),
            conditions: Vec::new(),
            dids: Vec::new(),
            permissions: Vec::new(),
            events: Vec::new(),
        };
        proof {
            assert(r@ =~~= (StoreView {
                addresses: Seq::<Seq<u8>>::empty(),
                conditions: Seq::<CondView>::empty(),
                dids: Seq::<Seq<u8>>::empty(),
                permissions: Seq::<(Seq<u8>, Seq<u8>)>::empty(),
                events: Seq::<EventView>::empty(),
            }));
        }
        r
    }

    /// The next condition key, i.e. how many conditions exist.
    pub fn condition_key(&self) -> (r: u32)
        requires
            store_wf(self@),
        ensures
            r == self@.addresses.len(),
    {
        self.addresses.len() as u32
    }

    /// The next DID key (DID keys start at 2).
    pub fn did_key(&self) -> (r: u32)
        requires
            store_wf(self@),
        ensures
            r == self@.dids.len() + 2,
    {
        self.dids.len() as u32 + 2
    }

    /// The condition address registered under `key`, if any.
    pub fn condition_address(&self, key: u32) -> (r: Option<AccountId>)
        ensures
            match r {
                Some(addr) => key < self@.addresses.len() && addr@ == self@.addresses[key as int],
                None => key >= self@.addresses.len(),
            },
    {
        if (key as usize) < self.addresses.len() {
            Some(self.addresses[key as usize].clone())
        } else {
            None
        }
    }

    /// The integer key under which `addr` is registered, if any.
    pub fn key_of_condition(&self, addr: &AccountId) -> (r: Option<u32>)
        requires
            store_wf(self@),
        ensures
            match r {
                Some(key) => key < self@.addresses.len() && self@.addresses[key as int] == addr@,
                None => !self@.addresses.contains(addr@),
            },
    {
        match find_account(&self.addresses, addr) {
            Some(i) => Some(i as u32),
            None => None,
        }
    }

    /// The DID registered under `key`, if any.
    pub fn did_list(&self, key: u32) -> (r: Option<AccountId>)
        ensures
            match r {
                Some(did) => did_of_key(self@, key) == Some(did@),
                None => did_of_key(self@, key) is None,
            },
    {
        if key >= 2 && ((key - 2) as usize) < self.dids.len() {
            Some(self.dids[(key - 2) as usize].clone())
        } else {
            None
        }
    }

    /// The integer key assigned to `did`, if any.
    pub fn key_of_did(&self, did: &AccountId) -> (r: Option<u32>)
        requires
            store_wf(self@),
        ensures
            match r {
                Some(key) => did_of_key(self@, key) == Some(did@),
                None => !self@.dids.contains(did@),
            },
    {
        match find_account(&self.dids, did) {
            Some(i) => Some(i as u32 + 2),
            None => None,
        }
    }

    /// The full record stored for a condition address.
    pub fn get_access_condition(&self, addr: &AccountId) -> (r: Result<AccessCondition, Error>)
        requires
            store_wf(self@),
        ensures
            match r {
                Ok(c) => exists|i: int|
                    0 <= i < self@.addresses.len() && self@.addresses[i] == addr@
                        && c@ == self@.conditions[i],
                Err(e) => e == Error::InvalidConditionAddress && !self@.addresses.contains(addr@),
            },
    {
        match find_account(&self.addresses, addr) {
            Some(i) => {
                let c = clone_condition(&self.conditions[i]);
                proof {
                    assert(self@.addresses[i as int] == addr@);
                }
                Ok(c)
            },
            None => Err(Error::InvalidConditionAddress),
        }
    }

    /// The session nonce of a condition.
    pub fn get_nonce(&self, addr: &AccountId) -> (r: Result<u32, Error>)
        requires
            store_wf(self@),
        ensures
            match r {
                Ok(n) => exists|i: int|
                    0 <= i < self@.addresses.len() && self@.addresses[i] == addr@
                        && n == self@.conditions[i].nonce,
                Err(e) => e == Error::InvalidConditionAddress && !self@.addresses.contains(addr@),
            },
    {
        match find_account(&self.addresses, addr) {
            Some(i) => Ok(self.conditions[i].nonce),
            None => Err(Error::InvalidConditionAddress),
        }
    }

    /// The current sequence number of a condition.
    pub fn get_seq_num(&self, addr: &AccountId) -> (r: Result<u32, Error>)
        requires
            store_wf(self@),
        ensures
            match r {
                Ok(n) => exists|i: int|
                    0 <= i < self@.addresses.len() && self@.addresses[i] == addr@
                        && n == self@.conditions[i].seq_num,
                Err(e) => e == Error::InvalidConditionAddress && !self@.addresses.contains(addr@),
            },
    {
        match find_account(&self.addresses, addr) {
            Some(i) => Ok(self.conditions[i].seq_num),
            None => Err(Error::InvalidConditionAddress),
        }
    }

    /// The current status of a condition.
    pub fn get_status(&self, addr: &AccountId) -> (r: Result<AppStatus, Error>)
        requires
            store_wf(self@),
        ensures
            match r {
                Ok(st) => exists|i: int|
                    0 <= i < self@.addresses.len() && self@.addresses[i] == addr@
                        && st == self@.conditions[i].status,
                Err(e) => e == Error::InvalidConditionAddress && !self@.addresses.contains(addr@),
            },
    {
        match find_account(&self.addresses, addr) {
            Some(i) => Ok(self.conditions[i].status),
            None => Err(Error::InvalidConditionAddress),
        }
    }

    /// The account currently able to finalize a grant for this condition.
    pub fn get_owner(&self, addr: &AccountId) -> (r: Result<AccountId, Error>)
        requires
            store_wf(self@),
        ensures
            match r {
                Ok(o) => exists|i: int|
                    0 <= i < self@.addresses.len() && self@.addresses[i] == addr@
                        && o@ == self@.conditions[i].owner,
                Err(e) => e == Error::InvalidConditionAddress && !self@.addresses.contains(addr@),
            },
    {
        match find_account(&self.addresses, addr) {
            Some(i) => {
                let o = self.conditions[i].owner.clone();
                proof {
                    assert(self@.conditions[i as int].owner == self.conditions@[i as int].owner@);
                }
                Ok(o)
            },
            None => Err(Error::InvalidConditionAddress),
        }
    }

    /// The counterparty of the current owner.
    pub fn get_grantee(&self, addr: &AccountId) -> (r: Result<AccountId, Error>)
        requires
            store_wf(self@),
        ensures
            match r {
                Ok(g) => exists|i: int|
                    0 <= i < self@.addresses.len() && self@.addresses[i] == addr@
                        && g@ == self@.conditions[i].grantee,
                Err(e) => e == Error::InvalidConditionAddress && !self@.addresses.contains(addr@),
            },
    {
        match find_account(&self.addresses, addr) {
            Some(i) => {
                let g = self.conditions[i].grantee.clone();
                proof {
                    assert(self@.conditions[i as int].grantee == self.conditions@[i as int].grantee@);
                }
                Ok(g)
            },
            None => Err(Error::InvalidConditionAddress),
        }
    }

    /// Whether the condition at `addr` is currently `FINALIZED`; an
    /// unknown address reads as `false`.
    pub fn is_finalized(&self, addr: &AccountId) -> (r: bool)
        requires
            store_wf(self@),
        ensures
            r == exists|i: int|
                0 <= i < self@.addresses.len() && self@.addresses[i] == addr@
                    && (#[trigger] self@.conditions[i].status) is FINALIZED,
    {
        match find_account(&self.addresses, addr) {
            Some(i) => {
                let fin = match self.conditions[i].status {
                    AppStatus::FINALIZED => true,
                    AppStatus::IDLE => false,
                };
                proof {
                    if fin {
                        assert(self@.addresses[i as int] == addr@ && self@.conditions[
                            i as int
                        ].status is FINALIZED);
                    } else {
                        assert forall|j: int|
                            0 <= j < self@.addresses.len() && self@.addresses[j] == addr@ implies !(
                        (#[trigger] self@.conditions[j].status) is FINALIZED) by {
                            assert(j == i as int);
                        }
                    }
                }
                fin
            },
            None => {
                proof {
                    assert forall|j: int|
                        0 <= j < self@.addresses.len() && self@.addresses[j] == addr@ implies !((
                    #[trigger] self@.conditions[j].status) is FINALIZED) by {
                        assert(self@.addresses.contains(addr@));
                    }
                }
                false
            },
        }
    }

    /// Whether the condition at `addr` has a true outcome; an unknown
    /// address reads as `false`.
    pub fn get_outcome(&self, addr: &AccountId) -> (r: bool)
        requires
            store_wf(self@),
        ensures
            r == exists|i: int|
                0 <= i < self@.addresses.len() && self@.addresses[i] == addr@ && (
                #[trigger] self@.conditions[i].outcome),
    {
        match find_account(&self.addresses, addr) {
            Some(i) => {
                let out = self.conditions[i].outcome;
                proof {
                    if out {
                        assert(self@.addresses[i as int] == addr@ && self@.conditions[
                            i as int
                        ].outcome);
                    } else {
                        assert forall|j: int|
                            0 <= j < self@.addresses.len() && self@.addresses[j] == addr@ implies !(
                        #[trigger] self@.conditions[j].outcome) by {
                            assert(j == i as int);
                        }
                    }
                }
                out
            },
            None => {
                proof {
                    assert forall|j: int|
                        0 <= j < self@.addresses.len() && self@.addresses[j] == addr@ implies !(
                    #[trigger] self@.conditions[j].outcome) by {
                        assert(self@.addresses.contains(addr@));
                    }
                }
                false
            },
        }
    }

    /// Whether `grantee` currently holds the access right for the data
    /// governed by `identity`.
    pub fn check_permissions(&self, identity: &AccountId, grantee: &AccountId) -> (r: bool)
        ensures
            r == self@.permissions.contains((identity@, grantee@)),
    {
        let mut i: usize = 0;
        while i < self.permissions.len()
            invariant
                i <= self.permissions.len(),
                self@.permissions.len() == self.permissions@.len(),
                forall|j: int| 0 <= j < self.permissions@.len() ==> self@.permissions[j] == (
                    self.permissions@[j].0@,
                    self.permissions@[j].1@,
                ),
                forall|j: int| 0 <= j < i ==> self@.permissions[j] != (identity@, grantee@),
            decreases self.permissions.len() - i,
        {
            if account_eq(&self.permissions[i].0, identity) && account_eq(
                &self.permissions[i].1,
                grantee,
            ) {
                proof {
                    assert(self@.permissions[i as int] == (identity@, grantee@));
                }
                return true;
            }
            i = i + 1;
        }
        proof {
            assert forall|j: int| 0 <= j < self@.permissions.len() implies self@.permissions[j] != (
            (identity@, grantee@)) by {}
        }
        false
    }

    /// Validates a co-signed state proof and applies the transition it
    /// requests.
    ///
    /// The checks run in a fixed order, each with its own failure (see
    /// [`settle_error`]); a failed check leaves the store untouched. An
    /// accepted proof raises the condition's sequence number to the
    /// proof's — the anti-replay guarantee — and applies exactly one
    /// transition (see [`settle_next`]).
    pub fn intend_settle(&mut self, registry: &DidRegistry, who: &AccountId, transaction: StateProof) -> (r: Result<(), Error>)
        requires
            store_wf(old(self)@),
        ensures
            store_wf(final(self)@),
            match settle_error(
                old(self)@,
                registry@,
                who@,
                transaction.app_state,
                signatures_view(transaction.sigs@),
            ) {
                Some(e) => r == Result::<(), Error>::Err(e) && final(self)@ == old(self)@,
                None => r is Ok && final(self)@ == settle_next(old(self)@, transaction.app_state),
            },
    {
        let a = transaction.app_state;
        if a.state.condition_key as usize >= self.addresses.len() {
            return Err(Error::InvalidState);
        }
        let key = a.state.condition_key as usize;
        proof {
            assert(self@.conditions[key as int].wf());
            assert(self@.conditions[key as int] == self.conditions@[key as int]@);
        }
        let is_p0 = account_eq(who, &self.conditions[key].players[0]);
        let is_p1 = account_eq(who, &self.conditions[key].players[1]);
        if !is_p0 && !is_p1 {
            return Err(Error::InvalidSender);
        }
        let msg = encode_app_state(&a);
        match valid_signers(&transaction.sigs, &msg, &self.conditions[key].players) {
            Ok(()) => {},
            Err(e) => {
                proof {
                    assert(!pair_signed(
                        signatures_view(transaction.sigs@),
                        app_state_bytes(a),
                        self@.conditions[key as int].players[0],
                        self@.conditions[key as int].players[1],
                    ));
                }
                return Err(e);
            },
        }
        if self.conditions[key].nonce != a.nonce {
            return Err(Error::InvalidNonce);
        }
        if a.seq_num <= self.conditions[key].seq_num {
            return Err(Error::InvalidSeqNum);
        }
        let ghost pre = self@;
        match a.state.op {
            Op::RESET_AND_SWAP => {
                let finalized = match self.conditions[key].status {
                    AppStatus::FINALIZED => true,
                    AppStatus::IDLE => false,
                };
                if !finalized {
                    return Err(Error::NotFinalizedStatus);
                }
                let new_cond = AccessCondition {
                    nonce: self.conditions[key].nonce,
                    players: clone_accounts(&self.conditions[key].players),
                    seq_num: a.seq_num,
                    status: AppStatus::IDLE,
                    outcome: false,
                    owner: self.conditions[key].grantee.clone(),
                    grantee: self.conditions[key].owner.clone(),
                };
                self.conditions.set(key, new_cond);
                let addr = self.addresses[key].clone();
                self.events.push(Event::SwapPosition { condition_address: addr });
                proof {
                    assert(self@ =~~= settle_next(pre, a));
                }
                Ok(())
            },
            Op::RESET_ONLY => {
                let finalized = match self.conditions[key].status {
                    AppStatus::FINALIZED => true,
                    AppStatus::IDLE => false,
                };
                if !finalized {
                    return Err(Error::NotFinalizedStatus);
                }
                let new_cond = AccessCondition {
                    nonce: self.conditions[key].nonce,
                    players: clone_accounts(&self.conditions[key].players),
                    seq_num: a.seq_num,
                    status: AppStatus::IDLE,
                    outcome: false,
                    owner: self.conditions[key].owner.clone(),
                    grantee: self.conditions[key].grantee.clone(),
                };
                self.conditions.set(key, new_cond);
                let addr = self.addresses[key].clone();
                self.events.push(Event::SetIdle { condition_address: addr });
                proof {
                    assert(self@ =~~= settle_next(pre, a));
                }
                Ok(())
            },
            Op::FINALIZE(did_key) => {
                let idle = match self.conditions[key].status {
                    AppStatus::IDLE => true,
                    AppStatus::FINALIZED => false,
                };
                if !idle {
                    return Err(Error::NotIdleStatus);
                }
                let did = match self.did_list(did_key) {
                    Some(d) => d,
                    None => return Err(Error::InvalidDIDState),
                };
                let did_owner = match registry.owner_of(&did) {
                    Some(o) => o,
                    None => return Err(Error::NotExist),
                };
                if !account_eq(did_owner, &self.conditions[key].owner) {
                    return Err(Error::NotOwner);
                }
                let new_cond = AccessCondition {
                    nonce: self.conditions[key].nonce,
                    players: clone_accounts(&self.conditions[key].players),
                    seq_num: a.seq_num,
                    status: AppStatus::FINALIZED,
                    outcome: true,
                    owner: self.conditions[key].owner.clone(),
                    grantee: self.conditions[key].grantee.clone(),
                };
                let grantee = self.conditions[key].grantee.clone();
                self.conditions.set(key, new_cond);
                if !self.check_permissions(&did, &grantee) {
                    self.permissions.push((did, grantee));
                }
                let addr = self.addresses[key].clone();
                self.events.push(Event::IntendSettle { condition_address: addr });
                proof {
                    assert(self@ =~~= settle_next(pre, a));
                }
                Ok(())
            },
        }
    }

    /// Creates the escrow record for a new trade between two players.
    ///
    /// The caller (`_who`) only needs to be an authenticated account;
    /// authorization is re-derived from the DID registry: the DID's owner
    /// must be one of the two players, and becomes the record's initial
    /// owner, the other player its grantee. The condition address is
    /// reserved under the next condition key; the DID gets the next DID
    /// key unless it was seen before, in which case its key is reused.
    pub fn create_access_condition(
        &mut self,
        registry: &DidRegistry,
        _who: &AccountId,
        players: Vec<AccountId>,
        nonce: u32,
        did: AccountId,
        condition_address: AccountId,
    ) -> (r: Result<(), Error>)
        requires
            store_wf(old(self)@),
            old(self)@.addresses.len() + 1 <= 0xFFFF_FFFF,
            old(self)@.dids.len() + 3 <= 0xFFFF_FFFF,
        ensures
            store_wf(final(self)@),
            match create_error(old(self)@, registry@, accounts_view(players@), did@, condition_address@) {
                Some(e) => r == Result::<(), Error>::Err(e) && final(self)@ == old(self)@,
                None => r is Ok && (owner_lookup(registry@, did@) matches Some(o) && final(self)@
                    == create_next(old(self)@, accounts_view(players@), nonce, o, did@, condition_address@)),
            },
    {
        if players.len() != 2 {
            return Err(Error::InvalidPlayerLength);
        }
        if account_eq(&players[0], &players[1]) {
            return Err(Error::InvalidPlayerLength);
        }
        let owner_acct = match registry.owner_of(&did) {
            Some(o) => o,
            None => return Err(Error::NotExist),
        };
        let is_p0 = account_eq(owner_acct, &players[0]);
        let is_p1 = account_eq(owner_acct, &players[1]);
        if !is_p0 && !is_p1 {
            return Err(Error::NotOwner);
        }
        match find_account(&self.addresses, &condition_address) {
            Some(_) => {
                return Err(Error::ExistAddress);
            },
            None => {},
        }
        let ghost pre = self@;
        let ghost pv = accounts_view(players@);
        let ghost dv = did@;
        let ghost av = condition_address@;
        let ghost ov = owner_acct@;
        let did_key: u32 = match find_account(&self.dids, &did) {
            Some(i) => {
                proof {
                    assert(pre.dids.contains(dv));
                    let c = choose|j: int| 0 <= j < pre.dids.len() && pre.dids[j] == dv;
                    if c < i as int {
                        assert(pre.dids[c] != pre.dids[i as int]);
                    } else if c > i as int {
                        assert(pre.dids[i as int] != pre.dids[c]);
                    }
                    assert(c == i as int);
                }
                i as u32 + 2
            },
            None => {
                let k = self.dids.len() as u32 + 2;
                self.dids.push(did.clone());
                proof {
                    assert forall|i: int| 0 <= i < pre.dids.len() implies pre.dids[i] != dv by {
                        if pre.dids[i] == dv {
                            assert(pre.dids.contains(dv));
                        }
                    }
                    assert(accounts_view(self.dids@) =~= pre.dids.push(dv));
                }
                k
            },
        };
        let condition_key = self.addresses.len() as u32;
        let owner = if is_p0 {
            players[0].clone()
        } else {
            players[1].clone()
        };
        let grantee = if is_p0 {
            players[1].clone()
        } else {
            players[0].clone()
        };
        let cond = AccessCondition {
            nonce,
            players,
            seq_num: 0,
            status: AppStatus::IDLE,
            outcome: false,
            owner: owner.clone(),
            grantee: grantee.clone(),
        };
        self.addresses.push(condition_address.clone());
        self.conditions.push(cond);
        self.events.push(Event::AccessConditionCreated {
            condition_address,
            owner,
            grantee,
            condition_key,
            did_key,
        });
        proof {
            assert forall|i: int| 0 <= i < pre.addresses.len() implies pre.addresses[i] != av by {
                if pre.addresses[i] == av {
                    assert(pre.addresses.contains(av));
                }
            }
            assert(self@ =~~= create_next(pre, pv, nonce, ov, dv, av));
        }
        Ok(())
    }

    /// Registers a DID not yet tied to a condition under the next DID
    /// key. The caller must be the account that controls the DID.
    pub fn set_new_did(&mut self, registry: &DidRegistry, who: &AccountId, did: AccountId) -> (r:
        Result<(), Error>)
        requires
            store_wf(old(self)@),
            old(self)@.dids.len() + 3 <= 0xFFFF_FFFF,
        ensures
            store_wf(final(self)@),
            match new_did_error(old(self)@, registry@, who@, did@) {
                Some(e) => r == Result::<(), Error>::Err(e) && final(self)@ == old(self)@,
                None => r is Ok && final(self)@ == new_did_next(old(self)@, did@),
            },
    {
        let owner = match registry.owner_of(&did) {
            Some(o) => o,
            None => return Err(Error::NotExist),
        };
        if !account_eq(owner, who) {
            return Err(Error::NotOwner);
        }
        match find_account(&self.dids, &did) {
            Some(_) => {
                return Err(Error::ExistAddress);
            },
            None => {},
        }
        let ghost pre = self@;
        let ghost dv = did@;
        let key = self.dids.len() as u32 + 2;
        self.events.push(Event::NewDID { did: did.clone(), did_key: key });
        self.dids.push(did);
        proof {
            assert forall|i: int| 0 <= i < pre.dids.len() implies pre.dids[i] != dv by {
                if pre.dids[i] == dv {
                    assert(pre.dids.contains(dv));
                }
            }
            assert(self@ =~~= new_did_next(pre, dv));
        }
        Ok(())
    }

    /// The events recorded so far, oldest first.
    pub fn events(&self) -> (r: &Vec<Event>)
        ensures
            r@.map_values(|e: Event| e@) == self@.events,
    {
        &self.events
    }
}

/// Clones one access condition record.
fn clone_condition(c: &AccessCondition) -> (r: AccessCondition)
    ensures
        r@ == c@,
{
    let r = AccessCondition {
        nonce: c.nonce,
        players: clone_accounts(&c.players),
        seq_num: c.seq_num,
        status: c.status,
        outcome: c.outcome,
        owner: c.owner.clone(),
        grantee: c.grantee.clone(),
    };
    proof {
        assert(r@ =~~= c@);
    }
    r
}

/// Finds the index of `x` in `v`, scanning from the front.
fn find_account(v: &Vec<AccountId>, x: &AccountId) -> (r: Option<usize>)
    ensures
        match r {
            Some(i) => i < v@.len() && accounts_view(v@)[i as int] == x@,
            None => !accounts_view(v@).contains(x@),
        },
{
    let mut i: usize = 0;
    while i < v.len()
        invariant
            i <= v.len(),
            forall|j: int| 0 <= j < i ==> accounts_view(v@)[j] != x@,
        decreases v.len() - i,
    {
        if account_eq(&v[i], x) {
            return Some(i);
        }
        i = i + 1;
    }
    proof {
        assert forall|j: int| 0 <= j < accounts_view(v@).len() implies accounts_view(v@)[j] != x@ by {}
    }
    None
}

} // verus!
