use vstd::prelude::*;

use crate::account::AccountId;
use crate::engine::DIDOffchainTrade;
use crate::engine::store_wf;

verus! {

/// The interface through which other ledger components read the boolean
/// outcome of a single-session condition, without depending on the
/// engine itself.
pub trait SingleSessionBooleanOutcome {
    /// Whether this source considers the session at `condition_address`
    /// settled.
    spec fn finalized_spec(&self, condition_address: Seq<u8>) -> bool;

    /// The boolean outcome this source reports for `condition_address`.
    spec fn outcome_spec(&self, condition_address: Seq<u8>) -> bool;

    /// Whether the source is in a state fit to be queried.
    spec fn queryable(&self) -> bool;

    fn is_finalized(&self, condition_address: &AccountId) -> (r: bool)
        requires
            self.queryable(),
        ensures
            r == self.finalized_spec(condition_address@),
    ;

    fn get_outcome(&self, condition_address: &AccountId) -> (r: bool)
        requires
            self.queryable(),
        ensures
            r == self.outcome_spec(condition_address@),
    ;
}

/// The interface through which a payment channel asks whether a grantee
/// currently holds the access right for a resource.
pub trait PaymentChannel {
    /// Whether this source records `grantee` as holding the right for
    /// the data governed by `identity`.
    spec fn permission_spec(&self, identity: Seq<u8>, grantee: Seq<u8>) -> bool;

    fn check_permissions(&self, identity: &AccountId, grantee: &AccountId) -> (r: bool)
        ensures
            r == self.permission_spec(identity@, grantee@),
    ;
}

impl SingleSessionBooleanOutcome for DIDOffchainTrade {
    open spec fn finalized_spec(&self, condition_address: Seq<u8>) -> bool {
        exists|i: int|
            0 <= i < self@.addresses.len() && self@.addresses[i] == condition_address && (
            #[trigger] self@.conditions[i].status) is FINALIZED
    }

    open spec fn outcome_spec(&self, condition_address: Seq<u8>) -> bool {
        exists|i: int|
            0 <= i < self@.addresses.len() && self@.addresses[i] == condition_address && (
            #[trigger] self@.conditions[i].outcome)
    }

    open spec fn queryable(&self) -> bool {
        store_wf(self@)
    }

    fn is_finalized(&self, condition_address: &AccountId) -> (r: bool) {
        DIDOffchainTrade::is_finalized(self, condition_address)
    }

    fn get_outcome(&self, condition_address: &AccountId) -> (r: bool) {
        DIDOffchainTrade::get_outcome(self, condition_address)
    }
}

impl PaymentChannel for DIDOffchainTrade {
    open spec fn permission_spec(&self, identity: Seq<u8>, grantee: Seq<u8>) -> bool {
        self@.permissions.contains((identity, grantee))
    }

    fn check_permissions(&self, identity: &AccountId, grantee: &AccountId) -> (r: bool) {
        DIDOffchainTrade::check_permissions(self, identity, grantee)
    }
}

} // verus!
