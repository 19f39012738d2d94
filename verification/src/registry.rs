use vstd::prelude::*;

use crate::account::AccountId;
use crate::account::account_eq;
use crate::state::Error;

verus! {

/// The owner recorded for `did`, if any: the first entry of `reg` whose
/// identity matches.
pub open spec fn owner_lookup(reg: Seq<(Seq<u8>, Seq<u8>)>, did: Seq<u8>) -> Option<Seq<u8>>
    decreases reg.len(),
{
    if reg.len() == 0 {
        None
    } else if reg[0].0 == did {
        Some(reg[0].1)
    } else {
        owner_lookup(reg.drop_first(), did)
    }
}

/// The identity registry the settlement engine consults: which account
/// controls each DID. The engine only ever reads it; it is filled by
/// whoever answers for identities in the surrounding system.
pub struct DidRegistry {
    entries: Vec<(AccountId, AccountId)>,
}

impl View for DidRegistry {
    type V = Seq<(Seq<u8>, Seq<u8>)>;

    closed spec fn view(&self) -> Seq<(Seq<u8>, Seq<u8>)> {
        self.entries@.map_values(|e: (AccountId, AccountId)| (e.0@, e.1@))
    }
}

impl DidRegistry {
    /// An empty registry: no DID resolves.
    pub fn new() -> (r: Self)
        ensures
            r@ == Seq::<(Seq<u8>, Seq<u8>)>::empty(),
    {
        let r = DidRegistry { entries: Vec::new() };
        proof {
            assert(r@ =~= Seq::<(Seq<u8>, Seq<u8>)>::empty());
        }
        r
    }

    /// Records `who` as the controlling account of `identity`. A DID can
    /// be registered only once; re-registration is refused.
    pub fn register_identity(&mut self, who: &AccountId, identity: &AccountId) -> (r: Result<(), Error>)
        ensures
            match r {
                Ok(()) => owner_lookup(old(self)@, identity@) is None && final(self)@ == old(
                    self,
                )@.push((identity@, who@)),
                Err(e) => e == Error::ExistAddress && owner_lookup(old(self)@, identity@) is Some
                    && final(self)@ == old(self)@,
            },
    {
        if self.owner_of(identity).is_some() {
            return Err(Error::ExistAddress);
        }
        let entry = (identity.clone(), who.clone());
        self.entries.push(entry);
        proof {
            assert(self@ =~= old(self)@.push((identity@, who@)));
        }
        Ok(())
    }

    /// Resolves a DID to its controlling account; `None` for a DID that
    /// was never registered.
    pub fn owner_of(&self, did: &AccountId) -> (r: Option<&AccountId>)
        ensures
            match r {
                Some(owner) => owner_lookup(self@, did@) == Some(owner@),
                None => owner_lookup(self@, did@) is None,
            },
    {
        let mut i: usize = 0;
        proof {
            assert(self@.skip(0) =~= self@);
        }
        while i < self.entries.len()
            invariant
                i <= self.entries.len(),
                owner_lookup(self@, did@) == owner_lookup(self@.skip(i as int), did@),
                self@.len() == self.entries@.len(),
                forall|j: int| 0 <= j < self.entries@.len() ==> self@[j] == (
                    self.entries@[j].0@,
                    self.entries@[j].1@,
                ),
            decreases self.entries.len() - i,
        {
            if account_eq(&self.entries[i].0, did) {
                proof {
                    assert(self@.skip(i as int)[0] == (self.entries@[i as int].0@, self.entries@[i as int].1@));
                    reveal_owner_lookup_step(self@, did@, i as int);
                }
                return Some(&self.entries[i].1);
            }
            proof {
                reveal_owner_lookup_step(self@, did@, i as int);
                assert(self@.skip(i as int).drop_first() =~= self@.skip(i + 1));
            }
            i = i + 1;
        }
        proof {
            assert(self@.skip(self.entries@.len() as int).len() == 0);
        }
        None
    }
}

/// Unfolds one step of `owner_lookup` on the suffix of `reg` that starts
/// at `i`.
proof fn reveal_owner_lookup_step(reg: Seq<(Seq<u8>, Seq<u8>)>, did: Seq<u8>, i: int)
    requires
        0 <= i < reg.len(),
    ensures
        owner_lookup(reg.skip(i), did) == if reg[i].0 == did {
            Some(reg[i].1)
        } else {
            owner_lookup(reg.skip(i).drop_first(), did)
        },
{
    assert(reg.skip(i).len() > 0);
    assert(reg.skip(i)[0] == reg[i]);
}

} // verus!
