use vstd::prelude::*;

verus! {

/// An account identifier: the raw bytes of an sr25519 public key.
///
/// Players, DIDs and condition addresses are all accounts. The engine
/// never looks inside the bytes; it only compares them and feeds them to
/// the signature verifier.
pub struct AccountId {
    pub bytes: Vec<u8>,
}

impl View for AccountId {
    type V = Seq<u8>;

    open spec fn view(&self) -> Seq<u8> {
        self.bytes@
    }
}

impl Clone for AccountId {
    fn clone(&self) -> (r: Self)
        ensures
            r@ == self@,
    {
        AccountId { bytes: clone_bytes(&self.bytes) }
    }
}

/// An sr25519 signature, carried as its raw bytes.
pub struct Signature {
    pub bytes: Vec<u8>,
}

impl View for Signature {
    type V = Seq<u8>;

    open spec fn view(&self) -> Seq<u8> {
        self.bytes@
    }
}

impl Clone for Signature {
    fn clone(&self) -> (r: Self)
        ensures
            r@ == self@,
    {
        Signature { bytes: clone_bytes(&self.bytes) }
    }
}

fn clone_bytes(v: &Vec<u8>) -> (r: Vec<u8>)
    ensures
        r@ == v@,
{
    let mut r: Vec<u8> = Vec::new();
    let mut i: usize = 0;
    while i < v.len()
        invariant
            i <= v.len(),
            r@ == v@.subrange(0, i as int),
        decreases v.len() - i,
    {
        r.push(v[i]);
        assert(v@.subrange(0, i as int).push(v@[i as int]) =~= v@.subrange(0, i + 1 as int));
        i = i + 1;
    }
    assert(v@.subrange(0, v.len() as int) =~= v@);
    r
}

/// The byte strings of a sequence of signatures.
pub open spec fn signatures_view(s: Seq<Signature>) -> Seq<Seq<u8>> {
    s.map_values(|g: Signature| g@)
}

/// The byte strings of a sequence of accounts.
pub open spec fn accounts_view(s: Seq<AccountId>) -> Seq<Seq<u8>> {
    s.map_values(|a: AccountId| a@)
}

/// Clones a list of accounts entry by entry.
pub(crate) fn clone_accounts(v: &Vec<AccountId>) -> (r: Vec<AccountId>)
    ensures
        r@.len() == v@.len(),
        forall|j: int| 0 <= j < v@.len() ==> r@[j]@ == v@[j]@,
        accounts_view(r@) == accounts_view(v@),
{
    let mut r: Vec<AccountId> = Vec::new();
    let mut i: usize = 0;
    while i < v.len()
        invariant
            i <= v.len(),
            r@.len() == i,
            forall|j: int| 0 <= j < i ==> r@[j]@ == v@[j]@,
        decreases v.len() - i,
    {
        r.push(v[i].clone());
        i = i + 1;
    }
    proof {
        assert(accounts_view(r@) =~= accounts_view(v@));
    }
    r
}

/// Decides whether two accounts are the same identity (byte-for-byte).
pub fn account_eq(a: &AccountId, b: &AccountId) -> (r: bool)
    ensures
        r == (a@ == b@),
{
    if a.bytes.len() != b.bytes.len() {
        return false;
    }
    let mut i: usize = 0;
    while i < a.bytes.len()
        invariant
            i <= a.bytes.len(),
            a.bytes@.len() == b.bytes@.len(),
            forall|j: int| 0 <= j < i ==> a.bytes@[j] == b.bytes@[j],
        decreases a.bytes.len() - i,
    {
        if a.bytes[i] != b.bytes[i] {
            return false;
        }
        i = i + 1;
    }
    assert(a.bytes@ =~= b.bytes@);
    true
}

} // verus!
