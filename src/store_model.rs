//! The uniqueness rules that storage enforces, as a model, and what follows
//! from them for concurrent requests.
//!
//! Storage holds two unique indexes: on the external identity of users, and
//! on live memberships per (user, division). A statement that would break one
//! is refused whole. Storage serialises concurrent statements, so racing
//! insertions form a sequence of insertions against the index.
use vstd::prelude::*;

verus! {

/// No key occurs twice.
pub open spec fn keys_unique<K>(ks: Seq<K>) -> bool {
    forall|i: int, j: int| 0 <= i < ks.len() && 0 <= j < ks.len() && i != j ==> ks[i] != ks[j]
}

/// One insertion against the index: accepted and added, or refused.
pub open spec fn index_insert<K>(ks: Seq<K>, key: K) -> (Seq<K>, bool) {
    if ks.contains(key) {
        (ks, false)
    } else {
        (ks.push(key), true)
    }
}

/// `n` racing insertions of one key, in the order storage serialised them: the
/// keys afterwards and how many insertions were accepted.
pub open spec fn racing_inserts<K>(ks: Seq<K>, key: K, n: nat) -> (Seq<K>, nat)
    decreases n,
{
    if n == 0 {
        (ks, 0)
    } else {
        let (before, accepted) = racing_inserts(ks, key, (n - 1) as nat);
        let (after, ok) = index_insert(before, key);
        (after, if ok {
            accepted + 1
        } else {
            accepted
        })
    }
}

/// An insertion against the index keeps every key unique and leaves the key present.
pub proof fn lemma_index_keeps_unique<K>(ks: Seq<K>, key: K)
    requires
        keys_unique(ks),
    ensures
        keys_unique(index_insert(ks, key).0),
        index_insert(ks, key).0.contains(key),
{
    if !ks.contains(key) {
        let out = ks.push(key);
        assert(out[ks.len() as int] == key);
        assert forall|i: int, j: int|
            0 <= i < out.len() && 0 <= j < out.len() && i != j implies out[i] != out[j] by {
            if i == ks.len() && out[j] == key {
                assert(ks[j] == key);
            }
            if j == ks.len() && out[i] == key {
                assert(ks[i] == key);
            }
        }
    }
}

/// Of any number of racing insertions of a key that is absent, exactly one is
/// accepted, and afterwards the key is present once.
pub proof fn lemma_racing_inserts_one_accepted<K>(ks: Seq<K>, key: K, n: nat)
    requires
        keys_unique(ks),
        !ks.contains(key),
        n >= 1,
    ensures
        racing_inserts(ks, key, n).1 == 1,
        keys_unique(racing_inserts(ks, key, n).0),
        racing_inserts(ks, key, n).0.contains(key),
    decreases n,
{
    if n == 1 {
        lemma_index_keeps_unique(ks, key);
    } else {
        lemma_racing_inserts_one_accepted(ks, key, (n - 1) as nat);
        let before = racing_inserts(ks, key, (n - 1) as nat).0;
        assert(before.contains(key));
        lemma_index_keeps_unique(before, key);
    }
}

/// Racing creations of one external identity leave exactly one account for it:
/// one creation is accepted, and every other is refused as a conflict.
pub proof fn lemma_identity_created_once(identities: Seq<Seq<char>>, identity: Seq<char>, n: nat)
    requires
        keys_unique(identities),
        !identities.contains(identity),
        n >= 1,
    ensures
        racing_inserts(identities, identity, n).1 == 1,
        keys_unique(racing_inserts(identities, identity, n).0),
{
    lemma_racing_inserts_one_accepted(identities, identity, n);
}

/// Racing commits of one user into one division where the user holds no live
/// membership: exactly one is accepted, and at most one live membership per
/// user and division holds afterwards.
pub proof fn lemma_roster_committed_once(live: Seq<(i64, i64)>, user: i64, division: i64, n: nat)
    requires
        keys_unique(live),
        !live.contains((user, division)),
        n >= 1,
    ensures
        racing_inserts(live, (user, division), n).1 == 1,
        keys_unique(racing_inserts(live, (user, division), n).0),
        racing_inserts(live, (user, division), n).0.contains((user, division)),
{
    lemma_racing_inserts_one_accepted(live, (user, division), n);
}

} // verus!
