//! Read-only reconciliation of two record sets keyed by identity: how many
//! records a pull would add, delete and update locally.

use crate::records::Album;
use std::collections::HashMap;
use vstd::prelude::*;
use vstd::std_specs::hash::group_hash_axioms;

verus! {

/// Some record of `s` has identity `id`.
pub open spec fn has_id(s: Seq<Album>, id: Option<i64>) -> bool {
    exists|j: int| 0 <= j < s.len() && (#[trigger] s[j]).id == id
}

/// Every record has an identity, and no two records share one: the shape of
/// the records that a store holds.
pub open spec fn keyed(s: Seq<Album>) -> bool {
    &&& forall|i: int| 0 <= i < s.len() ==> (#[trigger] s[i]).id is Some
    &&& forall|i: int, j: int| 0 <= i < s.len() && 0 <= j < s.len() && i != j ==> (#[trigger] s[i]).id != (#[trigger] s[j]).id
}

/// `other` holds a record with the identity of `a` whose fields differ.
pub open spec fn changed_in(other: Seq<Album>, a: Album) -> bool {
    exists|j: int| 0 <= j < other.len() && (#[trigger] other[j]).id == a.id && !other[j].same_as(a)
}

/// Records of the remote set whose identity is not in the local set.
pub open spec fn added_records(local: Seq<Album>, remote: Seq<Album>) -> Seq<Album> {
    remote.filter(|a: Album| !has_id(local, a.id))
}

/// Records of the local set whose identity is not in the remote set.
pub open spec fn deleted_records(local: Seq<Album>, remote: Seq<Album>) -> Seq<Album> {
    local.filter(|a: Album| !has_id(remote, a.id))
}

/// Records of the local set that the remote set holds with other values.
pub open spec fn updated_records(local: Seq<Album>, remote: Seq<Album>) -> Seq<Album> {
    local.filter(|a: Album| changed_in(remote, a))
}

/// Records of `mine` whose identity `other` holds too.
pub open spec fn shared_records(mine: Seq<Album>, other: Seq<Album>) -> Seq<Album> {
    mine.filter(|a: Album| has_id(other, a.id))
}

/// How a pull would change the local records.
#[derive(Debug, Clone, Copy, PartialEq, Eq, Structural)]
pub struct ChangeCounts {
    pub added: usize,
    pub deleted: usize,
    pub updated: usize,
}

/// The identity of each record of `s`, mapped to the record's position.
fn index_by_id(s: &Vec<Album>) -> (m: HashMap<i64, usize>)
    requires
        keyed(s@),
    ensures
        forall|id: i64| #[trigger] m@.contains_key(id) <==> has_id(s@, Some(id)),
        forall|id: i64| #[trigger] m@.contains_key(id) ==> m@[id] < s@.len() && s@[m@[id] as int].id == Some(id),
{
    broadcast use group_hash_axioms;

    let mut m: HashMap<i64, usize> = HashMap::new();
    let mut i: usize = 0;
    while i < s.len()
        invariant
            keyed(s@),
            i <= s@.len(),
            forall|id: i64| #[trigger] m@.contains_key(id) <==> exists|j: int| 0 <= j < i && (#[trigger] s@[j]).id == Some(id),
            forall|id: i64| #[trigger] m@.contains_key(id) ==> m@[id] < i && s@[m@[id] as int].id == Some(id),
        decreases s@.len() - i,
    {
        match s[i].id {
            Some(id) => {
                m.insert(id, i);
            },
            None => {
                assert(false);
            },
        }
        i = i + 1;
    }
    m
}

/// Whether every record has an identity and no identity repeats.
pub fn records_keyed(s: &Vec<Album>) -> (r: bool)
    ensures
        r == keyed(s@),
{
    let mut i: usize = 0;
    while i < s.len()
        invariant
            i <= s@.len(),
            forall|k: int| 0 <= k < i ==> (#[trigger] s@[k]).id is Some,
            forall|k: int, l: int| 0 <= k < i && 0 <= l < s@.len() && k != l ==> (#[trigger] s@[k]).id != (#[trigger] s@[l]).id,
        decreases s@.len() - i,
    {
        if s[i].id.is_none() {
            return false;
        }
        let mut j: usize = 0;
        while j < s.len()
            invariant
                i < s@.len(),
                j <= s@.len(),
                forall|l: int| 0 <= l < j && l != i ==> (#[trigger] s@[l]).id != s@[i as int].id,
            decreases s@.len() - j,
        {
            if j != i {
                let same = match (s[j].id, s[i].id) {
                    (Some(a), Some(b)) => a == b,
                    (None, None) => true,
                    _ => false,
                };
                if same {
                    assert(s@[j as int].id == s@[i as int].id);
                    return false;
                }
            }
            j = j + 1;
        }
        i = i + 1;
    }
    true
}

proof fn lemma_take_step(s: Seq<Album>, i: int)
    requires
        0 <= i < s.len(),
    ensures
        s.take(i + 1).drop_last() == s.take(i),
        s.take(i + 1).last() == s[i],
        s.take(i + 1).len() > 0,
{
    assert(s.take(i + 1).drop_last() =~= s.take(i));
}

proof fn lemma_added_step(local: Seq<Album>, remote: Seq<Album>, k: int)
    requires
        0 <= k < remote.len(),
    ensures
        added_records(local, remote.take(k + 1)).len() == added_records(local, remote.take(k)).len()
            + if !has_id(local, remote[k].id) { 1int } else { 0int },
{
    reveal(Seq::filter);
    lemma_take_step(remote, k);
}

proof fn lemma_deleted_step(local: Seq<Album>, remote: Seq<Album>, i: int)
    requires
        0 <= i < local.len(),
    ensures
        deleted_records(local.take(i + 1), remote).len() == deleted_records(local.take(i), remote).len()
            + if !has_id(remote, local[i].id) { 1int } else { 0int },
        updated_records(local.take(i + 1), remote).len() == updated_records(local.take(i), remote).len()
            + if changed_in(remote, local[i]) { 1int } else { 0int },
{
    reveal(Seq::filter);
    lemma_take_step(local, i);
}

/// Counts the records that a pull would add, delete and update: identities
/// only in `remote` are added, identities only in `local` are deleted, and
/// identities in both whose records differ are updated.
pub fn reconcile(local: &Vec<Album>, remote: &Vec<Album>) -> (r: ChangeCounts)
    requires
        keyed(local@),
        keyed(remote@),
    ensures
        r.added == added_records(local@, remote@).len(),
        r.deleted == deleted_records(local@, remote@).len(),
        r.updated == updated_records(local@, remote@).len(),
{
    broadcast use group_hash_axioms;

    let local_index = index_by_id(local);
    let remote_index = index_by_id(remote);
    let mut deleted: usize = 0;
    let mut updated: usize = 0;
    let mut i: usize = 0;
    proof {
        reveal(Seq::filter);
        assert(local@.take(0) =~= Seq::<Album>::empty());
        assert(remote@.take(0) =~= Seq::<Album>::empty());
    }
    while i < local.len()
        invariant
            i <= local@.len(),
            keyed(local@),
            keyed(remote@),
            forall|id: i64| #[trigger] remote_index@.contains_key(id) <==> has_id(remote@, Some(id)),
            forall|id: i64| #[trigger] remote_index@.contains_key(id) ==> remote_index@[id] < remote@.len()
                && remote@[remote_index@[id] as int].id == Some(id),
            deleted == deleted_records(local@.take(i as int), remote@).len(),
            updated == updated_records(local@.take(i as int), remote@).len(),
            deleted <= i,
            updated <= i,
        decreases local@.len() - i,
    {
        proof {
            lemma_deleted_step(local@, remote@, i as int);
        }
        let a = &local[i];
        let id = match a.id {
            Some(id) => id,
            None => {
                assert(false);
                0
            },
        };
        match remote_index.get(&id) {
            Some(j) => {
                let j = *j;
                let differs = !(remote[j] == *a);
                assert(differs == changed_in(remote@, local@[i as int])) by {
                    if changed_in(remote@, local@[i as int]) {
                        let k = choose|k: int| 0 <= k < remote@.len() && (#[trigger] remote@[k]).id == local@[i as int].id && !remote@[k].same_as(local@[i as int]);
                        assert(k == j);
                    }
                }
                if differs {
                    updated = updated + 1;
                }
            },
            None => {
                deleted = deleted + 1;
            },
        }
        i = i + 1;
    }
    let mut added: usize = 0;
    let mut k: usize = 0;
    while k < remote.len()
        invariant
            k <= remote@.len(),
            keyed(remote@),
            forall|id: i64| #[trigger] local_index@.contains_key(id) <==> has_id(local@, Some(id)),
            added == added_records(local@, remote@.take(k as int)).len(),
            added <= k,
        decreases remote@.len() - k,
    {
        proof {
            lemma_added_step(local@, remote@, k as int);
        }
        let id = match remote[k].id {
            Some(id) => id,
            None => {
                assert(false);
                0
            },
        };
        if !local_index.contains_key(&id) {
            added = added + 1;
        }
        k = k + 1;
    }
    assert(local@.take(local@.len() as int) =~= local@);
    assert(remote@.take(remote@.len() as int) =~= remote@);
    ChangeCounts { added, deleted, updated }
}

proof fn lemma_partition_counts(mine: Seq<Album>, other: Seq<Album>)
    ensures
        deleted_records(mine, other).len() + shared_records(mine, other).len() == mine.len(),
        updated_records(mine, other).len() <= shared_records(mine, other).len(),
    decreases mine.len(),
{
    reveal(Seq::filter);
    if mine.len() > 0 {
        lemma_partition_counts(mine.drop_last(), other);
        let a = mine.last();
        if changed_in(other, a) {
            assert(has_id(other, a.id));
        }
    }
}

/// Every local record is either deleted by a pull or shared with the remote
/// side, and every remote record is either added or shared; only shared
/// records can be updated.
pub proof fn lemma_change_counts_partition(local: Seq<Album>, remote: Seq<Album>)
    ensures
        deleted_records(local, remote).len() + shared_records(local, remote).len() == local.len(),
        added_records(local, remote).len() + shared_records(remote, local).len() == remote.len(),
        updated_records(local, remote).len() <= shared_records(local, remote).len(),
{
    lemma_partition_counts(local, remote);
    lemma_partition_counts(remote, local);
    assert(added_records(local, remote) == deleted_records(remote, local));
}

} // verus!
