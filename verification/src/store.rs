//! The ghost model of the vault-record store: a sequence of records with
//! pairwise-distinct owners, read and written by owner identity.

use vstd::prelude::*;

use crate::vault::VaultView;

verus! {

/// Well-formedness of a store: no two records share an owner, so an owner
/// identity picks out at most one record.
pub open spec fn distinct_owners(vs: Seq<VaultView>) -> bool {
    forall|i: int, j: int| 0 <= i < j < vs.len() ==> vs[i].owner != vs[j].owner
}

/// Whether the store holds a record for `owner`.
pub open spec fn has_vault(vs: Seq<VaultView>, owner: Seq<u8>) -> bool {
    exists|i: int| 0 <= i < vs.len() && vs[i].owner == owner
}

/// The record the store holds for `owner`. Meaningful when `has_vault`
/// holds; with distinct owners it is the one record whose owner matches.
pub open spec fn record_of(vs: Seq<VaultView>, owner: Seq<u8>) -> VaultView {
    vs[choose|i: int| 0 <= i < vs.len() && vs[i].owner == owner]
}

/// The store with the record for `owner` replaced by `v`; records of other
/// owners are untouched. With distinct owners at most one slot changes.
pub open spec fn store_with(vs: Seq<VaultView>, owner: Seq<u8>, v: VaultView) -> Seq<VaultView> {
    Seq::new(vs.len(), |i: int| if vs[i].owner == owner { v } else { vs[i] })
}

/// In a well-formed store, an index whose record matches `owner` is the
/// index `record_of` denotes.
pub proof fn lemma_record_of_index(vs: Seq<VaultView>, owner: Seq<u8>, i: int)
    requires
        distinct_owners(vs),
        0 <= i < vs.len(),
        vs[i].owner == owner,
    ensures
        has_vault(vs, owner),
        record_of(vs, owner) == vs[i],
{
    assert(has_vault(vs, owner));
    let k = choose|k: int| 0 <= k < vs.len() && vs[k].owner == owner;
    if k < i {
        assert(vs[k].owner != vs[i].owner);
    } else if i < k {
        assert(vs[i].owner != vs[k].owner);
    }
}

/// Law: vault isolation. Writing `owner`'s record touches no other
/// owner's record — every operation of the contract changes its store by
/// `store_with`, so no ping or escalation on one vault can reach another.
pub proof fn lemma_store_with_preserves_other_owners(
    vs: Seq<VaultView>,
    owner: Seq<u8>,
    v: VaultView,
)
    ensures
        store_with(vs, owner, v).len() == vs.len(),
        forall|j: int|
            0 <= j < vs.len() && vs[j].owner != owner ==> store_with(vs, owner, v)[j] == vs[j],
{
}

/// Replacing the record for `owner` by `v` in a well-formed store is the
/// pointwise update at the index that holds `owner`'s record, provided the
/// replacement keeps the owner.
pub proof fn lemma_store_with_is_update(vs: Seq<VaultView>, owner: Seq<u8>, v: VaultView, i: int)
    requires
        distinct_owners(vs),
        0 <= i < vs.len(),
        vs[i].owner == owner,
    ensures
        store_with(vs, owner, v) =~= vs.update(i, v),
{
    assert forall|j: int| 0 <= j < vs.len() && j != i implies vs[j].owner != owner by {
        if j < i {
            assert(vs[j].owner != vs[i].owner);
        } else {
            assert(vs[i].owner != vs[j].owner);
        }
    }
}

} // verus!
