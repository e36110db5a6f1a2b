use vstd::prelude::*;

use crate::model::{after_create, after_creates, created, ids_are_positions, item_of, ItemMetadata, ItemMetadataRequest};

verus! {

/// Creating the requests `reqs` one after another in an empty store leaves exactly the
/// records they become, in the order of the calls: none lost, none repeated.
pub proof fn lemma_creates_in_call_order(reqs: Seq<ItemMetadataRequest>)
    ensures
        after_creates(Seq::empty(), reqs) == created(reqs),
    decreases reqs.len(),
{
    if reqs.len() > 0 {
        lemma_creates_in_call_order(reqs.drop_last());
        assert(after_creates(Seq::empty(), reqs) =~= created(reqs));
    } else {
        assert(after_creates(Seq::empty(), reqs) =~= created(reqs));
    }
}

/// Creation keeps identifiers equal to positions, whatever was requested, as long as
/// the count of records fits in an identifier.
pub proof fn lemma_creates_keep_numbering(items: Seq<ItemMetadata>, reqs: Seq<ItemMetadataRequest>)
    requires
        ids_are_positions(items),
        items.len() + reqs.len() <= u64::MAX,
    ensures
        ids_are_positions(after_creates(items, reqs)),
        after_creates(items, reqs).len() == items.len() + reqs.len(),
    decreases reqs.len(),
{
    if reqs.len() > 0 {
        lemma_creates_keep_numbering(items, reqs.drop_last());
        let before = after_creates(items, reqs.drop_last());
        let after = after_create(before, reqs.last());
        assert(after == after_creates(items, reqs));
        assert forall|i: int| 0 <= i < after.len() implies #[trigger] after[i].id == i by {
            if i == before.len() {
                assert(after[i] == item_of(before.len(), reqs.last()));
            } else {
                assert(after[i] == before[i]);
            }
        }
    }
}

/// After `n` creations in an empty store, serialized in any order, the store holds `n`
/// records whose identifiers are pairwise distinct and are exactly `0, 1, ..., n - 1`.
pub proof fn lemma_ids_without_gaps(reqs: Seq<ItemMetadataRequest>)
    requires
        reqs.len() <= u64::MAX,
    ensures
        ({
            let s = after_creates(Seq::empty(), reqs);
            &&& s.len() == reqs.len()
            &&& forall|i: int, j: int|
                0 <= i < s.len() && 0 <= j < s.len() && i != j ==> #[trigger] s[i].id != #[trigger] s[j].id
            &&& s.map_values(|m: ItemMetadata| m.id as int).to_set() == Set::new(
                |k: int| 0 <= k < reqs.len(),
            )
        }),
{
    lemma_creates_keep_numbering(Seq::empty(), reqs);
    let s = after_creates(Seq::<ItemMetadata>::empty(), reqs);
    let ids = s.map_values(|m: ItemMetadata| m.id as int);
    assert forall|k: int| ids.to_set().contains(k) <==> 0 <= k < reqs.len() by {
        if 0 <= k < reqs.len() {
            assert(ids[k] == k);
        }
        if ids.to_set().contains(k) {
            let i = choose|i: int| 0 <= i < ids.len() && ids[i] == k;
            assert(s[i].id == i);
        }
    }
    assert(ids.to_set() =~= Set::new(|k: int| 0 <= k < reqs.len()));
}

} // verus!
