use std::sync::Arc;
use vstd::prelude::*;
use vstd::rwlock::{RwLock, RwLockPredicate};

verus! {

/// One stored record: its identifier, name and description.
#[derive(Debug, PartialEq, Eq)]
pub struct ItemMetadata {
    pub id: u64,
    pub name: String,
    pub description: String,
}

impl Clone for ItemMetadata {
    fn clone(&self) -> (r: Self)
        ensures
            r == *self,
    {
        ItemMetadata { id: self.id, name: self.name.clone(), description: self.description.clone() }
    }
}

/// What a caller supplies to create a record.
#[derive(Debug)]
pub struct ItemMetadataRequest {
    pub name: String,
    pub description: String,
}

/// The record that a request becomes when it is stored under `id`.
pub open spec fn item_of(id: nat, req: ItemMetadataRequest) -> ItemMetadata {
    ItemMetadata { id: id as u64, name: req.name, description: req.description }
}

/// Every record's identifier is its position in the sequence.
pub open spec fn ids_are_positions(items: Seq<ItemMetadata>) -> bool {
    forall|i: int| 0 <= i < items.len() ==> #[trigger] items[i].id == i
}

/// The contents after one creation: the new record is appended, numbered by the count
/// of records already stored.
pub open spec fn after_create(items: Seq<ItemMetadata>, req: ItemMetadataRequest) -> Seq<ItemMetadata> {
    items.push(item_of(items.len(), req))
}

/// The contents after a series of creations, applied in order.
pub open spec fn after_creates(items: Seq<ItemMetadata>, reqs: Seq<ItemMetadataRequest>) -> Seq<ItemMetadata>
    decreases reqs.len(),
{
    if reqs.len() == 0 {
        items
    } else {
        after_create(after_creates(items, reqs.drop_last()), reqs.last())
    }
}

/// The records that the requests `reqs` become, created one after another in an empty store.
pub open spec fn created(reqs: Seq<ItemMetadataRequest>) -> Seq<ItemMetadata> {
    Seq::new(reqs.len(), |i: int| item_of(i as nat, reqs[i]))
}

/// The in-memory sequence of records, appended to in creation order.
pub struct ItemList {
    items: Vec<ItemMetadata>,
}

impl View for ItemList {
    type V = Seq<ItemMetadata>;

    closed spec fn view(&self) -> Seq<ItemMetadata> {
        self.items@
    }
}

impl ItemList {
    /// Identifiers are positions, so they are distinct and have no gaps.
    pub open spec fn wf(&self) -> bool {
        ids_are_positions(self@)
    }

    /// An empty store.
    pub fn new() -> (r: ItemList)
        ensures
            r@ == Seq::<ItemMetadata>::empty(),
            r.wf(),
    {
        ItemList { items: Vec::new() }
    }

    /// The number of stored records.
    pub fn len(&self) -> (r: usize)
        ensures
            r == self@.len(),
    {
        self.items.len()
    }

    /// Stores a record made from `req`, numbered by the count of records already stored,
    /// and returns a copy of it. Names and descriptions are taken as they are, empty ones too.
    pub fn create(&mut self, req: ItemMetadataRequest) -> (r: ItemMetadata)
        requires
            old(self).wf(),
        ensures
            r == item_of(old(self)@.len(), req),
            final(self)@ == after_create(old(self)@, req),
            final(self).wf(),
    {
        let id = self.items.len() as u64;
        let item = ItemMetadata { id, name: req.name, description: req.description };
        self.items.push(item.clone());
        item
    }

    /// A copy of every stored record, in creation order. The store is left as it is.
    pub fn list(&self) -> (r: Vec<ItemMetadata>)
        ensures
            r@ == self@,
    {
        let r = self.items.clone();
        assert(r@ =~= self.items@);
        r
    }
}

/// The one way a store operation can fail. No operation of this store produces it: it is
/// there for callers that turn store results into responses.
#[derive(Debug, PartialEq, Eq)]
pub enum Error {
    Fallback,
}

/// What the lock guards: a store whose identifiers are positions.
pub struct WellNumbered;

impl RwLockPredicate<ItemList> for WellNumbered {
    open spec fn inv(self, v: ItemList) -> bool {
        v.wf()
    }
}

/// The shared store: one record list behind one exclusive lock, taken for reads and
/// writes alike. Clones share the same list.
pub struct ModelController {
    pub items: Arc<RwLock<ItemList, WellNumbered>>,
}

impl Clone for ModelController {
    fn clone(&self) -> (r: Self) {
        ModelController { items: self.items.clone() }
    }
}

impl ModelController {
    /// A store with no records.
    pub fn new() -> (r: Result<ModelController, Error>)
        ensures
            r is Ok,
    {
        let list = ItemList::new();
        Ok(ModelController { items: Arc::new(RwLock::new(list, Ghost(WellNumbered))) })
    }

    /// Under the lock, stores a record made from `item` at the end of the list, numbered by
    /// the count of records stored before it, and returns a copy of it.
    pub fn add_item(&self, item: ItemMetadataRequest) -> (r: Result<ItemMetadata, Error>)
        ensures
            r matches Ok(m) && m.name == item.name && m.description == item.description,
    {
        let (mut list, handle) = self.items.acquire_write();
        let created = list.create(item);
        handle.release_write(list);
        Ok(created)
    }

    /// Under the lock, a copy of every stored record, in creation order; each record's
    /// identifier is its position.
    pub fn get_items(&self) -> (r: Result<Vec<ItemMetadata>, Error>)
        ensures
            r matches Ok(v) && ids_are_positions(v@),
    {
        let (list, handle) = self.items.acquire_write();
        let copy = list.list();
        handle.release_write(list);
        Ok(copy)
    }
}

} // verus!
