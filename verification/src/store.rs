//! The contract's storage, and what the operations do to it.
//!
//! A `Store` is the counter and the records that the host holds for the
//! contract, each record by its view. Carrying out a `Commit` is `apply`. The
//! operations of the contract, each followed by its commit, are `register`,
//! `update_status`, `get` and `total`; the proof functions below say how they
//! behave one after another.

use crate::contract::{total_of, CommitView, ContractError};
use crate::product::{stored_view, Product, ProductView};
use vstd::prelude::*;

verus! {

/// What the host holds for the contract.
pub struct Store {
    /// The counter, once it has been written.
    pub count: Option<u64>,
    /// The records, by the identifier in their key.
    pub products: Map<u64, ProductView>,
}

/// What a caller hands to a registration, and the time at which it is made.
pub struct Registration {
    pub name: Seq<u8>,
    pub manufacturer: Seq<u8>,
    pub location: Seq<u8>,
    pub now: u64,
}

/// A call that writes: a registration, or an update of place and status.
pub enum Call {
    Register(Registration),
    UpdateStatus { id: u64, location: Seq<u8>, status: Seq<u8>, now: u64 },
}

/// How many of `calls` are registrations.
pub open spec fn registrations_in(calls: Seq<Call>) -> nat
    decreases calls.len(),
{
    if calls.len() == 0 {
        0
    } else if calls.last() is Register {
        registrations_in(calls.drop_last()) + 1
    } else {
        registrations_in(calls.drop_last())
    }
}

impl Store {
    /// The storage of a contract that has not been called yet.
    pub open spec fn empty() -> Store {
        Store { count: None, products: Map::empty() }
    }

    /// What the host holds under the key of `id`.
    pub open spec fn stored(self, id: u64) -> Option<ProductView> {
        if self.products.contains_key(id) {
            Some(self.products[id])
        } else {
            None
        }
    }

    /// The store after the host has carried out `commit`.
    pub open spec fn apply(self, commit: CommitView) -> Store {
        Store {
            count: match commit.product_count {
                Some(count) => Some(count),
                None => self.count,
            },
            products: self.products.insert(commit.key.id(), commit.product),
        }
    }

    /// What `get_total_products` answers.
    pub open spec fn total(self) -> u64 {
        total_of(self.count)
    }

    /// What `get_product` answers for `id`.
    pub open spec fn get(self, id: u64) -> ProductView {
        ProductView::or_not_found(self.stored(id))
    }

    /// The identifier that the next registration returns.
    pub open spec fn next_id(self) -> u64
        recommends
            self.total() < u64::MAX,
    {
        (self.total() + 1) as u64
    }

    /// The store after `register_product` and its commit.
    pub open spec fn register(self, entry: Registration) -> Store
        recommends
            self.total() < u64::MAX,
    {
        self.apply(
            CommitView::registration(
                self.count,
                entry.name,
                entry.manufacturer,
                entry.location,
                entry.now,
            ),
        )
    }

    /// The store after the registrations of `entries`, first to last.
    pub open spec fn register_all(self, entries: Seq<Registration>) -> Store
        recommends
            self.total() + entries.len() <= u64::MAX,
        decreases entries.len(),
    {
        if entries.len() == 0 {
            self
        } else {
            self.register_all(entries.drop_last()).register(entries.last())
        }
    }

    /// What `update_product_status` returns for `id`, by its view.
    pub open spec fn update_outcome(
        self,
        id: u64,
        location: Seq<u8>,
        status: Seq<u8>,
        now: u64,
    ) -> Result<CommitView, ContractError> {
        CommitView::status_update(id, self.get(id), location, status, now)
    }

    /// The store after `update_product_status`: after its commit where it
    /// returned one, as it was where the update was refused.
    pub open spec fn update_status(
        self,
        id: u64,
        location: Seq<u8>,
        status: Seq<u8>,
        now: u64,
    ) -> Store {
        match self.update_outcome(id, location, status, now) {
            Ok(commit) => self.apply(commit),
            Err(_) => self,
        }
    }

    /// The store after `call`.
    pub open spec fn after(self, call: Call) -> Store {
        match call {
            Call::Register(entry) => self.register(entry),
            Call::UpdateStatus { id, location, status, now } => self.update_status(
                id,
                location,
                status,
                now,
            ),
        }
    }

    /// The store after `calls`, first to last.
    pub open spec fn run(self, calls: Seq<Call>) -> Store
        decreases calls.len(),
    {
        if calls.len() == 0 {
            self
        } else {
            self.run(calls.drop_last()).after(calls.last())
        }
    }

    /// Whether `id` has been given to a product.
    pub open spec fn registered(self, id: u64) -> bool {
        1 <= id <= self.total()
    }

    /// The records are those of the identifiers from 1 to the counter, and
    /// each carries the identifier it is stored under.
    pub open spec fn wf(self) -> bool {
        &&& forall|id: u64| #[trigger] self.products.contains_key(id) <==> self.registered(id)
        &&& forall|id: u64| #[trigger]
            self.products.contains_key(id) ==> self.products[id].product_id == id
    }
}

/// A contract that has not been called yet holds a well-formed store of no
/// products.
pub proof fn lemma_empty_store()
    ensures
        Store::empty().wf(),
        Store::empty().total() == 0,
{
}

/// A registration returns the identifier after the last one given, moves the
/// counter up by one, stores the new product as handed in, with the status
/// "manufactured" and the time of the call, and leaves every other record as
/// it was.
pub proof fn lemma_register(store: Store, entry: Registration)
    requires
        store.wf(),
        store.total() < u64::MAX,
    ensures
        store.register(entry).wf(),
        store.next_id() == store.total() + 1,
        store.register(entry).total() == store.total() + 1,
        store.register(entry).get(store.next_id()) == ProductView::manufactured(
            store.next_id(),
            entry.name,
            entry.manufacturer,
            entry.location,
            entry.now,
        ),
        forall|id: u64|
            id != store.next_id() ==> #[trigger] store.register(entry).get(id) == store.get(id),
{
    let after = store.register(entry);
    assert forall|id: u64| #[trigger] after.products.contains_key(id) <==> after.registered(
        id,
    ) by {
        assert(store.products.contains_key(id) <==> store.registered(id));
    }
}

/// Registrations made one after another return consecutive identifiers: the
/// one at position `i` returns the `i + 1`st after those given before, the
/// counter ends up at the number of products registered, and each product is
/// stored as it was handed in.
pub proof fn lemma_register_all(store: Store, entries: Seq<Registration>, i: int)
    requires
        store.wf(),
        store.total() + entries.len() <= u64::MAX,
        0 <= i < entries.len(),
    ensures
        store.register_all(entries).wf(),
        store.register_all(entries).total() == store.total() + entries.len(),
        store.register_all(entries.take(i)).next_id() == store.total() + i + 1,
        store.register_all(entries).get((store.total() + i + 1) as u64)
            == ProductView::manufactured(
            (store.total() + i + 1) as u64,
            entries[i].name,
            entries[i].manufacturer,
            entries[i].location,
            entries[i].now,
        ),
    decreases entries.len(),
{
    lemma_register_all_total(store, entries);
    lemma_register_all_total(store, entries.take(i));
    let before = store.register_all(entries.drop_last());
    lemma_register_all_total(store, entries.drop_last());
    lemma_register(before, entries.last());
    if i < entries.len() - 1 {
        lemma_register_all(store, entries.drop_last(), i);
        assert(entries.drop_last()[i] == entries[i]);
    } else {
        assert(entries.last() == entries[i]);
    }
}

/// Registrations made one after another keep the store well formed and move
/// the counter up by their number.
pub proof fn lemma_register_all_total(store: Store, entries: Seq<Registration>)
    requires
        store.wf(),
        store.total() + entries.len() <= u64::MAX,
    ensures
        store.register_all(entries).wf(),
        store.register_all(entries).total() == store.total() + entries.len(),
    decreases entries.len(),
{
    if entries.len() > 0 {
        lemma_register_all_total(store, entries.drop_last());
        lemma_register(store.register_all(entries.drop_last()), entries.last());
    }
}

/// From a contract that has not been called yet, the registrations return
/// 1, 2, 3 and so on, and the counter is the number of registrations made.
pub proof fn lemma_ids_count_from_one(entries: Seq<Registration>, i: int)
    requires
        entries.len() <= u64::MAX,
        0 <= i < entries.len(),
    ensures
        Store::empty().register_all(entries.take(i)).next_id() == i + 1,
        Store::empty().register_all(entries).total() == entries.len(),
{
    lemma_register_all(Store::empty(), entries, i);
}

/// Where the clock does not run backwards between registrations, a product
/// registered later does not carry an earlier time.
pub proof fn lemma_times_follow_the_clock(
    store: Store,
    entries: Seq<Registration>,
    i: int,
    j: int,
)
    requires
        store.wf(),
        store.total() + entries.len() <= u64::MAX,
        0 <= i <= j < entries.len(),
        forall|a: int, b: int| 0 <= a <= b < entries.len() ==> entries[a].now <= entries[b].now,
    ensures
        store.register_all(entries).get((store.total() + i + 1) as u64).timestamp
            <= store.register_all(entries).get((store.total() + j + 1) as u64).timestamp,
{
    lemma_register_all(store, entries, i);
    lemma_register_all(store, entries, j);
}

/// A lookup of identifier 0, or of one that no registration has returned,
/// answers the sentinel.
pub proof fn lemma_get_unregistered(store: Store, id: u64)
    requires
        store.wf(),
        !store.registered(id),
    ensures
        store.get(id) == ProductView::not_found(),
        !store.get(id).is_found(),
{
}

/// A lookup of a registered identifier answers a record that carries it.
pub proof fn lemma_get_registered(store: Store, id: u64)
    requires
        store.wf(),
        store.registered(id),
    ensures
        store.stored(id) == Some(store.get(id)),
        store.get(id).product_id == id,
        store.get(id).is_found(),
{
}

/// An update of a registered product succeeds. It changes place, status and
/// time of that product and nothing else: its identifier, name and
/// manufacturer, every other record and the counter stay as they were.
pub proof fn lemma_update_registered(
    store: Store,
    id: u64,
    location: Seq<u8>,
    status: Seq<u8>,
    now: u64,
)
    requires
        store.wf(),
        store.registered(id),
    ensures
        store.update_outcome(id, location, status, now) is Ok,
        store.update_status(id, location, status, now).wf(),
        store.update_status(id, location, status, now).total() == store.total(),
        store.update_status(id, location, status, now).get(id) == store.get(id).moved(
            location,
            status,
            now,
        ),
        store.update_status(id, location, status, now).get(id).product_id == id,
        store.update_status(id, location, status, now).get(id).name == store.get(id).name,
        store.update_status(id, location, status, now).get(id).manufacturer == store.get(
            id,
        ).manufacturer,
        store.update_status(id, location, status, now).get(id).current_location == location,
        store.update_status(id, location, status, now).get(id).status == status,
        store.update_status(id, location, status, now).get(id).timestamp == now,
        forall|other: u64|
            other != id ==> #[trigger] store.update_status(id, location, status, now).get(other)
                == store.get(other),
{
    let after = store.update_status(id, location, status, now);
    assert forall|key: u64| #[trigger] after.products.contains_key(key) <==> after.registered(
        key,
    ) by {
        assert(store.products.contains_key(key) <==> store.registered(key));
    }
}

/// An update of identifier 0, or of one that no registration has returned, is
/// refused as `RecordNotFound` and leaves the store as it was.
pub proof fn lemma_update_unregistered(
    store: Store,
    id: u64,
    location: Seq<u8>,
    status: Seq<u8>,
    now: u64,
)
    requires
        store.wf(),
        !store.registered(id),
    ensures
        store.update_outcome(id, location, status, now) == Err::<CommitView, ContractError>(
            ContractError::RecordNotFound,
        ),
        store.update_status(id, location, status, now) == store,
{
}

/// Whatever is called, in whatever order, the store stays well formed, and
/// the counter has moved up by the number of registrations: updates, refused
/// or not, leave it alone.
pub proof fn lemma_run(store: Store, calls: Seq<Call>)
    requires
        store.wf(),
        store.total() + registrations_in(calls) <= u64::MAX,
    ensures
        store.run(calls).wf(),
        store.run(calls).total() == store.total() + registrations_in(calls),
    decreases calls.len(),
{
    if calls.len() > 0 {
        lemma_run(store, calls.drop_last());
        let before = store.run(calls.drop_last());
        match calls.last() {
            Call::Register(entry) => {
                lemma_register(before, entry);
            },
            Call::UpdateStatus { id, location, status, now } => {
                if before.registered(id) {
                    lemma_update_registered(before, id, location, status, now);
                } else {
                    lemma_update_unregistered(before, id, location, status, now);
                }
            },
        }
    }
}

/// A product keeps its identifier, name and manufacturer for good: whatever
/// is called after its registration, a lookup answers them as they were.
pub proof fn lemma_identity_is_kept(store: Store, calls: Seq<Call>, id: u64)
    requires
        store.wf(),
        store.registered(id),
        store.total() + registrations_in(calls) <= u64::MAX,
    ensures
        store.run(calls).registered(id),
        store.run(calls).get(id).product_id == id,
        store.run(calls).get(id).name == store.get(id).name,
        store.run(calls).get(id).manufacturer == store.get(id).manufacturer,
    decreases calls.len(),
{
    if calls.len() > 0 {
        lemma_identity_is_kept(store, calls.drop_last(), id);
        lemma_run(store, calls.drop_last());
        let before = store.run(calls.drop_last());
        match calls.last() {
            Call::Register(entry) => {
                lemma_register(before, entry);
            },
            Call::UpdateStatus { id: updated, location, status, now } => {
                if before.registered(updated) {
                    lemma_update_registered(before, updated, location, status, now);
                } else {
                    lemma_update_unregistered(before, updated, location, status, now);
                }
            },
        }
    }
}

/// Two lookups with no write between them answer the same record: what a
/// lookup answers is decided by what is stored, and a lookup writes nothing.
pub proof fn lemma_get_repeats(first: Option<Product>, second: Option<Product>)
    requires
        stored_view(first) == stored_view(second),
    ensures
        ProductView::or_not_found(stored_view(first)) == ProductView::or_not_found(
            stored_view(second),
        ),
{
}

} // verus!
