//! The four operations of the contract.
//!
//! The host keeps two things for the contract: a counter of the products
//! registered so far, and one record per product under the key
//! `ProductBook::Product(id)`. An operation takes what the host had stored
//! under the keys it concerns and, where it changes anything, returns a
//! `Commit`: the writes that the host is to carry out.

use crate::host::{bytes_of, ledger_timestamp};
use crate::product::{
    lemma_manufactured_text, manufactured_text, stored_view, Product, ProductBook, ProductView,
};
use soroban_sdk::{Env, String};
use vstd::prelude::*;

verus! {

/// Every write renews the time to live of the contract's storage where it has
/// fallen under this many ledgers,
pub const TTL_THRESHOLD: u32 = 5000;

/// and then brings it up to this many.
pub const TTL_EXTEND_TO: u32 = 5000;

/// Why an operation was refused.
#[derive(Clone, Copy, Debug, PartialEq, Eq, Structural)]
pub enum ContractError {
    /// The product to update is not stored.
    RecordNotFound,
}

/// The writes that complete an operation, in the order in which the host
/// carries them out: `product` under `key`; the counter, where
/// `product_count` holds one; then the renewal of the storage's time to live
/// with `ttl_threshold` and `ttl_extend_to`.
#[derive(Clone, Debug)]
pub struct Commit {
    pub key: ProductBook,
    pub product: Product,
    pub product_count: Option<u64>,
    pub ttl_threshold: u32,
    pub ttl_extend_to: u32,
}

/// A commit with its product taken by its view.
pub struct CommitView {
    pub key: ProductBook,
    pub product: ProductView,
    pub product_count: Option<u64>,
    pub ttl_threshold: u32,
    pub ttl_extend_to: u32,
}

impl View for Commit {
    type V = CommitView;

    open spec fn view(&self) -> CommitView {
        CommitView {
            key: self.key,
            product: self.product@,
            product_count: self.product_count,
            ttl_threshold: self.ttl_threshold,
            ttl_extend_to: self.ttl_extend_to,
        }
    }
}

/// The number of products registered so far: the stored counter, and 0 while
/// none is stored.
pub open spec fn total_of(stored_count: Option<u64>) -> u64 {
    match stored_count {
        Some(count) => count,
        None => 0,
    }
}

impl CommitView {
    /// The writes of a registration at time `now`: the new product gets the
    /// identifier after the last one given, and the counter moves up to it.
    pub open spec fn registration(
        stored_count: Option<u64>,
        name: Seq<u8>,
        manufacturer: Seq<u8>,
        location: Seq<u8>,
        now: u64,
    ) -> CommitView
        recommends
            total_of(stored_count) < u64::MAX,
    {
        let product_id = (total_of(stored_count) + 1) as u64;
        CommitView {
            key: ProductBook::Product(product_id),
            product: ProductView::manufactured(product_id, name, manufacturer, location, now),
            product_count: Some(product_id),
            ttl_threshold: TTL_THRESHOLD,
            ttl_extend_to: TTL_EXTEND_TO,
        }
    }

    /// The writes of a status update at time `now` on what a lookup of
    /// `product_id` returned: none where that is the sentinel, else the moved
    /// product, back under the key it was looked up by; the counter stays.
    pub open spec fn status_update(
        product_id: u64,
        product: ProductView,
        location: Seq<u8>,
        status: Seq<u8>,
        now: u64,
    ) -> Result<CommitView, ContractError> {
        if product.is_found() {
            Ok(
                CommitView {
                    key: ProductBook::Product(product_id),
                    product: product.moved(location, status, now),
                    product_count: None,
                    ttl_threshold: TTL_THRESHOLD,
                    ttl_extend_to: TTL_EXTEND_TO,
                },
            )
        } else {
            Err(ContractError::RecordNotFound)
        }
    }
}

impl Commit {
    /// The commit of a registration, with the strings it is made of.
    pub open spec fn registered(
        stored_count: Option<u64>,
        name: String,
        manufacturer: String,
        location: String,
        status: String,
        now: u64,
    ) -> Commit
        recommends
            total_of(stored_count) < u64::MAX,
    {
        let product_id = (total_of(stored_count) + 1) as u64;
        Commit {
            key: ProductBook::Product(product_id),
            product: Product {
                product_id,
                name,
                manufacturer,
                timestamp: now,
                current_location: location,
                status,
            },
            product_count: Some(product_id),
            ttl_threshold: TTL_THRESHOLD,
            ttl_extend_to: TTL_EXTEND_TO,
        }
    }

    /// The commit of a status update on a product that is stored, with the
    /// strings it is made of.
    pub open spec fn moved(
        product_id: u64,
        product: Product,
        new_location: String,
        new_status: String,
        now: u64,
    ) -> Commit {
        Commit {
            key: ProductBook::Product(product_id),
            product: Product {
                current_location: new_location,
                status: new_status,
                timestamp: now,
                ..product
            },
            product_count: None,
            ttl_threshold: TTL_THRESHOLD,
            ttl_extend_to: TTL_EXTEND_TO,
        }
    }

    /// Registers a product at time `now`, with `status` as its first status.
    /// The counter cannot pass `u64::MAX`.
    pub fn registration(
        stored_count: Option<u64>,
        name: String,
        manufacturer: String,
        location: String,
        status: String,
        now: u64,
    ) -> (commit: Commit)
        requires
            total_of(stored_count) < u64::MAX,
        ensures
            commit == Commit::registered(stored_count, name, manufacturer, location, status, now),
            bytes_of(status) == manufactured_text() ==> commit@ == CommitView::registration(
                stored_count,
                bytes_of(name),
                bytes_of(manufacturer),
                bytes_of(location),
                now,
            ),
    {
        let product_id: u64 = stored_count.unwrap_or(0) + 1;
        Commit {
            key: ProductBook::Product(product_id),
            product: Product {
                product_id,
                name,
                manufacturer,
                timestamp: now,
                current_location: location,
                status,
            },
            product_count: Some(product_id),
            ttl_threshold: TTL_THRESHOLD,
            ttl_extend_to: TTL_EXTEND_TO,
        }
    }

    /// Moves `product`, which a lookup of `product_id` returned, at time
    /// `now`. The sentinel is refused; whether a record is the sentinel is
    /// read from the identifier it carries, not from `product_id`.
    pub fn status_update(
        product_id: u64,
        product: Product,
        new_location: String,
        new_status: String,
        now: u64,
    ) -> (result: Result<Commit, ContractError>)
        ensures
            product.product_id == 0 ==> result == Err::<Commit, ContractError>(
                ContractError::RecordNotFound,
            ),
            product.product_id != 0 ==> result == Ok::<Commit, ContractError>(
                Commit::moved(product_id, product, new_location, new_status, now),
            ),
            commit_view(result) == CommitView::status_update(
                product_id,
                product@,
                bytes_of(new_location),
                bytes_of(new_status),
                now,
            ),
    {
        if !product.is_found() {
            return Err(ContractError::RecordNotFound);
        }
        let mut product = product;
        product.current_location = new_location;
        product.status = new_status;
        product.timestamp = now;
        Ok(
            Commit {
                key: ProductBook::Product(product_id),
                product,
                product_count: None,
                ttl_threshold: TTL_THRESHOLD,
                ttl_extend_to: TTL_EXTEND_TO,
            },
        )
    }
}

/// The outcome of an update with its commit, if any, taken by its view.
pub open spec fn commit_view(result: Result<Commit, ContractError>) -> Result<
    CommitView,
    ContractError,
> {
    match result {
        Ok(commit) => Ok(commit@),
        Err(error) => Err(error),
    }
}

impl ContractError {
    /// The words with which the contract aborts on this error.
    pub fn message(&self) -> (text: &'static str)
        ensures
            text@ == "Product not found!"@,
    {
        match self {
            ContractError::RecordNotFound => "Product not found!",
        }
    }
}

pub struct SupplyChainContract;

impl SupplyChainContract {
    /// Registers a product: reads the time from the host's ledger and gives
    /// the product the next identifier and the status "manufactured".
    /// `stored_count` is what the host holds as the counter, which cannot pass
    /// `u64::MAX`. The new identifier is `commit.product.product_id`.
    pub fn register_product(
        env: &Env,
        stored_count: Option<u64>,
        name: String,
        manufacturer: String,
        location: String,
    ) -> (commit: Commit)
        requires
            total_of(stored_count) < u64::MAX,
        ensures
            bytes_of(commit.product.status) == manufactured_text(),
            commit == Commit::registered(
                stored_count,
                name,
                manufacturer,
                location,
                commit.product.status,
                commit.product.timestamp,
            ),
            commit@ == CommitView::registration(
                stored_count,
                bytes_of(name),
                bytes_of(manufacturer),
                bytes_of(location),
                commit.product.timestamp,
            ),
    {
        let now = ledger_timestamp(env);
        proof {
            lemma_manufactured_text();
        }
        let status = String::from_str(env, "manufactured");
        Commit::registration(stored_count, name, manufacturer, location, status, now)
    }

    /// Moves a product to a new place and status, at the time read from the
    /// host's ledger. `stored` is what the host holds under
    /// `ProductBook::Product(product_id)`. Where that is nothing, or a record
    /// with identifier 0, the update is refused and nothing is to be written.
    pub fn update_product_status(
        env: &Env,
        product_id: u64,
        stored: Option<Product>,
        new_location: String,
        new_status: String,
    ) -> (result: Result<Commit, ContractError>)
        ensures
            result is Ok <==> stored is Some && stored.unwrap().product_id != 0,
            result is Err ==> result == Err::<Commit, ContractError>(ContractError::RecordNotFound),
            result is Ok ==> result.unwrap() == Commit::moved(
                product_id,
                stored.unwrap(),
                new_location,
                new_status,
                result.unwrap().product.timestamp,
            ),
            result is Ok ==> commit_view(result) == CommitView::status_update(
                product_id,
                ProductView::or_not_found(stored_view(stored)),
                bytes_of(new_location),
                bytes_of(new_status),
                result.unwrap().product.timestamp,
            ),
    {
        let product = Self::get_product(env, stored);
        if !product.is_found() {
            return Err(ContractError::RecordNotFound);
        }
        let now = ledger_timestamp(env);
        Commit::status_update(product_id, product, new_location, new_status, now)
    }

    /// Answers a lookup. `stored` is what the host holds under the product's
    /// key: that record where there is one, the sentinel where there is none.
    pub fn get_product(env: &Env, stored: Option<Product>) -> (product: Product)
        ensures
            stored is Some ==> product == stored.unwrap(),
            product@ == ProductView::or_not_found(stored_view(stored)),
    {
        stored.unwrap_or(Product::not_found(env))
    }

    /// The number of products registered so far. `stored_count` is what the
    /// host holds as the counter.
    pub fn get_total_products(stored_count: Option<u64>) -> (total: u64)
        ensures
            total == total_of(stored_count),
    {
        stored_count.unwrap_or(0)
    }
}

} // verus!
