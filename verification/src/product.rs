//! Products, the sentinel that stands for a missing one, and storage keys.

use crate::host::bytes_of;
use soroban_sdk::{Env, String};
use vstd::prelude::*;
use vstd::string::*;

verus! {

/// A product as the ledger keeps it. The text fields are strings of the host.
#[derive(Clone, Debug)]
pub struct Product {
    pub product_id: u64,
    pub name: String,
    pub manufacturer: String,
    pub timestamp: u64,
    pub current_location: String,
    pub status: String,
}

/// A product with each text field taken by the bytes it holds.
pub struct ProductView {
    pub product_id: u64,
    pub name: Seq<u8>,
    pub manufacturer: Seq<u8>,
    pub timestamp: u64,
    pub current_location: Seq<u8>,
    pub status: Seq<u8>,
}

/// The key under which the host stores a product.
#[derive(Clone, Copy, Debug, PartialEq, Eq, Structural)]
pub enum ProductBook {
    Product(u64),
}

/// The status of a product that has just been registered.
pub open spec fn manufactured_text() -> Seq<u8> {
    "manufactured".spec_bytes()
}

/// The text in every field of the sentinel.
pub open spec fn not_found_text() -> Seq<u8> {
    "Not_Found".spec_bytes()
}

impl ProductView {
    /// The sentinel: identifier 0, time 0, and the marker in every text field.
    pub open spec fn not_found() -> ProductView {
        ProductView {
            product_id: 0,
            name: not_found_text(),
            manufacturer: not_found_text(),
            timestamp: 0,
            current_location: not_found_text(),
            status: not_found_text(),
        }
    }

    /// A product as it is when registered at time `now`.
    pub open spec fn manufactured(
        product_id: u64,
        name: Seq<u8>,
        manufacturer: Seq<u8>,
        location: Seq<u8>,
        now: u64,
    ) -> ProductView {
        ProductView {
            product_id,
            name,
            manufacturer,
            timestamp: now,
            current_location: location,
            status: manufactured_text(),
        }
    }

    /// The product after a move at time `now`: place, status and time change,
    /// identifier, name and manufacturer stay.
    pub open spec fn moved(self, location: Seq<u8>, status: Seq<u8>, now: u64) -> ProductView {
        ProductView { current_location: location, status, timestamp: now, ..self }
    }

    /// What a lookup answers: the stored record, or the sentinel where there
    /// is none.
    pub open spec fn or_not_found(stored: Option<ProductView>) -> ProductView {
        match stored {
            Some(product) => product,
            None => ProductView::not_found(),
        }
    }

    /// Identifier 0 is never given to a product: a record that carries it
    /// stands for none.
    pub open spec fn is_found(self) -> bool {
        self.product_id != 0
    }
}

impl View for Product {
    type V = ProductView;

    open spec fn view(&self) -> ProductView {
        ProductView {
            product_id: self.product_id,
            name: bytes_of(self.name),
            manufacturer: bytes_of(self.manufacturer),
            timestamp: self.timestamp,
            current_location: bytes_of(self.current_location),
            status: bytes_of(self.status),
        }
    }
}

/// A stored product, if any, by its view.
pub open spec fn stored_view(stored: Option<Product>) -> Option<ProductView> {
    match stored {
        Some(product) => Some(product@),
        None => None,
    }
}

/// "Not_Found" is 9 bytes of ASCII.
pub proof fn lemma_not_found_text()
    ensures
        not_found_text().len() == 9,
        "Not_Found".is_ascii(),
{
    reveal_strlit("Not_Found");
    is_ascii_spec_bytes("Not_Found");
}

/// "manufactured" is 12 bytes of ASCII.
pub proof fn lemma_manufactured_text()
    ensures
        manufactured_text().len() == 12,
        "manufactured".is_ascii(),
{
    reveal_strlit("manufactured");
    is_ascii_spec_bytes("manufactured");
}

impl Product {
    /// The sentinel that a lookup returns for a product that is not stored.
    pub fn not_found(env: &Env) -> (product: Product)
        ensures
            product@ == ProductView::not_found(),
    {
        proof {
            lemma_not_found_text();
        }
        Product {
            product_id: 0,
            name: String::from_str(env, "Not_Found"),
            manufacturer: String::from_str(env, "Not_Found"),
            timestamp: 0,
            current_location: String::from_str(env, "Not_Found"),
            status: String::from_str(env, "Not_Found"),
        }
    }

    /// Whether this record stands for a product, that is, is not the sentinel.
    pub fn is_found(&self) -> (found: bool)
        ensures
            found == self@.is_found(),
    {
        self.product_id != 0
    }
}

impl ProductBook {
    /// The identifier of the product that the key is for.
    pub open spec fn id(self) -> u64 {
        match self {
            ProductBook::Product(id) => id,
        }
    }

    pub fn product_id(&self) -> (id: u64)
        ensures
            id == self.id(),
    {
        match self {
            ProductBook::Product(id) => *id,
        }
    }
}

} // verus!
