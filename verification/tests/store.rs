//! The operations one after another, with a map in memory in the host's place.

use soroban_sdk::testutils::{EnvTestConfig, Ledger as _};
use soroban_sdk::{Env, String};
use std::collections::HashMap;
use supply_chain::{Commit, ContractError, Product, SupplyChainContract};

struct Host {
    env: Env,
    count: Option<u64>,
    products: HashMap<u64, Product>,
    renewals: Vec<(u32, u32)>,
}

impl Host {
    fn new() -> Host {
        Host {
            env: Env::new_with_config(EnvTestConfig {
                capture_snapshot_at_drop: false,
            }),
            count: None,
            products: HashMap::new(),
            renewals: Vec::new(),
        }
    }

    fn text(&self, s: &str) -> String {
        String::from_str(&self.env, s)
    }

    fn carry_out(&mut self, commit: Commit) {
        self.products.insert(commit.key.product_id(), commit.product);
        if let Some(count) = commit.product_count {
            self.count = Some(count);
        }
        self.renewals.push((commit.ttl_threshold, commit.ttl_extend_to));
    }

    fn register(&mut self, name: &str, manufacturer: &str, location: &str) -> u64 {
        let commit = SupplyChainContract::register_product(
            &self.env,
            self.count,
            self.text(name),
            self.text(manufacturer),
            self.text(location),
        );
        let product_id = commit.product.product_id;
        self.carry_out(commit);
        product_id
    }

    fn update_status(&mut self, product_id: u64, location: &str, status: &str) -> Result<(), ContractError> {
        let commit = SupplyChainContract::update_product_status(
            &self.env,
            product_id,
            self.products.get(&product_id).cloned(),
            self.text(location),
            self.text(status),
        )?;
        self.carry_out(commit);
        Ok(())
    }

    fn get(&self, product_id: u64) -> Product {
        SupplyChainContract::get_product(&self.env, self.products.get(&product_id).cloned())
    }

    fn count(&self) -> u64 {
        SupplyChainContract::get_total_products(self.count)
    }

    fn fields(&self, product_id: u64) -> (u64, String, String, u64, String, String) {
        let product = self.get(product_id);
        (
            product.product_id,
            product.name,
            product.manufacturer,
            product.timestamp,
            product.current_location,
            product.status,
        )
    }
}

#[test]
fn register_then_update_end_to_end() {
    let mut host = Host::new();
    assert_eq!(host.register("Laptop", "TechCorp", "Factory A"), 1);

    let product = host.get(1);
    assert_eq!(product.product_id, 1);
    assert_eq!(product.name, host.text("Laptop"));
    assert_eq!(product.manufacturer, host.text("TechCorp"));
    assert_eq!(product.current_location, host.text("Factory A"));
    assert_eq!(product.status, host.text("manufactured"));

    assert_eq!(host.update_status(1, "Warehouse B", "in_transit"), Ok(()));

    let product = host.get(1);
    assert_eq!(product.product_id, 1);
    assert_eq!(product.current_location, host.text("Warehouse B"));
    assert_eq!(product.status, host.text("in_transit"));
    assert_eq!(product.name, host.text("Laptop"));
    assert_eq!(product.manufacturer, host.text("TechCorp"));

    assert_eq!(host.count(), 1);
}

#[test]
fn identifiers_count_up_from_one() {
    let mut host = Host::new();
    assert_eq!(host.count(), 0);
    for expected in 1..=20u64 {
        let name = format!("item {expected}");
        assert_eq!(host.register(&name, "Maker", "Plant"), expected);
        assert_eq!(host.count(), expected);
    }
    for product_id in 1..=20u64 {
        let product = host.get(product_id);
        assert_eq!(product.product_id, product_id);
        assert_eq!(product.name, host.text(&format!("item {product_id}")));
    }
}

#[test]
fn lookup_after_register_answers_what_was_handed_in() {
    let mut host = Host::new();
    host.env.ledger().set_timestamp(500);
    let first = host.register("Laptop", "TechCorp", "Factory A");
    host.env.ledger().set_timestamp(502);
    let second = host.register("Phone", "Acme", "Plant 7");

    let laptop = host.get(first);
    assert_eq!(laptop.product_id, first);
    assert_eq!(laptop.name, host.text("Laptop"));
    assert_eq!(laptop.manufacturer, host.text("TechCorp"));
    assert_eq!(laptop.current_location, host.text("Factory A"));
    assert_eq!(laptop.status, host.text("manufactured"));
    assert_eq!(laptop.timestamp, 500);

    let phone = host.get(second);
    assert_eq!(phone.product_id, second);
    assert_eq!(phone.name, host.text("Phone"));
    assert_eq!(phone.manufacturer, host.text("Acme"));
    assert_eq!(phone.current_location, host.text("Plant 7"));
    assert_eq!(phone.status, host.text("manufactured"));
    assert_eq!(phone.timestamp, 502);
    assert!(laptop.timestamp <= phone.timestamp);
}

#[test]
fn lookup_of_an_unregistered_identifier_answers_the_sentinel() {
    let mut host = Host::new();
    host.register("Laptop", "TechCorp", "Factory A");
    host.register("Phone", "Acme", "Plant 7");
    for product_id in [0u64, 3, 4, 1000, u64::MAX] {
        let product = host.get(product_id);
        assert_eq!(product.product_id, 0);
        assert_eq!(product.name, host.text("Not_Found"));
        assert_eq!(product.manufacturer, host.text("Not_Found"));
        assert_eq!(product.timestamp, 0);
        assert_eq!(product.current_location, host.text("Not_Found"));
        assert_eq!(product.status, host.text("Not_Found"));
    }
}

#[test]
fn lookup_in_an_empty_ledger_answers_the_sentinel() {
    let host = Host::new();
    assert_eq!(host.get(0).product_id, 0);
    assert_eq!(host.get(1).product_id, 0);
    assert_eq!(host.get(1).status, host.text("Not_Found"));
    assert_eq!(host.count(), 0);
}

#[test]
fn update_changes_one_product_and_nothing_else() {
    let mut host = Host::new();
    host.env.ledger().set_timestamp(10);
    host.register("Laptop", "TechCorp", "Factory A");
    host.register("Phone", "Acme", "Plant 7");
    host.register("Tablet", "Globex", "Plant 9");
    let first_before = host.fields(1);
    let third_before = host.fields(3);

    host.env.ledger().set_timestamp(40);
    assert_eq!(host.update_status(2, "Harbour", "in_transit"), Ok(()));

    let phone = host.get(2);
    assert_eq!(phone.product_id, 2);
    assert_eq!(phone.name, host.text("Phone"));
    assert_eq!(phone.manufacturer, host.text("Acme"));
    assert_eq!(phone.current_location, host.text("Harbour"));
    assert_eq!(phone.status, host.text("in_transit"));
    assert_eq!(phone.timestamp, 40);
    assert_eq!(host.fields(1), first_before);
    assert_eq!(host.fields(3), third_before);
    assert_eq!(host.count(), 3);

    host.env.ledger().set_timestamp(41);
    assert_eq!(host.update_status(2, "Shop", "delivered"), Ok(()));
    let phone = host.get(2);
    assert_eq!(phone.current_location, host.text("Shop"));
    assert_eq!(phone.status, host.text("delivered"));
    assert_eq!(phone.timestamp, 41);
    assert_eq!(phone.name, host.text("Phone"));
}

#[test]
fn update_of_an_unregistered_identifier_changes_nothing() {
    let mut host = Host::new();
    host.register("Laptop", "TechCorp", "Factory A");
    host.register("Phone", "Acme", "Plant 7");
    let first_before = host.fields(1);
    let second_before = host.fields(2);
    let renewals_before = host.renewals.len();

    for product_id in [0u64, 3, 99, u64::MAX] {
        assert_eq!(
            host.update_status(product_id, "Harbour", "in_transit"),
            Err(ContractError::RecordNotFound)
        );
    }

    assert_eq!(host.count(), 2);
    assert_eq!(host.products.len(), 2);
    assert_eq!(host.fields(1), first_before);
    assert_eq!(host.fields(2), second_before);
    assert_eq!(host.renewals.len(), renewals_before);
    assert_eq!(host.get(3).product_id, 0);
}

#[test]
fn lookups_in_a_row_answer_the_same() {
    let mut host = Host::new();
    host.register("Laptop", "TechCorp", "Factory A");
    assert_eq!(host.fields(1), host.fields(1));
    assert_eq!(host.fields(2), host.fields(2));
    assert_eq!(host.fields(0), host.fields(0));
    assert_eq!(host.count(), host.count());
}

#[test]
fn every_write_renews_the_time_to_live() {
    let mut host = Host::new();
    host.register("Laptop", "TechCorp", "Factory A");
    host.update_status(1, "Warehouse B", "in_transit").unwrap();
    host.register("Phone", "Acme", "Plant 7");
    assert_eq!(host.renewals, vec![(5000, 5000), (5000, 5000), (5000, 5000)]);
}
