use farmchain::product::AccountId;
use farmchain::registry::{FarmChain, RegistryError};

fn identity(label: &[u8]) -> AccountId {
    AccountId::new(label.to_vec())
}

#[test]
fn create_and_get_product() {
    let mut farm_chain = FarmChain::new();
    let product_name = b"Apples".to_vec();
    let product_price: u64 = 250;
    farm_chain
        .create_product(product_name.clone(), product_price, identity(b"alice"))
        .unwrap();
    let product = farm_chain.get_product(1).expect("Product not found");
    assert_eq!(product.name, product_name);
    assert_eq!(product.price, product_price);
}

#[test]
fn list_products() {
    let mut farm_chain = FarmChain::new();
    farm_chain
        .create_product(b"Apples".to_vec(), 250, identity(b"alice"))
        .unwrap();
    farm_chain
        .create_product(b"Oranges".to_vec(), 180, identity(b"bob"))
        .unwrap();
    let products = farm_chain.list_products();
    assert_eq!(products.len(), 2);
}

#[test]
fn two_creates_then_queries() {
    let mut registry = FarmChain::new();
    let a = identity(b"A");
    let b = identity(b"B");

    let first = registry.create_product(b"Apples".to_vec(), 250, a.clone());
    assert_eq!(first, Ok(1));
    let second = registry.create_product(b"Oranges".to_vec(), 180, b.clone());
    assert_eq!(second, Ok(2));

    let apples = registry.get_product(1).expect("id 1 was assigned");
    assert_eq!(apples.name, b"Apples".to_vec());
    assert_eq!(apples.price, 250);
    assert_eq!(apples.owner, a);

    let oranges = registry.get_product(2).expect("id 2 was assigned");
    assert_eq!(oranges.name, b"Oranges".to_vec());
    assert_eq!(oranges.price, 180);
    assert_eq!(oranges.owner, b);

    assert!(registry.get_product(3).is_none());

    let listing = registry.list_products();
    assert_eq!(listing.len(), 2);
    assert_eq!(listing[0], apples);
    assert_eq!(listing[1], oranges);
}

#[test]
fn assigned_ids_start_at_one_and_increase() {
    let mut registry = FarmChain::new();
    let owner = identity(b"farmer");
    let mut expected: u64 = 1;
    while expected <= 5 {
        let assigned = registry
            .create_product(b"crate of plums".to_vec(), expected * 10, owner.clone())
            .unwrap();
        assert_eq!(assigned, expected);
        expected += 1;
    }
}

#[test]
fn unassigned_ids_are_absent() {
    let mut registry = FarmChain::new();
    assert!(registry.get_product(0).is_none());
    assert!(registry.get_product(1).is_none());
    assert!(registry.get_product(u64::MAX).is_none());
    assert!(registry.list_products().is_empty());

    registry
        .create_product(b"Pears".to_vec(), 99, identity(b"carol"))
        .unwrap();
    assert!(registry.get_product(0).is_none());
    assert!(registry.get_product(1).is_some());
    assert!(registry.get_product(2).is_none());
}

#[test]
fn created_record_survives_later_creates() {
    let mut registry = FarmChain::new();
    let id = registry
        .create_product(b"Apples".to_vec(), 250, identity(b"alice"))
        .unwrap();
    let before = registry.get_product(id).unwrap();
    for price in 0..10u64 {
        registry
            .create_product(b"Oranges".to_vec(), price, identity(b"bob"))
            .unwrap();
    }
    let after = registry.get_product(id).unwrap();
    assert_eq!(before, after);
}

#[test]
fn reads_are_idempotent() {
    let mut registry = FarmChain::new();
    registry
        .create_product(b"Apples".to_vec(), 250, identity(b"alice"))
        .unwrap();
    registry
        .create_product(b"Oranges".to_vec(), 180, identity(b"bob"))
        .unwrap();

    assert_eq!(registry.get_product(1), registry.get_product(1));
    assert_eq!(registry.get_product(2), registry.get_product(2));
    assert_eq!(registry.get_product(7), registry.get_product(7));
    assert_eq!(registry.list_products(), registry.list_products());
}

#[test]
fn owner_is_stamped_from_the_caller_identity_alone() {
    let mut registry = FarmChain::new();
    let same = identity(b"same caller");
    let id1 = registry
        .create_product(b"Apples".to_vec(), 250, same.clone())
        .unwrap();
    let id2 = registry.create_product(Vec::new(), 0, same.clone()).unwrap();
    let id3 = registry
        .create_product(b"same caller".to_vec(), u64::MAX, identity(b"other"))
        .unwrap();

    let p1 = registry.get_product(id1).unwrap();
    let p2 = registry.get_product(id2).unwrap();
    let p3 = registry.get_product(id3).unwrap();
    assert_eq!(p1.owner, same);
    assert_eq!(p2.owner, same);
    assert_eq!(p3.owner, identity(b"other"));
    assert_ne!(p3.owner, p1.owner);
}

#[test]
fn listing_is_in_ascending_id_order() {
    let mut registry = FarmChain::new();
    registry
        .create_product(b"first".to_vec(), 3, identity(b"x"))
        .unwrap();
    registry
        .create_product(b"second".to_vec(), 2, identity(b"y"))
        .unwrap();
    registry
        .create_product(b"third".to_vec(), 1, identity(b"z"))
        .unwrap();
    let listing = registry.list_products();
    assert_eq!(listing.len(), 3);
    assert_eq!(listing[0].name, b"first".to_vec());
    assert_eq!(listing[1].name, b"second".to_vec());
    assert_eq!(listing[2].name, b"third".to_vec());
    for (i, p) in listing.iter().enumerate() {
        assert_eq!(Some(p.clone()), registry.get_product(i as u64 + 1));
    }
}

#[test]
fn empty_name_and_extreme_prices_are_accepted() {
    let mut registry = FarmChain::new();
    let id = registry
        .create_product(Vec::new(), 0, identity(b""))
        .unwrap();
    let p = registry.get_product(id).unwrap();
    assert_eq!(p.name, Vec::<u8>::new());
    assert_eq!(p.price, 0);
    assert_eq!(p.owner, identity(b""));

    let id = registry
        .create_product(b"max".to_vec(), u64::MAX, identity(b"rich"))
        .unwrap();
    assert_eq!(registry.get_product(id).unwrap().price, u64::MAX);
}

#[test]
fn overflow_error_is_the_only_error() {
    // The one error the registry can report; the state needed to trigger it
    // (2^64 - 1 stored records) cannot be built in a test.
    let e = RegistryError::CounterOverflow;
    assert_eq!(e, RegistryError::CounterOverflow);
    assert_eq!(format!("{:?}", e), "CounterOverflow");
}
