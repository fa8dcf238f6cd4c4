use shop_graph::error::{Relation, ResolveError, StorageError};
use shop_graph::loader::{load_all, load_children, load_optional, load_required};
use shop_graph::model::{LineItem, Order, Price, Product, Shop};
use shop_graph::resolver::Query;
use shop_graph::store::{Context, Store};
use shop_graph::table::Table;

fn shop(id: i32, name: &str) -> Shop {
    Shop { id, name: name.to_string() }
}

fn product(id: i32, shop_id: i32, name: &str, price: f32) -> Product {
    Product { id, shop_id, name: name.to_string(), value: Price { bits: price.to_bits() } }
}

fn order(id: i32, shop_id: i32) -> Order {
    Order { id, shop_id }
}

fn item(id: i32, product_id: i32, order_id: i32, quantity: i32) -> LineItem {
    LineItem { id, product_id, order_id, quantity }
}

/// Two shops; the second has neither products nor orders. Product 12 names a
/// shop, order 102 names a shop and line item 1003 names a product and an
/// order that the store does not hold.
fn sample() -> Context {
    Context {
        db: Store {
            shops: Table::from_rows(vec![shop(1, "Acme"), shop(2, "Bare")]),
            products: Table::from_rows(vec![
                product(10, 1, "Widget", 2.5),
                product(11, 1, "Gadget", 4.0),
                product(12, 9, "Orphan", 1.0),
            ]),
            orders: Table::from_rows(vec![order(100, 1), order(101, 1), order(102, 9)]),
            line_items: Table::from_rows(vec![
                item(1000, 10, 100, 3),
                item(1001, 11, 100, 2),
                item(1002, 10, 101, 1),
                item(1003, 77, 88, 5),
            ]),
        },
    }
}

fn broken(error: StorageError) -> Context {
    Context {
        db: Store {
            shops: Table::unreadable(error),
            products: Table::unreadable(error),
            orders: Table::unreadable(error),
            line_items: Table::unreadable(error),
        },
    }
}

#[test]
fn root_shop_is_loaded_by_id() {
    let ctx = sample();
    assert_eq!(Query.shop(&ctx, 1), Ok(Some(shop(1, "Acme"))));
    assert_eq!(Query.shop(&ctx, 2), Ok(Some(shop(2, "Bare"))));
}

#[test]
fn root_shop_of_an_unknown_id_is_none_never_an_error() {
    let ctx = sample();
    for id in [999, 0, -1, 3, i32::MAX, i32::MIN] {
        assert_eq!(Query.shop(&ctx, id), Ok(None));
    }
}

#[test]
fn root_shop_fails_only_where_the_shops_cannot_be_read() {
    let ctx = broken(StorageError::Connectivity);
    assert_eq!(Query.shop(&ctx, 1), Err(ResolveError::Storage(StorageError::Connectivity)));
    let ctx = broken(StorageError::MalformedRow);
    assert_eq!(Query.shop(&ctx, 1), Err(ResolveError::Storage(StorageError::MalformedRow)));
}

#[test]
fn root_shops_are_all_shops_in_scan_order() {
    let ctx = sample();
    assert_eq!(Query.shops(&ctx), Ok(vec![shop(1, "Acme"), shop(2, "Bare")]));
    let ctx = broken(StorageError::Connectivity);
    assert_eq!(Query.shops(&ctx), Err(ResolveError::Storage(StorageError::Connectivity)));
}

#[test]
fn products_of_a_shop_are_exactly_those_that_name_it() {
    let ctx = sample();
    assert_eq!(
        shop(1, "Acme").products(&ctx),
        Ok(vec![product(10, 1, "Widget", 2.5), product(11, 1, "Gadget", 4.0)])
    );
    assert_eq!(shop(9, "Ghost").products(&ctx), Ok(vec![product(12, 9, "Orphan", 1.0)]));
}

#[test]
fn products_of_a_shop_do_not_depend_on_scan_order() {
    let scan = vec![
        product(10, 1, "Widget", 2.5),
        product(12, 9, "Orphan", 1.0),
        product(11, 1, "Gadget", 4.0),
        product(13, 2, "Other", 3.0),
    ];
    let other_scan = vec![
        product(13, 2, "Other", 3.0),
        product(11, 1, "Gadget", 4.0),
        product(10, 1, "Widget", 2.5),
        product(12, 9, "Orphan", 1.0),
    ];
    let mut one = load_children::<Shop, Product>(&Table::from_rows(scan), 1).unwrap();
    let mut other = load_children::<Shop, Product>(&Table::from_rows(other_scan), 1).unwrap();
    assert_eq!(one, vec![product(10, 1, "Widget", 2.5), product(11, 1, "Gadget", 4.0)]);
    assert_eq!(other, vec![product(11, 1, "Gadget", 4.0), product(10, 1, "Widget", 2.5)]);
    one.sort_by_key(|p| p.id);
    other.sort_by_key(|p| p.id);
    assert_eq!(one, other);
}

#[test]
fn shop_without_orders_has_an_empty_sequence_of_orders() {
    let ctx = sample();
    assert_eq!(shop(2, "Bare").orders(&ctx), Ok(Vec::new()));
    assert_eq!(shop(2, "Bare").products(&ctx), Ok(Vec::new()));
}

#[test]
fn orders_of_a_shop_are_exactly_those_that_name_it() {
    let ctx = sample();
    assert_eq!(shop(1, "Acme").orders(&ctx), Ok(vec![order(100, 1), order(101, 1)]));
}

#[test]
fn line_items_of_an_order_and_of_a_product() {
    let ctx = sample();
    assert_eq!(
        order(100, 1).line_items(&ctx),
        Ok(vec![item(1000, 10, 100, 3), item(1001, 11, 100, 2)])
    );
    assert_eq!(
        product(10, 1, "Widget", 2.5).line_items(&ctx),
        Ok(vec![item(1000, 10, 100, 3), item(1002, 10, 101, 1)])
    );
    assert_eq!(order(555, 1).line_items(&ctx), Ok(Vec::new()));
}

#[test]
fn back_references_load_the_row_referred_to() {
    let ctx = sample();
    assert_eq!(product(10, 1, "Widget", 2.5).shop(&ctx), Ok(shop(1, "Acme")));
    assert_eq!(order(101, 1).shop(&ctx), Ok(shop(1, "Acme")));
    assert_eq!(item(1000, 10, 100, 3).product(&ctx), Ok(product(10, 1, "Widget", 2.5)));
    assert_eq!(item(1000, 10, 100, 3).order(&ctx), Ok(order(100, 1)));
}

#[test]
fn back_reference_to_a_missing_row_is_an_integrity_error() {
    let ctx = sample();
    assert_eq!(
        product(12, 9, "Orphan", 1.0).shop(&ctx),
        Err(ResolveError::ReferentialIntegrity { relation: Relation::Shops, id: 9 })
    );
    assert_eq!(
        order(102, 9).shop(&ctx),
        Err(ResolveError::ReferentialIntegrity { relation: Relation::Shops, id: 9 })
    );
    assert_eq!(
        item(1003, 77, 88, 5).product(&ctx),
        Err(ResolveError::ReferentialIntegrity { relation: Relation::Products, id: 77 })
    );
    assert_eq!(
        item(1003, 77, 88, 5).order(&ctx),
        Err(ResolveError::ReferentialIntegrity { relation: Relation::Orders, id: 88 })
    );
}

#[test]
fn every_loader_passes_a_storage_failure_on() {
    let ctx = broken(StorageError::Connectivity);
    let failed = ResolveError::Storage(StorageError::Connectivity);
    assert_eq!(shop(1, "Acme").products(&ctx), Err(failed));
    assert_eq!(shop(1, "Acme").orders(&ctx), Err(failed));
    assert_eq!(product(10, 1, "Widget", 2.5).shop(&ctx), Err(failed));
    assert_eq!(product(10, 1, "Widget", 2.5).line_items(&ctx), Err(failed));
    assert_eq!(order(100, 1).shop(&ctx), Err(failed));
    assert_eq!(order(100, 1).line_items(&ctx), Err(failed));
    assert_eq!(item(1000, 10, 100, 3).product(&ctx), Err(failed));
    assert_eq!(item(1000, 10, 100, 3).order(&ctx), Err(failed));
}

#[test]
fn generic_loaders_answer_as_the_relation_does() {
    let shops = Table::from_rows(vec![shop(1, "Acme"), shop(2, "Bare")]);
    assert_eq!(load_optional(&shops, 2), Ok(Some(shop(2, "Bare"))));
    assert_eq!(load_optional(&shops, 5), Ok(None));
    assert_eq!(load_required(&shops, Relation::Shops, 1), Ok(shop(1, "Acme")));
    assert_eq!(
        load_required(&shops, Relation::Shops, 5),
        Err(ResolveError::ReferentialIntegrity { relation: Relation::Shops, id: 5 })
    );
    assert_eq!(load_all(&shops), Ok(vec![shop(1, "Acme"), shop(2, "Bare")]));
    let none: Table<Shop> = Table::unreadable(StorageError::MalformedRow);
    let failed = ResolveError::Storage(StorageError::MalformedRow);
    assert_eq!(load_optional(&none, 1), Err(failed));
    assert_eq!(load_required(&none, Relation::Shops, 1), Err(failed));
    assert_eq!(load_all(&none), Err(failed));
}
