use shop_graph::error::{Relation, ResolveError, StorageError};
use shop_graph::model::{LineItem, Order, Price, Product, Shop, Term};
use shop_graph::store::{Context, Store};
use shop_graph::table::Table;

fn product(id: i32, shop_id: i32, name: &str, price: f32) -> Product {
    Product { id, shop_id, name: name.to_string(), value: Price { bits: price.to_bits() } }
}

fn item(id: i32, product_id: i32, order_id: i32, quantity: i32) -> LineItem {
    LineItem { id, product_id, order_id, quantity }
}

fn term(quantity: i32, price: f32) -> Term {
    Term { quantity, price: Price { bits: price.to_bits() } }
}

fn store(products: Vec<Product>, line_items: Vec<LineItem>) -> Context {
    Context {
        db: Store {
            shops: Table::from_rows(vec![Shop { id: 1, name: "Acme".to_string() }]),
            products: Table::from_rows(products),
            orders: Table::from_rows(vec![Order { id: 100, shop_id: 1 }]),
            line_items: Table::from_rows(line_items),
        },
    }
}

/// The sum of the terms in single precision, widened once at the end.
fn sum(terms: &[Term]) -> f64 {
    terms.iter().fold(0.0f32, |total, t| total + f32::from_bits(t.price.bits) * t.quantity as f32)
        as f64
}

/// One term in single precision, widened once at the end.
fn amount(t: Term) -> f64 {
    (f32::from_bits(t.price.bits) * t.quantity as f32) as f64
}

#[test]
fn total_of_one_line_item_of_three_widgets() {
    let ctx = store(vec![product(10, 1, "Widget", 2.50)], vec![item(1000, 10, 100, 3)]);
    let terms = Order { id: 100, shop_id: 1 }.total(&ctx).unwrap();
    assert_eq!(terms, vec![term(3, 2.50)]);
    assert_eq!(sum(&terms), 7.50);
}

#[test]
fn total_of_an_order_without_line_items_is_zero() {
    let ctx = store(vec![product(10, 1, "Widget", 2.50)], vec![item(1000, 10, 101, 3)]);
    let terms = Order { id: 100, shop_id: 1 }.total(&ctx).unwrap();
    assert_eq!(terms, Vec::new());
    assert_eq!(sum(&terms), 0.0);
}

#[test]
fn total_takes_the_line_items_of_the_order_only_and_in_scan_order() {
    let ctx = store(
        vec![product(11, 1, "Gadget", 4.0), product(10, 1, "Widget", 2.5)],
        vec![
            item(1000, 10, 100, 3),
            item(1001, 11, 200, 9),
            item(1002, 11, 100, 2),
            item(1003, 10, 100, 1),
        ],
    );
    let terms = Order { id: 100, shop_id: 1 }.total(&ctx).unwrap();
    assert_eq!(terms, vec![term(3, 2.5), term(2, 4.0), term(1, 2.5)]);
    assert_eq!(sum(&terms), 18.0);
}

#[test]
fn total_agrees_with_the_sum_of_the_line_item_values() {
    let ctx = store(
        vec![product(10, 1, "Widget", 2.5), product(11, 1, "Gadget", 4.0)],
        vec![item(1000, 10, 100, 3), item(1001, 11, 100, 2), item(1002, 10, 100, 7)],
    );
    let order = Order { id: 100, shop_id: 1 };
    let terms = order.total(&ctx).unwrap();
    let items = order.line_items(&ctx).unwrap();
    let values: Vec<Term> = items.iter().map(|i| i.value(&ctx).unwrap()).collect();
    assert_eq!(terms, values);
    assert_eq!(sum(&terms), values.iter().map(|t| amount(*t)).sum::<f64>());
    assert_eq!(sum(&terms), 33.0);
}

#[test]
fn total_leaves_out_a_line_item_without_a_product() {
    let ctx = store(
        vec![product(10, 1, "Widget", 2.5)],
        vec![item(1000, 10, 100, 3), item(1001, 77, 100, 2)],
    );
    let order = Order { id: 100, shop_id: 1 };
    assert_eq!(order.total(&ctx), Ok(vec![term(3, 2.5)]));
    assert_eq!(
        item(1001, 77, 100, 2).value(&ctx),
        Err(ResolveError::ReferentialIntegrity { relation: Relation::Products, id: 77 })
    );
}

#[test]
fn value_is_the_quantity_at_the_price_of_the_product() {
    let ctx = store(
        vec![product(10, 1, "Widget", 2.5), product(11, 1, "Gadget", 4.0)],
        vec![item(1000, 10, 100, 3), item(1001, 11, 100, 2)],
    );
    let value = item(1000, 10, 100, 3).value(&ctx).unwrap();
    assert_eq!(value, term(3, 2.5));
    assert_eq!(amount(value), 7.5);
    let value = item(1001, 11, 100, 2).value(&ctx).unwrap();
    assert_eq!(value, term(2, 4.0));
    assert_eq!(amount(value), 8.0);
}

#[test]
fn value_follows_the_price_that_the_store_holds_at_the_read() {
    let line = item(1000, 10, 100, 3);
    let before = store(vec![product(10, 1, "Widget", 2.5)], vec![line]);
    let after = store(vec![product(10, 1, "Widget", 3.0)], vec![line]);
    assert_eq!(amount(line.value(&before).unwrap()), 7.5);
    assert_eq!(amount(line.value(&after).unwrap()), 9.0);
}

#[test]
fn value_of_a_line_item_without_its_product_is_an_integrity_error() {
    let ctx = store(vec![product(10, 1, "Widget", 2.5)], vec![item(1000, 11, 100, 3)]);
    assert_eq!(
        item(1000, 11, 100, 3).value(&ctx),
        Err(ResolveError::ReferentialIntegrity { relation: Relation::Products, id: 11 })
    );
    assert_eq!(
        item(1000, 11, 100, 3).product(&ctx),
        Err(ResolveError::ReferentialIntegrity { relation: Relation::Products, id: 11 })
    );
}

#[test]
fn total_and_value_fail_where_the_products_cannot_be_read() {
    let ctx = Context {
        db: Store {
            shops: Table::from_rows(Vec::new()),
            products: Table::unreadable(StorageError::Connectivity),
            orders: Table::from_rows(Vec::new()),
            line_items: Table::from_rows(vec![item(1000, 10, 100, 3)]),
        },
    };
    let failed = ResolveError::Storage(StorageError::Connectivity);
    assert_eq!(Order { id: 100, shop_id: 1 }.total(&ctx), Err(failed));
    assert_eq!(Order { id: 555, shop_id: 1 }.total(&ctx), Err(failed));
    assert_eq!(item(1000, 10, 100, 3).value(&ctx), Err(failed));
}

#[test]
fn total_fails_with_the_failure_of_the_line_items_first() {
    let ctx = Context {
        db: Store {
            shops: Table::from_rows(Vec::new()),
            products: Table::unreadable(StorageError::Connectivity),
            orders: Table::from_rows(Vec::new()),
            line_items: Table::unreadable(StorageError::MalformedRow),
        },
    };
    assert_eq!(
        Order { id: 100, shop_id: 1 }.total(&ctx),
        Err(ResolveError::Storage(StorageError::MalformedRow))
    );
    assert_eq!(
        ctx.db.scan_joined_aggregate(100),
        Err(StorageError::MalformedRow)
    );
}

#[test]
fn joined_scan_yields_quantity_and_price_only() {
    let ctx = store(
        vec![product(10, 1, "Widget", 2.5), product(11, 1, "Gadget", 4.0)],
        vec![item(1000, 10, 100, 3), item(1001, 11, 100, 2), item(1002, 10, 300, 1)],
    );
    assert_eq!(ctx.db.scan_joined_aggregate(100), Ok(vec![term(3, 2.5), term(2, 4.0)]));
    assert_eq!(ctx.db.scan_joined_aggregate(300), Ok(vec![term(1, 2.5)]));
    assert_eq!(ctx.db.scan_joined_aggregate(1), Ok(Vec::new()));
}
