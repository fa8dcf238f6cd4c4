use crate::error::{Relation, ResolveError};
use crate::loader::optional_row;
use crate::model::{BelongsTo, LineItem, Order, Product, Row, Shop, Term};
use crate::resolver::{
    LineItemResult, LineItemSelection, OrderResult, OrderSelection, ProductResult,
    ProductSelection, ShopResult, ShopSelection,
};
use crate::store::{priced, Store};
use crate::table::{children_of, has_key, lemma_find_by_key, refers_to, unique_keys};
use vstd::multiset::*;
use vstd::prelude::*;
use vstd::seq_lib::*;

verus! {

/// A shop id that the store does not hold resolves to none, never to an
/// error, whenever the shops can be read at all.
pub proof fn unknown_shop_resolves_to_none(db: Store, id: i32)
    requires
        db.shops@ is Ok,
        !has_key(db.shops@->Ok_0, id),
    ensures
        optional_row(db.shops@, id) == Ok::<Option<Shop>, ResolveError>(None),
{
    lemma_find_by_key(db.shops@->Ok_0, id);
}

/// The rows that a filter keeps, counted with their multiplicity, are the
/// rows of the sequence that pass it.
pub proof fn filter_as_multiset<A>(rows: Seq<A>, keep: spec_fn(A) -> bool)
    ensures
        rows.filter(keep).to_multiset() == rows.to_multiset().filter(keep),
    decreases rows.len(),
{
    broadcast use group_multiset_axioms;

    if rows.len() == 0 {
        assert(rows.filter(keep) =~= Seq::<A>::empty()) by {
            reveal(Seq::filter);
        }
        rows.to_multiset_ensures();
        rows.filter(keep).to_multiset_ensures();
        assert forall|row: A|
            rows.filter(keep).to_multiset().count(row) == rows.to_multiset().filter(keep).count(
                row,
            ) by {
            axiom_count_le_len(rows.filter(keep).to_multiset(), row);
            axiom_count_le_len(rows.to_multiset(), row);
        }
        assert(rows.filter(keep).to_multiset() =~= rows.to_multiset().filter(keep));
    } else {
        let front = rows.drop_last();
        let last = rows.last();
        filter_as_multiset(front, keep);
        assert(rows =~= front.push(last));
        front.lemma_filter_push(last, keep);
        to_multiset_build(front, last);
        to_multiset_build(front.filter(keep), last);
        assert(rows.filter(keep).to_multiset() =~= rows.to_multiset().filter(keep));
    }
}

/// Loading the children of a parent row yields exactly the rows of the
/// relation that refer to it, and no others.
pub proof fn children_are_the_referring_rows<P: Row, C: BelongsTo<P>>(
    rows: Seq<C>,
    parent_id: i32,
    row: C,
)
    ensures
        children_of::<P, C>(rows, parent_id).contains(row) <==> rows.contains(row)
            && BelongsTo::<P>::parent_key(&row) == parent_id,
{
    let keep = refers_to::<P, C>(parent_id);
    let kept = rows.filter(keep);
    broadcast use Seq::lemma_filter_pred, Seq::lemma_filter_contains, Seq::lemma_filter_contains_rev;

    if kept.contains(row) {
        let i = choose|i: int| 0 <= i < kept.len() && kept[i] == row;
        assert(keep(kept[i]));
    }
    if rows.contains(row) && keep(row) {
        let i = choose|i: int| 0 <= i < rows.len() && rows[i] == row;
        assert(kept.contains(rows[i]));
    }
}

/// Loading the children of a parent row does not depend on the order in
/// which the relation is scanned: two scans of the same rows yield the same
/// children, each as often as the other.
pub proof fn children_do_not_depend_on_scan_order<P: Row, C: BelongsTo<P>>(
    scan: Seq<C>,
    other_scan: Seq<C>,
    parent_id: i32,
)
    requires
        scan.to_multiset() == other_scan.to_multiset(),
    ensures
        children_of::<P, C>(scan, parent_id).to_multiset() == children_of::<P, C>(
            other_scan,
            parent_id,
        ).to_multiset(),
{
    filter_as_multiset(scan, refers_to::<P, C>(parent_id));
    filter_as_multiset(other_scan, refers_to::<P, C>(parent_id));
}

/// The value of a line item is made of its own quantity and of the unit
/// price of the one product that has the id it refers to.
pub proof fn value_is_quantity_at_product_price(db: Store, item: LineItem, product: Product)
    requires
        db.products@ is Ok,
        unique_keys(db.products@->Ok_0),
        db.products@->Ok_0.contains(product),
        product.id == item.product_id,
    ensures
        item.value_in(&db) == Ok::<Term, ResolveError>(
            Term { quantity: item.quantity, price: product.value },
        ),
{
    let rows = db.products@->Ok_0;
    lemma_find_by_key(rows, item.product_id);
    let i = choose|i: int| 0 <= i < rows.len() && rows[i] == product;
    assert(rows[i].key() == item.product_id);
}

/// A line item that refers to a product that the store does not hold has
/// neither a product nor a value: both fields fail with the broken
/// reference.
pub proof fn missing_product_breaks_product_and_value(db: Store, item: LineItem)
    requires
        db.products@ is Ok,
        !has_key(db.products@->Ok_0, item.product_id),
    ensures
        item.product_in(&db) == Err::<Product, ResolveError>(
            ResolveError::ReferentialIntegrity { relation: Relation::Products, id: item.product_id },
        ),
        item.value_in(&db) == Err::<Term, ResolveError>(
            ResolveError::ReferentialIntegrity { relation: Relation::Products, id: item.product_id },
        ),
{
    lemma_find_by_key(db.products@->Ok_0, item.product_id);
}

/// The two ways to an order's total agree. Where every line item of the
/// order has a value, the terms that the join yields are the values of the
/// order's line items, one for one and in the same order: whatever sums the
/// one sums the other.
pub proof fn total_agrees_with_line_item_values(db: Store, order: Order)
    requires
        db.products@ is Ok,
        order.line_items_in(&db) is Ok,
        forall|i: int|
            0 <= i < order.line_items_in(&db)->Ok_0.len() ==> (
            #[trigger] order.line_items_in(&db)->Ok_0[i]).value_in(&db) is Ok,
    ensures
        order.total_in(&db) is Ok,
        order.total_in(&db)->Ok_0.len() == order.line_items_in(&db)->Ok_0.len(),
        forall|i: int|
            0 <= i < order.line_items_in(&db)->Ok_0.len() ==> (
            #[trigger] order.line_items_in(&db)->Ok_0[i]).value_in(&db) == Ok::<Term, ResolveError>(
                order.total_in(&db)->Ok_0[i],
            ),
{
    let products = db.products@->Ok_0;
    let items = order.line_items_in(&db)->Ok_0;
    let keep = priced(products);
    assert forall|i: int| 0 <= i < items.len() implies keep(#[trigger] items[i]) by {
        assert(items[i].value_in(&db) is Ok);
    }
    lemma_filter_keeps_all(items, keep);
}

/// A filter that every row passes keeps the sequence as it is.
pub proof fn lemma_filter_keeps_all<A>(rows: Seq<A>, keep: spec_fn(A) -> bool)
    requires
        forall|i: int| 0 <= i < rows.len() ==> keep(#[trigger] rows[i]),
    ensures
        rows.filter(keep) == rows,
    decreases rows.len(),
{
    reveal(Seq::filter);
    if rows.len() > 0 {
        lemma_filter_keeps_all(rows.drop_last(), keep);
        assert(rows.drop_last().push(rows.last()) =~= rows);
    }
}

/// Resolution is lazy: the answer to a selection rests only on the relations
/// that the selection reaches. Two stores that agree on those give every
/// shop the same answer, whatever the other relations hold and whether they
/// can be read at all.
pub proof fn shop_answer_rests_on_what_it_reaches(
    db: Store,
    other: Store,
    shop: Shop,
    selection: ShopSelection,
    result: ShopResult,
)
    requires
        forall|relation: Relation|
            selection.reaches(relation) ==> db.same_relation(&other, relation),
    ensures
        result.answers(&db, shop, selection) == result.answers(&other, shop, selection),
    decreases selection,
{
    if let Some(sub) = selection.products {
        assert(selection.reaches(Relation::Products));
        assert(db.same_relation(&other, Relation::Products));
        if let Ok(rows) = shop.products_in(&db) {
            assert forall|relation: Relation| sub.reaches(relation) implies db.same_relation(
                &other,
                relation,
            ) by {
                assert(selection.reaches(relation));
            }
            if result.products is Resolved {
                let list = result.products->Resolved_0@;
                assert forall|i: int| 0 <= i < rows.len() && i < list.len() implies (
                #[trigger] list[i]).answers(&db, rows[i], *sub) == list[i].answers(
                    &other,
                    rows[i],
                    *sub,
                ) by {
                    product_answer_rests_on_what_it_reaches(db, other, rows[i], *sub, list[i]);
                }
            }
        }
    }
    if let Some(sub) = selection.orders {
        assert(selection.reaches(Relation::Orders));
        assert(db.same_relation(&other, Relation::Orders));
        if let Ok(rows) = shop.orders_in(&db) {
            assert forall|relation: Relation| sub.reaches(relation) implies db.same_relation(
                &other,
                relation,
            ) by {
                assert(selection.reaches(relation));
            }
            if result.orders is Resolved {
                let list = result.orders->Resolved_0@;
                assert forall|i: int| 0 <= i < rows.len() && i < list.len() implies (
                #[trigger] list[i]).answers(&db, rows[i], *sub) == list[i].answers(
                    &other,
                    rows[i],
                    *sub,
                ) by {
                    order_answer_rests_on_what_it_reaches(db, other, rows[i], *sub, list[i]);
                }
            }
        }
    }
}

/// The answer for a product rests only on the relations that its selection
/// reaches.
pub proof fn product_answer_rests_on_what_it_reaches(
    db: Store,
    other: Store,
    product: Product,
    selection: ProductSelection,
    result: ProductResult,
)
    requires
        forall|relation: Relation|
            selection.reaches(relation) ==> db.same_relation(&other, relation),
    ensures
        result.answers(&db, product, selection) == result.answers(&other, product, selection),
    decreases selection,
{
    if let Some(sub) = selection.shop {
        assert(selection.reaches(Relation::Shops));
        assert(db.same_relation(&other, Relation::Shops));
        if let Ok(row) = product.shop_in(&db) {
            assert forall|relation: Relation| sub.reaches(relation) implies db.same_relation(
                &other,
                relation,
            ) by {
                assert(selection.reaches(relation));
            }
            if result.shop is Resolved {
                shop_answer_rests_on_what_it_reaches(db, other, row, *sub, *result.shop->Resolved_0);
            }
        }
    }
    if let Some(sub) = selection.line_items {
        assert(selection.reaches(Relation::LineItems));
        assert(db.same_relation(&other, Relation::LineItems));
        if let Ok(rows) = product.line_items_in(&db) {
            assert forall|relation: Relation| sub.reaches(relation) implies db.same_relation(
                &other,
                relation,
            ) by {
                assert(selection.reaches(relation));
            }
            if result.line_items is Resolved {
                let list = result.line_items->Resolved_0@;
                assert forall|i: int| 0 <= i < rows.len() && i < list.len() implies (
                #[trigger] list[i]).answers(&db, rows[i], *sub) == list[i].answers(
                    &other,
                    rows[i],
                    *sub,
                ) by {
                    line_item_answer_rests_on_what_it_reaches(db, other, rows[i], *sub, list[i]);
                }
            }
        }
    }
}

/// The answer for an order rests only on the relations that its selection
/// reaches.
pub proof fn order_answer_rests_on_what_it_reaches(
    db: Store,
    other: Store,
    order: Order,
    selection: OrderSelection,
    result: OrderResult,
)
    requires
        forall|relation: Relation|
            selection.reaches(relation) ==> db.same_relation(&other, relation),
    ensures
        result.answers(&db, order, selection) == result.answers(&other, order, selection),
    decreases selection,
{
    if let Some(sub) = selection.shop {
        assert(selection.reaches(Relation::Shops));
        assert(db.same_relation(&other, Relation::Shops));
        if let Ok(row) = order.shop_in(&db) {
            assert forall|relation: Relation| sub.reaches(relation) implies db.same_relation(
                &other,
                relation,
            ) by {
                assert(selection.reaches(relation));
            }
            if result.shop is Resolved {
                shop_answer_rests_on_what_it_reaches(db, other, row, *sub, *result.shop->Resolved_0);
            }
        }
    }
    if selection.total {
        assert(selection.reaches(Relation::LineItems));
        assert(selection.reaches(Relation::Products));
        assert(db.same_relation(&other, Relation::LineItems));
        assert(db.same_relation(&other, Relation::Products));
    }
    if let Some(sub) = selection.line_items {
        assert(selection.reaches(Relation::LineItems));
        assert(db.same_relation(&other, Relation::LineItems));
        if let Ok(rows) = order.line_items_in(&db) {
            assert forall|relation: Relation| sub.reaches(relation) implies db.same_relation(
                &other,
                relation,
            ) by {
                assert(selection.reaches(relation));
            }
            if result.line_items is Resolved {
                let list = result.line_items->Resolved_0@;
                assert forall|i: int| 0 <= i < rows.len() && i < list.len() implies (
                #[trigger] list[i]).answers(&db, rows[i], *sub) == list[i].answers(
                    &other,
                    rows[i],
                    *sub,
                ) by {
                    line_item_answer_rests_on_what_it_reaches(db, other, rows[i], *sub, list[i]);
                }
            }
        }
    }
}

/// The answer for a line item rests only on the relations that its selection
/// reaches.
pub proof fn line_item_answer_rests_on_what_it_reaches(
    db: Store,
    other: Store,
    item: LineItem,
    selection: LineItemSelection,
    result: LineItemResult,
)
    requires
        forall|relation: Relation|
            selection.reaches(relation) ==> db.same_relation(&other, relation),
    ensures
        result.answers(&db, item, selection) == result.answers(&other, item, selection),
    decreases selection,
{
    if selection.value {
        assert(selection.reaches(Relation::Products));
        assert(db.same_relation(&other, Relation::Products));
    }
    if let Some(sub) = selection.product {
        assert(selection.reaches(Relation::Products));
        assert(db.same_relation(&other, Relation::Products));
        if let Ok(row) = item.product_in(&db) {
            assert forall|relation: Relation| sub.reaches(relation) implies db.same_relation(
                &other,
                relation,
            ) by {
                assert(selection.reaches(relation));
            }
            if result.product is Resolved {
                product_answer_rests_on_what_it_reaches(db, other, row, *sub, *result.product->Resolved_0);
            }
        }
    }
    if let Some(sub) = selection.order {
        assert(selection.reaches(Relation::Orders));
        assert(db.same_relation(&other, Relation::Orders));
        if let Ok(row) = item.order_in(&db) {
            assert forall|relation: Relation| sub.reaches(relation) implies db.same_relation(
                &other,
                relation,
            ) by {
                assert(selection.reaches(relation));
            }
            if result.order is Resolved {
                order_answer_rests_on_what_it_reaches(db, other, row, *sub, *result.order->Resolved_0);
            }
        }
    }
}

} // verus!
