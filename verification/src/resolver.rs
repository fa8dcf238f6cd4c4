use crate::error::{Relation, ResolveError};
use crate::loader::{all_rows, load_all, load_optional, optional_row};
use crate::model::{LineItem, Order, Product, Shop, Term};
use crate::store::{Context, Store};
use crate::table::reads;
use vstd::prelude::*;

verus! {

/// The fields requested of a shop beyond its own columns.
#[derive(Debug, PartialEq, Eq)]
pub struct ShopSelection {
    pub products: Option<Box<ProductSelection>>,
    pub orders: Option<Box<OrderSelection>>,
}

/// The fields requested of a product beyond its own columns.
#[derive(Debug, PartialEq, Eq)]
pub struct ProductSelection {
    pub shop: Option<Box<ShopSelection>>,
    pub line_items: Option<Box<LineItemSelection>>,
}

/// The fields requested of an order beyond its own columns.
#[derive(Debug, PartialEq, Eq)]
pub struct OrderSelection {
    pub shop: Option<Box<ShopSelection>>,
    pub total: bool,
    pub line_items: Option<Box<LineItemSelection>>,
}

/// The fields requested of a line item beyond its own columns.
#[derive(Debug, PartialEq, Eq)]
pub struct LineItemSelection {
    pub value: bool,
    pub product: Option<Box<ProductSelection>>,
    pub order: Option<Box<OrderSelection>>,
}

/// What became of one field of a result.
#[derive(Debug, PartialEq, Eq)]
pub enum Field<T> {
    /// The field was not requested, and nothing was loaded for it.
    Skipped,
    /// The field was requested and has this value.
    Resolved(T),
    /// The field was requested and could not be resolved. Its siblings stand.
    Failed(ResolveError),
}

/// A shop with the fields that were requested of it.
#[derive(Debug, PartialEq, Eq)]
pub struct ShopResult {
    pub shop: Shop,
    pub products: Field<Vec<ProductResult>>,
    pub orders: Field<Vec<OrderResult>>,
}

/// A product with the fields that were requested of it.
#[derive(Debug, PartialEq, Eq)]
pub struct ProductResult {
    pub product: Product,
    pub shop: Field<Box<ShopResult>>,
    pub line_items: Field<Vec<LineItemResult>>,
}

/// An order with the fields that were requested of it.
#[derive(Debug, PartialEq, Eq)]
pub struct OrderResult {
    pub order: Order,
    pub shop: Field<Box<ShopResult>>,
    pub total: Field<Vec<Term>>,
    pub line_items: Field<Vec<LineItemResult>>,
}

/// A line item with the fields that were requested of it.
#[derive(Debug, PartialEq, Eq)]
pub struct LineItemResult {
    pub line_item: LineItem,
    pub value: Field<Term>,
    pub product: Field<Box<ProductResult>>,
    pub order: Field<Box<OrderResult>>,
}

impl ShopSelection {
    /// Whether answering the selection for a shop reads `relation`.
    pub open spec fn reaches(self, relation: Relation) -> bool
        decreases self,
    {
        ||| self.products matches Some(sub) && (relation == Relation::Products || sub.reaches(
            relation,
        ))
        ||| self.orders matches Some(sub) && (relation == Relation::Orders || sub.reaches(relation))
    }

    /// Whether answering the selection for a shop reads `relation`. What it
    /// does not read has no part in the answer.
    pub fn needs(&self, relation: Relation) -> (needed: bool)
        ensures
            needed == self.reaches(relation),
        decreases self,
    {
        let by_products = match &self.products {
            None => false,
            Some(sub) => relation == Relation::Products || sub.needs(relation),
        };
        let by_orders = match &self.orders {
            None => false,
            Some(sub) => relation == Relation::Orders || sub.needs(relation),
        };
        by_products || by_orders
    }
}

impl ProductSelection {
    /// Whether answering the selection for a product reads `relation`.
    pub open spec fn reaches(self, relation: Relation) -> bool
        decreases self,
    {
        ||| self.shop matches Some(sub) && (relation == Relation::Shops || sub.reaches(relation))
        ||| self.line_items matches Some(sub) && (relation == Relation::LineItems || sub.reaches(
            relation,
        ))
    }

    /// Whether answering the selection for a product reads `relation`.
    pub fn needs(&self, relation: Relation) -> (needed: bool)
        ensures
            needed == self.reaches(relation),
        decreases self,
    {
        let by_shop = match &self.shop {
            None => false,
            Some(sub) => relation == Relation::Shops || sub.needs(relation),
        };
        let by_line_items = match &self.line_items {
            None => false,
            Some(sub) => relation == Relation::LineItems || sub.needs(relation),
        };
        by_shop || by_line_items
    }
}

impl OrderSelection {
    /// Whether answering the selection for an order reads `relation`. The
    /// total reads the line items and the products.
    pub open spec fn reaches(self, relation: Relation) -> bool
        decreases self,
    {
        ||| self.shop matches Some(sub) && (relation == Relation::Shops || sub.reaches(relation))
        ||| self.total && (relation == Relation::LineItems || relation == Relation::Products)
        ||| self.line_items matches Some(sub) && (relation == Relation::LineItems || sub.reaches(
            relation,
        ))
    }

    /// Whether answering the selection for an order reads `relation`.
    pub fn needs(&self, relation: Relation) -> (needed: bool)
        ensures
            needed == self.reaches(relation),
        decreases self,
    {
        let by_shop = match &self.shop {
            None => false,
            Some(sub) => relation == Relation::Shops || sub.needs(relation),
        };
        let by_total = self.total && (relation == Relation::LineItems || relation
            == Relation::Products);
        let by_line_items = match &self.line_items {
            None => false,
            Some(sub) => relation == Relation::LineItems || sub.needs(relation),
        };
        by_shop || by_total || by_line_items
    }
}

impl LineItemSelection {
    /// Whether answering the selection for a line item reads `relation`. The
    /// value reads the products.
    pub open spec fn reaches(self, relation: Relation) -> bool
        decreases self,
    {
        ||| self.value && relation == Relation::Products
        ||| self.product matches Some(sub) && (relation == Relation::Products || sub.reaches(
            relation,
        ))
        ||| self.order matches Some(sub) && (relation == Relation::Orders || sub.reaches(relation))
    }

    /// Whether answering the selection for a line item reads `relation`.
    pub fn needs(&self, relation: Relation) -> (needed: bool)
        ensures
            needed == self.reaches(relation),
        decreases self,
    {
        let by_value = self.value && relation == Relation::Products;
        let by_product = match &self.product {
            None => false,
            Some(sub) => relation == Relation::Products || sub.needs(relation),
        };
        let by_order = match &self.order {
            None => false,
            Some(sub) => relation == Relation::Orders || sub.needs(relation),
        };
        by_value || by_product || by_order
    }
}

impl ShopResult {
    /// The result is the answer to `selection` for `shop` over `db`: it
    /// holds the shop itself, leaves out each field that was not requested,
    /// and holds for each requested field what its loader yields, one answer
    /// per loaded row and in the order of the rows, or the loader's error.
    pub open spec fn answers(&self, db: &Store, shop: Shop, selection: ShopSelection) -> bool
        decreases selection,
    {
        &&& self.shop == shop
        &&& match selection.products {
            None => self.products is Skipped,
            Some(sub) => match shop.products_in(db) {
                Err(error) => self.products == Field::<Vec<ProductResult>>::Failed(error),
                Ok(rows) => {
                    &&& self.products is Resolved
                    &&& self.products->Resolved_0@.len() == rows.len()
                    &&& forall|i: int|
                        0 <= i < rows.len() ==> (#[trigger] self.products->Resolved_0@[i]).answers(
                            db,
                            rows[i],
                            *sub,
                        )
                },
            },
        }
        &&& match selection.orders {
            None => self.orders is Skipped,
            Some(sub) => match shop.orders_in(db) {
                Err(error) => self.orders == Field::<Vec<OrderResult>>::Failed(error),
                Ok(rows) => {
                    &&& self.orders is Resolved
                    &&& self.orders->Resolved_0@.len() == rows.len()
                    &&& forall|i: int|
                        0 <= i < rows.len() ==> (#[trigger] self.orders->Resolved_0@[i]).answers(
                            db,
                            rows[i],
                            *sub,
                        )
                },
            },
        }
    }
}

impl ProductResult {
    /// The result is the answer to `selection` for `product` over `db`.
    pub open spec fn answers(&self, db: &Store, product: Product, selection: ProductSelection) -> bool
        decreases selection,
    {
        &&& self.product == product
        &&& match selection.shop {
            None => self.shop is Skipped,
            Some(sub) => match product.shop_in(db) {
                Err(error) => self.shop == Field::<Box<ShopResult>>::Failed(error),
                Ok(row) => self.shop is Resolved && self.shop->Resolved_0.answers(db, row, *sub),
            },
        }
        &&& match selection.line_items {
            None => self.line_items is Skipped,
            Some(sub) => match product.line_items_in(db) {
                Err(error) => self.line_items == Field::<Vec<LineItemResult>>::Failed(error),
                Ok(rows) => {
                    &&& self.line_items is Resolved
                    &&& self.line_items->Resolved_0@.len() == rows.len()
                    &&& forall|i: int|
                        0 <= i < rows.len() ==> (
                        #[trigger] self.line_items->Resolved_0@[i]).answers(db, rows[i], *sub)
                },
            },
        }
    }
}

impl OrderResult {
    /// The result is the answer to `selection` for `order` over `db`.
    pub open spec fn answers(&self, db: &Store, order: Order, selection: OrderSelection) -> bool
        decreases selection,
    {
        &&& self.order == order
        &&& match selection.shop {
            None => self.shop is Skipped,
            Some(sub) => match order.shop_in(db) {
                Err(error) => self.shop == Field::<Box<ShopResult>>::Failed(error),
                Ok(row) => self.shop is Resolved && self.shop->Resolved_0.answers(db, row, *sub),
            },
        }
        &&& if selection.total {
            match order.total_in(db) {
                Err(error) => self.total == Field::<Vec<Term>>::Failed(error),
                Ok(terms) => self.total is Resolved && self.total->Resolved_0@ == terms,
            }
        } else {
            self.total is Skipped
        }
        &&& match selection.line_items {
            None => self.line_items is Skipped,
            Some(sub) => match order.line_items_in(db) {
                Err(error) => self.line_items == Field::<Vec<LineItemResult>>::Failed(error),
                Ok(rows) => {
                    &&& self.line_items is Resolved
                    &&& self.line_items->Resolved_0@.len() == rows.len()
                    &&& forall|i: int|
                        0 <= i < rows.len() ==> (
                        #[trigger] self.line_items->Resolved_0@[i]).answers(db, rows[i], *sub)
                },
            },
        }
    }
}

impl LineItemResult {
    /// The result is the answer to `selection` for `item` over `db`.
    pub open spec fn answers(&self, db: &Store, item: LineItem, selection: LineItemSelection) -> bool
        decreases selection,
    {
        &&& self.line_item == item
        &&& if selection.value {
            match item.value_in(db) {
                Err(error) => self.value == Field::<Term>::Failed(error),
                Ok(term) => self.value == Field::Resolved(term),
            }
        } else {
            self.value is Skipped
        }
        &&& match selection.product {
            None => self.product is Skipped,
            Some(sub) => match item.product_in(db) {
                Err(error) => self.product == Field::<Box<ProductResult>>::Failed(error),
                Ok(row) => self.product is Resolved && self.product->Resolved_0.answers(
                    db,
                    row,
                    *sub,
                ),
            },
        }
        &&& match selection.order {
            None => self.order is Skipped,
            Some(sub) => match item.order_in(db) {
                Err(error) => self.order == Field::<Box<OrderResult>>::Failed(error),
                Ok(row) => self.order is Resolved && self.order->Resolved_0.answers(db, row, *sub),
            },
        }
    }
}

/// Answers `selection` for one shop: loads each requested field once, by the
/// shop's id, and answers the nested selection for every row loaded. A field
/// that fails is marked failed and leaves the other fields as they are.
pub fn answer_shop(ctx: &Context, shop: &Shop, selection: &ShopSelection) -> (result: ShopResult)
    ensures
        result.answers(&ctx.db, *shop, *selection),
    decreases selection, 0nat,
{
    let products = match &selection.products {
        None => Field::Skipped,
        Some(sub) => match shop.products(ctx) {
            Err(error) => Field::Failed(error),
            Ok(rows) => Field::Resolved(answer_products(ctx, &rows, &**sub)),
        },
    };
    let orders = match &selection.orders {
        None => Field::Skipped,
        Some(sub) => match shop.orders(ctx) {
            Err(error) => Field::Failed(error),
            Ok(rows) => Field::Resolved(answer_orders(ctx, &rows, &**sub)),
        },
    };
    ShopResult { shop: shop.clone(), products, orders }
}

/// Answers `selection` for one product.
pub fn answer_product(ctx: &Context, product: &Product, selection: &ProductSelection) -> (result:
    ProductResult)
    ensures
        result.answers(&ctx.db, *product, *selection),
    decreases selection, 0nat,
{
    let shop = match &selection.shop {
        None => Field::Skipped,
        Some(sub) => match product.shop(ctx) {
            Err(error) => Field::Failed(error),
            Ok(row) => Field::Resolved(Box::new(answer_shop(ctx, &row, &**sub))),
        },
    };
    let line_items = match &selection.line_items {
        None => Field::Skipped,
        Some(sub) => match product.line_items(ctx) {
            Err(error) => Field::Failed(error),
            Ok(rows) => Field::Resolved(answer_line_items(ctx, &rows, &**sub)),
        },
    };
    ProductResult { product: product.clone(), shop, line_items }
}

/// Answers `selection` for one order.
pub fn answer_order(ctx: &Context, order: &Order, selection: &OrderSelection) -> (result:
    OrderResult)
    ensures
        result.answers(&ctx.db, *order, *selection),
    decreases selection, 0nat,
{
    let shop = match &selection.shop {
        None => Field::Skipped,
        Some(sub) => match order.shop(ctx) {
            Err(error) => Field::Failed(error),
            Ok(row) => Field::Resolved(Box::new(answer_shop(ctx, &row, &**sub))),
        },
    };
    let total = if selection.total {
        match order.total(ctx) {
            Err(error) => Field::Failed(error),
            Ok(terms) => Field::Resolved(terms),
        }
    } else {
        Field::Skipped
    };
    let line_items = match &selection.line_items {
        None => Field::Skipped,
        Some(sub) => match order.line_items(ctx) {
            Err(error) => Field::Failed(error),
            Ok(rows) => Field::Resolved(answer_line_items(ctx, &rows, &**sub)),
        },
    };
    OrderResult { order: *order, shop, total, line_items }
}

/// Answers `selection` for one line item.
pub fn answer_line_item(ctx: &Context, item: &LineItem, selection: &LineItemSelection) -> (result:
    LineItemResult)
    ensures
        result.answers(&ctx.db, *item, *selection),
    decreases selection, 0nat,
{
    let value = if selection.value {
        match item.value(ctx) {
            Err(error) => Field::Failed(error),
            Ok(term) => Field::Resolved(term),
        }
    } else {
        Field::Skipped
    };
    let product = match &selection.product {
        None => Field::Skipped,
        Some(sub) => match item.product(ctx) {
            Err(error) => Field::Failed(error),
            Ok(row) => Field::Resolved(Box::new(answer_product(ctx, &row, &**sub))),
        },
    };
    let order = match &selection.order {
        None => Field::Skipped,
        Some(sub) => match item.order(ctx) {
            Err(error) => Field::Failed(error),
            Ok(row) => Field::Resolved(Box::new(answer_order(ctx, &row, &**sub))),
        },
    };
    LineItemResult { line_item: *item, value, product, order }
}

/// Answers `selection` for each of `rows`, in their order.
pub fn answer_shops(ctx: &Context, rows: &Vec<Shop>, selection: &ShopSelection) -> (list: Vec<
    ShopResult,
>)
    ensures
        list@.len() == rows@.len(),
        forall|i: int|
            0 <= i < rows@.len() ==> (#[trigger] list@[i]).answers(&ctx.db, rows@[i], *selection),
    decreases selection, 1nat,
{
    let n = rows.len();
    let mut list: Vec<ShopResult> = Vec::new();
    let mut i: usize = 0;
    while i < n
        invariant
            n == rows.len(),
            i <= n,
            list@.len() == i,
            forall|j: int|
                0 <= j < i ==> (#[trigger] list@[j]).answers(&ctx.db, rows@[j], *selection),
        decreases n - i,
    {
        let one = answer_shop(ctx, &rows[i], selection);
        list.push(one);
        i += 1;
    }
    list
}

/// Answers `selection` for each of `rows`, in their order.
pub fn answer_products(ctx: &Context, rows: &Vec<Product>, selection: &ProductSelection) -> (list:
    Vec<ProductResult>)
    ensures
        list@.len() == rows@.len(),
        forall|i: int|
            0 <= i < rows@.len() ==> (#[trigger] list@[i]).answers(&ctx.db, rows@[i], *selection),
    decreases selection, 1nat,
{
    let n = rows.len();
    let mut list: Vec<ProductResult> = Vec::new();
    let mut i: usize = 0;
    while i < n
        invariant
            n == rows.len(),
            i <= n,
            list@.len() == i,
            forall|j: int|
                0 <= j < i ==> (#[trigger] list@[j]).answers(&ctx.db, rows@[j], *selection),
        decreases n - i,
    {
        let one = answer_product(ctx, &rows[i], selection);
        list.push(one);
        i += 1;
    }
    list
}

/// Answers `selection` for each of `rows`, in their order.
pub fn answer_orders(ctx: &Context, rows: &Vec<Order>, selection: &OrderSelection) -> (list: Vec<
    OrderResult,
>)
    ensures
        list@.len() == rows@.len(),
        forall|i: int|
            0 <= i < rows@.len() ==> (#[trigger] list@[i]).answers(&ctx.db, rows@[i], *selection),
    decreases selection, 1nat,
{
    let n = rows.len();
    let mut list: Vec<OrderResult> = Vec::new();
    let mut i: usize = 0;
    while i < n
        invariant
            n == rows.len(),
            i <= n,
            list@.len() == i,
            forall|j: int|
                0 <= j < i ==> (#[trigger] list@[j]).answers(&ctx.db, rows@[j], *selection),
        decreases n - i,
    {
        let one = answer_order(ctx, &rows[i], selection);
        list.push(one);
        i += 1;
    }
    list
}

/// Answers `selection` for each of `rows`, in their order.
pub fn answer_line_items(
    ctx: &Context,
    rows: &Vec<LineItem>,
    selection: &LineItemSelection,
) -> (list: Vec<LineItemResult>)
    ensures
        list@.len() == rows@.len(),
        forall|i: int|
            0 <= i < rows@.len() ==> (#[trigger] list@[i]).answers(&ctx.db, rows@[i], *selection),
    decreases selection, 1nat,
{
    let n = rows.len();
    let mut list: Vec<LineItemResult> = Vec::new();
    let mut i: usize = 0;
    while i < n
        invariant
            n == rows.len(),
            i <= n,
            list@.len() == i,
            forall|j: int|
                0 <= j < i ==> (#[trigger] list@[j]).answers(&ctx.db, rows@[j], *selection),
        decreases n - i,
    {
        let one = answer_line_item(ctx, &rows[i], selection);
        list.push(one);
        i += 1;
    }
    list
}

/// The root of every query.
pub struct Query;

impl Query {
    /// The shop with the id `id`, or none where the store holds no such
    /// shop: an unknown id is a valid empty answer, never an error.
    pub fn shop(&self, ctx: &Context, id: i32) -> (loaded: Result<Option<Shop>, ResolveError>)
        ensures
            loaded == optional_row(ctx.db.shops@, id),
    {
        load_optional(&ctx.db.shops, id)
    }

    /// Every shop of the store, in scan order.
    pub fn shops(&self, ctx: &Context) -> (loaded: Result<Vec<Shop>, ResolveError>)
        ensures
            reads(loaded, all_rows(ctx.db.shops@)),
    {
        load_all(&ctx.db.shops)
    }

    /// Resolves the query for one shop: none where the store holds no shop
    /// with the id `id`, else the answer to `selection` for that shop. Only
    /// a failure to read the shops fails the query; a failure below the root
    /// fails its field alone.
    pub fn resolve_shop(&self, ctx: &Context, id: i32, selection: &ShopSelection) -> (resolved:
        Result<Option<ShopResult>, ResolveError>)
        ensures
            match optional_row(ctx.db.shops@, id) {
                Err(error) => resolved == Err::<Option<ShopResult>, ResolveError>(error),
                Ok(None) => resolved == Ok::<Option<ShopResult>, ResolveError>(None),
                Ok(Some(shop)) => {
                    &&& resolved matches Ok(Some(result))
                    &&& result.answers(&ctx.db, shop, *selection)
                },
            },
    {
        match self.shop(ctx, id) {
            Err(error) => Err(error),
            Ok(None) => Ok(None),
            Ok(Some(shop)) => Ok(Some(answer_shop(ctx, &shop, selection))),
        }
    }

    /// Resolves the query for all shops: the answer to `selection` for every
    /// shop of the store, in scan order.
    pub fn resolve_shops(&self, ctx: &Context, selection: &ShopSelection) -> (resolved: Result<
        Vec<ShopResult>,
        ResolveError,
    >)
        ensures
            match all_rows(ctx.db.shops@) {
                Err(error) => resolved == Err::<Vec<ShopResult>, ResolveError>(error),
                Ok(shops) => {
                    &&& resolved matches Ok(list)
                    &&& list@.len() == shops.len()
                    &&& forall|i: int|
                        0 <= i < shops.len() ==> (#[trigger] list@[i]).answers(
                            &ctx.db,
                            shops[i],
                            *selection,
                        )
                },
            },
    {
        match self.shops(ctx) {
            Err(error) => Err(error),
            Ok(shops) => Ok(answer_shops(ctx, &shops, selection)),
        }
    }
}

} // verus!
