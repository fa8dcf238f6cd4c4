use crate::error::{Relation, ResolveError, StorageError};
use crate::model::{BelongsTo, LineItem, Order, Product, Row, Shop};
use crate::store::{Context, Store};
use crate::table::{children_of, find_by_key, reads, Table};
use vstd::prelude::*;

verus! {

/// An optional row: the row with the key `id`, or none where the relation
/// holds no such row. A missing row is a valid answer; only an unreadable
/// relation is an error.
pub open spec fn optional_row<R: Row>(relation: Result<Seq<R>, StorageError>, id: i32) -> Result<
    Option<R>,
    ResolveError,
> {
    match relation {
        Ok(rows) => Ok(find_by_key(rows, id)),
        Err(error) => Err(ResolveError::Storage(error)),
    }
}

/// A required row: the row of the relation `name` with the key `id`. Where
/// the relation holds no such row, the foreign key that led here is broken.
pub open spec fn required_row<R: Row>(
    relation: Result<Seq<R>, StorageError>,
    name: Relation,
    id: i32,
) -> Result<R, ResolveError> {
    match relation {
        Ok(rows) => match find_by_key(rows, id) {
            Some(row) => Ok(row),
            None => Err(ResolveError::ReferentialIntegrity { relation: name, id }),
        },
        Err(error) => Err(ResolveError::Storage(error)),
    }
}

/// The rows that refer to the parent row `parent_id`, in scan order; none of
/// them is a valid answer.
pub open spec fn child_rows<P: Row, C: BelongsTo<P>>(
    relation: Result<Seq<C>, StorageError>,
    parent_id: i32,
) -> Result<Seq<C>, ResolveError> {
    match relation {
        Ok(rows) => Ok(children_of::<P, C>(rows, parent_id)),
        Err(error) => Err(ResolveError::Storage(error)),
    }
}

/// Every row of the relation, in scan order.
pub open spec fn all_rows<R: Row>(relation: Result<Seq<R>, StorageError>) -> Result<
    Seq<R>,
    ResolveError,
> {
    match relation {
        Ok(rows) => Ok(rows),
        Err(error) => Err(ResolveError::Storage(error)),
    }
}

/// Loads the row with the key `id` where there is one.
pub fn load_optional<R: Row>(table: &Table<R>, id: i32) -> (loaded: Result<Option<R>, ResolveError>)
    ensures
        loaded == optional_row(table@, id),
{
    match table.find_by_id(id) {
        Ok(found) => Ok(found),
        Err(error) => Err(ResolveError::Storage(error)),
    }
}

/// Loads the row of the relation `name` that a foreign key `id` refers to.
pub fn load_required<R: Row>(table: &Table<R>, name: Relation, id: i32) -> (loaded: Result<
    R,
    ResolveError,
>)
    ensures
        loaded == required_row(table@, name, id),
{
    match table.find_by_id(id) {
        Ok(Some(row)) => Ok(row),
        Ok(None) => Err(ResolveError::ReferentialIntegrity { relation: name, id }),
        Err(error) => Err(ResolveError::Storage(error)),
    }
}

/// Loads the rows that refer to the row `parent_id` of the relation of `P`.
pub fn load_children<P: Row, C: BelongsTo<P>>(table: &Table<C>, parent_id: i32) -> (loaded: Result<
    Vec<C>,
    ResolveError,
>)
    ensures
        reads(loaded, child_rows::<P, C>(table@, parent_id)),
{
    match table.scan_by_foreign_key::<P>(parent_id) {
        Ok(rows) => Ok(rows),
        Err(error) => Err(ResolveError::Storage(error)),
    }
}

/// Loads every row of the relation.
pub fn load_all<R: Row>(table: &Table<R>) -> (loaded: Result<Vec<R>, ResolveError>)
    ensures
        reads(loaded, all_rows(table@)),
{
    match table.scan_all() {
        Ok(rows) => Ok(rows),
        Err(error) => Err(ResolveError::Storage(error)),
    }
}

impl Shop {
    /// The products of the shop in `db`.
    pub open spec fn products_in(&self, db: &Store) -> Result<Seq<Product>, ResolveError> {
        child_rows::<Shop, Product>(db.products@, self.id)
    }

    /// The orders placed with the shop in `db`.
    pub open spec fn orders_in(&self, db: &Store) -> Result<Seq<Order>, ResolveError> {
        child_rows::<Shop, Order>(db.orders@, self.id)
    }

    /// Loads the products of the shop: exactly the products whose `shop_id`
    /// is this shop's id, in scan order.
    pub fn products(&self, ctx: &Context) -> (loaded: Result<Vec<Product>, ResolveError>)
        ensures
            reads(loaded, self.products_in(&ctx.db)),
    {
        load_children::<Shop, Product>(&ctx.db.products, self.id)
    }

    /// Loads the orders placed with the shop, in scan order.
    pub fn orders(&self, ctx: &Context) -> (loaded: Result<Vec<Order>, ResolveError>)
        ensures
            reads(loaded, self.orders_in(&ctx.db)),
    {
        load_children::<Shop, Order>(&ctx.db.orders, self.id)
    }
}

impl Product {
    /// The shop that owns the product in `db`.
    pub open spec fn shop_in(&self, db: &Store) -> Result<Shop, ResolveError> {
        required_row(db.shops@, Relation::Shops, self.shop_id)
    }

    /// The line items that refer to the product in `db`.
    pub open spec fn line_items_in(&self, db: &Store) -> Result<Seq<LineItem>, ResolveError> {
        child_rows::<Product, LineItem>(db.line_items@, self.id)
    }

    /// Loads the shop that owns the product. A product without its shop is a
    /// broken reference.
    pub fn shop(&self, ctx: &Context) -> (loaded: Result<Shop, ResolveError>)
        ensures
            loaded == self.shop_in(&ctx.db),
    {
        load_required(&ctx.db.shops, Relation::Shops, self.shop_id)
    }

    /// Loads the line items that refer to the product, in scan order.
    pub fn line_items(&self, ctx: &Context) -> (loaded: Result<Vec<LineItem>, ResolveError>)
        ensures
            reads(loaded, self.line_items_in(&ctx.db)),
    {
        load_children::<Product, LineItem>(&ctx.db.line_items, self.id)
    }
}

impl Order {
    /// The shop that the order was placed with in `db`.
    pub open spec fn shop_in(&self, db: &Store) -> Result<Shop, ResolveError> {
        required_row(db.shops@, Relation::Shops, self.shop_id)
    }

    /// The line items of the order in `db`.
    pub open spec fn line_items_in(&self, db: &Store) -> Result<Seq<LineItem>, ResolveError> {
        child_rows::<Order, LineItem>(db.line_items@, self.id)
    }

    /// Loads the shop that the order was placed with. An order without its
    /// shop is a broken reference.
    pub fn shop(&self, ctx: &Context) -> (loaded: Result<Shop, ResolveError>)
        ensures
            loaded == self.shop_in(&ctx.db),
    {
        load_required(&ctx.db.shops, Relation::Shops, self.shop_id)
    }

    /// Loads the line items of the order, in scan order.
    pub fn line_items(&self, ctx: &Context) -> (loaded: Result<Vec<LineItem>, ResolveError>)
        ensures
            reads(loaded, self.line_items_in(&ctx.db)),
    {
        load_children::<Order, LineItem>(&ctx.db.line_items, self.id)
    }
}

impl LineItem {
    /// The product that the line item refers to in `db`.
    pub open spec fn product_in(&self, db: &Store) -> Result<Product, ResolveError> {
        required_row(db.products@, Relation::Products, self.product_id)
    }

    /// The order that the line item belongs to in `db`.
    pub open spec fn order_in(&self, db: &Store) -> Result<Order, ResolveError> {
        required_row(db.orders@, Relation::Orders, self.order_id)
    }

    /// Loads the product that the line item refers to. A line item without
    /// its product is a broken reference.
    pub fn product(&self, ctx: &Context) -> (loaded: Result<Product, ResolveError>)
        ensures
            loaded == self.product_in(&ctx.db),
    {
        load_required(&ctx.db.products, Relation::Products, self.product_id)
    }

    /// Loads the order that the line item belongs to. A line item without its
    /// order is a broken reference.
    pub fn order(&self, ctx: &Context) -> (loaded: Result<Order, ResolveError>)
        ensures
            loaded == self.order_in(&ctx.db),
    {
        load_required(&ctx.db.orders, Relation::Orders, self.order_id)
    }
}

} // verus!
