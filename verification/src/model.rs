use vstd::prelude::*;

verus! {

/// A row of a relation, found by its integer primary key.
pub trait Row: Sized {
    /// The primary key of the row.
    spec fn key(&self) -> i32;

    fn primary_key(&self) -> (k: i32)
        ensures
            k == self.key(),
    ;

    /// A copy of the row, equal to it in every column.
    fn duplicate(&self) -> (r: Self)
        ensures
            r == *self,
    ;
}

/// A row that refers to one row of the relation of `P` by a foreign key.
pub trait BelongsTo<P: Row>: Row {
    /// The primary key of the parent row that this row refers to.
    spec fn parent_key(&self) -> i32;

    fn foreign_key(&self) -> (k: i32)
        ensures
            k == BelongsTo::<P>::parent_key(self),
    ;
}

/// A unit price in the store's own single-precision encoding, kept as the 32
/// bits of that encoding. The library carries a price from the store to the
/// caller unchanged and leaves all arithmetic on it to the caller.
#[derive(Clone, Copy, Debug, PartialEq, Eq, Structural)]
pub struct Price {
    pub bits: u32,
}

/// A shop owns products and orders.
#[derive(Debug, PartialEq, Eq)]
pub struct Shop {
    pub id: i32,
    pub name: String,
}

/// A product of a shop, which line items refer to.
#[derive(Debug, PartialEq, Eq)]
pub struct Product {
    pub id: i32,
    pub shop_id: i32,
    pub name: String,
    pub value: Price,
}

/// An order placed with a shop; it owns line items.
#[derive(Clone, Copy, Debug, PartialEq, Eq, Structural)]
pub struct Order {
    pub id: i32,
    pub shop_id: i32,
}

/// A quantity of one product within one order.
#[derive(Clone, Copy, Debug, PartialEq, Eq, Structural)]
pub struct LineItem {
    pub id: i32,
    pub product_id: i32,
    pub order_id: i32,
    pub quantity: i32,
}

/// One term of a sum of money: `quantity` units at `price` each. The product
/// of the two, and the sum over the terms, are for the caller to compute.
#[derive(Clone, Copy, Debug, PartialEq, Eq, Structural)]
pub struct Term {
    pub quantity: i32,
    pub price: Price,
}

impl Shop {
    /// The shop that a row of the shops relation stands for: its id and its
    /// name, in the order of the columns.
    pub fn from_row(row: (i32, String)) -> (shop: Self)
        ensures
            shop == (Shop { id: row.0, name: row.1 }),
    {
        Shop { id: row.0, name: row.1 }
    }
}

impl Product {
    /// The product that a row of the products relation stands for: its id,
    /// the id of its shop, its name and the bits of its unit price, in the
    /// order of the columns.
    pub fn from_row(row: (i32, i32, String, u32)) -> (product: Self)
        ensures
            product == (Product {
                id: row.0,
                shop_id: row.1,
                name: row.2,
                value: Price { bits: row.3 },
            }),
    {
        Product { id: row.0, shop_id: row.1, name: row.2, value: Price { bits: row.3 } }
    }
}

impl Order {
    /// The order that a row of the orders relation stands for: its id and
    /// the id of its shop, in the order of the columns.
    pub fn from_row(row: (i32, i32)) -> (order: Self)
        ensures
            order == (Order { id: row.0, shop_id: row.1 }),
    {
        Order { id: row.0, shop_id: row.1 }
    }
}

impl LineItem {
    /// The line item that a row of the line items relation stands for: its
    /// id, the id of its product, the id of its order and its quantity, in
    /// the order of the columns.
    pub fn from_row(row: (i32, i32, i32, i32)) -> (item: Self)
        ensures
            item == (LineItem {
                id: row.0,
                product_id: row.1,
                order_id: row.2,
                quantity: row.3,
            }),
    {
        LineItem { id: row.0, product_id: row.1, order_id: row.2, quantity: row.3 }
    }
}

impl Clone for Shop {
    fn clone(&self) -> (r: Self)
        ensures
            r == *self,
    {
        Shop { id: self.id, name: self.name.clone() }
    }
}

impl Clone for Product {
    fn clone(&self) -> (r: Self)
        ensures
            r == *self,
    {
        Product { id: self.id, shop_id: self.shop_id, name: self.name.clone(), value: self.value }
    }
}

impl Row for Shop {
    open spec fn key(&self) -> i32 {
        self.id
    }

    fn primary_key(&self) -> (k: i32) {
        self.id
    }

    fn duplicate(&self) -> (r: Self) {
        self.clone()
    }
}

impl Row for Product {
    open spec fn key(&self) -> i32 {
        self.id
    }

    fn primary_key(&self) -> (k: i32) {
        self.id
    }

    fn duplicate(&self) -> (r: Self) {
        self.clone()
    }
}

impl Row for Order {
    open spec fn key(&self) -> i32 {
        self.id
    }

    fn primary_key(&self) -> (k: i32) {
        self.id
    }

    fn duplicate(&self) -> (r: Self) {
        *self
    }
}

impl Row for LineItem {
    open spec fn key(&self) -> i32 {
        self.id
    }

    fn primary_key(&self) -> (k: i32) {
        self.id
    }

    fn duplicate(&self) -> (r: Self) {
        *self
    }
}

impl BelongsTo<Shop> for Product {
    open spec fn parent_key(&self) -> i32 {
        self.shop_id
    }

    fn foreign_key(&self) -> (k: i32) {
        self.shop_id
    }
}

impl BelongsTo<Shop> for Order {
    open spec fn parent_key(&self) -> i32 {
        self.shop_id
    }

    fn foreign_key(&self) -> (k: i32) {
        self.shop_id
    }
}

impl BelongsTo<Product> for LineItem {
    open spec fn parent_key(&self) -> i32 {
        self.product_id
    }

    fn foreign_key(&self) -> (k: i32) {
        self.product_id
    }
}

impl BelongsTo<Order> for LineItem {
    open spec fn parent_key(&self) -> i32 {
        self.order_id
    }

    fn foreign_key(&self) -> (k: i32) {
        self.order_id
    }
}

} // verus!
