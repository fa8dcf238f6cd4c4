use crate::error::{Relation, StorageError};
use crate::model::{LineItem, Order, Product, Shop, Term};
use crate::table::{children_of, find_by_key, lemma_filter_take_next, reads, Table};
use vstd::prelude::*;

verus! {

/// The four relations as one request sees them.
pub struct Store {
    pub shops: Table<Shop>,
    pub products: Table<Product>,
    pub orders: Table<Order>,
    pub line_items: Table<LineItem>,
}

/// What every resolution step is handed: the store that the request reads.
pub struct Context {
    pub db: Store,
}

/// The line items whose product is among `products`.
pub open spec fn priced(products: Seq<Product>) -> spec_fn(LineItem) -> bool {
    |item: LineItem| find_by_key(products, item.product_id) is Some
}

/// The quantity of a line item beside the unit price of its product.
pub open spec fn term_of(products: Seq<Product>) -> spec_fn(LineItem) -> Term {
    |item: LineItem|
        Term { quantity: item.quantity, price: find_by_key(products, item.product_id)->Some_0.value }
}

/// The inner join of the line items of one order with their products: for
/// each line item of the order that has a product, in scan order, its
/// quantity and the product's unit price.
pub open spec fn join(items: Seq<LineItem>, products: Seq<Product>, order_id: i32) -> Seq<Term> {
    children_of::<Order, LineItem>(items, order_id).filter(priced(products)).map_values(
        term_of(products),
    )
}

impl Store {
    /// The two stores hold the same rows in `relation`, in the same order, or
    /// fail to read it for the same reason.
    pub open spec fn same_relation(&self, other: &Store, relation: Relation) -> bool {
        match relation {
            Relation::Shops => self.shops@ == other.shops@,
            Relation::Products => self.products@ == other.products@,
            Relation::Orders => self.orders@ == other.orders@,
            Relation::LineItems => self.line_items@ == other.line_items@,
        }
    }

    /// What the join answers: the joined terms where both relations can be
    /// read, else the failure of the line items or, where those can be read,
    /// that of the products.
    pub open spec fn joined(&self, order_id: i32) -> Result<Seq<Term>, StorageError> {
        match self.line_items@ {
            Err(error) => Err(error),
            Ok(items) => match self.products@ {
                Err(error) => Err(error),
                Ok(products) => Ok(join(items, products, order_id)),
            },
        }
    }

    /// The joined scan for an order's total: one pass over the line items of
    /// the order, each joined with its product, that yields only the quantity
    /// and the unit price.
    pub fn scan_joined_aggregate(&self, order_id: i32) -> (read: Result<Vec<Term>, StorageError>)
        ensures
            reads(read, self.joined(order_id)),
    {
        let items = match self.line_items.scan_by_foreign_key::<Order>(order_id) {
            Err(error) => { return Err(error); },
            Ok(items) => items,
        };
        match self.products.readable() {
            Err(error) => { return Err(error); },
            Ok(_) => {},
        }
        let ghost products = self.products@->Ok_0;
        let ghost keep = priced(products);
        let ghost term = term_of(products);
        let n = items.len();
        let mut terms: Vec<Term> = Vec::new();
        let mut i: usize = 0;
        assert(items@.take(0) =~= Seq::<LineItem>::empty());
        assert(Seq::<LineItem>::empty().filter(keep) =~= Seq::<LineItem>::empty()) by {
            reveal(Seq::filter);
        }
        while i < n
            invariant
                n == items.len(),
                i <= n,
                self.products@ == Ok::<Seq<Product>, StorageError>(products),
                keep == priced(products),
                term == term_of(products),
                terms@ == items@.take(i as int).filter(keep).map_values(term),
            decreases n - i,
        {
            let item = items[i];
            proof {
                lemma_filter_take_next(items@, keep, i as int);
            }
            match self.products.peek(item.product_id) {
                Err(error) => { return Err(error); },
                Ok(None) => {},
                Ok(Some(product)) => {
                    terms.push(Term { quantity: item.quantity, price: product.value });
                    assert(items@.take(i as int).filter(keep).push(item).map_values(term)
                        =~= items@.take(i as int).filter(keep).map_values(term).push(term(item)));
                },
            }
            i += 1;
        }
        assert(items@.take(n as int) =~= items@);
        Ok(terms)
    }
}

} // verus!
