use crate::error::{Relation, ResolveError};
use crate::model::{LineItem, Order, Term};
use crate::store::{Context, Store};
use crate::table::reads;
use vstd::prelude::*;

verus! {

impl Order {
    /// The terms of the order's total in `db`: what the join of its line
    /// items with their products yields.
    pub open spec fn total_in(&self, db: &Store) -> Result<Seq<Term>, ResolveError> {
        match db.joined(self.id) {
            Ok(terms) => Ok(terms),
            Err(error) => Err(ResolveError::Storage(error)),
        }
    }

    /// The order's total, as the terms of the sum: for each line item of the
    /// order that has a product, its quantity and the product's unit price,
    /// in scan order. One joined scan yields them; no line item and no
    /// product is loaded by itself. The total is the sum over the terms of
    /// quantity times price, zero for no terms, in the caller's arithmetic.
    pub fn total(&self, ctx: &Context) -> (terms: Result<Vec<Term>, ResolveError>)
        ensures
            reads(terms, self.total_in(&ctx.db)),
    {
        match ctx.db.scan_joined_aggregate(self.id) {
            Ok(terms) => Ok(terms),
            Err(error) => Err(ResolveError::Storage(error)),
        }
    }
}

impl LineItem {
    /// The one term of the line item's value in `db`: its quantity and the
    /// unit price of its product.
    pub open spec fn value_in(&self, db: &Store) -> Result<Term, ResolveError> {
        match self.product_in(db) {
            Ok(product) => Ok(Term { quantity: self.quantity, price: product.value }),
            Err(error) => Err(error),
        }
    }

    /// The line item's value, as the one term of it: its quantity and the
    /// unit price that its product has in the store at this read. A line item
    /// without its product has no value: that is a broken reference, never a
    /// zero.
    pub fn value(&self, ctx: &Context) -> (term: Result<Term, ResolveError>)
        ensures
            term == self.value_in(&ctx.db),
    {
        match ctx.db.products.peek(self.product_id) {
            Ok(Some(product)) => Ok(Term { quantity: self.quantity, price: product.value }),
            Ok(None) => Err(
                ResolveError::ReferentialIntegrity {
                    relation: Relation::Products,
                    id: self.product_id,
                },
            ),
            Err(error) => Err(ResolveError::Storage(error)),
        }
    }
}

} // verus!
