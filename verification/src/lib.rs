//! Query resolution over a small relational store of shops, products, orders
//! and line items.
//!
//! A [`store::Store`] holds the four relations as one request sees them, each
//! a [`table::Table`] keyed by an integer id. The entities of [`model`] load
//! their related entities from it one field at a time ([`loader`]),
//! [`aggregate`] gathers the terms of an order's total with one join, and
//! [`resolver`] answers a whole selection tree, field by field and only for
//! the fields that were requested. [`dispatch`] says how an outcome is
//! answered, and [`laws`] states what holds across these functions.
//!
//! Prices pass through the library as the bits that the store holds. The
//! arithmetic on them belongs to the caller.

pub mod aggregate;
pub mod dispatch;
pub mod error;
pub mod laws;
pub mod loader;
pub mod model;
pub mod resolver;
pub mod store;
pub mod table;
