use vstd::prelude::*;

verus! {

/// The four relations of the store.
#[derive(Clone, Copy, Debug, PartialEq, Eq, Structural)]
pub enum Relation {
    Shops,
    Products,
    Orders,
    LineItems,
}

/// Why a relation could not be read.
#[derive(Clone, Copy, Debug, PartialEq, Eq, Structural)]
pub enum StorageError {
    /// The store could not be reached.
    Connectivity,
    /// The store answered with rows that do not form a relation.
    MalformedRow,
}

/// Why a field has no value.
#[derive(Clone, Copy, Debug, PartialEq, Eq, Structural)]
pub enum ResolveError {
    /// A foreign key points at a row that `relation` does not hold.
    ReferentialIntegrity { relation: Relation, id: i32 },
    /// The relation that the field reads could not be read.
    Storage(StorageError),
}

} // verus!
