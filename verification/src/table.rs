use crate::error::StorageError;
use crate::model::{BelongsTo, Row};
use vstd::prelude::*;

verus! {

/// No two rows have the same primary key.
pub open spec fn unique_keys<R: Row>(rows: Seq<R>) -> bool {
    forall|i: int, j: int| 0 <= i < j < rows.len() ==> rows[i].key() != rows[j].key()
}

/// Some row has the primary key `id`.
pub open spec fn has_key<R: Row>(rows: Seq<R>, id: i32) -> bool {
    exists|i: int| 0 <= i < rows.len() && #[trigger] rows[i].key() == id
}

/// The rows whose primary key is `id`.
pub open spec fn with_key<R: Row>(id: i32) -> spec_fn(R) -> bool {
    |row: R| row.key() == id
}

/// The rows that refer to the parent row `parent_id` of the relation of `P`.
pub open spec fn refers_to<P: Row, C: BelongsTo<P>>(parent_id: i32) -> spec_fn(C) -> bool {
    |row: C| BelongsTo::<P>::parent_key(&row) == parent_id
}

/// The point lookup: the first row in scan order whose primary key is `id`.
pub open spec fn find_by_key<R: Row>(rows: Seq<R>, id: i32) -> Option<R> {
    let hits = rows.filter(with_key::<R>(id));
    if hits.len() == 0 {
        None
    } else {
        Some(hits.first())
    }
}

/// The filtered scan: the rows that refer to `parent_id`, in scan order.
pub open spec fn children_of<P: Row, C: BelongsTo<P>>(rows: Seq<C>, parent_id: i32) -> Seq<C> {
    rows.filter(refers_to::<P, C>(parent_id))
}

/// Filtering the first `n + 1` rows keeps the filtered first `n` and then the
/// row at `n` where it passes.
pub proof fn lemma_filter_take_next<A>(rows: Seq<A>, keep: spec_fn(A) -> bool, n: int)
    requires
        0 <= n < rows.len(),
    ensures
        rows.take(n + 1).filter(keep) == if keep(rows[n]) {
            rows.take(n).filter(keep).push(rows[n])
        } else {
            rows.take(n).filter(keep)
        },
{
    assert(rows.take(n + 1) =~= rows.take(n).push(rows[n]));
    rows.take(n).lemma_filter_push(rows[n], keep);
}

/// A filter that keeps none of the first `n` rows and keeps the row at `n`
/// puts that row first.
pub proof fn lemma_filter_first<A>(rows: Seq<A>, keep: spec_fn(A) -> bool, n: int)
    requires
        0 <= n < rows.len(),
        rows.take(n).filter(keep).len() == 0,
        keep(rows[n]),
    ensures
        rows.filter(keep).len() > 0,
        rows.filter(keep).first() == rows[n],
{
    lemma_filter_take_next(rows, keep, n);
    let head = rows.take(n + 1);
    let tail = rows.skip(n + 1);
    assert(rows =~= head + tail);
    Seq::filter_distributes_over_add(head, tail, keep);
    assert(head.filter(keep) =~= seq![rows[n]]);
}

/// What a point lookup finds: nothing exactly when no row has the key,
/// otherwise a row of the relation with that key, and the only such row
/// where keys are unique.
pub proof fn lemma_find_by_key<R: Row>(rows: Seq<R>, id: i32)
    ensures
        find_by_key(rows, id) is None <==> !has_key(rows, id),
        find_by_key(rows, id) matches Some(row) ==> (rows.contains(row) && row.key() == id),
        unique_keys(rows) ==> forall|i: int|
            0 <= i < rows.len() && #[trigger] rows[i].key() == id ==> find_by_key(rows, id)
                == Some(rows[i]),
{
    let keep = with_key::<R>(id);
    let hits = rows.filter(keep);
    broadcast use Seq::lemma_filter_pred, Seq::lemma_filter_contains, Seq::lemma_filter_contains_rev;

    if hits.len() > 0 {
        assert(keep(hits[0]));
        assert(hits.contains(hits[0]));
        assert(rows.contains(hits[0]));
        let i = choose|i: int| 0 <= i < rows.len() && rows[i] == hits[0];
        assert(rows[i].key() == id);
    }
    if has_key(rows, id) {
        let i = choose|i: int| 0 <= i < rows.len() && #[trigger] rows[i].key() == id;
        assert(keep(rows[i]));
        assert(hits.contains(rows[i]));
    }
    if unique_keys(rows) {
        assert forall|i: int| 0 <= i < rows.len() && #[trigger] rows[i].key() == id implies hits.len()
            > 0 && hits.first() == rows[i] by {
            assert(keep(rows[i]));
            assert(hits.contains(rows[i]));
            assert(rows.contains(hits[0]));
            let j = choose|j: int| 0 <= j < rows.len() && rows[j] == hits[0];
            assert(rows[j].key() == id);
            assert(i == j);
        }
    }
}

/// One relation of the store as a request sees it: its rows in scan order,
/// no two of them with the same primary key, or the reason why it could not
/// be read.
pub struct Table<R: Row> {
    rows: Result<Vec<R>, StorageError>,
}

impl<R: Row> View for Table<R> {
    type V = Result<Seq<R>, StorageError>;

    closed spec fn view(&self) -> Result<Seq<R>, StorageError> {
        match self.rows {
            Ok(rows) => Ok(rows@),
            Err(error) => Err(error),
        }
    }
}

/// What a point lookup answers on a relation.
pub open spec fn lookup<R: Row>(relation: Result<Seq<R>, StorageError>, id: i32) -> Result<
    Option<R>,
    StorageError,
> {
    match relation {
        Ok(rows) => Ok(find_by_key(rows, id)),
        Err(error) => Err(error),
    }
}

/// What a filtered scan by foreign key answers on a relation.
pub open spec fn scan_children<P: Row, C: BelongsTo<P>>(
    relation: Result<Seq<C>, StorageError>,
    parent_id: i32,
) -> Result<Seq<C>, StorageError> {
    match relation {
        Ok(rows) => Ok(children_of::<P, C>(rows, parent_id)),
        Err(error) => Err(error),
    }
}

/// The rows read are the rows of the answer, in the same order, or both are
/// the same failure.
pub open spec fn reads<T, E>(read: Result<Vec<T>, E>, answer: Result<Seq<T>, E>) -> bool {
    match answer {
        Ok(rows) => read is Ok && read->Ok_0@ == rows,
        Err(error) => read is Err && read->Err_0 == error,
    }
}

impl<R: Row> Table<R> {
    #[verifier::type_invariant]
    spec fn keyed(self) -> bool {
        self.rows matches Ok(rows) ==> unique_keys(rows@)
    }

    /// The relation that holds `rows` in their order. Rows that share a
    /// primary key form no relation: reading it fails with `MalformedRow`.
    pub fn from_rows(rows: Vec<R>) -> (table: Self)
        ensures
            table@ == if unique_keys(rows@) {
                Ok::<Seq<R>, StorageError>(rows@)
            } else {
                Err::<Seq<R>, StorageError>(StorageError::MalformedRow)
            },
    {
        let n = rows.len();
        let mut i: usize = 0;
        while i < n
            invariant
                n == rows.len(),
                i <= n,
                unique_keys(rows@.take(i as int)),
            decreases n - i,
        {
            let key = rows[i].primary_key();
            let mut j: usize = 0;
            while j < i
                invariant
                    n == rows.len(),
                    j <= i < n,
                    key == rows[i as int].key(),
                    forall|k: int| 0 <= k < j ==> rows[k].key() != key,
                decreases i - j,
            {
                if rows[j].primary_key() == key {
                    return Table { rows: Err(StorageError::MalformedRow) };
                }
                j += 1;
            }
            proof {
                let before = rows@.take(i as int);
                let now = rows@.take(i + 1);
                assert forall|a: int, b: int| 0 <= a < b < now.len() implies now[a].key()
                    != now[b].key() by {
                    if b < i {
                        assert(before[a].key() != before[b].key());
                    }
                }
            }
            i += 1;
        }
        assert(rows@.take(n as int) =~= rows@);
        Table { rows: Ok(rows) }
    }

    /// The relation that could not be read, for the reason `error`.
    pub fn unreadable(error: StorageError) -> (table: Self)
        ensures
            table@ == Err::<Seq<R>, StorageError>(error),
    {
        Table { rows: Err(error) }
    }

    /// Whether the relation can be read, and why not where it cannot.
    pub fn readable(&self) -> (state: Result<(), StorageError>)
        ensures
            match self@ {
                Ok(_) => state is Ok,
                Err(error) => state == Err::<(), StorageError>(error),
            },
    {
        match &self.rows {
            Ok(_) => Ok(()),
            Err(error) => Err(*error),
        }
    }

    /// The full scan: every row, in scan order. Their primary keys are unique.
    pub fn scan_all(&self) -> (read: Result<Vec<R>, StorageError>)
        ensures
            reads(read, self@),
            read matches Ok(rows) ==> unique_keys(rows@),
    {
        proof {
            use_type_invariant(self);
        }
        match &self.rows {
            Err(error) => Err(*error),
            Ok(stored) => {
                let n = stored.len();
                let mut rows: Vec<R> = Vec::new();
                let mut i: usize = 0;
                while i < n
                    invariant
                        n == stored.len(),
                        i <= n,
                        rows@ == stored@.take(i as int),
                    decreases n - i,
                {
                    rows.push(stored[i].duplicate());
                    assert(stored@.take(i + 1) =~= stored@.take(i as int).push(stored@[i as int]));
                    i += 1;
                }
                assert(stored@.take(n as int) =~= stored@);
                Ok(rows)
            },
        }
    }

    /// The point lookup by primary key, without copying the row.
    pub fn peek(&self, id: i32) -> (found: Result<Option<&R>, StorageError>)
        ensures
            match lookup(self@, id) {
                Ok(Some(row)) => found == Ok::<Option<&R>, StorageError>(Some(&row)),
                Ok(None) => found == Ok::<Option<&R>, StorageError>(None),
                Err(error) => found == Err::<Option<&R>, StorageError>(error),
            },
    {
        match &self.rows {
            Err(error) => Err(*error),
            Ok(stored) => {
                let ghost keep = with_key::<R>(id);
                let n = stored.len();
                let mut i: usize = 0;
                assert(stored@.take(0) =~= Seq::<R>::empty());
                assert(Seq::<R>::empty().filter(keep) =~= Seq::<R>::empty()) by {
                    reveal(Seq::filter);
                }
                while i < n
                    invariant
                        n == stored.len(),
                        i <= n,
                        keep == with_key::<R>(id),
                        self@ == Ok::<Seq<R>, StorageError>(stored@),
                        stored@.take(i as int).filter(keep).len() == 0,
                    decreases n - i,
                {
                    if stored[i].primary_key() == id {
                        proof {
                            lemma_filter_first(stored@, keep, i as int);
                        }
                        return Ok(Some(&stored[i]));
                    }
                    proof {
                        lemma_filter_take_next(stored@, keep, i as int);
                    }
                    i += 1;
                }
                assert(stored@.take(n as int) =~= stored@);
                Ok(None)
            },
        }
    }

    /// The point lookup by primary key: the row, or none where the relation
    /// holds no such row, which is no error.
    pub fn find_by_id(&self, id: i32) -> (found: Result<Option<R>, StorageError>)
        ensures
            found == lookup(self@, id),
    {
        match self.peek(id) {
            Err(error) => Err(error),
            Ok(None) => Ok(None),
            Ok(Some(row)) => Ok(Some(row.duplicate())),
        }
    }

    /// The filtered scan by foreign key: the rows that refer to the row
    /// `parent_id` of the relation of `P`, in scan order.
    pub fn scan_by_foreign_key<P: Row>(&self, parent_id: i32) -> (read: Result<
        Vec<R>,
        StorageError,
    >) where R: BelongsTo<P>
        ensures
            reads(read, scan_children::<P, R>(self@, parent_id)),
    {
        match &self.rows {
            Err(error) => Err(*error),
            Ok(stored) => {
                let ghost keep = refers_to::<P, R>(parent_id);
                let n = stored.len();
                let mut rows: Vec<R> = Vec::new();
                let mut i: usize = 0;
                assert(stored@.take(0) =~= Seq::<R>::empty());
                assert(Seq::<R>::empty().filter(keep) =~= Seq::<R>::empty()) by {
                    reveal(Seq::filter);
                }
                while i < n
                    invariant
                        n == stored.len(),
                        i <= n,
                        keep == refers_to::<P, R>(parent_id),
                        rows@ == stored@.take(i as int).filter(keep),
                    decreases n - i,
                {
                    proof {
                        lemma_filter_take_next(stored@, keep, i as int);
                    }
                    if BelongsTo::<P>::foreign_key(&stored[i]) == parent_id {
                        rows.push(stored[i].duplicate());
                    }
                    i += 1;
                }
                assert(stored@.take(n as int) =~= stored@);
                Ok(rows)
            },
        }
    }
}

} // verus!
