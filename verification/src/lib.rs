//! A minimal embedded, in-memory typed record store.
//!
//! A schema is declared once, through static types: a record type implements
//! the [`Record`] contract (primary-key type, insert payload, constructors)
//! and, per accessible field, the [`FieldAccess`] capability trait. Client
//! code then reads and writes fields, and builds boolean filters over them,
//! purely through typed capability tokens — no runtime reflection, no
//! string-keyed lookups.
//!
//! A [`Table`] owns an append-only, insertion-ordered sequence of records of
//! one schema and allocates their primary keys from a monotonic counter.
//! [`Table::all`] scans every record in insertion order; [`Table::filter`]
//! scans the records for which a caller-built boolean [`Expr`] holds.

mod expr;
mod field;
pub mod sample;
pub mod task;

use vstd::prelude::*;

pub use expr::CtxArg;
pub use expr::Expr;
pub use field::Field;
pub use field::FieldAccess;
pub use field::lemma_field_round_trip;

verus! {

/// The schema contract a domain type satisfies to live in a [`Table`].
///
/// A schema declares its primary-key type, the field-set type handed to
/// filter predicates (the one binding context slot 0), and the insert payload
/// its callers supply — the subset of the record's data that is not generated
/// (the primary key, defaulted fields). The two constructors are
/// deterministic and infallible: `create_primary_key` wraps the raw counter
/// value the table issues, and `from_insert` merges payload, generated fields
/// and key into a full record.
pub trait Record: Sized {
    type PrimaryKey;

    type Fields;

    type Insert;

    /// The primary key wrapping raw counter value `key`.
    spec fn spec_primary_key(key: usize) -> Self::PrimaryKey;

    /// The record built from payload `record` and key `primary_key`.
    spec fn spec_from_insert(record: Self::Insert, primary_key: Self::PrimaryKey) -> Self;

    /// The primary key this record carries. Once a record is constructed its
    /// key never changes; there is no operation that could alter it.
    spec fn spec_key(self) -> Self::PrimaryKey;

    /// A constructed record carries exactly the key it was built with.
    proof fn lemma_from_insert_key(record: Self::Insert, primary_key: Self::PrimaryKey)
        ensures
            Self::spec_from_insert(record, primary_key).spec_key() == primary_key,
    ;

    /// Wraps a raw counter value into this schema's primary-key type.
    fn create_primary_key(key: usize) -> (pk: Self::PrimaryKey)
        ensures
            pk == Self::spec_primary_key(key),
    ;

    /// Builds a full record from a caller-supplied payload and a
    /// table-issued primary key.
    fn from_insert(record: Self::Insert, primary_key: Self::PrimaryKey) -> (r: Self)
        ensures
            r == Self::spec_from_insert(record, primary_key),
    ;

    /// Builds the bundle of field capabilities handed to filter predicates.
    /// Capabilities carry no data, so any bundle value is as good as another.
    fn fields() -> Self::Fields;
}

/// Whether expression `p` holds of the single-record context wrapping `rec`.
pub open spec fn sat<'a, R: 'a, P>(p: P, rec: R) -> bool where P: Expr<(&'a R,), Output = bool> {
    p.spec_eval((&rec,))
}

/// An owning, append-only, insertion-ordered container of records of one
/// schema, plus the next-primary-key counter.
///
/// The view of a table is the sequence of its records, in insertion order.
/// [`Table::well_formed`] is the container invariant: the counter is one past
/// every key issued so far, and the record at index `i` carries the key
/// allocated for raw counter value `i`. Every constructor establishes it and
/// every operation preserves it.
pub struct Table<R: Record> {
    records: Vec<R>,
    next_primary_key: usize,
}

impl<R: Record> View for Table<R> {
    type V = Seq<R>;

    closed spec fn view(&self) -> Seq<R> {
        self.records@
    }
}

impl<R: Record> Default for Table<R> {
    /// An empty table whose counter starts at 0.
    fn default() -> (t: Self)
        ensures
            t@ == Seq::<R>::empty(),
            t.well_formed(),
    {
        Self { records: Vec::new(), next_primary_key: 0 }
    }
}

impl<R: Record> Table<R> {
    /// The container invariant: the counter equals the number of records
    /// inserted so far, and the record at index `i` carries the primary key
    /// wrapping raw counter value `i` — keys are issued in insertion order,
    /// each raw value exactly once, and are never reused.
    pub closed spec fn well_formed(self) -> bool {
        &&& self.next_primary_key == self.records@.len()
        &&& forall|i: int|
            0 <= i < self.records@.len() ==> (#[trigger] self.records@[i]).spec_key()
                == R::spec_primary_key(i as usize)
    }

    /// Returns an iterator over every stored record, in insertion order.
    pub fn all(&self) -> (it: TableIter<'_, R>)
        ensures
            it.records() == self@,
            it.pos() == 0,
    {
        TableIter { records: &self.records, pos: 0 }
    }

    /// Builds the field set, invokes `predicate` once on it to obtain a
    /// boolean expression, and returns an iterator over exactly the stored
    /// records that expression holds of, in insertion order.
    pub fn filter<'a, P, F>(&'a self, predicate: F) -> (flt: Filter<'a, R, P>) where
        F: FnOnce(R::Fields) -> P,
        P: Expr<(&'a R,), Output = bool> + Copy,

        requires
            forall|fs: R::Fields| #[trigger] call_requires(predicate, (fs,)),
        ensures
            flt.records() == self@,
            flt.pos() == 0,
            exists|fs: R::Fields| call_ensures(predicate, (fs,), flt.predicate()),
    {
        let fs = R::fields();
        let ghost gfs = fs;
        let p = predicate(fs);
        let flt = Filter { records: &self.records, pos: 0, predicate: p };
        proof {
            // Witness for the `exists` in the postcondition: the bundle the
            // builder was actually handed.
            assert(call_ensures(predicate, (gfs,), flt.predicate()));
        }
        flt
    }

    /// Allocates the next primary key, builds a record from `record` via the
    /// schema's constructor, and appends it. The new table is the old one
    /// with exactly that record pushed at the back.
    pub fn insert(&mut self, record: R::Insert)
        requires
            old(self).well_formed(),
            old(self)@.len() < usize::MAX,
        ensures
            final(self).well_formed(),
            final(self)@ == old(self)@.push(
                R::spec_from_insert(record, R::spec_primary_key(old(self)@.len() as usize)),
            ),
    {
        let ghost payload = record;
        let next_key = self.generate_next_primary_key();
        let primary_key = R::create_primary_key(next_key);
        let record = R::from_insert(record, primary_key);
        proof {
            R::lemma_from_insert_key(payload, R::spec_primary_key(next_key));
        }
        self.records.push(record);
    }

    /// Issues the current counter value and increments the counter; a raw
    /// key value is never issued twice.
    fn generate_next_primary_key(&mut self) -> (key: usize)
        requires
            old(self).well_formed(),
            old(self)@.len() < usize::MAX,
        ensures
            key == old(self)@.len(),
            final(self)@ == old(self)@,
            final(self).next_primary_key == old(self).next_primary_key + 1,
    {
        let key = self.next_primary_key;
        self.next_primary_key = self.next_primary_key + 1;
        key
    }
}

/// Law: in a well-formed table the primary keys stand in allocation order —
/// the record at index `i` carries the key wrapping raw counter value `i`, so
/// after `N` inserts into an empty table the issued raw values are exactly
/// `0, 1, ..., N - 1`, each used once.
pub proof fn lemma_primary_keys_in_order<R: Record>(t: Table<R>)
    requires
        t.well_formed(),
    ensures
        forall|i: int| 0 <= i < t@.len() ==> (#[trigger] t@[i]).spec_key() == R::spec_primary_key(
            i as usize,
        ),
{
}

/// A full-scan iterator over a table: yields a reference to every stored
/// record once, in insertion order, then reports end of sequence.
pub struct TableIter<'a, R: Record> {
    records: &'a Vec<R>,
    pos: usize,
}

impl<'a, R: Record> TableIter<'a, R> {
    /// The full sequence this iterator walks.
    pub closed spec fn records(self) -> Seq<R> {
        self.records@
    }

    /// How many records have been yielded so far.
    pub closed spec fn pos(self) -> int {
        self.pos as int
    }

    /// How many records remain to be yielded: an exact count, so the bounds
    /// coincide.
    pub fn size_hint(&self) -> (hint: (usize, Option<usize>))
        requires
            self.pos() <= self.records().len(),
        ensures
            hint.0 == self.records().len() - self.pos(),
            hint.1 == Some(hint.0),
    {
        let remaining = self.records.len() - self.pos;
        (remaining, Some(remaining))
    }

    /// Yields the next record in insertion order, or `None` once every
    /// record has been yielded.
    pub fn next(&mut self) -> (r: Option<&'a R>)
        ensures
            final(self).records() == old(self).records(),
            old(self).pos() < old(self).records().len() ==> {
                &&& final(self).pos() == old(self).pos() + 1
                &&& r is Some
                &&& *r->Some_0 == old(self).records()[old(self).pos()]
            },
            old(self).pos() >= old(self).records().len() ==> {
                &&& final(self).pos() == old(self).pos()
                &&& r is None
            },
    {
        if self.pos < self.records.len() {
            let item: &'a R = &self.records[self.pos];
            self.pos = self.pos + 1;
            Some(item)
        } else {
            None
        }
    }
}

/// A filtering iterator over a table: yields references to exactly the
/// records its predicate expression holds of, in insertion order.
pub struct Filter<'a, R: Record, P> {
    records: &'a Vec<R>,
    pos: usize,
    predicate: P,
}

impl<'a, R: Record, P> Filter<'a, R, P> where P: Expr<(&'a R,), Output = bool> + Copy {
    /// The full backing sequence this iterator walks.
    pub closed spec fn records(self) -> Seq<R> {
        self.records@
    }

    /// How many records of the backing sequence have been examined so far.
    pub closed spec fn pos(self) -> int {
        self.pos as int
    }

    /// The boolean expression records are tested against. The predicate is a
    /// copyable value and evaluation is pure, so every record is tested
    /// against the same expression.
    pub closed spec fn predicate(self) -> P {
        self.predicate
    }

    /// How many unexamined backing records remain: an upper bound on what is
    /// still to be yielded, since records failing the predicate are skipped.
    pub fn size_hint(&self) -> (hint: (usize, Option<usize>))
        requires
            self.pos() <= self.records().len(),
        ensures
            hint.0 == self.records().len() - self.pos(),
            hint.1 == Some(hint.0),
    {
        let remaining = self.records.len() - self.pos;
        (remaining, Some(remaining))
    }

    /// Yields the next record the predicate holds of, in insertion order:
    /// every record skipped on the way fails the predicate, and `None` comes
    /// exactly when the predicate holds of no remaining record.
    pub fn next(&mut self) -> (r: Option<&'a R>)
        requires
            old(self).pos() <= old(self).records().len(),
        ensures
            final(self).records() == old(self).records(),
            final(self).predicate() == old(self).predicate(),
            old(self).pos() <= final(self).pos() <= old(self).records().len(),
            match r {
                Some(rec) => {
                    &&& old(self).pos() < final(self).pos()
                    &&& *rec == old(self).records()[final(self).pos() - 1]
                    &&& sat(old(self).predicate(), *rec)
                    &&& forall|j: int|
                        old(self).pos() <= j < final(self).pos() - 1 ==> !sat(
                            old(self).predicate(),
                            #[trigger] old(self).records()[j],
                        )
                },
                None => {
                    &&& final(self).pos() == old(self).records().len()
                    &&& forall|j: int|
                        old(self).pos() <= j < old(self).records().len() ==> !sat(
                            old(self).predicate(),
                            #[trigger] old(self).records()[j],
                        )
                },
            },
    {
        let ghost pos0 = self.pos as int;
        let recs: &'a Vec<R> = self.records;
        loop
            invariant
                self.records == recs,
                recs@ == old(self).records(),
                self.predicate == old(self).predicate,
                pos0 <= self.pos as int <= recs@.len(),
                pos0 == old(self).pos(),
                forall|j: int|
                    pos0 <= j < self.pos as int ==> !sat(
                        old(self).predicate(),
                        #[trigger] recs@[j],
                    ),
            decreases recs@.len() - self.pos as int,
        {
            if self.pos >= recs.len() {
                return None;
            }
            let item: &'a R = &recs[self.pos];
            self.pos = self.pos + 1;

            let ctx = (item,);
            if self.predicate.eval(&ctx) {
                return Some(item);
            }
        }
    }
}

} // verus!
