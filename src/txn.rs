use vstd::prelude::*;

use crate::backend::lift;
use crate::error::{DataError, StoreError};
use crate::value::{
    decode, decode_expected, decode_outcome_ok, encoding_of, lemma_decode_encode, lemma_mismatch_refused,
    other_tag, parse_value, Type, Value, ValueModel,
};

verus! {

/// Relies on `lmdb::Transaction::get` on a read-only transaction: the bytes
/// stored under `key`, with the engine's `NotFound` told apart as `None`.
#[verifier::external_body]
fn ro_get(txn: &lmdb::RoTransaction, db: lmdb::Database, key: &[u8]) -> (r: Result<
    Option<Vec<u8>>,
    lmdb::Error,
>) {
    match lmdb::Transaction::get(txn, db, &key) {
        Ok(v) => Ok(Some(v.to_vec())),
        Err(lmdb::Error::NotFound) => Ok(None),
        Err(e) => Err(e),
    }
}

/// Relies on `lmdb::Transaction::get` on a read-write transaction: the bytes
/// stored under `key`, own uncommitted writes included, with `NotFound` told
/// apart as `None`.
#[verifier::external_body]
fn rw_get(txn: &lmdb::RwTransaction, db: lmdb::Database, key: &[u8]) -> (r: Result<
    Option<Vec<u8>>,
    lmdb::Error,
>) {
    match lmdb::Transaction::get(txn, db, &key) {
        Ok(v) => Ok(Some(v.to_vec())),
        Err(lmdb::Error::NotFound) => Ok(None),
        Err(e) => Err(e),
    }
}

/// Relies on `lmdb::Transaction::open_ro_cursor` on a read-only transaction.
#[verifier::external_body]
fn ro_open_cursor<'t, 'e>(txn: &'t lmdb::RoTransaction<'e>, db: lmdb::Database) -> (r: Result<
    lmdb::RoCursor<'t>,
    lmdb::Error,
>) {
    lmdb::Transaction::open_ro_cursor(txn, db)
}

/// Relies on `lmdb::Transaction::open_ro_cursor` on a read-write transaction.
#[verifier::external_body]
fn rw_open_cursor<'t, 'e>(txn: &'t lmdb::RwTransaction<'e>, db: lmdb::Database) -> (r: Result<
    lmdb::RoCursor<'t>,
    lmdb::Error,
>) {
    lmdb::Transaction::open_ro_cursor(txn, db)
}

/// Relies on `lmdb::Cursor::iter_dup_of`: the values stored under `key`, in
/// the engine's order, stopping at the first error.
#[verifier::external_body]
fn cursor_dup_values(cursor: &mut lmdb::RoCursor, key: &[u8]) -> (r: Result<
    Vec<Vec<u8>>,
    lmdb::Error,
>) {
    lmdb::Cursor::iter_dup_of(cursor, key).map(|item| item.map(|(_, v)| v.to_vec())).collect()
}

/// Relies on `lmdb::RwTransaction::put` with no write flags: stores `data` under
/// `key`, replacing the value or, in a store with duplicates, adding one.
#[verifier::external_body]
fn rw_put(txn: &mut lmdb::RwTransaction, db: lmdb::Database, key: &[u8], data: &[u8]) -> (r: Result<
    (),
    lmdb::Error,
>) {
    txn.put(db, &key, &data, lmdb::WriteFlags::empty())
}

/// Relies on `lmdb::RwTransaction::del`: removes `key` (with `data`, only that
/// duplicate); the engine's `NotFound` is told apart as `Ok(false)`.
#[verifier::external_body]
fn rw_del(txn: &mut lmdb::RwTransaction, db: lmdb::Database, key: &[u8], data: Option<&[u8]>) -> (r:
    Result<bool, lmdb::Error>) {
    match txn.del(db, &key, data) {
        Ok(()) => Ok(true),
        Err(lmdb::Error::NotFound) => Ok(false),
        Err(e) => Err(e),
    }
}

/// Relies on `lmdb::Transaction::commit` on a read-write transaction.
#[verifier::external_body]
fn rw_commit(txn: lmdb::RwTransaction) -> (r: Result<(), lmdb::Error>) {
    lmdb::Transaction::commit(txn)
}

/// What a point lookup gives once the stored bytes, if any, are decoded.
pub open spec fn found_outcome_ok(
    raw: Result<Option<Vec<u8>>, StoreError>,
    r: Result<Option<Value>, StoreError>,
) -> bool {
    match raw {
        Err(e) => r == Err::<Option<Value>, StoreError>(e),
        Ok(None) => r == Ok::<Option<Value>, StoreError>(None),
        Ok(Some(b)) => match parse_value(b@) {
            Some(v) => r matches Ok(Some(x)) && x@ == v,
            None => r matches Err(StoreError::DataError(d)) && decode_outcome_ok(
                b@,
                Err::<Value, DataError>(d),
            ),
        },
    }
}

/// Decodes the outcome of a point lookup: absence stays `None`, stored bytes
/// are decoded, and an engine error is passed on unchanged.
pub fn decode_found(raw: Result<Option<Vec<u8>>, StoreError>) -> (r: Result<Option<Value>, StoreError>)
    ensures
        found_outcome_ok(raw, r),
{
    match raw {
        Err(e) => Err(e),
        Ok(None) => Ok(None),
        Ok(Some(b)) => match decode(b.as_slice()) {
            Ok(v) => Ok(Some(v)),
            Err(d) => Err(StoreError::DataError(d)),
        },
    }
}

/// What a point lookup through an accessor expecting `expected` gives once
/// the stored bytes, if any, are decoded.
pub open spec fn found_expected_outcome_ok(
    raw: Result<Option<Vec<u8>>, StoreError>,
    expected: Type,
    r: Result<Option<Value>, StoreError>,
) -> bool {
    match raw {
        Err(e) => r == Err::<Option<Value>, StoreError>(e),
        Ok(None) => r == Ok::<Option<Value>, StoreError>(None),
        Ok(Some(b)) => match other_tag(b@, expected) {
            Some(actual) => r == Err::<Option<Value>, StoreError>(
                StoreError::DataError(DataError::UnexpectedType { expected, actual }),
            ),
            None => found_outcome_ok(raw, r),
        },
    }
}

/// Decodes the outcome of a point lookup that expects a value of type
/// `expected`: a stored value of another type is refused, never coerced.
pub fn decode_found_expected(raw: Result<Option<Vec<u8>>, StoreError>, expected: Type) -> (r: Result<
    Option<Value>,
    StoreError,
>)
    ensures
        found_expected_outcome_ok(raw, expected, r),
        r matches Ok(Some(v)) ==> v@.value_type() == expected,
{
    match raw {
        Err(e) => Err(e),
        Ok(None) => Ok(None),
        Ok(Some(b)) => match decode_expected(expected, b.as_slice()) {
            Ok(v) => Ok(Some(v)),
            Err(d) => Err(StoreError::DataError(d)),
        },
    }
}

/// A value stored by its encoding reads back as itself: when the engine hands
/// back the encoding of `v`, the lookup gives exactly `v`.
pub proof fn lemma_lookup_reads_back(v: ValueModel, b: Vec<u8>, r: Result<Option<Value>, StoreError>)
    requires
        v.wf(),
        b@ == encoding_of(v),
        found_outcome_ok(Ok(Some(b)), r),
    ensures
        r matches Ok(Some(x)) && x@ == v,
{
    lemma_decode_encode(v);
}

/// A value stored as one type and read through an accessor expecting another
/// is refused with `UnexpectedType`, never coerced into the expected type.
pub proof fn lemma_lookup_refuses_other_type(
    v: ValueModel,
    expected: Type,
    b: Vec<u8>,
    r: Result<Option<Value>, StoreError>,
)
    requires
        v.value_type() != expected,
        b@ == encoding_of(v),
        found_expected_outcome_ok(Ok(Some(b)), expected, r),
    ensures
        r == Err::<Option<Value>, StoreError>(
            StoreError::DataError(DataError::UnexpectedType { expected, actual: v.value_type() }),
        ),
{
    lemma_mismatch_refused(v, expected);
}

/// Malformed stored bytes never give a value: the lookup reports a decode
/// error that carries them.
pub proof fn lemma_lookup_rejects_malformed(b: Vec<u8>, r: Result<Option<Value>, StoreError>)
    requires
        parse_value(b@) is None,
        found_outcome_ok(Ok(Some(b)), r),
    ensures
        r matches Err(StoreError::DataError(d)) && decode_outcome_ok(b@, Err::<Value, DataError>(d)),
        r matches Err(StoreError::DataError(DataError::UnknownType { tag, bytes })) ==> bytes@ == b@,
        r matches Err(StoreError::DataError(DataError::DecodingError { value_type, bytes })) ==> bytes@
            == b@,
{
}

/// What reading a run of duplicates gives once each stored value is decoded:
/// all of them in order, or the decode error of the first malformed one.
pub open spec fn run_outcome_ok(raws: Seq<Vec<u8>>, r: Result<Vec<Value>, StoreError>) -> bool {
    &&& r matches Ok(vs) ==> vs@.len() == raws.len() && forall|i: int|
        0 <= i < raws.len() ==> parse_value(#[trigger] raws[i]@) == Some(vs@[i]@)
    &&& r is Ok <==> forall|i: int| 0 <= i < raws.len() ==> (#[trigger] parse_value(raws[i]@)) is Some
    &&& r matches Err(e) ==> exists|i: int|
        #![trigger raws[i]]
        0 <= i < raws.len() && parse_value(raws[i]@) is None && (forall|j: int|
            0 <= j < i ==> (#[trigger] parse_value(raws[j]@)) is Some) && (e matches StoreError::DataError(
            d,
        ) && decode_outcome_ok(raws[i]@, Err::<Value, DataError>(d)))
}

/// Decodes every value of a duplicate run, failing on the first malformed one.
pub fn decode_all(raws: &Vec<Vec<u8>>) -> (r: Result<Vec<Value>, StoreError>)
    ensures
        run_outcome_ok(raws@, r),
{
    let mut out: Vec<Value> = Vec::new();
    let mut i: usize = 0;
    while i < raws.len()
        invariant
            0 <= i <= raws@.len(),
            out@.len() == i,
            forall|j: int| 0 <= j < i ==> parse_value(#[trigger] raws@[j]@) == Some(out@[j]@),
        decreases raws@.len() - i,
    {
        match decode(raws[i].as_slice()) {
            Ok(v) => out.push(v),
            Err(d) => {
                assert(forall|j: int| 0 <= j < i ==> (#[trigger] parse_value(raws@[j]@)) is Some);
                return Err(StoreError::DataError(d));
            },
        }
        i = i + 1;
    }
    Ok(out)
}

/// A transaction that stores can read through.
pub trait Readable {
    /// The bytes stored under `key`, or `None` when the key is absent.
    fn get_raw(&self, db: lmdb::Database, key: &[u8]) -> (r: Result<Option<Vec<u8>>, StoreError>)
        ensures
            r is Ok || r matches Err(StoreError::LmdbError(_)),
    ;

    /// Every value stored under `key` in a store with duplicates, in the engine's order.
    fn dup_raw(&self, db: lmdb::Database, key: &[u8]) -> (r: Result<Vec<Vec<u8>>, StoreError>)
        ensures
            r is Ok || r matches Err(StoreError::LmdbError(_)),
    ;
}

/// A read-only snapshot transaction. Dropping it ends it.
pub struct Reader<'env> {
    pub txn: lmdb::RoTransaction<'env>,
}

/// A read-write transaction. Its writes persist only through `commit`;
/// `abort`, or dropping it, discards them.
pub struct Writer<'env> {
    pub txn: lmdb::RwTransaction<'env>,
}

impl<'env> Readable for Reader<'env> {
    fn get_raw(&self, db: lmdb::Database, key: &[u8]) -> (r: Result<Option<Vec<u8>>, StoreError>) {
        lift(ro_get(&self.txn, db, key))
    }

    fn dup_raw(&self, db: lmdb::Database, key: &[u8]) -> (r: Result<Vec<Vec<u8>>, StoreError>) {
        match ro_open_cursor(&self.txn, db) {
            Ok(mut cursor) => lift(cursor_dup_values(&mut cursor, key)),
            Err(e) => Err(StoreError::LmdbError(e)),
        }
    }
}

impl<'env> Readable for Writer<'env> {
    fn get_raw(&self, db: lmdb::Database, key: &[u8]) -> (r: Result<Option<Vec<u8>>, StoreError>) {
        lift(rw_get(&self.txn, db, key))
    }

    fn dup_raw(&self, db: lmdb::Database, key: &[u8]) -> (r: Result<Vec<Vec<u8>>, StoreError>) {
        match rw_open_cursor(&self.txn, db) {
            Ok(mut cursor) => lift(cursor_dup_values(&mut cursor, key)),
            Err(e) => Err(StoreError::LmdbError(e)),
        }
    }
}

impl<'env> Reader<'env> {
    /// Ends the snapshot; a read has nothing to undo.
    pub fn abort(self) {
    }
}

impl<'env> Writer<'env> {
    /// Stores the encoding of `value` under `key`.
    pub fn put_value(&mut self, db: lmdb::Database, key: &[u8], value: &Value) -> (r: Result<(), StoreError>)
        ensures
            r is Ok || r matches Err(StoreError::LmdbError(_)),
    {
        let bytes = crate::value::encode(value);
        lift(rw_put(&mut self.txn, db, key, bytes.as_slice()))
    }

    /// Removes `key`, or with `value` only that one of its values; removing what
    /// is absent is no error.
    pub fn delete_value(&mut self, db: lmdb::Database, key: &[u8], value: Option<&Value>) -> (r: Result<
        (),
        StoreError,
    >)
        ensures
            r is Ok || r matches Err(StoreError::LmdbError(_)),
    {
        let outcome = match value {
            Some(v) => {
                let bytes = crate::value::encode(v);
                rw_del(&mut self.txn, db, key, Some(bytes.as_slice()))
            },
            None => rw_del(&mut self.txn, db, key, None),
        };
        match outcome {
            Ok(_) => Ok(()),
            Err(e) => Err(StoreError::LmdbError(e)),
        }
    }

    /// Persists every write of this transaction atomically and ends it.
    pub fn commit(self) -> (r: Result<(), StoreError>)
        ensures
            r is Ok || r matches Err(StoreError::LmdbError(_)),
    {
        lift(rw_commit(self.txn))
    }

    /// Discards every write of this transaction and ends it.
    pub fn abort(self) {
    }
}

} // verus!
