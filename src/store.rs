use vstd::prelude::*;
use vstd::bytes::*;

use crate::error::StoreError;
use crate::txn::{
    decode_all, decode_found, decode_found_expected, found_expected_outcome_ok, found_outcome_ok,
    run_outcome_ok, Readable, Writer,
};
use crate::value::{Type, Value};

verus! {

/// The key kind and multiplicity with which a named store is opened.
#[derive(Debug, Clone, Copy, PartialEq, Eq, Structural)]
pub enum StoreKind {
    /// Byte-string keys, one value per key.
    Single,
    /// Byte-string keys, any number of values per key.
    Multi,
    /// Integer keys, one value per key.
    Integer,
    /// Integer keys, any number of values per key.
    MultiInteger,
}

/// The engine's flag for sorted duplicate values.
pub const DUP_SORT: u32 = 0x04;

/// The engine's flag for native integer keys.
pub const INTEGER_KEY: u32 = 0x08;

impl StoreKind {
    pub open spec fn spec_flags(self) -> u32 {
        match self {
            StoreKind::Single => 0,
            StoreKind::Multi => DUP_SORT,
            StoreKind::Integer => INTEGER_KEY,
            StoreKind::MultiInteger => INTEGER_KEY | DUP_SORT,
        }
    }

    /// The engine flags with which a store of this kind is created.
    pub fn flags(self) -> (r: u32)
        ensures
            r == self.spec_flags(),
    {
        match self {
            StoreKind::Single => 0,
            StoreKind::Multi => DUP_SORT,
            StoreKind::Integer => INTEGER_KEY,
            StoreKind::MultiInteger => INTEGER_KEY | DUP_SORT,
        }
    }
}

/// How a store is opened: `create` makes it when it does not exist yet.
#[derive(Debug, Clone, Copy, PartialEq, Eq, Structural)]
pub struct Options {
    pub create: bool,
}

impl Options {
    /// Options that create the store when it is missing.
    pub fn create() -> (r: Options)
        ensures
            r.create,
    {
        Options { create: true }
    }
}

/// A point read gives the decoded form of what the engine handed back,
/// whatever that was.
pub open spec fn lookup_ok(r: Result<Option<Value>, StoreError>) -> bool {
    exists|raw: Result<Option<Vec<u8>>, StoreError>|
        (raw is Ok || raw matches Err(StoreError::LmdbError(_))) && #[trigger] found_outcome_ok(raw, r)
}

/// A read of duplicates gives the decoded form of the run the engine handed
/// back, whatever that was.
pub open spec fn run_ok(r: Result<Vec<Value>, StoreError>) -> bool {
    exists|raws: Seq<Vec<u8>>| #[trigger] run_outcome_ok(raws, r)
}

/// The error kinds that a read through a store can report.
pub open spec fn read_error_ok<T>(r: Result<T, StoreError>) -> bool {
    r is Ok || r matches Err(StoreError::LmdbError(_)) || r matches Err(StoreError::DataError(_))
}

/// The error kinds that a write through a store can report.
pub open spec fn write_error_ok<T>(r: Result<T, StoreError>) -> bool {
    r is Ok || r matches Err(StoreError::LmdbError(_))
}

/// A store with byte-string keys and one value per key.
#[derive(Debug, Clone, Copy)]
pub struct SingleStore {
    pub db: lmdb::Database,
}

impl SingleStore {
    /// The value stored under `key`, or `None` when it is absent.
    pub fn get<T: Readable>(&self, txn: &T, key: &[u8]) -> (r: Result<Option<Value>, StoreError>)
        ensures
            read_error_ok(r),
            lookup_ok(r),
    {
        let raw = txn.get_raw(self.db, key);
        let ghost seen = raw;
        let r = decode_found(raw);
        assert(found_outcome_ok(seen, r));
        r
    }

    /// The value stored under `key`, which must be of type `expected`; a value
    /// of another type is refused with `UnexpectedType`.
    pub fn get_as<T: Readable>(&self, txn: &T, key: &[u8], expected: Type) -> (r: Result<
        Option<Value>,
        StoreError,
    >)
        ensures
            read_error_ok(r),
            r matches Ok(Some(v)) ==> v@.value_type() == expected,
            exists|raw: Result<Option<Vec<u8>>, StoreError>|
                (raw is Ok || raw matches Err(StoreError::LmdbError(_)))
                    && #[trigger] found_expected_outcome_ok(raw, expected, r),
    {
        let raw = txn.get_raw(self.db, key);
        let ghost seen = raw;
        let r = decode_found_expected(raw, expected);
        assert(found_expected_outcome_ok(seen, expected, r));
        r
    }

    /// Stores `value` under `key`, replacing any earlier value.
    pub fn put(&self, writer: &mut Writer, key: &[u8], value: &Value) -> (r: Result<(), StoreError>)
        ensures
            write_error_ok(r),
    {
        writer.put_value(self.db, key, value)
    }

    /// Removes the value under `key`; an absent key is no error.
    pub fn delete(&self, writer: &mut Writer, key: &[u8]) -> (r: Result<(), StoreError>)
        ensures
            write_error_ok(r),
    {
        writer.delete_value(self.db, key, None)
    }
}

/// A store with byte-string keys and any number of distinct values per key.
#[derive(Debug, Clone, Copy)]
pub struct MultiStore {
    pub db: lmdb::Database,
}

impl MultiStore {
    /// Every value stored under `key`, in the engine's order.
    pub fn get<T: Readable>(&self, txn: &T, key: &[u8]) -> (r: Result<Vec<Value>, StoreError>)
        ensures
            read_error_ok(r),
            r is Ok ==> run_ok(r),
    {
        match txn.dup_raw(self.db, key) {
            Ok(raws) => {
                let r = decode_all(&raws);
                assert(run_outcome_ok(raws@, r));
                r
            },
            Err(e) => Err(e),
        }
    }

    /// The first value stored under `key` in the engine's order, or `None`.
    pub fn get_first<T: Readable>(&self, txn: &T, key: &[u8]) -> (r: Result<Option<Value>, StoreError>)
        ensures
            read_error_ok(r),
            lookup_ok(r),
    {
        let raw = txn.get_raw(self.db, key);
        let ghost seen = raw;
        let r = decode_found(raw);
        assert(found_outcome_ok(seen, r));
        r
    }

    /// Adds `value` to the values under `key`; an identical value is kept once.
    pub fn put(&self, writer: &mut Writer, key: &[u8], value: &Value) -> (r: Result<(), StoreError>)
        ensures
            write_error_ok(r),
    {
        writer.put_value(self.db, key, value)
    }

    /// Removes only `value` from the values under `key`; an absent pair is no error.
    pub fn delete(&self, writer: &mut Writer, key: &[u8], value: &Value) -> (r: Result<(), StoreError>)
        ensures
            write_error_ok(r),
    {
        writer.delete_value(self.db, key, Some(value))
    }

    /// Removes every value under `key`; an absent key is no error.
    pub fn delete_all(&self, writer: &mut Writer, key: &[u8]) -> (r: Result<(), StoreError>)
        ensures
            write_error_ok(r),
    {
        writer.delete_value(self.db, key, None)
    }
}

/// The stored form of an integer key: its four little-endian bytes.
pub fn integer_key(k: u32) -> (r: Vec<u8>)
    ensures
        r@ == spec_u32_to_le_bytes(k),
        r@.len() == 4,
{
    u32_to_le_bytes(k)
}

/// A store with integer keys and one value per key.
#[derive(Debug, Clone, Copy)]
pub struct IntegerStore {
    pub db: lmdb::Database,
}

impl IntegerStore {
    /// The value stored under `key`, or `None` when it is absent.
    pub fn get<T: Readable>(&self, txn: &T, key: u32) -> (r: Result<Option<Value>, StoreError>)
        ensures
            read_error_ok(r),
            lookup_ok(r),
    {
        let k = integer_key(key);
        let raw = txn.get_raw(self.db, k.as_slice());
        let ghost seen = raw;
        let r = decode_found(raw);
        assert(found_outcome_ok(seen, r));
        r
    }

    /// Stores `value` under `key`, replacing any earlier value.
    pub fn put(&self, writer: &mut Writer, key: u32, value: &Value) -> (r: Result<(), StoreError>)
        ensures
            write_error_ok(r),
    {
        let k = integer_key(key);
        writer.put_value(self.db, k.as_slice(), value)
    }

    /// Removes the value under `key`; an absent key is no error.
    pub fn delete(&self, writer: &mut Writer, key: u32) -> (r: Result<(), StoreError>)
        ensures
            write_error_ok(r),
    {
        let k = integer_key(key);
        writer.delete_value(self.db, k.as_slice(), None)
    }
}

/// A store with integer keys and any number of distinct values per key.
#[derive(Debug, Clone, Copy)]
pub struct MultiIntegerStore {
    pub db: lmdb::Database,
}

impl MultiIntegerStore {
    /// Every value stored under `key`, in the engine's order.
    pub fn get<T: Readable>(&self, txn: &T, key: u32) -> (r: Result<Vec<Value>, StoreError>)
        ensures
            read_error_ok(r),
            r is Ok ==> run_ok(r),
    {
        let k = integer_key(key);
        match txn.dup_raw(self.db, k.as_slice()) {
            Ok(raws) => {
                let r = decode_all(&raws);
                assert(run_outcome_ok(raws@, r));
                r
            },
            Err(e) => Err(e),
        }
    }

    /// Adds `value` to the values under `key`.
    pub fn put(&self, writer: &mut Writer, key: u32, value: &Value) -> (r: Result<(), StoreError>)
        ensures
            write_error_ok(r),
    {
        let k = integer_key(key);
        writer.put_value(self.db, k.as_slice(), value)
    }

    /// Removes only `value` from the values under `key`.
    pub fn delete(&self, writer: &mut Writer, key: u32, value: &Value) -> (r: Result<(), StoreError>)
        ensures
            write_error_ok(r),
    {
        let k = integer_key(key);
        writer.delete_value(self.db, k.as_slice(), Some(value))
    }
}

} // verus!
