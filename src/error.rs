use vstd::prelude::*;

use crate::store::StoreKind;
use crate::value::Type;

verus! {

/// Why a stored byte string could not be read back as a value.
#[derive(Debug, Clone, PartialEq, Eq)]
pub enum DataError {
    /// The byte string is empty: it has no type tag.
    Empty,
    /// The first byte is not the tag of any value type.
    UnknownType { tag: u8, bytes: Vec<u8> },
    /// The tag names a type other than the one the caller asked for.
    UnexpectedType { expected: Type, actual: Type },
    /// The tag is known but the payload that follows is malformed.
    DecodingError { value_type: Type, bytes: Vec<u8> },
}

/// Every failure that an operation on an environment, a store or a transaction reports.
#[derive(Debug)]
pub enum StoreError {
    /// The storage engine reported an error.
    LmdbError(lmdb::Error),
    /// A stored value could not be decoded.
    DataError(DataError),
    /// The environment directory is missing and may not be created.
    DirectoryDoesNotExistError(String),
    /// Creating the environment directory failed.
    IoError(String),
    /// A store name holds a NUL character, which the engine cannot take.
    InvalidStoreName(String),
    /// A store name was opened before with another kind.
    StoreKindMismatch { name: String, existing: StoreKind, requested: StoreKind },
}

} // verus!
