//! A typed, transactional key/value layer over LMDB.
//!
//! Values are stored in a self-describing tagged encoding (see `value`), stores
//! are typed by key kind and multiplicity (see `store`), transactions follow a
//! reader/writer discipline (see `txn`), environments keep a registry of their
//! named stores (see `env`), and a `Manager` registry hands out at most one
//! environment per path (see `manager`).

pub mod backend;
pub mod env;
pub mod error;
pub mod manager;
pub mod store;
pub mod txn;
pub mod value;
