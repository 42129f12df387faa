use vstd::prelude::*;
use vstd::string::*;

use crate::backend::{
    opened_flags, opened_map_size, opened_max_dbs, opened_max_readers, EnvironmentBuilderImpl,
    EnvironmentImpl,
};
use crate::error::StoreError;
use crate::store::{IntegerStore, MultiIntegerStore, MultiStore, Options, SingleStore, StoreKind};
use crate::txn::{Reader, Writer};

verus! {

/// The named-database limit of an environment opened with `Rkv::new`.
pub const DEFAULT_MAX_DBS: u32 = 5;

/// A named store that an environment has opened.
pub struct StoreEntry {
    pub name: String,
    pub kind: StoreKind,
    pub db: lmdb::Database,
}

/// An open environment: one storage directory with its named stores.
pub struct Rkv {
    path: String,
    env: EnvironmentImpl,
    stores: Vec<StoreEntry>,
}

/// The position of `name` among the registered names, if it is there.
pub open spec fn position_of(reg: Seq<(Seq<char>, StoreKind)>, name: Seq<char>) -> Option<int> {
    if exists|i: int| 0 <= i < reg.len() && reg[i].0 == name {
        Some(choose|i: int| 0 <= i < reg.len() && reg[i].0 == name)
    } else {
        None
    }
}

/// No name is registered twice.
pub open spec fn names_unique(reg: Seq<(Seq<char>, StoreKind)>) -> bool {
    forall|i: int, j: int| 0 <= i < j < reg.len() ==> #[trigger] reg[i].0 != #[trigger] reg[j].0
}

/// What opening the store `name` as `kind` does to an environment and returns.
///
/// A name with a NUL character is refused. A name opened before gives its
/// registered handle when the kind agrees and `StoreKindMismatch` otherwise,
/// changing nothing. A new name is registered when the engine opens it, and
/// an engine error changes nothing. Registered handles never change.
pub open spec fn open_outcome_ok(
    before: Rkv,
    after: Rkv,
    name: Seq<char>,
    kind: StoreKind,
    r: Result<lmdb::Database, StoreError>,
) -> bool {
    &&& after.wf()
    &&& after.spec_path() == before.spec_path()
    &&& after.engine() == before.engine()
    &&& after.registry().len() >= before.registry().len()
    &&& forall|j: int| 0 <= j < before.registry().len() ==> #[trigger] after.handle(j) == before.handle(j)
    &&& if name.contains('\0') {
        &&& after.registry() == before.registry()
        &&& r matches Err(StoreError::InvalidStoreName(n)) && n@ == name
    } else {
        match position_of(before.registry(), name) {
            Some(i) => {
                &&& after.registry() == before.registry()
                &&& before.registry()[i].1 == kind ==> r == Ok::<lmdb::Database, StoreError>(
                    before.handle(i),
                )
                &&& before.registry()[i].1 != kind ==> (r matches Err(
                    StoreError::StoreKindMismatch { name: n, existing, requested },
                ) && n@ == name && existing == before.registry()[i].1 && requested == kind)
            },
            None => {
                &&& r is Ok ==> after.registry() == before.registry().push((name, kind)) && r
                    == Ok::<lmdb::Database, StoreError>(after.handle(before.registry().len() as int))
                &&& r is Err ==> after.registry() == before.registry() && r matches Err(
                    StoreError::LmdbError(_),
                )
            },
        }
    }
}

/// Whether `name` holds a NUL character.
fn has_nul(name: &str) -> (r: bool)
    ensures
        r == name@.contains('\0'),
{
    let n = name.unicode_len();
    let mut i: usize = 0;
    while i < n
        invariant
            n == name@.len(),
            0 <= i <= n,
            forall|j: int| 0 <= j < i ==> name@[j] != '\0',
        decreases n - i,
    {
        if name.get_char(i) == '\0' {
            return true;
        }
        i = i + 1;
    }
    false
}

impl Rkv {
    /// The opened stores, in order of opening, as (name, kind) pairs.
    pub closed spec fn registry(&self) -> Seq<(Seq<char>, StoreKind)> {
        self.stores@.map_values(|e: StoreEntry| (e.name@, e.kind))
    }

    /// The engine environment this environment holds.
    pub closed spec fn engine(&self) -> lmdb::Environment {
        self.env.0
    }

    /// The engine handle of the store registered at position `i`.
    pub closed spec fn handle(&self, i: int) -> lmdb::Database {
        self.stores@[i].db
    }

    pub closed spec fn spec_path(&self) -> Seq<char> {
        self.path@
    }

    /// Each store name is opened with one kind only.
    pub open spec fn wf(&self) -> bool {
        names_unique(self.registry())
    }

    /// Opens an environment in `path` with the settings of `builder`.
    ///
    /// `dir_existed` tells whether the directory existed beforehand, and
    /// `creation` is the outcome of creating it where the builder allows that.
    pub fn from_builder(
        path: &str,
        dir_existed: bool,
        creation: Result<(), String>,
        builder: &EnvironmentBuilderImpl,
    ) -> (r: Result<Rkv, StoreError>)
        ensures
            r matches Ok(env) ==> env.wf() && env.registry() == Seq::<(Seq<char>, StoreKind)>::empty()
                && env.spec_path() == path@,
            !dir_existed && !builder.make_dir ==> (r matches Err(
                StoreError::DirectoryDoesNotExistError(p),
            ) && p@ == path@),
            !dir_existed && builder.make_dir && creation is Err ==> (r matches Err(
                StoreError::IoError(m),
            ) && creation == Err::<(), String>(m)),
            (dir_existed || (builder.make_dir && creation is Ok)) ==> (r is Ok || r matches Err(
                StoreError::LmdbError(_),
            )),
            r matches Ok(env) ==> builder.opened_by(env.engine()),
    {
        match builder.open(path, dir_existed, creation) {
            Ok(env) => {
                let r = Rkv { path: path.to_string(), env, stores: Vec::new() };
                assert(r.registry() =~= Seq::<(Seq<char>, StoreKind)>::empty());
                Ok(r)
            },
            Err(e) => Err(e),
        }
    }

    /// Opens an environment in `path` allowing up to `max_dbs` named stores.
    pub fn with_capacity(path: &str, dir_exists: bool, max_dbs: u32) -> (r: Result<Rkv, StoreError>)
        ensures
            r matches Ok(env) ==> env.wf() && env.registry() == Seq::<(Seq<char>, StoreKind)>::empty()
                && env.spec_path() == path@,
            !dir_exists ==> (r matches Err(StoreError::DirectoryDoesNotExistError(p)) && p@ == path@),
            dir_exists ==> (r is Ok || r matches Err(StoreError::LmdbError(_))),
            r matches Ok(env) ==> {
                &&& opened_flags(env.engine()) == 0
                &&& opened_max_readers(env.engine()) is None
                &&& opened_max_dbs(env.engine()) == Some(max_dbs)
                &&& opened_map_size(env.engine()) is None
            },
    {
        let mut builder = EnvironmentBuilderImpl::new();
        builder.set_max_dbs(max_dbs);
        assert(0u32 & 0x1FF4001u32 == 0u32) by (bit_vector);
        Rkv::from_builder(path, dir_exists, Ok(()), &builder)
    }

    /// Opens an environment in `path` with the default limits.
    pub fn new(path: &str, dir_exists: bool) -> (r: Result<Rkv, StoreError>)
        ensures
            r matches Ok(env) ==> env.wf() && env.registry() == Seq::<(Seq<char>, StoreKind)>::empty()
                && env.spec_path() == path@,
            !dir_exists ==> (r matches Err(StoreError::DirectoryDoesNotExistError(p)) && p@ == path@),
            dir_exists ==> (r is Ok || r matches Err(StoreError::LmdbError(_))),
            r matches Ok(env) ==> {
                &&& opened_flags(env.engine()) == 0
                &&& opened_max_readers(env.engine()) is None
                &&& opened_max_dbs(env.engine()) == Some(DEFAULT_MAX_DBS)
                &&& opened_map_size(env.engine()) is None
            },
    {
        Rkv::with_capacity(path, dir_exists, DEFAULT_MAX_DBS)
    }

    /// The directory of this environment.
    pub fn path(&self) -> (r: &str)
        ensures
            r@ == self.spec_path(),
    {
        self.path.as_str()
    }

    /// Where `name` stands among the opened stores.
    fn find(&self, name: &String) -> (r: Option<usize>)
        ensures
            r matches Some(i) ==> i < self.registry().len() && self.registry()[i as int].0 == name@,
            r is None ==> position_of(self.registry(), name@) is None,
    {
        let mut i: usize = 0;
        while i < self.stores.len()
            invariant
                0 <= i <= self.stores@.len(),
                forall|j: int| 0 <= j < i ==> (#[trigger] self.registry()[j]).0 != name@,
            decreases self.stores@.len() - i,
        {
            if self.stores[i].name == *name {
                return Some(i);
            }
            i = i + 1;
        }
        None
    }

    /// Opens the store `name` as a store of `kind`, creating it when `create`
    /// is set and it does not exist yet.
    ///
    /// Opening a name again with the same kind gives the same handle; opening it
    /// with another kind fails and changes nothing.
    pub fn open_store(&mut self, name: &str, kind: StoreKind, create: bool) -> (r: Result<
        lmdb::Database,
        StoreError,
    >)
        requires
            old(self).wf(),
        ensures
            open_outcome_ok(*old(self), *final(self), name@, kind, r),
    {
        if has_nul(name) {
            return Err(StoreError::InvalidStoreName(name.to_string()));
        }
        let owned = name.to_string();
        match self.find(&owned) {
            Some(i) => {
                proof {
                    let reg = self.registry();
                    let p = position_of(reg, name@).unwrap();
                    assert(reg[i as int].0 == name@);
                    if p != i as int {
                        assert(reg[p].0 == reg[i as int].0);
                    }
                }
                let existing = self.stores[i].kind;
                if existing == kind {
                    Ok(self.stores[i].db)
                } else {
                    Err(StoreError::StoreKindMismatch { name: owned, existing, requested: kind })
                }
            },
            None => {
                let opened = if create {
                    self.env.create_db(Some(name), kind.flags())
                } else {
                    self.env.open_db(Some(name))
                };
                match opened {
                    Ok(db) => {
                        let ghost before = self.registry();
                        let ghost old_self = *self;
                        self.stores.push(StoreEntry { name: owned, kind, db });
                        assert(self.registry() =~= before.push((name@, kind)));
                        assert(forall|j: int|
                            0 <= j < before.len() ==> #[trigger] self.handle(j) == old_self.handle(j));
                        Ok(db)
                    },
                    Err(e) => Err(e),
                }
            },
        }
    }

    /// Opens the store `name` with byte-string keys and one value per key.
    pub fn open_single(&mut self, name: &str, opts: Options) -> (r: Result<SingleStore, StoreError>)
        requires
            old(self).wf(),
        ensures
            open_outcome_ok(
                *old(self),
                *final(self),
                name@,
                StoreKind::Single,
                match r {
                    Ok(s) => Ok::<lmdb::Database, StoreError>(s.db),
                    Err(e) => Err::<lmdb::Database, StoreError>(e),
                },
            ),
    {
        match self.open_store(name, StoreKind::Single, opts.create) {
            Ok(db) => Ok(SingleStore { db }),
            Err(e) => Err(e),
        }
    }

    /// Opens the store `name` with byte-string keys and many values per key.
    pub fn open_multi(&mut self, name: &str, opts: Options) -> (r: Result<MultiStore, StoreError>)
        requires
            old(self).wf(),
        ensures
            open_outcome_ok(
                *old(self),
                *final(self),
                name@,
                StoreKind::Multi,
                match r {
                    Ok(s) => Ok::<lmdb::Database, StoreError>(s.db),
                    Err(e) => Err::<lmdb::Database, StoreError>(e),
                },
            ),
    {
        match self.open_store(name, StoreKind::Multi, opts.create) {
            Ok(db) => Ok(MultiStore { db }),
            Err(e) => Err(e),
        }
    }

    /// Opens the store `name` with integer keys and one value per key.
    pub fn open_integer(&mut self, name: &str, opts: Options) -> (r: Result<IntegerStore, StoreError>)
        requires
            old(self).wf(),
        ensures
            open_outcome_ok(
                *old(self),
                *final(self),
                name@,
                StoreKind::Integer,
                match r {
                    Ok(s) => Ok::<lmdb::Database, StoreError>(s.db),
                    Err(e) => Err::<lmdb::Database, StoreError>(e),
                },
            ),
    {
        match self.open_store(name, StoreKind::Integer, opts.create) {
            Ok(db) => Ok(IntegerStore { db }),
            Err(e) => Err(e),
        }
    }

    /// Opens the store `name` with integer keys and many values per key.
    pub fn open_multi_integer(&mut self, name: &str, opts: Options) -> (r: Result<
        MultiIntegerStore,
        StoreError,
    >)
        requires
            old(self).wf(),
        ensures
            open_outcome_ok(
                *old(self),
                *final(self),
                name@,
                StoreKind::MultiInteger,
                match r {
                    Ok(s) => Ok::<lmdb::Database, StoreError>(s.db),
                    Err(e) => Err::<lmdb::Database, StoreError>(e),
                },
            ),
    {
        match self.open_store(name, StoreKind::MultiInteger, opts.create) {
            Ok(db) => Ok(MultiIntegerStore { db }),
            Err(e) => Err(e),
        }
    }

    /// Starts a read-only snapshot transaction.
    pub fn read(&self) -> (r: Result<Reader<'_>, StoreError>)
        ensures
            r is Ok || r matches Err(StoreError::LmdbError(_)),
    {
        match self.env.begin_ro_txn() {
            Ok(txn) => Ok(Reader { txn }),
            Err(e) => Err(e),
        }
    }

    /// Starts a read-write transaction, waiting while another one is open.
    pub fn write(&self) -> (r: Result<Writer<'_>, StoreError>)
        ensures
            r is Ok || r matches Err(StoreError::LmdbError(_)),
    {
        match self.env.begin_rw_txn() {
            Ok(txn) => Ok(Writer { txn }),
            Err(e) => Err(e),
        }
    }

    /// Flushes the environment's buffers to disk.
    pub fn sync(&self, force: bool) -> (r: Result<(), StoreError>)
        ensures
            r is Ok || r matches Err(StoreError::LmdbError(_)),
    {
        self.env.sync(force)
    }

    /// Statistics of the environment.
    pub fn stat(&self) -> (r: Result<lmdb::Stat, StoreError>)
        ensures
            r is Ok || r matches Err(StoreError::LmdbError(_)),
    {
        self.env.stat()
    }

    /// Information about the environment.
    pub fn info(&self) -> (r: Result<lmdb::Info, StoreError>)
        ensures
            r is Ok || r matches Err(StoreError::LmdbError(_)),
    {
        self.env.info()
    }
}

} // verus!
