use vstd::prelude::*;

use crate::error::StoreError;

verus! {

#[verifier::external_type_specification]
#[verifier::external_body]
pub struct ExLmdbError(lmdb::Error);

#[verifier::external_type_specification]
#[verifier::external_body]
pub struct ExEnvironmentBuilder(lmdb::EnvironmentBuilder);

#[verifier::external_type_specification]
#[verifier::external_body]
pub struct ExEnvironment(lmdb::Environment);

#[verifier::external_type_specification]
#[verifier::external_body]
pub struct ExDatabase(lmdb::Database);

#[verifier::external_type_specification]
#[verifier::external_body]
pub struct ExStat(lmdb::Stat);

#[verifier::external_type_specification]
#[verifier::external_body]
pub struct ExInfo(lmdb::Info);

#[verifier::external_type_specification]
#[verifier::external_body]
pub struct ExRoTransaction<'env>(lmdb::RoTransaction<'env>);

#[verifier::external_type_specification]
#[verifier::external_body]
pub struct ExRwTransaction<'env>(lmdb::RwTransaction<'env>);

#[verifier::external_type_specification]
#[verifier::external_body]
pub struct ExRoCursor<'txn>(lmdb::RoCursor<'txn>);

/// Every environment flag bit that the engine knows; `from_bits_truncate`
/// keeps these and drops the rest.
pub const ENV_FLAG_MASK: u32 = 0x1FF4001;

/// The flag bits an engine builder holds.
pub uninterp spec fn builder_flags(b: lmdb::EnvironmentBuilder) -> u32;

/// The reader slot count an engine builder holds, if one was set.
pub uninterp spec fn builder_max_readers(b: lmdb::EnvironmentBuilder) -> Option<u32>;

/// The named-database limit an engine builder holds, if one was set.
pub uninterp spec fn builder_max_dbs(b: lmdb::EnvironmentBuilder) -> Option<u32>;

/// The map size an engine builder holds, if one was set.
pub uninterp spec fn builder_map_size(b: lmdb::EnvironmentBuilder) -> Option<usize>;

/// The flag bits an engine environment was opened with.
pub uninterp spec fn opened_flags(e: lmdb::Environment) -> u32;

/// The reader slot count an engine environment was opened with, if one was set.
pub uninterp spec fn opened_max_readers(e: lmdb::Environment) -> Option<u32>;

/// The named-database limit an engine environment was opened with, if one was set.
pub uninterp spec fn opened_max_dbs(e: lmdb::Environment) -> Option<u32>;

/// The map size an engine environment was opened with, if one was set.
pub uninterp spec fn opened_map_size(e: lmdb::Environment) -> Option<usize>;

/// Relies on `lmdb::Environment::new`: a builder with no flags and no limits set.
#[verifier::external_body]
fn lmdb_builder() -> (r: lmdb::EnvironmentBuilder)
    ensures
        builder_flags(r) == 0,
        builder_max_readers(r) is None,
        builder_max_dbs(r) is None,
        builder_map_size(r) is None,
{
    lmdb::Environment::new()
}

/// Relies on `lmdb::EnvironmentBuilder::set_flags`: records the known flag bits,
/// keeping the other settings.
#[verifier::external_body]
fn lmdb_builder_set_flags(b: &mut lmdb::EnvironmentBuilder, bits: u32)
    ensures
        builder_flags(*final(b)) == bits & ENV_FLAG_MASK,
        builder_max_readers(*final(b)) == builder_max_readers(*old(b)),
        builder_max_dbs(*final(b)) == builder_max_dbs(*old(b)),
        builder_map_size(*final(b)) == builder_map_size(*old(b)),
{
    b.set_flags(lmdb::EnvironmentFlags::from_bits_truncate(bits));
}

/// Relies on `lmdb::EnvironmentBuilder::set_max_readers`: records the reader
/// slot count, keeping the other settings.
#[verifier::external_body]
fn lmdb_builder_set_max_readers(b: &mut lmdb::EnvironmentBuilder, n: u32)
    ensures
        builder_flags(*final(b)) == builder_flags(*old(b)),
        builder_max_readers(*final(b)) == Some(n),
        builder_max_dbs(*final(b)) == builder_max_dbs(*old(b)),
        builder_map_size(*final(b)) == builder_map_size(*old(b)),
{
    b.set_max_readers(n);
}

/// Relies on `lmdb::EnvironmentBuilder::set_max_dbs`: records the named
/// database limit, keeping the other settings.
#[verifier::external_body]
fn lmdb_builder_set_max_dbs(b: &mut lmdb::EnvironmentBuilder, n: u32)
    ensures
        builder_flags(*final(b)) == builder_flags(*old(b)),
        builder_max_readers(*final(b)) == builder_max_readers(*old(b)),
        builder_max_dbs(*final(b)) == Some(n),
        builder_map_size(*final(b)) == builder_map_size(*old(b)),
{
    b.set_max_dbs(n);
}

/// Relies on `lmdb::EnvironmentBuilder::set_map_size`: records the map size,
/// keeping the other settings.
#[verifier::external_body]
fn lmdb_builder_set_map_size(b: &mut lmdb::EnvironmentBuilder, size: usize)
    ensures
        builder_flags(*final(b)) == builder_flags(*old(b)),
        builder_max_readers(*final(b)) == builder_max_readers(*old(b)),
        builder_max_dbs(*final(b)) == builder_max_dbs(*old(b)),
        builder_map_size(*final(b)) == Some(size),
{
    b.set_map_size(size);
}

/// Relies on `lmdb::EnvironmentBuilder::open`: opens the environment in a
/// directory with the builder's flags and the limits it holds.
#[verifier::external_body]
fn lmdb_open(b: &lmdb::EnvironmentBuilder, path: &str) -> (r: Result<lmdb::Environment, lmdb::Error>)
    ensures
        r matches Ok(e) ==> {
            &&& opened_flags(e) == builder_flags(*b)
            &&& opened_max_readers(e) == builder_max_readers(*b)
            &&& opened_max_dbs(e) == builder_max_dbs(*b)
            &&& opened_map_size(e) == builder_map_size(*b)
        },
{
    b.open(std::path::Path::new(path))
}

/// A store name that the engine can take: it holds no NUL character.
pub open spec fn valid_db_name(name: Option<&str>) -> bool {
    name matches Some(n) ==> !n@.contains('\0')
}

/// Relies on `lmdb::Environment::open_db`: opens an existing database by name.
#[verifier::external_body]
fn lmdb_open_db(env: &lmdb::Environment, name: Option<&str>) -> (r: Result<lmdb::Database, lmdb::Error>)
    requires
        valid_db_name(name),
{
    env.open_db(name)
}

/// Relies on `lmdb::Environment::create_db`: opens or creates a database with the given flags.
#[verifier::external_body]
fn lmdb_create_db(env: &lmdb::Environment, name: Option<&str>, bits: u32) -> (r: Result<
    lmdb::Database,
    lmdb::Error,
>)
    requires
        valid_db_name(name),
{
    env.create_db(name, lmdb::DatabaseFlags::from_bits_truncate(bits))
}

/// Relies on `lmdb::Environment::begin_ro_txn`: starts a read-only transaction.
#[verifier::external_body]
fn lmdb_begin_ro_txn<'e>(env: &'e lmdb::Environment) -> (r: Result<lmdb::RoTransaction<'e>, lmdb::Error>) {
    env.begin_ro_txn()
}

/// Relies on `lmdb::Environment::begin_rw_txn`: starts a read-write transaction,
/// waiting while another one is open.
#[verifier::external_body]
fn lmdb_begin_rw_txn<'e>(env: &'e lmdb::Environment) -> (r: Result<lmdb::RwTransaction<'e>, lmdb::Error>) {
    env.begin_rw_txn()
}

/// Relies on `lmdb::Environment::sync`: flushes buffers to disk.
#[verifier::external_body]
fn lmdb_sync(env: &lmdb::Environment, force: bool) -> (r: Result<(), lmdb::Error>) {
    env.sync(force)
}

/// Relies on `lmdb::Environment::stat`: statistics of the environment.
#[verifier::external_body]
fn lmdb_stat(env: &lmdb::Environment) -> (r: Result<lmdb::Stat, lmdb::Error>) {
    env.stat()
}

/// Relies on `lmdb::Environment::info`: information about the environment.
#[verifier::external_body]
fn lmdb_info(env: &lmdb::Environment) -> (r: Result<lmdb::Info, lmdb::Error>) {
    env.info()
}

/// Relies on `lmdb::Environment::freelist`: the number of free pages.
#[verifier::external_body]
fn lmdb_freelist(env: &lmdb::Environment) -> (r: Result<usize, lmdb::Error>) {
    env.freelist()
}

/// Relies on `lmdb::Environment::set_map_size`: resizes the memory map.
#[verifier::external_body]
fn lmdb_set_map_size(env: &lmdb::Environment, size: usize) -> (r: Result<(), lmdb::Error>) {
    env.set_map_size(size)
}

/// How a directory is to be prepared before an environment is opened in it.
#[derive(Debug, Clone, Copy, PartialEq, Eq, Structural)]
pub enum DirectoryPlan {
    /// The directory exists: open it.
    Open,
    /// The directory is missing and may be created: create it, then open it.
    Create,
    /// The directory is missing and may not be created: report an error.
    Refuse,
}

/// The settings with which an environment is opened.
///
/// Unset limits keep the engine's defaults.
#[derive(Debug, Clone, Copy, PartialEq, Eq, Structural)]
pub struct EnvironmentBuilderImpl {
    pub flags: u32,
    pub max_readers: Option<u32>,
    pub max_dbs: Option<u32>,
    pub map_size: Option<usize>,
    pub make_dir: bool,
}

impl EnvironmentBuilderImpl {
    /// A builder with no flags, the engine's default limits, and no directory creation.
    pub fn new() -> (r: EnvironmentBuilderImpl)
        ensures
            r.flags == 0,
            r.max_readers is None,
            r.max_dbs is None,
            r.map_size is None,
            !r.make_dir,
    {
        EnvironmentBuilderImpl { flags: 0, max_readers: None, max_dbs: None, map_size: None, make_dir: false }
    }

    pub fn set_flags(&mut self, flags: u32) -> (r: &mut Self)
        ensures
            *r == (EnvironmentBuilderImpl { flags, ..*old(self) }),
            *final(self) == *final(r),
    {
        self.flags = flags;
        self
    }

    pub fn set_max_readers(&mut self, max_readers: u32) -> (r: &mut Self)
        ensures
            *r == (EnvironmentBuilderImpl { max_readers: Some(max_readers), ..*old(self) }),
            *final(self) == *final(r),
    {
        self.max_readers = Some(max_readers);
        self
    }

    pub fn set_max_dbs(&mut self, max_dbs: u32) -> (r: &mut Self)
        ensures
            *r == (EnvironmentBuilderImpl { max_dbs: Some(max_dbs), ..*old(self) }),
            *final(self) == *final(r),
    {
        self.max_dbs = Some(max_dbs);
        self
    }

    pub fn set_map_size(&mut self, size: usize) -> (r: &mut Self)
        ensures
            *r == (EnvironmentBuilderImpl { map_size: Some(size), ..*old(self) }),
            *final(self) == *final(r),
    {
        self.map_size = Some(size);
        self
    }

    pub fn set_make_dir_if_needed(&mut self, make_dir: bool) -> (r: &mut Self)
        ensures
            *r == (EnvironmentBuilderImpl { make_dir, ..*old(self) }),
            *final(self) == *final(r),
    {
        self.make_dir = make_dir;
        self
    }

    /// The engine environment `e` was opened with exactly these settings
    /// (flags as far as the engine knows them).
    pub open spec fn opened_by(&self, e: lmdb::Environment) -> bool {
        &&& opened_flags(e) == self.flags & ENV_FLAG_MASK
        &&& opened_max_readers(e) == self.max_readers
        &&& opened_max_dbs(e) == self.max_dbs
        &&& opened_map_size(e) == self.map_size
    }

    /// What to do with the environment directory, given whether it exists.
    pub fn plan_directory(&self, dir_exists: bool) -> (r: DirectoryPlan)
        ensures
            dir_exists ==> r == DirectoryPlan::Open,
            !dir_exists && self.make_dir ==> r == DirectoryPlan::Create,
            !dir_exists && !self.make_dir ==> r == DirectoryPlan::Refuse,
    {
        if dir_exists {
            DirectoryPlan::Open
        } else if self.make_dir {
            DirectoryPlan::Create
        } else {
            DirectoryPlan::Refuse
        }
    }

    /// Opens an environment in the directory `path`.
    ///
    /// `dir_existed` tells whether the directory existed beforehand, and
    /// `creation` is the outcome of creating it, which counts only where the
    /// plan was `Create`. A missing directory that may not be created, or whose
    /// creation failed, is reported before the engine is touched.
    pub fn open(&self, path: &str, dir_existed: bool, creation: Result<(), String>) -> (r: Result<
        EnvironmentImpl,
        StoreError,
    >)
        ensures
            !dir_existed && !self.make_dir ==> (r matches Err(
                StoreError::DirectoryDoesNotExistError(p),
            ) && p@ == path@),
            !dir_existed && self.make_dir && creation is Err ==> (r matches Err(StoreError::IoError(m))
                && creation == Err::<(), String>(m)),
            (dir_existed || (self.make_dir && creation is Ok)) ==> (r is Ok || r matches Err(
                StoreError::LmdbError(_),
            )),
            r matches Ok(e) ==> self.opened_by(e.0),
    {
        match self.plan_directory(dir_existed) {
            DirectoryPlan::Refuse => {
                return Err(StoreError::DirectoryDoesNotExistError(path.to_string()));
            },
            DirectoryPlan::Create => {
                if let Err(m) = creation {
                    return Err(StoreError::IoError(m));
                }
            },
            DirectoryPlan::Open => {},
        }
        let mut builder = lmdb_builder();
        lmdb_builder_set_flags(&mut builder, self.flags);
        if let Some(n) = self.max_readers {
            lmdb_builder_set_max_readers(&mut builder, n);
        }
        if let Some(n) = self.max_dbs {
            lmdb_builder_set_max_dbs(&mut builder, n);
        }
        if let Some(n) = self.map_size {
            lmdb_builder_set_map_size(&mut builder, n);
        }
        match lift(lmdb_open(&builder, path)) {
            Ok(env) => Ok(EnvironmentImpl(env)),
            Err(e) => Err(e),
        }
    }
}

/// An open engine environment.
pub struct EnvironmentImpl(pub lmdb::Environment);

/// Maps an engine result into the library's error type.
pub(crate) fn lift<T>(r: Result<T, lmdb::Error>) -> (out: Result<T, StoreError>)
    ensures
        r matches Ok(v) ==> out == Ok::<T, StoreError>(v),
        r matches Err(e) ==> out == Err::<T, StoreError>(StoreError::LmdbError(e)),
{
    match r {
        Ok(v) => Ok(v),
        Err(e) => Err(StoreError::LmdbError(e)),
    }
}

impl EnvironmentImpl {
    pub fn open_db(&self, name: Option<&str>) -> (r: Result<lmdb::Database, StoreError>)
        requires
            valid_db_name(name),
        ensures
            r is Ok || r matches Err(StoreError::LmdbError(_)),
    {
        lift(lmdb_open_db(&self.0, name))
    }

    /// Opens or creates a database with the given engine flag bits.
    pub fn create_db(&self, name: Option<&str>, flags: u32) -> (r: Result<lmdb::Database, StoreError>)
        requires
            valid_db_name(name),
        ensures
            r is Ok || r matches Err(StoreError::LmdbError(_)),
    {
        lift(lmdb_create_db(&self.0, name, flags))
    }

    pub fn begin_ro_txn<'e>(&'e self) -> (r: Result<lmdb::RoTransaction<'e>, StoreError>)
        ensures
            r is Ok || r matches Err(StoreError::LmdbError(_)),
    {
        lift(lmdb_begin_ro_txn(&self.0))
    }

    pub fn begin_rw_txn<'e>(&'e self) -> (r: Result<lmdb::RwTransaction<'e>, StoreError>)
        ensures
            r is Ok || r matches Err(StoreError::LmdbError(_)),
    {
        lift(lmdb_begin_rw_txn(&self.0))
    }

    pub fn sync(&self, force: bool) -> (r: Result<(), StoreError>)
        ensures
            r is Ok || r matches Err(StoreError::LmdbError(_)),
    {
        lift(lmdb_sync(&self.0, force))
    }

    pub fn stat(&self) -> (r: Result<lmdb::Stat, StoreError>)
        ensures
            r is Ok || r matches Err(StoreError::LmdbError(_)),
    {
        lift(lmdb_stat(&self.0))
    }

    pub fn info(&self) -> (r: Result<lmdb::Info, StoreError>)
        ensures
            r is Ok || r matches Err(StoreError::LmdbError(_)),
    {
        lift(lmdb_info(&self.0))
    }

    pub fn freelist(&self) -> (r: Result<usize, StoreError>)
        ensures
            r is Ok || r matches Err(StoreError::LmdbError(_)),
    {
        lift(lmdb_freelist(&self.0))
    }

    pub fn set_map_size(&self, size: usize) -> (r: Result<(), StoreError>)
        ensures
            r is Ok || r matches Err(StoreError::LmdbError(_)),
    {
        lift(lmdb_set_map_size(&self.0, size))
    }
}

} // verus!
