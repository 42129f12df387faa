use std::cell::Cell;

use rkv::backend::{DirectoryPlan, EnvironmentBuilderImpl};
use rkv::env::Rkv;
use rkv::error::{DataError, StoreError};
use rkv::manager::Manager;
use rkv::store::{integer_key, Options, StoreKind};
use rkv::txn::{decode_found, decode_found_expected};
use rkv::value::{encode, Type, Value};

fn temp_dir() -> tempfile::TempDir {
    tempfile::Builder::new().prefix("rkv-test").tempdir().unwrap()
}

fn path_of(dir: &tempfile::TempDir) -> String {
    dir.path().to_str().unwrap().to_string()
}

#[test]
fn committed_put_is_read_back() {
    let dir = temp_dir();
    let mut env = Rkv::new(&path_of(&dir), true).unwrap();
    let store = env.open_single("s", Options::create()).unwrap();
    let mut writer = env.write().unwrap();
    store.put(&mut writer, b"int", &Value::I64(1234)).unwrap();
    store.put(&mut writer, b"str", &Value::Str("héllo".to_string())).unwrap();
    store.put(&mut writer, b"blob", &Value::Blob(b"blob".to_vec())).unwrap();
    writer.commit().unwrap();
    let reader = env.read().unwrap();
    assert_eq!(store.get(&reader, b"int").unwrap(), Some(Value::I64(1234)));
    assert_eq!(store.get(&reader, b"str").unwrap(), Some(Value::Str("héllo".to_string())));
    assert_eq!(store.get(&reader, b"blob").unwrap(), Some(Value::Blob(b"blob".to_vec())));
    assert_eq!(store.get(&reader, b"missing").unwrap(), None);
}

#[test]
fn explicit_abort_discards_writes() {
    let dir = temp_dir();
    let mut env = Rkv::new(&path_of(&dir), true).unwrap();
    let store = env.open_single("s", Options::create()).unwrap();
    let mut writer = env.write().unwrap();
    store.put(&mut writer, b"keep", &Value::Bool(true)).unwrap();
    writer.commit().unwrap();
    let mut writer = env.write().unwrap();
    store.put(&mut writer, b"foo", &Value::Str("bar".to_string())).unwrap();
    store.delete(&mut writer, b"keep").unwrap();
    writer.abort();
    let reader = env.read().unwrap();
    assert_eq!(store.get(&reader, b"foo").unwrap(), None);
    assert_eq!(store.get(&reader, b"keep").unwrap(), Some(Value::Bool(true)));
}

#[test]
fn dropped_writer_discards_writes() {
    let dir = temp_dir();
    let mut env = Rkv::new(&path_of(&dir), true).unwrap();
    let store = env.open_single("s", Options::create()).unwrap();
    {
        let mut writer = env.write().unwrap();
        store.put(&mut writer, b"foo", &Value::Str("bar".to_string())).unwrap();
    }
    let reader = env.read().unwrap();
    assert_eq!(store.get(&reader, b"foo").unwrap(), None);
}

#[test]
fn writer_reads_its_own_writes() {
    let dir = temp_dir();
    let mut env = Rkv::new(&path_of(&dir), true).unwrap();
    let store = env.open_single("s", Options::create()).unwrap();
    let mut writer = env.write().unwrap();
    store.put(&mut writer, b"foo", &Value::Str("bar".to_string())).unwrap();
    store.put(&mut writer, b"bar", &Value::Str("baz".to_string())).unwrap();
    store.delete(&mut writer, b"foo").unwrap();
    assert_eq!(store.get(&writer, b"foo").unwrap(), None);
    assert_eq!(store.get(&writer, b"bar").unwrap(), Some(Value::Str("baz".to_string())));
    writer.commit().unwrap();
    let reader = env.read().unwrap();
    assert_eq!(store.get(&reader, b"bar").unwrap(), Some(Value::Str("baz".to_string())));
}

#[test]
fn deleting_an_absent_key_is_no_error() {
    let dir = temp_dir();
    let mut env = Rkv::new(&path_of(&dir), true).unwrap();
    let store = env.open_single("s", Options::create()).unwrap();
    let mut writer = env.write().unwrap();
    assert!(store.delete(&mut writer, b"nothing").is_ok());
    writer.commit().unwrap();
}

#[test]
fn multi_store_keeps_each_value_and_deletes_one() {
    let dir = temp_dir();
    let mut env = Rkv::new(&path_of(&dir), true).unwrap();
    let store = env.open_multi("m", Options::create()).unwrap();
    let v1 = Value::Str("string uno".to_string());
    let v2 = Value::Str("string quatro".to_string());
    let v3 = Value::Str("string siete".to_string());
    let mut writer = env.write().unwrap();
    store.put(&mut writer, b"k", &v1).unwrap();
    store.put(&mut writer, b"k", &v2).unwrap();
    store.put(&mut writer, b"k", &v3).unwrap();
    store.put(&mut writer, b"k", &v2).unwrap();
    writer.commit().unwrap();
    let reader = env.read().unwrap();
    let mut expected = vec![v1.clone(), v2.clone(), v3.clone()];
    expected.sort_by_key(|v| encode(v));
    assert_eq!(store.get(&reader, b"k").unwrap(), expected);
    reader.abort();
    let mut writer = env.write().unwrap();
    store.delete(&mut writer, b"k", &v2).unwrap();
    writer.commit().unwrap();
    let reader = env.read().unwrap();
    let got = store.get(&reader, b"k").unwrap();
    assert_eq!(got.len(), 2);
    assert!(got.contains(&v1));
    assert!(got.contains(&v3));
    assert!(!got.contains(&v2));
    assert_eq!(store.get(&reader, b"other").unwrap(), Vec::<Value>::new());
}

#[test]
fn multi_store_delete_all_removes_every_value() {
    let dir = temp_dir();
    let mut env = Rkv::new(&path_of(&dir), true).unwrap();
    let store = env.open_multi("m", Options::create()).unwrap();
    let mut writer = env.write().unwrap();
    store.put(&mut writer, b"k", &Value::U64(1)).unwrap();
    store.put(&mut writer, b"k", &Value::U64(2)).unwrap();
    store.delete_all(&mut writer, b"k").unwrap();
    assert_eq!(store.get_first(&writer, b"k").unwrap(), None);
    writer.commit().unwrap();
}

#[test]
fn integer_stores_use_integer_keys() {
    let dir = temp_dir();
    let mut env = Rkv::new(&path_of(&dir), true).unwrap();
    let store = env.open_integer("i", Options::create()).unwrap();
    let multi = env.open_multi_integer("mi", Options::create()).unwrap();
    let mut writer = env.write().unwrap();
    store.put(&mut writer, 7, &Value::Str("seven".to_string())).unwrap();
    store.put(&mut writer, 7, &Value::Str("SEVEN".to_string())).unwrap();
    multi.put(&mut writer, 3, &Value::U64(1)).unwrap();
    multi.put(&mut writer, 3, &Value::U64(2)).unwrap();
    writer.commit().unwrap();
    let reader = env.read().unwrap();
    assert_eq!(store.get(&reader, 7).unwrap(), Some(Value::Str("SEVEN".to_string())));
    assert_eq!(store.get(&reader, 8).unwrap(), None);
    assert_eq!(multi.get(&reader, 3).unwrap(), vec![Value::U64(1), Value::U64(2)]);
    reader.abort();
    let mut writer = env.write().unwrap();
    store.delete(&mut writer, 7).unwrap();
    multi.delete(&mut writer, 3, &Value::U64(1)).unwrap();
    writer.commit().unwrap();
    let reader = env.read().unwrap();
    assert_eq!(store.get(&reader, 7).unwrap(), None);
    assert_eq!(multi.get(&reader, 3).unwrap(), vec![Value::U64(2)]);
}

#[test]
fn integer_key_is_little_endian() {
    assert_eq!(integer_key(0x01020304), vec![4, 3, 2, 1]);
}

#[test]
fn two_stores_in_one_environment_are_isolated() {
    let dir = temp_dir();
    let mut env = Rkv::with_capacity(&path_of(&dir), true, 2).unwrap();
    let a = env.open_single("a", Options::create()).unwrap();
    let b = env.open_single("b", Options::create()).unwrap();
    let mut writer = env.write().unwrap();
    a.put(&mut writer, b"x", &Value::Str("1".to_string())).unwrap();
    b.put(&mut writer, b"x", &Value::Str("2".to_string())).unwrap();
    writer.commit().unwrap();
    let reader = env.read().unwrap();
    assert_eq!(a.get(&reader, b"x").unwrap(), Some(Value::Str("1".to_string())));
    assert_eq!(b.get(&reader, b"x").unwrap(), Some(Value::Str("2".to_string())));
}

#[test]
fn more_stores_than_max_dbs_is_a_backend_error() {
    let dir = temp_dir();
    let mut env = Rkv::with_capacity(&path_of(&dir), true, 1).unwrap();
    env.open_single("a", Options::create()).unwrap();
    assert!(matches!(env.open_single("b", Options::create()), Err(StoreError::LmdbError(lmdb::Error::DbsFull))));
}

#[test]
fn reopening_a_store_with_another_kind_fails() {
    let dir = temp_dir();
    let mut env = Rkv::new(&path_of(&dir), true).unwrap();
    env.open_single("s", Options::create()).unwrap();
    assert!(env.open_single("s", Options::create()).is_ok());
    match env.open_multi("s", Options::create()) {
        Err(StoreError::StoreKindMismatch { name, existing, requested }) => {
            assert_eq!(name, "s");
            assert_eq!(existing, StoreKind::Single);
            assert_eq!(requested, StoreKind::Multi);
        },
        other => panic!("unexpected {:?}", other.map(|_| ())),
    }
}

#[test]
fn opening_a_missing_store_without_create_fails() {
    let dir = temp_dir();
    let mut env = Rkv::new(&path_of(&dir), true).unwrap();
    assert!(matches!(
        env.open_single("absent", Options { create: false }),
        Err(StoreError::LmdbError(lmdb::Error::NotFound))
    ));
}

#[test]
fn missing_directory_is_reported() {
    let dir = temp_dir();
    let missing = format!("{}/nope", path_of(&dir));
    match Rkv::new(&missing, false) {
        Err(StoreError::DirectoryDoesNotExistError(p)) => assert_eq!(p, missing),
        _ => panic!("expected a missing-directory error"),
    }
}

#[test]
fn directory_plan_follows_make_dir() {
    let mut builder = EnvironmentBuilderImpl::new();
    assert_eq!(builder.plan_directory(true), DirectoryPlan::Open);
    assert_eq!(builder.plan_directory(false), DirectoryPlan::Refuse);
    builder.set_make_dir_if_needed(true).set_max_dbs(3);
    assert_eq!(builder.plan_directory(false), DirectoryPlan::Create);
    assert_eq!(builder.max_dbs, Some(3));
    assert!(builder.make_dir);
}

#[test]
fn malformed_stored_bytes_give_a_data_error() {
    let raw: Result<Option<Vec<u8>>, StoreError> = Ok(Some(vec![2, 1]));
    assert!(matches!(
        decode_found(raw),
        Err(StoreError::DataError(DataError::DecodingError { value_type: Type::U64, .. }))
    ));
    assert!(matches!(decode_found(Ok(None)), Ok(None)));
    assert!(matches!(decode_found(Ok(Some(encode(&Value::U64(5))))), Ok(Some(Value::U64(5)))));
}

#[test]
fn manager_reopen_sees_persisted_value() {
    let dir = temp_dir();
    let path = path_of(&dir);
    let mut manager = Manager::new();
    {
        let handle = manager.get_or_create(&path, |p| Rkv::new(p, true)).unwrap();
        let mut env = handle.write().unwrap();
        let store = env.open_single("s", Options::create()).unwrap();
        let mut writer = env.write().unwrap();
        store.put(&mut writer, b"k", &Value::I64(42)).unwrap();
        writer.commit().unwrap();
    }
    let handle = manager.get_or_create(&path, |p| Rkv::new(p, true)).unwrap();
    let mut env = handle.write().unwrap();
    let store = env.open_single("s", Options::create()).unwrap();
    let reader = env.read().unwrap();
    assert_eq!(store.get(&reader, b"k").unwrap(), Some(Value::I64(42)));
}

#[test]
fn manager_calls_factory_once_per_path() {
    let dir = temp_dir();
    let path = path_of(&dir);
    let calls = Cell::new(0u32);
    let mut manager = Manager::new();
    let first = manager
        .get_or_create(&path, |p| {
            calls.set(calls.get() + 1);
            Rkv::new(p, true)
        })
        .unwrap();
    let second = manager
        .get_or_create(&path, |p| {
            calls.set(calls.get() + 1);
            Rkv::new(p, true)
        })
        .unwrap();
    assert_eq!(calls.get(), 1);
    assert!(std::sync::Arc::ptr_eq(&first, &second));
    assert!(std::sync::Arc::ptr_eq(&first, &manager.get(&path).unwrap()));
    assert!(manager.remove(&path));
    assert!(manager.get(&path).is_none());
    assert!(!manager.remove(&path));
}

#[test]
fn manager_failed_factory_registers_nothing() {
    let dir = temp_dir();
    let missing = format!("{}/nope", path_of(&dir));
    let mut manager = Manager::new();
    assert!(manager.get_or_create(&missing, |p| Rkv::new(p, false)).is_err());
    assert!(manager.get(&missing).is_none());
}

#[test]
fn environment_passes_through_engine_operations() {
    let dir = temp_dir();
    let mut builder = EnvironmentBuilderImpl::new();
    builder.set_max_readers(8).set_map_size(1 << 22).set_max_dbs(2).set_flags(0);
    let env = builder.open(&path_of(&dir), true, Ok(())).unwrap();
    env.create_db(Some("d"), 0).unwrap();
    assert!(env.open_db(Some("d")).is_ok());
    assert!(env.sync(true).is_ok());
    assert!(env.stat().is_ok());
    assert_eq!(env.info().unwrap().max_readers(), 8);
    assert!(env.freelist().is_ok());
    assert!(env.set_map_size(1 << 23).is_ok());
    assert_eq!(env.info().unwrap().map_size(), 1 << 23);
    assert!(env.begin_ro_txn().is_ok());
    assert!(env.begin_rw_txn().is_ok());
}

#[test]
fn environment_reports_sync_stat_and_info() {
    let dir = temp_dir();
    let env = Rkv::new(&path_of(&dir), true).unwrap();
    assert!(env.sync(true).is_ok());
    assert!(env.stat().is_ok());
    assert!(env.info().is_ok());
    assert_eq!(env.path(), path_of(&dir));
}

#[test]
fn store_name_with_nul_is_refused() {
    let dir = temp_dir();
    let mut env = Rkv::new(&path_of(&dir), true).unwrap();
    match env.open_single("a\0b", Options::create()) {
        Err(StoreError::InvalidStoreName(n)) => assert_eq!(n, "a\0b"),
        other => panic!("unexpected {:?}", other.map(|_| ())),
    }
    assert!(env.open_single("ab", Options::create()).is_ok());
}

#[test]
fn reopening_a_store_gives_the_same_handle() {
    let dir = temp_dir();
    let mut env = Rkv::new(&path_of(&dir), true).unwrap();
    let first = env.open_multi("m", Options::create()).unwrap();
    let second = env.open_multi("m", Options { create: false }).unwrap();
    assert_eq!(first.db, second.db);
}

#[test]
fn missing_directory_with_make_dir_reports_failed_creation() {
    let dir = temp_dir();
    let missing = format!("{}/nope", path_of(&dir));
    let mut builder = EnvironmentBuilderImpl::new();
    builder.set_make_dir_if_needed(true);
    match Rkv::from_builder(&missing, false, Err("permission denied".to_string()), &builder) {
        Err(StoreError::IoError(m)) => assert_eq!(m, "permission denied"),
        _ => panic!("expected an I/O error"),
    }
}

#[test]
fn missing_directory_with_make_dir_opens_after_creation() {
    let dir = temp_dir();
    let mut builder = EnvironmentBuilderImpl::new();
    builder.set_make_dir_if_needed(true).set_max_dbs(1);
    let mut env = Rkv::from_builder(&path_of(&dir), false, Ok(()), &builder).unwrap();
    assert!(env.open_single("s", Options::create()).is_ok());
}

#[test]
fn missing_directory_without_make_dir_ignores_creation() {
    let dir = temp_dir();
    let missing = format!("{}/nope", path_of(&dir));
    let builder = EnvironmentBuilderImpl::new();
    match Rkv::from_builder(&missing, false, Err("unused".to_string()), &builder) {
        Err(StoreError::DirectoryDoesNotExistError(p)) => assert_eq!(p, missing),
        _ => panic!("expected a missing-directory error"),
    }
}

#[test]
fn typed_read_refuses_a_value_of_another_type() {
    let dir = temp_dir();
    let mut env = Rkv::new(&path_of(&dir), true).unwrap();
    let store = env.open_single("s", Options::create()).unwrap();
    let mut writer = env.write().unwrap();
    store.put(&mut writer, b"k", &Value::I64(42)).unwrap();
    writer.commit().unwrap();
    let reader = env.read().unwrap();
    assert_eq!(store.get_as(&reader, b"k", Type::I64).unwrap(), Some(Value::I64(42)));
    assert!(matches!(
        store.get_as(&reader, b"k", Type::Str),
        Err(StoreError::DataError(DataError::UnexpectedType { expected: Type::Str, actual: Type::I64 }))
    ));
    assert_eq!(store.get_as(&reader, b"absent", Type::Str).unwrap(), None);
}

#[test]
fn typed_decode_of_lookup_results() {
    assert!(matches!(
        decode_found_expected(Ok(Some(encode(&Value::U64(7)))), Type::Bool),
        Err(StoreError::DataError(DataError::UnexpectedType { expected: Type::Bool, actual: Type::U64 }))
    ));
    assert!(matches!(decode_found_expected(Ok(Some(encode(&Value::U64(7)))), Type::U64), Ok(Some(Value::U64(7)))));
    assert!(matches!(decode_found_expected(Ok(None), Type::U64), Ok(None)));
    assert!(matches!(
        decode_found_expected(Ok(Some(vec![200])), Type::U64),
        Err(StoreError::DataError(DataError::UnknownType { tag: 200, .. }))
    ));
}
