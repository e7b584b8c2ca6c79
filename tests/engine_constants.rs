use heed_codec::{AllDatabaseFlags, DeleteFlags, EnvFlags, PutFlags};
use lmdb_master_sys as ffi;

#[test]
fn env_flags_match_engine() {
    assert_eq!(EnvFlags::fixedmap().bits(), ffi::MDB_FIXEDMAP);
    assert_eq!(EnvFlags::no_sub_dir().bits(), ffi::MDB_NOSUBDIR);
    assert_eq!(EnvFlags::no_sync().bits(), ffi::MDB_NOSYNC);
    assert_eq!(EnvFlags::read_only().bits(), ffi::MDB_RDONLY);
    assert_eq!(EnvFlags::no_meta_sync().bits(), ffi::MDB_NOMETASYNC);
    assert_eq!(EnvFlags::write_map().bits(), ffi::MDB_WRITEMAP);
    assert_eq!(EnvFlags::map_async().bits(), ffi::MDB_MAPASYNC);
    assert_eq!(EnvFlags::no_tls().bits(), ffi::MDB_NOTLS);
    assert_eq!(EnvFlags::no_lock().bits(), ffi::MDB_NOLOCK);
    assert_eq!(EnvFlags::no_read_ahead().bits(), ffi::MDB_NORDAHEAD);
    assert_eq!(EnvFlags::no_mem_init().bits(), ffi::MDB_NOMEMINIT);
}

#[test]
fn database_flags_match_engine() {
    assert_eq!(AllDatabaseFlags::reverse_key().bits(), ffi::MDB_REVERSEKEY);
    assert_eq!(AllDatabaseFlags::dup_sort().bits(), ffi::MDB_DUPSORT);
    assert_eq!(AllDatabaseFlags::integer_key().bits(), ffi::MDB_INTEGERKEY);
    assert_eq!(AllDatabaseFlags::dup_fixed().bits(), ffi::MDB_DUPFIXED);
    assert_eq!(AllDatabaseFlags::integer_dup().bits(), ffi::MDB_INTEGERDUP);
    assert_eq!(AllDatabaseFlags::reverse_dup().bits(), ffi::MDB_REVERSEDUP);
    assert_eq!(AllDatabaseFlags::create().bits(), ffi::MDB_CREATE);
}

#[test]
fn put_and_delete_flags_match_engine() {
    assert_eq!(PutFlags::no_dup_data().bits(), ffi::MDB_NODUPDATA);
    assert_eq!(PutFlags::no_overwrite().bits(), ffi::MDB_NOOVERWRITE);
    assert_eq!(PutFlags::append().bits(), ffi::MDB_APPEND);
    assert_eq!(PutFlags::append_dup().bits(), ffi::MDB_APPENDDUP);
    assert_eq!(DeleteFlags::no_dup_data().bits(), ffi::MDB_NODUPDATA);
}
