use heed_codec::{AllDatabaseFlags, DatabaseFlags, DeleteFlags, EnvFlags, PutFlags};

#[test]
fn database_flag_bits() {
    assert_eq!(DatabaseFlags::reverse_key().bits(), 2);
    assert_eq!(DatabaseFlags::dup_sort().bits(), 4);
    assert_eq!(DatabaseFlags::integer_key().bits(), 8);
    assert_eq!(DatabaseFlags::dup_fixed().bits(), 16);
    assert_eq!(DatabaseFlags::integer_dup().bits(), 32);
    assert_eq!(DatabaseFlags::reverse_dup().bits(), 64);
    assert_eq!(AllDatabaseFlags::create().bits(), 262144);
    assert_eq!(DatabaseFlags::all().bits(), 126);
}

#[test]
fn put_and_delete_flag_bits() {
    assert_eq!(PutFlags::no_overwrite().bits(), 16);
    assert_eq!(PutFlags::no_dup_data().bits(), 32);
    assert_eq!(PutFlags::append().bits(), 131072);
    assert_eq!(PutFlags::append_dup().bits(), 262144);
    assert_eq!(DeleteFlags::no_dup_data().bits(), 32);
    assert_eq!(DeleteFlags::all().bits(), 32);
}

#[test]
fn env_flag_bits() {
    assert_eq!(EnvFlags::fixedmap().bits(), 1);
    assert_eq!(EnvFlags::read_only().bits(), 131072);
    assert_eq!(EnvFlags::no_mem_init().bits(), 16777216);
    assert!(EnvFlags::all().is_all());
}

#[test]
fn union_and_contains() {
    let f = DatabaseFlags::dup_sort().union(DatabaseFlags::dup_fixed());
    assert_eq!(f.bits(), 20);
    assert!(f.contains(DatabaseFlags::dup_sort()));
    assert!(f.contains(DatabaseFlags::dup_fixed()));
    assert!(!f.contains(DatabaseFlags::reverse_key()));
    assert!(f.intersects(DatabaseFlags::dup_sort().union(DatabaseFlags::reverse_key())));
    assert!(!f.intersects(DatabaseFlags::reverse_key()));
}

#[test]
fn union_is_order_free() {
    let a = PutFlags::append().union(PutFlags::no_overwrite());
    let b = PutFlags::no_overwrite().union(PutFlags::append());
    assert_eq!(a, b);
}

#[test]
fn intersection_difference_complement() {
    let f = DatabaseFlags::dup_sort().union(DatabaseFlags::integer_dup());
    assert_eq!(f.intersection(DatabaseFlags::dup_sort()), DatabaseFlags::dup_sort());
    assert_eq!(f.difference(DatabaseFlags::dup_sort()), DatabaseFlags::integer_dup());
    assert_eq!(f.symmetric_difference(DatabaseFlags::dup_sort()).bits(), 32);
    assert_eq!(f.complement().bits(), 126 - 36);
}

#[test]
fn from_bits_rejects_unknown() {
    assert_eq!(DatabaseFlags::from_bits(6), Some(DatabaseFlags::reverse_key().union(DatabaseFlags::dup_sort())));
    assert_eq!(DatabaseFlags::from_bits(1), None);
    assert_eq!(DatabaseFlags::from_bits(262144), None);
    assert_eq!(AllDatabaseFlags::from_bits(262144), Some(AllDatabaseFlags::create()));
    assert_eq!(DatabaseFlags::from_bits_truncate(7).bits(), 6);
    assert_eq!(DatabaseFlags::from_bits_retain(7).bits(), 7);
}

#[test]
fn empty_set() {
    let e = DeleteFlags::empty();
    assert!(e.is_empty());
    assert!(!e.is_all());
    assert!(!DeleteFlags::no_dup_data().is_empty());
}

#[test]
fn insert_remove_toggle_set() {
    let mut f = PutFlags::empty();
    f.insert(PutFlags::append());
    assert_eq!(f, PutFlags::append());
    f.insert(PutFlags::append());
    assert_eq!(f, PutFlags::append());
    f.set(PutFlags::no_dup_data(), true);
    assert_eq!(f.bits(), 131072 + 32);
    f.remove(PutFlags::append());
    assert_eq!(f, PutFlags::no_dup_data());
    f.toggle(PutFlags::no_dup_data());
    assert!(f.is_empty());
    f.set(PutFlags::no_dup_data(), false);
    assert!(f.is_empty());
}
