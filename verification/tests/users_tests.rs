use data_utils::users::User;
use data_utils::users::UserDatabase;

fn sample_user(id: u64, name: &str) -> User {
    User {
        id,
        name: name.to_string(),
        email: format!("{}@example.com", name),
    }
}

#[test]
fn lookup_in_empty_directory() {
    let db = UserDatabase::new();
    assert!(db.get_user(1).is_none());
    assert!(db.get_user_ptr(1).is_none());
}

#[test]
fn lookup_after_insert() {
    let mut db = UserDatabase::new();
    db.add_user(sample_user(1, "alice"));
    let found = db.get_user(1).expect("user 1 was added");
    assert_eq!(found.id, 1);
    assert_eq!(found.name, "alice");
    assert_eq!(found.email, "alice@example.com");
}

#[test]
fn missing_id_is_reported_not_panicked() {
    let mut db = UserDatabase::new();
    db.add_user(sample_user(1, "alice"));
    assert!(db.get_user(2).is_none());
}

#[test]
fn last_write_wins_for_equal_ids() {
    let mut db = UserDatabase::new();
    db.add_user(sample_user(7, "old"));
    db.add_user(sample_user(7, "new"));
    let found = db.get_user(7).expect("user 7 was added");
    assert_eq!(found.name, "new");
}

#[test]
fn records_are_kept_apart_by_id() {
    let mut db = UserDatabase::new();
    db.add_user(sample_user(1, "alice"));
    db.add_user(sample_user(2, "bob"));
    assert_eq!(db.get_user(1).unwrap().name, "alice");
    assert_eq!(db.get_user(2).unwrap().name, "bob");
}

#[test]
fn checked_borrow_matches_lookup() {
    let mut db = UserDatabase::new();
    db.add_user(sample_user(3, "carol"));
    let via_ptr = db.get_user_ptr(3).expect("user 3 was added");
    assert_eq!(via_ptr.name, "carol");
    assert!(db.get_user_ptr(4).is_none());
}
