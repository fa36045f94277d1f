use capabilityapi::capabilities::handle_change_password;
use capabilityapi::capabilities::handle_create_user;
use capabilityapi::capabilities::handle_delete_user;
use capabilityapi::capabilities::handle_find_all_users;
use capabilityapi::capabilities::handle_find_user;
use capabilityapi::capabilities::handle_update_user;
use capabilityapi::capabilities::CanDeleteUserData;
use capabilityapi::database::http_status;
use capabilityapi::database::insert_outcome;
use capabilityapi::database::row_outcome;
use capabilityapi::database::rows_affected_outcome;
use capabilityapi::database::DatabaseError;
use capabilityapi::database::MemoryStore;
use capabilityapi::model::User;

fn user(name: &str, password: &str) -> User {
    User { name: name.to_string(), password: password.to_string() }
}

fn delete_through_role<DB: CanDeleteUserData>(db: &mut DB, victim: User) -> Result<(), DatabaseError> {
    handle_delete_user(db, victim)
}

#[test]
fn does_it_work() {
    let mut store = MemoryStore::new();
    let _ = delete_through_role(&mut store, user("nobody", ""));
}

#[test]
fn create_then_read_returns_the_same_pair() {
    let mut store = MemoryStore::new();
    let created = handle_create_user(&mut store, user("Kenneth", "password")).unwrap();
    assert_eq!(created.name, "Kenneth");
    assert_eq!(created.password, "password");

    let read = handle_find_user(&mut store, "Kenneth".to_string()).unwrap();
    assert_eq!(read.name, "Kenneth");
    assert_eq!(read.password, "password");
}

#[test]
fn deleted_user_is_not_found() {
    let mut store = MemoryStore::new();
    handle_create_user(&mut store, user("Kenneth", "password")).unwrap();
    handle_delete_user(&mut store, user("Kenneth", "")).unwrap();

    let read = handle_find_user(&mut store, "Kenneth".to_string());
    assert!(matches!(read, Err(DatabaseError::NotFound)));
}

#[test]
fn read_all_counts_every_distinct_create() {
    let mut store = MemoryStore::new();
    assert!(handle_find_all_users(&mut store).unwrap().is_empty());

    handle_create_user(&mut store, user("a", "1")).unwrap();
    handle_create_user(&mut store, user("b", "2")).unwrap();
    handle_create_user(&mut store, user("c", "3")).unwrap();

    let all = handle_find_all_users(&mut store).unwrap();
    assert_eq!(all.len(), 3);
    let names: Vec<String> = all.iter().map(|u| u.name.clone()).collect();
    assert_eq!(names, vec!["a".to_string(), "b".to_string(), "c".to_string()]);
}

#[test]
fn create_on_occupied_key_is_a_conflict_and_mutates_nothing() {
    let mut store = MemoryStore::new();
    handle_create_user(&mut store, user("Kenneth", "password")).unwrap();

    let second = handle_create_user(&mut store, user("Kenneth", "other"));
    assert!(matches!(second, Err(DatabaseError::ConflictOnCreate)));

    let read = handle_find_user(&mut store, "Kenneth".to_string()).unwrap();
    assert_eq!(read.password, "password");
    assert_eq!(handle_find_all_users(&mut store).unwrap().len(), 1);
}

#[test]
fn mutating_a_missing_key_is_not_found_and_leaves_the_store_alone() {
    let mut store = MemoryStore::new();
    handle_create_user(&mut store, user("Kenneth", "password")).unwrap();

    let upd = handle_update_user(&mut store, user("ghost", "boo"));
    assert!(matches!(upd, Err(DatabaseError::NotFound)));
    let del = handle_delete_user(&mut store, user("ghost", ""));
    assert!(matches!(del, Err(DatabaseError::NotFound)));

    let all = handle_find_all_users(&mut store).unwrap();
    assert_eq!(all.len(), 1);
    assert_eq!(all[0].name, "Kenneth");
    assert_eq!(all[0].password, "password");
}

#[test]
fn ollie_lifecycle_scenario() {
    let mut store = MemoryStore::new();

    handle_create_user(&mut store, user("Ollie", "pffpff")).unwrap();
    let read = handle_find_user(&mut store, "Ollie".to_string()).unwrap();
    assert_eq!(read.name, "Ollie");
    assert_eq!(read.password, "pffpff");

    handle_update_user(&mut store, user("Ollie", "WoofWoof")).unwrap();
    let read = handle_find_user(&mut store, "Ollie".to_string()).unwrap();
    assert_eq!(read.password, "WoofWoof");

    handle_delete_user(&mut store, user("Ollie", "")).unwrap();
    let read = handle_find_user(&mut store, "Ollie".to_string());
    assert!(matches!(read, Err(DatabaseError::NotFound)));

    let all = handle_find_all_users(&mut store).unwrap();
    assert!(all.iter().all(|u| u.name != "Ollie"));
}

#[test]
fn change_password_through_the_combined_role() {
    let mut store = MemoryStore::new();
    handle_create_user(&mut store, user("Ollie", "pffpff")).unwrap();

    let updated =
        handle_change_password(&mut store, "Ollie".to_string(), "WoofWoof".to_string()).unwrap();
    assert_eq!(updated.password, "WoofWoof");
    let read = handle_find_user(&mut store, "Ollie".to_string()).unwrap();
    assert_eq!(read.password, "WoofWoof");

    let missing = handle_change_password(&mut store, "ghost".to_string(), "x".to_string());
    assert!(matches!(missing, Err(DatabaseError::NotFound)));
}

#[test]
fn update_keeps_storage_order() {
    let mut store = MemoryStore::new();
    handle_create_user(&mut store, user("a", "1")).unwrap();
    handle_create_user(&mut store, user("b", "2")).unwrap();
    handle_create_user(&mut store, user("c", "3")).unwrap();

    handle_update_user(&mut store, user("b", "two")).unwrap();
    let names: Vec<String> =
        handle_find_all_users(&mut store).unwrap().iter().map(|u| u.name.clone()).collect();
    assert_eq!(names, vec!["a".to_string(), "b".to_string(), "c".to_string()]);

    handle_delete_user(&mut store, user("b", "")).unwrap();
    let names: Vec<String> =
        handle_find_all_users(&mut store).unwrap().iter().map(|u| u.name.clone()).collect();
    assert_eq!(names, vec!["a".to_string(), "c".to_string()]);
}

#[test]
fn every_error_kind_maps_to_its_status() {
    assert_eq!(http_status(&DatabaseError::NotFound), 404);
    assert_eq!(http_status(&DatabaseError::ConflictOnCreate), 409);
    assert_eq!(http_status(&DatabaseError::StorageUnavailable), 500);
    assert_eq!(http_status(&DatabaseError::StatementFailed), 500);
}

#[test]
fn a_row_with_both_columns_becomes_a_user() {
    let u = row_outcome(Some("Kenneth".to_string()), Some("password".to_string())).unwrap();
    assert_eq!(u.name, "Kenneth");
    assert_eq!(u.password, "password");
}

#[test]
fn a_malformed_row_is_a_failed_statement() {
    assert!(matches!(
        row_outcome(None, Some("password".to_string())),
        Err(DatabaseError::StatementFailed)
    ));
    assert!(matches!(
        row_outcome(Some("Kenneth".to_string()), None),
        Err(DatabaseError::StatementFailed)
    ));
}

#[test]
fn zero_affected_rows_is_not_found() {
    assert!(matches!(rows_affected_outcome(0), Err(DatabaseError::NotFound)));
    assert!(matches!(rows_affected_outcome(1), Ok(())));
}

#[test]
fn insert_outcome_classifies_every_case() {
    let stored = insert_outcome(user("Kenneth", "password"), false, false).unwrap();
    assert_eq!(stored.name, "Kenneth");
    assert!(matches!(
        insert_outcome(user("Kenneth", "password"), true, true),
        Err(DatabaseError::ConflictOnCreate)
    ));
    assert!(matches!(
        insert_outcome(user("Kenneth", "password"), true, false),
        Err(DatabaseError::StatementFailed)
    ));
}
