use apps_inventory::apps_service::get_default_app;
use apps_inventory::models::{App, AppCategory, AppState};
use apps_inventory::repository::{AppsStore, DynamoCounter, COUNTER_SEED};
use apps_inventory::repository_errors::{
    classify_add_failure, classify_create_failure, classify_delete_failure, classify_get_failure,
    classify_list_failure, classify_update_failure, AddAppError, CreateAppError, DeleteAppError,
    GetAppError, ListAppsError, StoreFailure, UpdateAppError,
};
use apps_inventory::routes::delete_app_message;
use apps_inventory::text::{contains_substring, u16_to_string};

fn custom(id: u16, name: &str, now: i64) -> App {
    App::new_custom(
        id,
        name.to_string(),
        AppState::Discovered,
        format!("https://{name}.example"),
        AppCategory::Other,
        None,
        now,
    )
}

#[test]
fn counter_bootstrap_seeds_once() {
    let mut store = AppsStore::new();
    store.create_atomic_counter();
    let first = store.get_id().unwrap();
    assert_eq!(first, COUNTER_SEED + 1);

    // Bootstrapping again must be a no-op on an existing counter row.
    let mut store2 = AppsStore::new();
    store2.create_atomic_counter();
    store2.create_atomic_counter();
    assert_eq!(store2.get_id().unwrap(), COUNTER_SEED + 1);
}

#[test]
fn get_id_is_strictly_increasing() {
    let mut store = AppsStore::new();
    store.create_atomic_counter();
    let a = store.get_id().unwrap();
    let b = store.get_id().unwrap();
    let c = store.get_id().unwrap();
    assert!(a < b && b < c);
    assert_eq!((a, b, c), (1101, 1102, 1103));
    // Never a catalog id: the catalog stops at 1003, below the seed.
    for id in [a, b, c] {
        assert!(get_default_app(id, 0).is_none());
    }
}

#[test]
fn add_app_is_conditional_on_absence() {
    let mut store = AppsStore::new();
    let row = custom(7, "seven", 1);
    let stored = store.add_app(row.clone()).unwrap();
    assert_eq!(stored, row);

    let again = store.add_app(custom(7, "seven-bis", 2));
    match again {
        Err(AddAppError::ResourceAlreadyExists { name }) => assert_eq!(name, "seven-bis"),
        other => panic!("expected ResourceAlreadyExists, got {other:?}"),
    }
    // The losing write left the first row in place.
    assert_eq!(store.get_app(7).unwrap().name, "seven");
}

#[test]
fn create_app_is_conditional_on_absence() {
    let mut store = AppsStore::new();
    store.create_app(custom(9, "nine", 1)).unwrap();
    let again = store.create_app(custom(9, "nine", 1));
    match again {
        Err(CreateAppError::ResourceAlreadyExists { name }) => assert_eq!(name, "nine"),
        other => panic!("expected ResourceAlreadyExists, got {other:?}"),
    }
}

#[test]
fn get_app_miss_and_hit() {
    let mut store = AppsStore::new();
    assert_eq!(
        store.get_app(3).unwrap_err(),
        GetAppError::ResourceNotFound(3)
    );
    let row = custom(3, "three", 4);
    store.add_app(row.clone()).unwrap();
    assert_eq!(store.get_app(3).unwrap(), row);
}

#[test]
fn delete_app_is_conditional_on_existence() {
    let mut store = AppsStore::new();
    assert_eq!(
        store.delete_app(12).unwrap_err(),
        DeleteAppError::ResourceNotFound(12)
    );
    store.add_app(custom(12, "twelve", 0)).unwrap();
    store.delete_app(12).unwrap();
    assert_eq!(
        store.get_app(12).unwrap_err(),
        GetAppError::ResourceNotFound(12)
    );
}

#[test]
fn update_app_overwrites_unconditionally() {
    let mut store = AppsStore::new();
    store.add_app(custom(5, "before", 0)).unwrap();
    let replacement = custom(5, "after", 9);
    let returned = store.update_app(replacement.clone()).unwrap();
    assert_eq!(returned, replacement);
    assert_eq!(store.get_app(5).unwrap().name, "after");
    assert_eq!(store.list_apps().unwrap().len(), 1);
}

#[test]
fn list_apps_returns_every_row() {
    let mut store = AppsStore::new();
    assert!(store.list_apps().unwrap().is_empty());
    store.add_app(custom(1, "one", 0)).unwrap();
    store.add_app(custom(2, "two", 0)).unwrap();
    let rows = store.list_apps().unwrap();
    assert_eq!(rows.len(), 2);
    let names: Vec<&str> = rows.iter().map(|a| a.name.as_str()).collect();
    assert!(names.contains(&"one") && names.contains(&"two"));
}

#[test]
fn get_app_by_name_finds_exact_names_only() {
    let mut store = AppsStore::new();
    store.add_app(custom(1, "Alpha", 0)).unwrap();
    assert!(store.get_app_by_name(&"Alpha".to_string()).is_some());
    assert!(store.get_app_by_name(&"alpha".to_string()).is_none());
    assert!(store.get_app_by_name(&"Alph".to_string()).is_none());
}

#[test]
fn counter_row_uses_reserved_key() {
    let row = DynamoCounter::new(1100);
    assert_eq!(row.pk, "atomic_counter");
    assert_eq!(row.count, 1100);
}

#[test]
fn row_keys_render_ids_in_decimal() {
    assert_eq!(AppsStore::row_key(0), "0");
    assert_eq!(u16_to_string(7), "7");
    assert_eq!(u16_to_string(42), "42");
    assert_eq!(u16_to_string(1000), "1000");
    assert_eq!(u16_to_string(u16::MAX), "65535");
}

#[test]
fn delete_message_frames_the_id() {
    assert_eq!(delete_app_message(17), "App 17 deleted");
    assert_eq!(delete_app_message(0), "App 0 deleted");
}

#[test]
fn substring_search_is_case_sensitive() {
    assert!(contains_substring("hello world", "lo wo"));
    assert!(contains_substring("hello", ""));
    assert!(contains_substring("", ""));
    assert!(!contains_substring("", "x"));
    assert!(!contains_substring("abc", "abcd"));
    assert!(contains_substring("GitHub", "Git"));
    assert!(!contains_substring("GitHub", "git"));
}

#[test]
fn store_failures_classify_per_operation() {
    assert_eq!(
        classify_get_failure(StoreFailure::ResourceMissing, 4),
        GetAppError::ResourceNotFound(4)
    );
    assert_eq!(
        classify_get_failure(StoreFailure::Other, 4),
        GetAppError::UnexpectedError
    );
    assert_eq!(
        classify_add_failure(StoreFailure::ConditionFailed, "x".to_string()),
        AddAppError::ResourceAlreadyExists {
            name: "x".to_string()
        }
    );
    assert_eq!(
        classify_add_failure(StoreFailure::Other, "x".to_string()),
        AddAppError::UnexpectedError
    );
    assert_eq!(
        classify_create_failure(StoreFailure::ConditionFailed, "y".to_string()),
        CreateAppError::ResourceAlreadyExists {
            name: "y".to_string()
        }
    );
    assert_eq!(
        classify_delete_failure(StoreFailure::ConditionFailed, 9),
        DeleteAppError::ResourceNotFound(9)
    );
    assert_eq!(
        classify_delete_failure(StoreFailure::Other, 9),
        DeleteAppError::UnexpectedError
    );
    assert_eq!(
        classify_list_failure(StoreFailure::Other),
        ListAppsError::UnexpectedError
    );
    assert_eq!(
        classify_update_failure(StoreFailure::ConditionFailed),
        UpdateAppError::UnexpectedError
    );
}
