use apps_inventory::api_error::ApiError;
use apps_inventory::apps_service::AppsService;
use apps_inventory::models::{AppCategory, AppState};
use apps_inventory::repository::AppsStore;
use apps_inventory::repository_errors::{
    AddAppError, CreateAppError, DeleteAppError, GetAppError, UpdateAppError,
};
use apps_inventory::routes::{
    AddAppHttpRequestBody, CreateAppHttpRequestBody, SearchAppsQueryParams,
    UpdateAppHttpRequestBody,
};

fn service() -> AppsService {
    let mut store = AppsStore::new();
    store.create_atomic_counter();
    AppsService::new(store)
}

fn create_request(name: &str) -> CreateAppHttpRequestBody {
    CreateAppHttpRequestBody {
        name: name.to_string(),
        state: AppState::Discovered,
        url: format!("https://{}.example", name.to_lowercase()),
        category: AppCategory::Other,
        description: "d".to_string(),
        tags: None,
    }
}

fn empty_patch() -> UpdateAppHttpRequestBody {
    UpdateAppHttpRequestBody {
        name: None,
        state: None,
        url: None,
        category: None,
        description: None,
        tags: None,
    }
}

#[test]
fn create_then_get_returns_equal_entity() {
    let mut svc = service();
    let created = svc.create_app(create_request("Alpha"), 100).unwrap();
    let fetched = svc.get_app(created.id).unwrap();
    assert_eq!(created, fetched);
}

#[test]
fn create_app_seeds_scenario() {
    let mut svc = service();
    let req = CreateAppHttpRequestBody {
        name: "Foo".to_string(),
        state: AppState::Discovered,
        url: "https://foo.com".to_string(),
        category: AppCategory::Other,
        description: "d".to_string(),
        tags: None,
    };
    let created = svc.create_app(req, 10).unwrap();
    assert_eq!(created.id, 1101); // seed + 1
    assert!(created.is_custom);
    assert_eq!(created.name, "Foo");
    assert_eq!(created.url, "https://foo.com");
    assert_eq!(created.state, AppState::Discovered);
    assert_eq!(created.category, AppCategory::Other);
    // The request's description is not persisted: fresh records start bare.
    assert_eq!(created.description, None);
    assert_eq!(created.creation_time, 10);

    let req2 = CreateAppHttpRequestBody {
        name: "Foo".to_string(),
        state: AppState::Discovered,
        url: "https://foo.com".to_string(),
        category: AppCategory::Other,
        description: "d".to_string(),
        tags: None,
    };
    let err = svc.create_app(req2, 20).unwrap_err();
    match &err {
        CreateAppError::ResourceAlreadyExists { name } => assert_eq!(name, "Foo"),
        other => panic!("expected ResourceAlreadyExists, got {other:?}"),
    }
    assert_eq!(ApiError::from_create_app(err).status_code(), 409);
}

#[test]
fn create_app_mints_increasing_ids() {
    let mut svc = service();
    let a = svc.create_app(create_request("One"), 1).unwrap();
    let b = svc.create_app(create_request("Two"), 2).unwrap();
    let c = svc.create_app(create_request("Three"), 3).unwrap();
    assert!(a.id < b.id && b.id < c.id);
    assert_eq!((a.id, b.id, c.id), (1101, 1102, 1103));
}

#[test]
fn add_app_unknown_catalog_id_fails() {
    let mut svc = service();
    let err = svc
        .add_app(AddAppHttpRequestBody { id_app: 999 }, 0)
        .unwrap_err();
    assert_eq!(err, AddAppError::ResourceNotFound(999));
    let err = svc
        .add_app(AddAppHttpRequestBody { id_app: 1004 }, 0)
        .unwrap_err();
    assert_eq!(err, AddAppError::ResourceNotFound(1004));
}

#[test]
fn add_app_twice_fails_already_exists() {
    let mut svc = service();
    let added = svc
        .add_app(AddAppHttpRequestBody { id_app: 1000 }, 5)
        .unwrap();
    assert_eq!(added.id, 1000);
    assert_eq!(added.name, "Salesforce");
    assert!(!added.is_custom);

    let err = svc
        .add_app(AddAppHttpRequestBody { id_app: 1000 }, 6)
        .unwrap_err();
    match err {
        AddAppError::ResourceAlreadyExists { name } => assert_eq!(name, "Salesforce"),
        other => panic!("expected ResourceAlreadyExists, got {other:?}"),
    }
}

#[test]
fn delete_app_missing_then_after_create() {
    let mut svc = service();
    assert_eq!(
        svc.delete_app(77).unwrap_err(),
        DeleteAppError::ResourceNotFound(77)
    );
    let created = svc.create_app(create_request("Gone"), 1).unwrap();
    svc.delete_app(created.id).unwrap();
    assert_eq!(
        svc.get_app(created.id).unwrap_err(),
        GetAppError::ResourceNotFound(created.id)
    );
}

#[test]
fn update_app_missing_id_fails() {
    let mut svc = service();
    let err = svc.update_app(empty_patch(), 500, 1).unwrap_err();
    assert_eq!(err, UpdateAppError::ResourceNotFound(500));
}

#[test]
fn update_app_merges_and_overwrites_asymmetrically() {
    let mut svc = service();
    let created = svc.create_app(create_request("Patchy"), 10).unwrap();

    // Give the record a description and tags first.
    let mut fill = empty_patch();
    fill.description = Some("old description".to_string());
    fill.tags = Some("old,tags".to_string());
    let filled = svc.update_app(fill, created.id, 20).unwrap();
    assert_eq!(filled.description, Some("old description".to_string()));
    assert_eq!(filled.tags, Some("old,tags".to_string()));
    assert_eq!(filled.last_updated_at, 20);

    // A patch that supplies only a name keeps state, url and category, but
    // overwrites description and tags with its own (absent) values.
    let mut rename = empty_patch();
    rename.name = Some("X".to_string());
    let updated = svc.update_app(rename, created.id, 30).unwrap();
    assert_eq!(updated.name, "X");
    assert_eq!(updated.state, created.state);
    assert_eq!(updated.url, created.url);
    assert_eq!(updated.category, created.category);
    assert_eq!(updated.description, None);
    assert_eq!(updated.tags, None);
    assert_eq!(updated.creation_time, created.creation_time);
    assert_eq!(updated.last_updated_at, 30);
    assert_eq!(updated.id, created.id);

    let fetched = svc.get_app(created.id).unwrap();
    assert_eq!(fetched, updated);
}

#[test]
fn update_app_can_replace_each_field() {
    let mut svc = service();
    let created = svc.create_app(create_request("Fields"), 1).unwrap();
    let patch = UpdateAppHttpRequestBody {
        name: Some("Renamed".to_string()),
        state: Some(AppState::Closed),
        url: Some("https://renamed.example".to_string()),
        category: Some(AppCategory::Finance),
        description: Some("desc".to_string()),
        tags: Some("a,b".to_string()),
    };
    let updated = svc.update_app(patch, created.id, 2).unwrap();
    assert_eq!(updated.name, "Renamed");
    assert_eq!(updated.state, AppState::Closed);
    assert_eq!(updated.url, "https://renamed.example");
    assert_eq!(updated.category, AppCategory::Finance);
    assert_eq!(updated.description, Some("desc".to_string()));
    assert_eq!(updated.tags, Some("a,b".to_string()));
}

#[test]
fn list_apps_reflects_store() {
    let mut svc = service();
    assert!(svc.list_apps().unwrap().is_empty());
    svc.add_app(AddAppHttpRequestBody { id_app: 1001 }, 0)
        .unwrap();
    svc.create_app(create_request("Mine"), 0).unwrap();
    let all = svc.list_apps().unwrap();
    assert_eq!(all.len(), 2);
}

#[test]
fn search_finds_substring_matches_only() {
    let mut svc = service();
    // A store containing "GitHub" (from the catalog) and a custom "cats".
    svc.add_app(AddAppHttpRequestBody { id_app: 1002 }, 0)
        .unwrap();
    svc.create_app(create_request("cats"), 0).unwrap();

    let hits = svc
        .search_apps(SearchAppsQueryParams {
            query: "Git".to_string(),
        })
        .unwrap();
    assert_eq!(hits.len(), 1);
    assert_eq!(hits[0].name, "GitHub");

    // The match is case-sensitive: a lower-case query misses "GitHub".
    let miss = svc
        .search_apps(SearchAppsQueryParams {
            query: "git".to_string(),
        })
        .unwrap();
    assert!(miss.is_empty());

    let cats = svc
        .search_apps(SearchAppsQueryParams {
            query: "cat".to_string(),
        })
        .unwrap();
    assert_eq!(cats.len(), 1);
    assert_eq!(cats[0].name, "cats");

    // The empty query matches everything.
    let everything = svc
        .search_apps(SearchAppsQueryParams {
            query: String::new(),
        })
        .unwrap();
    assert_eq!(everything.len(), 2);
}

#[test]
fn api_error_mapping_and_status_codes() {
    let e = ApiError::from_get_app(GetAppError::ResourceNotFound(7));
    assert_eq!(e, ApiError::ResourceNotFound("7".to_string()));
    assert_eq!(e.status_code(), 404);

    let e = ApiError::from_add_app(AddAppError::ResourceNotFound(1004));
    assert_eq!(e, ApiError::ResourceNotFound("1004".to_string()));

    let e = ApiError::from_create_app(CreateAppError::ResourceAlreadyExists {
        name: "Foo".to_string(),
    });
    assert_eq!(e, ApiError::ResourceAlreadyExists("Foo".to_string()));
    assert_eq!(e.status_code(), 409);

    let e = ApiError::from_update_app(UpdateAppError::ValidationError("bad".to_string()));
    assert_eq!(e, ApiError::ValidationError("bad".to_string()));
    assert_eq!(e.status_code(), 400);

    let e = ApiError::from_delete_app(DeleteAppError::UnexpectedError);
    assert_eq!(e, ApiError::InternalServerError);
    assert_eq!(e.status_code(), 500);
}
