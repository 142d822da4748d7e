use apps_inventory::apps_service::{default_apps, get_default_app, AppsService};
use apps_inventory::models::{AppCategory, AppState};
use apps_inventory::repository::AppsStore;

fn service() -> AppsService {
    let mut store = AppsStore::new();
    store.create_atomic_counter();
    AppsService::new(store)
}

#[test]
fn catalog_lookup_salesforce() {
    let a = get_default_app(1000, 5).expect("1000 is a catalog id");
    assert_eq!(a.id, 1000);
    assert_eq!(a.name, "Salesforce");
    assert_eq!(a.url, "salesforce.com");
    assert_eq!(a.category, AppCategory::SalesAndMarketing);
    assert_eq!(a.state, AppState::Sanctioned);
    assert!(!a.is_custom);
    assert!(!a.is_hidden);
    assert_eq!(a.creation_time, 5);
    assert_eq!(a.last_updated_at, 5);
    assert_eq!(a.description, None);
    assert_eq!(a.tags, None);
    assert_eq!(a.added_by, "Default");
    assert_eq!(a.primary_owner, "N/A");
}

#[test]
fn catalog_lookup_zoom() {
    let a = get_default_app(1001, 0).expect("1001 is a catalog id");
    assert_eq!(a.name, "Zoom");
    assert_eq!(a.url, "zoom.com");
    assert_eq!(a.category, AppCategory::Productivity);
}

#[test]
fn catalog_lookup_github() {
    let a = get_default_app(1002, 0).expect("1002 is a catalog id");
    assert_eq!(a.name, "GitHub");
    assert_eq!(a.url, "github.com");
    assert_eq!(a.category, AppCategory::DeveloperTools);
}

#[test]
fn catalog_lookup_cats() {
    let a = get_default_app(1003, 0).expect("1003 is a catalog id");
    assert_eq!(a.name, "Cats");
    assert_eq!(a.url, "cats.com");
    assert_eq!(a.category, AppCategory::Other);
}

#[test]
fn catalog_lookup_unknown_ids() {
    assert!(get_default_app(999, 0).is_none());
    assert!(get_default_app(1004, 0).is_none());
    assert!(get_default_app(0, 0).is_none());
    assert!(get_default_app(u16::MAX, 0).is_none());
}

#[test]
fn default_apps_has_all_four() {
    let v = default_apps(3);
    assert_eq!(v.len(), 4);
    for (k, a) in v.iter().enumerate() {
        assert_eq!(a.id as usize, 1000 + k);
        assert!(!a.is_custom);
        assert_eq!(a.state, AppState::Sanctioned);
        assert_eq!(a.creation_time, 3);
    }
    assert_eq!(v[2].name, "GitHub");
}

#[test]
fn list_known_apps_projects_catalog() {
    let svc = service();
    let known = svc.list_known_apps();
    assert_eq!(known.len(), 4);
    assert_eq!(known[0].id, 1000);
    assert_eq!(known[0].name, "Salesforce");
    assert_eq!(known[0].url, "salesforce.com");
    assert_eq!(known[0].category, AppCategory::SalesAndMarketing);
    assert_eq!(known[1].id, 1001);
    assert_eq!(known[1].name, "Zoom");
    assert_eq!(known[2].id, 1002);
    assert_eq!(known[2].name, "GitHub");
    assert_eq!(known[3].id, 1003);
    assert_eq!(known[3].name, "Cats");
    assert_eq!(known[3].url, "cats.com");
    assert_eq!(known[3].category, AppCategory::Other);
}
