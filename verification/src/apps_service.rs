//! The apps service: orchestrates the repository and the catalog registry,
//! and enforces the business rules — name uniqueness for custom records,
//! merge-on-update semantics, and substring search.

use vstd::prelude::*;
use crate::models::{default_optional_meta, App, AppCategory, AppState};
use crate::repository::{lemma_table_map_contains, lemma_table_map_index, AppsStore, COUNTER_SEED};
use crate::repository_errors::{AddAppError, CreateAppError, DeleteAppError, GetAppError,
    ListAppsError, UpdateAppError};
use crate::routes::{AddAppHttpRequestBody, CreateAppHttpRequestBody, SearchAppsQueryParams,
    UpdateAppHttpRequestBody};
use crate::text::contains_sub;
use crate::text::contains_substring;

verus! {

/// The read-only projection of one catalog entry: id, name, category, url.
/// Never persisted; recomputed from the catalog on every request.
#[derive(Clone, Debug)]
pub struct KnownApp {
    pub id: u16,
    pub name: String,
    pub category: AppCategory,
    pub url: String,
}

/// The ids the catalog registry knows.
pub open spec fn is_catalog_id(id: u16) -> bool {
    1000 <= id <= 1003
}

/// The name of the catalog entry with a given id.
pub open spec fn catalog_name(id: u16) -> Seq<char> {
    if id == 1000 {
        "Salesforce"@
    } else if id == 1001 {
        "Zoom"@
    } else if id == 1002 {
        "GitHub"@
    } else {
        "Cats"@
    }
}

/// The url of the catalog entry with a given id.
pub open spec fn catalog_url(id: u16) -> Seq<char> {
    if id == 1000 {
        "salesforce.com"@
    } else if id == 1001 {
        "zoom.com"@
    } else if id == 1002 {
        "github.com"@
    } else {
        "cats.com"@
    }
}

/// The category of the catalog entry with a given id.
pub open spec fn catalog_category(id: u16) -> AppCategory {
    if id == 1000 {
        AppCategory::SalesAndMarketing
    } else if id == 1001 {
        AppCategory::Productivity
    } else if id == 1002 {
        AppCategory::DeveloperTools
    } else {
        AppCategory::Other
    }
}

/// `a` is the full catalog template row for `id`, stamped at `now`: the
/// catalog's name, url and category, sanctioned, not custom, and every
/// other field at its default.
pub open spec fn is_catalog_template(a: App, id: u16, now: i64) -> bool {
    &&& default_optional_meta(a)
    &&& a.id == id
    &&& a.name@ == catalog_name(id)
    &&& a.url@ == catalog_url(id)
    &&& a.category == catalog_category(id)
    &&& a.state == AppState::Sanctioned
    &&& a.description is None
    &&& a.tags is None
    &&& a.is_custom == false
    &&& a.creation_time == now
    &&& a.last_updated_at == now
}

/// `a` is the record that a custom creation request yields under a minted
/// id at time `now`: the request's fields, `is_custom` set, and every
/// remaining field at its default.
pub open spec fn is_custom_creation(
    a: App,
    request: CreateAppHttpRequestBody,
    id: u16,
    now: i64,
) -> bool {
    &&& default_optional_meta(a)
    &&& a.id == id
    &&& a.name == request.name
    &&& a.state == request.state
    &&& a.url == request.url
    &&& a.category == request.category
    &&& a.tags == request.tags
    &&& a.description is None
    &&& a.is_custom == true
    &&& a.creation_time == now
    &&& a.last_updated_at == now
}

/// Some persisted record already carries this exact name.
pub open spec fn name_taken(m: Map<u16, App>, name: Seq<char>) -> bool {
    exists|k: u16| #[trigger] m.contains_key(k) && m[k].name@ == name
}

/// The patch applied to a record: `name`, `state`, `url` and `category`
/// keep their prior value where the patch leaves them absent, while
/// `description` and `tags` are replaced wholesale by the patch's values;
/// `last_updated_at` is refreshed and everything else is untouched.
pub open spec fn apply_patch(a: App, p: UpdateAppHttpRequestBody, now: i64) -> App {
    App {
        id: a.id,
        is_hidden: a.is_hidden,
        name: if p.name is Some {
            p.name.unwrap()
        } else {
            a.name
        },
        state: if p.state is Some {
            p.state.unwrap()
        } else {
            a.state
        },
        url: if p.url is Some {
            p.url.unwrap()
        } else {
            a.url
        },
        image_url: a.image_url,
        category: if p.category is Some {
            p.category.unwrap()
        } else {
            a.category
        },
        users: a.users,
        description: p.description,
        tags: p.tags,
        creation_time: a.creation_time,
        last_updated_at: now,
        last_usage_time: a.last_usage_time,
        added_by: a.added_by,
        primary_owner: a.primary_owner,
        is_custom: a.is_custom,
        sources: a.sources,
    }
}

/// Merges a patch into a record, exactly as [`apply_patch`] describes:
/// optional-preserve for `name`, `state`, `url` and `category`, wholesale
/// replacement for `description` and `tags`, and a fresh update stamp.
pub fn merge_patch(prior: App, request: UpdateAppHttpRequestBody, now: i64) -> (r: App)
    ensures
        r == apply_patch(prior, request, now),
{
    let mut app = prior;
    if let Some(name) = request.name {
        app.name = name;
    }
    if let Some(state) = request.state {
        app.state = state;
    }
    if let Some(url) = request.url {
        app.url = url;
    }
    if let Some(category) = request.category {
        app.category = category;
    }
    app.description = request.description;
    app.tags = request.tags;
    app.last_updated_at = now;
    app
}

/// `a` matches a search query when the query occurs in its name.
pub open spec fn matches_query(a: App, q: Seq<char>) -> bool {
    contains_sub(a.name@, q)
}

/// The rows of `s` whose names contain the query, in scan order.
pub open spec fn search_results(s: Seq<App>, q: Seq<char>) -> Seq<App> {
    s.filter(|a: App| matches_query(a, q))
}

fn make_catalog_app(id: u16, name: String, category: AppCategory, url: String, now: i64) -> (r:
    App)
    ensures
        r.id == id,
        r.name == name,
        r.category == category,
        r.url == url,
        r.state == AppState::Sanctioned,
        r.description is None,
        r.tags is None,
        r.is_custom == false,
        r.creation_time == now,
        r.last_updated_at == now,
        default_optional_meta(r),
{
    App {
        id,
        is_hidden: false,
        name,
        state: AppState::Sanctioned,
        url,
        image_url: None,
        category,
        users: None,
        description: None,
        tags: None,
        creation_time: now,
        last_updated_at: now,
        last_usage_time: None,
        added_by: "Default".to_owned(),
        primary_owner: "N/A".to_owned(),
        is_custom: false,
        sources: None,
    }
}

/// Looks up one catalog entry and returns its template row stamped at
/// `now`, or nothing for an id the catalog does not know.
pub fn get_default_app(id: u16, now: i64) -> (r: Option<App>)
    ensures
        match r {
            Some(a) => is_catalog_id(id) && is_catalog_template(a, id, now),
            None => !is_catalog_id(id),
        },
{
    if id == 1000 {
        Some(
            make_catalog_app(
                1000,
                "Salesforce".to_owned(),
                AppCategory::SalesAndMarketing,
                "salesforce.com".to_owned(),
                now,
            ),
        )
    } else if id == 1001 {
        Some(
            make_catalog_app(1001, "Zoom".to_owned(), AppCategory::Productivity, "zoom.com".to_owned(), now),
        )
    } else if id == 1002 {
        Some(
            make_catalog_app(
                1002,
                "GitHub".to_owned(),
                AppCategory::DeveloperTools,
                "github.com".to_owned(),
                now,
            ),
        )
    } else if id == 1003 {
        Some(
            make_catalog_app(1003, "Cats".to_owned(), AppCategory::Other, "cats.com".to_owned(), now),
        )
    } else {
        None
    }
}

/// The whole catalog as template rows stamped at `now`, in id order.
pub fn default_apps(now: i64) -> (r: Vec<App>)
    ensures
        r@.len() == 4,
        forall|k: int|
            0 <= k < 4 ==> #[trigger] r@[k].id == 1000 + k && is_catalog_template(
                r@[k],
                (1000 + k) as u16,
                now,
            ),
{
    let mut v: Vec<App> = Vec::new();
    v.push(
        make_catalog_app(
            1000,
            "Salesforce".to_owned(),
            AppCategory::SalesAndMarketing,
            "salesforce.com".to_owned(),
            now,
        ),
    );
    v.push(
        make_catalog_app(1001, "Zoom".to_owned(), AppCategory::Productivity, "zoom.com".to_owned(), now),
    );
    v.push(
        make_catalog_app(
            1002,
            "GitHub".to_owned(),
            AppCategory::DeveloperTools,
            "github.com".to_owned(),
            now,
        ),
    );
    v.push(
        make_catalog_app(1003, "Cats".to_owned(), AppCategory::Other, "cats.com".to_owned(), now),
    );
    v
}

/// `k` is the projection of the catalog entry with a given id.
pub open spec fn is_known_entry(k: KnownApp, id: u16) -> bool {
    &&& k.id == id
    &&& k.name@ == catalog_name(id)
    &&& k.category == catalog_category(id)
    &&& k.url@ == catalog_url(id)
}

/// The service: the repository plus the business rules. One instance per
/// bootstrapped store.
#[derive(Debug)]
pub struct AppsService {
    pub repo: AppsStore,
}

impl AppsService {
    /// The application rows of the backing table, in scan order.
    pub open spec fn apps(&self) -> Seq<App> {
        self.repo@.apps
    }

    /// The application rows of the backing table, keyed by id.
    pub open spec fn app_map(&self) -> Map<u16, App> {
        self.repo@.app_map()
    }

    /// The counter row's value.
    pub open spec fn counter(&self) -> Option<u16> {
        self.repo@.counter
    }

    /// The bootstrap invariant: rows are uniquely keyed, the counter row
    /// exists at or above its seed, and no row's id exceeds the counter —
    /// so a freshly minted id can never collide with a persisted row.
    pub open spec fn wf(&self) -> bool {
        &&& self.repo.wf()
        &&& self.counter() is Some
        &&& self.counter().unwrap() >= COUNTER_SEED
        &&& forall|k: u16| #[trigger] self.app_map().contains_key(k) ==> k
            <= self.counter().unwrap()
    }

    /// Wraps a bootstrapped store. The store must have its counter row
    /// seeded and its rows below the counter, as bootstrap leaves it.
    pub fn new(repo: AppsStore) -> (r: AppsService)
        requires
            repo.wf(),
            repo@.counter is Some,
            repo@.counter.unwrap() >= COUNTER_SEED,
            forall|k: u16| #[trigger] repo@.app_map().contains_key(k) ==> k
                <= repo@.counter.unwrap(),
        ensures
            r.wf(),
            r.repo == repo,
    {
        AppsService { repo }
    }

    /// Reads one record by id; fails `ResourceNotFound` exactly when no
    /// record with that id is persisted.
    pub fn get_app(&self, id: u16) -> (r: Result<App, GetAppError>)
        requires
            self.wf(),
        ensures
            match r {
                Ok(a) => self.app_map().contains_key(id) && a == self.app_map()[id],
                Err(e) => !self.app_map().contains_key(id) && e == GetAppError::ResourceNotFound(
                    id,
                ),
            },
    {
        self.repo.get_app(id)
    }

    /// Adds one catalog application. Fails `ResourceNotFound` for an id the
    /// catalog does not know, `ResourceAlreadyExists` when that catalog
    /// entry was already added, and otherwise persists the template stamped
    /// at `now`.
    pub fn add_app(&mut self, body: AddAppHttpRequestBody, now: i64) -> (r: Result<
        App,
        AddAppError,
    >)
        requires
            old(self).wf(),
        ensures
            final(self).wf(),
            final(self).counter() == old(self).counter(),
            if !is_catalog_id(body.id_app) {
                &&& final(self).apps() == old(self).apps()
                &&& r == Err::<App, AddAppError>(AddAppError::ResourceNotFound(body.id_app))
            } else if old(self).app_map().contains_key(body.id_app) {
                &&& final(self).apps() == old(self).apps()
                &&& r matches Err(e) && e matches AddAppError::ResourceAlreadyExists { name }
                    && name@ == catalog_name(body.id_app)
            } else {
                &&& r matches Ok(a)
                &&& is_catalog_template(r.unwrap(), body.id_app, now)
                &&& final(self).apps() == old(self).apps().push(r.unwrap())
                &&& final(self).app_map() == old(self).app_map().insert(body.id_app, r.unwrap())
            },
    {
        if let Some(app) = get_default_app(body.id_app, now) {
            let result = self.repo.add_app(app);
            proof {
                if !old(self).app_map().contains_key(body.id_app) {
                    assert forall|k: u16| #[trigger] self.app_map().contains_key(k) implies k
                        <= self.counter().unwrap() by {
                        if k != body.id_app {
                            assert(old(self).app_map().contains_key(k));
                        }
                    }
                }
            }
            result
        } else {
            Err(AddAppError::ResourceNotFound(body.id_app))
        }
    }

    /// Creates a custom application: checks that no persisted record
    /// carries the requested name, mints a fresh id, and persists the new
    /// record stamped at `now`. Fails `ResourceAlreadyExists` exactly when
    /// the name is taken, leaving the table and the counter untouched.
    /// The request's `description` is not persisted; a fresh record starts
    /// with no description.
    pub fn create_app(&mut self, request: CreateAppHttpRequestBody, now: i64) -> (r: Result<
        App,
        CreateAppError,
    >)
        requires
            old(self).wf(),
            old(self).counter().unwrap() < u16::MAX,
        ensures
            final(self).wf(),
            if name_taken(old(self).app_map(), request.name@) {
                &&& final(self).apps() == old(self).apps()
                &&& final(self).counter() == old(self).counter()
                &&& r == Err::<App, CreateAppError>(
                    CreateAppError::ResourceAlreadyExists { name: request.name },
                )
            } else {
                &&& final(self).counter() == Some(
                    (old(self).counter().unwrap() + 1) as u16,
                )
                &&& r matches Ok(a)
                &&& is_custom_creation(
                    r.unwrap(),
                    request,
                    (old(self).counter().unwrap() + 1) as u16,
                    now,
                )
                &&& final(self).apps() == old(self).apps().push(r.unwrap())
                &&& final(self).app_map() == old(self).app_map().insert(
                    (old(self).counter().unwrap() + 1) as u16,
                    r.unwrap(),
                )
            },
    {
        let ghost pre = *self;
        if let Some(existing) = self.repo.get_app_by_name(&request.name) {
            proof {
                let i = choose|i: int|
                    #![auto]
                    0 <= i < self.apps().len() && self.apps()[i] == existing && existing.name@
                        == request.name@;
                lemma_table_map_index(self.apps(), i);
            }
            return Err(CreateAppError::ResourceAlreadyExists { name: request.name });
        }
        proof {
            if name_taken(self.app_map(), request.name@) {
                let k = choose|k: u16|
                    #[trigger] self.app_map().contains_key(k) && self.app_map()[k].name@
                        == request.name@;
                lemma_table_map_contains(self.apps(), k);
                let i = choose|i: int| 0 <= i < self.apps().len() && #[trigger] self.apps()[i].id
                    == k;
                lemma_table_map_index(self.apps(), i);
            }
        }
        let id = match self.repo.get_id() {
            Ok(v) => v,
            Err(_) => {
                return Err(CreateAppError::UnexpectedError);
            },
        };
        let app = App::new_custom(
            id,
            request.name,
            request.state,
            request.url,
            request.category,
            request.tags,
            now,
        );
        proof {
            if self.app_map().contains_key(id) {
                assert(pre.app_map().contains_key(id));
            }
        }
        let result = self.repo.create_app(app);
        proof {
            assert forall|k: u16| #[trigger] self.app_map().contains_key(k) implies k
                <= self.counter().unwrap() by {
                if k != id {
                    assert(pre.app_map().contains_key(k));
                }
            }
        }
        match result {
            Ok(a) => Ok(a),
            Err(_) => Err(CreateAppError::UnexpectedError),
        }
    }

    /// Deletes one record by id; fails `ResourceNotFound` exactly when no
    /// record with that id is persisted, and otherwise removes it.
    pub fn delete_app(&mut self, id: u16) -> (r: Result<(), DeleteAppError>)
        requires
            old(self).wf(),
        ensures
            final(self).wf(),
            final(self).counter() == old(self).counter(),
            if old(self).app_map().contains_key(id) {
                &&& final(self).app_map() == old(self).app_map().remove(id)
                &&& r == Ok::<(), DeleteAppError>(())
            } else {
                &&& final(self).apps() == old(self).apps()
                &&& r == Err::<(), DeleteAppError>(DeleteAppError::ResourceNotFound(id))
            },
    {
        let ghost pre = *self;
        let r = self.repo.delete_app(id);
        proof {
            assert forall|k: u16| #[trigger] self.app_map().contains_key(k) implies k
                <= self.counter().unwrap() by {
                assert(pre.app_map().contains_key(k));
            }
        }
        r
    }

    /// Returns every persisted record, in scan order. Never fails.
    pub fn list_apps(&self) -> (r: Result<Vec<App>, ListAppsError>)
        ensures
            r matches Ok(v) && v@ == self.apps(),
    {
        self.repo.list_apps()
    }

    /// Returns the projection of every catalog entry, in id order.
    pub fn list_known_apps(&self) -> (r: Vec<KnownApp>)
        ensures
            r@.len() == 4,
            forall|k: int| 0 <= k < 4 ==> is_known_entry(#[trigger] r@[k], (1000 + k) as u16),
    {
        let apps = default_apps(0);
        let mut out: Vec<KnownApp> = Vec::new();
        let n = apps.len();
        let mut i: usize = 0;
        while i < n
            invariant
                n == 4,
                n == apps.len(),
                i <= n,
                out@.len() == i,
                forall|k: int|
                    0 <= k < 4 ==> #[trigger] apps@[k].id == 1000 + k && is_catalog_template(
                        apps@[k],
                        (1000 + k) as u16,
                        0,
                    ),
                forall|k: int| 0 <= k < i ==> is_known_entry(#[trigger] out@[k], (1000 + k) as u16),
            decreases n - i,
        {
            let entry = KnownApp {
                id: apps[i].id,
                name: apps[i].name.clone(),
                category: apps[i].category,
                url: apps[i].url.clone(),
            };
            out.push(entry);
            i += 1;
        }
        out
    }

    /// Applies a partial update to the record with a given id: reads it,
    /// merges the patch as [`apply_patch`] describes, stamps
    /// `last_updated_at` with `now`, and writes the result back. Fails
    /// `ResourceNotFound` exactly when no record with that id is persisted.
    pub fn update_app(&mut self, request: UpdateAppHttpRequestBody, id: u16, now: i64) -> (r:
        Result<App, UpdateAppError>)
        requires
            old(self).wf(),
        ensures
            final(self).wf(),
            final(self).counter() == old(self).counter(),
            if old(self).app_map().contains_key(id) {
                &&& r == Ok::<App, UpdateAppError>(
                    apply_patch(old(self).app_map()[id], request, now),
                )
                &&& final(self).app_map() == old(self).app_map().insert(
                    id,
                    apply_patch(old(self).app_map()[id], request, now),
                )
            } else {
                &&& final(self).apps() == old(self).apps()
                &&& r == Err::<App, UpdateAppError>(UpdateAppError::ResourceNotFound(id))
            },
    {
        let ghost pre = *self;
        let app = match self.get_app(id) {
            Ok(a) => a,
            Err(GetAppError::ResourceNotFound(_)) => {
                return Err(UpdateAppError::ResourceNotFound(id));
            },
            Err(_) => {
                return Err(UpdateAppError::UnexpectedError);
            },
        };
        proof {
            crate::repository::lemma_table_map_key_id(self.apps(), id);
        }
        let merged = merge_patch(app, request, now);
        let result = self.repo.update_app(merged);
        proof {
            assert forall|k: u16| #[trigger] self.app_map().contains_key(k) implies k
                <= self.counter().unwrap() by {
                if k != id {
                    assert(pre.app_map().contains_key(k));
                }
            }
        }
        match result {
            Ok(a) => Ok(a),
            Err(_) => Err(UpdateAppError::UnexpectedError),
        }
    }

    /// Lists every record and keeps those whose name contains the query,
    /// case-sensitively, in scan order. Never fails.
    pub fn search_apps(&self, params: SearchAppsQueryParams) -> (r: Result<Vec<App>, ListAppsError>)
        ensures
            r matches Ok(v) && v@ == search_results(self.apps(), params.query@),
    {
        let apps = match self.list_apps() {
            Ok(v) => v,
            Err(_) => {
                return Err(ListAppsError::UnexpectedError);
            },
        };
        let n = apps.len();
        let mut out: Vec<App> = Vec::new();
        let mut i: usize = 0;
        while i < n
            invariant
                n == apps.len(),
                apps@ == self.apps(),
                i <= n,
                out@ == search_results(self.apps().take(i as int), params.query@),
            decreases n - i,
        {
            proof {
                broadcast use Seq::lemma_filter_push;

                assert(self.apps().take(i as int).push(self.apps()[i as int]) =~= self.apps().take(
                    i as int + 1,
                ));
            }
            if contains_substring(apps[i].name.as_str(), params.query.as_str()) {
                out.push(apps[i].clone());
            }
            i += 1;
        }
        proof {
            assert(self.apps().take(n as int) =~= self.apps());
        }
        Ok(out)
    }
}

} // verus!
