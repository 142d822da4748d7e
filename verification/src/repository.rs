//! The key-value repository: a single table of application rows plus one
//! reserved counter row.
//!
//! The store exposes exactly the contract the service relies on: reads by
//! key, inserts conditioned on key absence, unconditional overwrites,
//! deletes conditioned on key existence, a full scan that excludes the
//! counter row, and atomic issuance of fresh identifiers from the counter.

use vstd::prelude::*;
use crate::models::App;
use crate::repository_errors::{AddAppError, CreateAppError, DeleteAppError, GetAppError,
    ListAppsError, UpdateAppError};
use crate::text::u16_to_string;

verus! {

/// Seed of the atomic counter: strictly greater than every catalog id, so
/// that minted identifiers never collide with catalog entries.
pub const COUNTER_SEED: u16 = 1100;

/// The counter row: a single reserved row under a fixed key that no
/// stringified application id can equal.
#[derive(Clone, Debug)]
pub struct DynamoCounter {
    pub pk: String,
    pub count: u16,
}

impl DynamoCounter {
    /// Builds the counter row for a given count, under the reserved key.
    pub fn new(count: u16) -> (r: DynamoCounter)
        ensures
            r.count == count,
            r.pk@ == "atomic_counter"@,
    {
        DynamoCounter { pk: "atomic_counter".to_owned(), count }
    }
}

/// A request to add one catalog application by its id.
#[derive(Clone, Copy, Debug, PartialEq, Eq, Structural)]
pub struct AddAppRequest {
    pub id_app: u16,
}

/// Abstract state of the table: the application rows in scan order, and the
/// counter row's value if the row exists.
#[verifier::ext_equal]
pub struct StoreView {
    pub apps: Seq<App>,
    pub counter: Option<u16>,
}

impl StoreView {
    /// The application rows as a map keyed by id.
    pub open spec fn app_map(self) -> Map<u16, App> {
        table_map(self.apps)
    }
}

/// No two rows share an id.
pub open spec fn ids_unique(s: Seq<App>) -> bool {
    forall|i: int, j: int|
        0 <= i < s.len() && 0 <= j < s.len() && #[trigger] s[i].id == #[trigger] s[j].id ==> i == j
}

/// The rows of `s`, as a map keyed by id. Later rows win, though under
/// [`ids_unique`] no two rows compete.
pub open spec fn table_map(s: Seq<App>) -> Map<u16, App>
    decreases s.len(),
{
    if s.len() == 0 {
        Map::empty()
    } else {
        table_map(s.drop_last()).insert(s.last().id, s.last())
    }
}

/// The position of the row keyed by `id`; meaningful only when such a row
/// exists and ids are unique.
pub open spec fn id_index(s: Seq<App>, id: u16) -> int {
    choose|i: int| 0 <= i < s.len() && s[i].id == id
}

/// A row at any position is in the map, and under unique ids the map holds
/// exactly that row.
pub proof fn lemma_table_map_index(s: Seq<App>, i: int)
    requires
        ids_unique(s),
        0 <= i < s.len(),
    ensures
        table_map(s).contains_key(s[i].id),
        table_map(s)[s[i].id] == s[i],
    decreases s.len(),
{
    if i == s.len() - 1 {
        assert(s.last() == s[i]);
    } else {
        assert(ids_unique(s.drop_last())) by {
            assert(forall|x: int, y: int|
                0 <= x < s.drop_last().len() && 0 <= y < s.drop_last().len()
                    && #[trigger] s.drop_last()[x].id == #[trigger] s.drop_last()[y].id ==> s[x].id
                    == s[y].id && x == y);
        }
        lemma_table_map_index(s.drop_last(), i);
        assert(s.drop_last()[i] == s[i]);
        assert(s[i].id != s.last().id);
    }
}

/// Every key of the map comes from some row.
pub proof fn lemma_table_map_contains(s: Seq<App>, k: u16)
    requires
        table_map(s).contains_key(k),
    ensures
        exists|i: int| 0 <= i < s.len() && #[trigger] s[i].id == k,
    decreases s.len(),
{
    if s.len() > 0 {
        if s.last().id == k {
            assert(s[s.len() - 1].id == k);
        } else {
            lemma_table_map_contains(s.drop_last(), k);
            let i = choose|i: int| 0 <= i < s.drop_last().len() && #[trigger] s.drop_last()[i].id
                == k;
            assert(s[i].id == k);
        }
    }
}

/// A key no row carries is not in the map.
pub proof fn lemma_table_map_absent(s: Seq<App>, k: u16)
    requires
        forall|i: int| 0 <= i < s.len() ==> #[trigger] s[i].id != k,
    ensures
        !table_map(s).contains_key(k),
{
    if table_map(s).contains_key(k) {
        lemma_table_map_contains(s, k);
    }
}

/// The row a key maps to carries that key as its id.
pub proof fn lemma_table_map_key_id(s: Seq<App>, k: u16)
    requires
        table_map(s).contains_key(k),
    ensures
        table_map(s)[k].id == k,
    decreases s.len(),
{
    if s.len() > 0 && s.last().id != k {
        lemma_table_map_key_id(s.drop_last(), k);
    }
}

/// Appending a row inserts it into the map.
pub proof fn lemma_table_map_push(s: Seq<App>, a: App)
    ensures
        table_map(s.push(a)) == table_map(s).insert(a.id, a),
{
    assert(s.push(a).drop_last() =~= s);
    assert(s.push(a).last() == a);
}

/// Removing the row at a position removes its key from the map, and keeps
/// the remaining ids unique.
pub proof fn lemma_table_map_remove(s: Seq<App>, i: int)
    requires
        ids_unique(s),
        0 <= i < s.len(),
    ensures
        table_map(s.remove(i)) == table_map(s).remove(s[i].id),
        ids_unique(s.remove(i)),
    decreases s.len(),
{
    assert(ids_unique(s.remove(i))) by {
        assert(forall|x: int, y: int|
            0 <= x < s.remove(i).len() && 0 <= y < s.remove(i).len()
                && #[trigger] s.remove(i)[x].id == #[trigger] s.remove(i)[y].id ==> x == y) by {
            assert(forall|x: int|
                0 <= x < s.remove(i).len() ==> #[trigger] s.remove(i)[x] == if x < i {
                    s[x]
                } else {
                    s[x + 1]
                });
        }
    }
    if i == s.len() - 1 {
        assert(s.remove(i) =~= s.drop_last());
        assert(forall|x: int| 0 <= x < s.drop_last().len() ==> #[trigger] s.drop_last()[x].id
            != s[i].id);
        lemma_table_map_absent(s.drop_last(), s[i].id);
        assert(table_map(s).remove(s[i].id) =~= table_map(s.drop_last()));
    } else {
        let d = s.drop_last();
        assert(ids_unique(d)) by {
            assert(forall|x: int, y: int|
                0 <= x < d.len() && 0 <= y < d.len() && #[trigger] d[x].id == #[trigger] d[y].id
                    ==> s[x].id == s[y].id && x == y);
        }
        lemma_table_map_remove(d, i);
        assert(s.remove(i).drop_last() =~= d.remove(i));
        assert(s.remove(i).last() == s.last());
        assert(s[i].id != s.last().id);
        assert(table_map(d).remove(s[i].id).insert(s.last().id, s.last()) =~= table_map(d).insert(
            s.last().id,
            s.last(),
        ).remove(s[i].id));
        assert(d[i] == s[i]);
    }
}

/// The verified single-table store. One instance stands for the whole
/// backing table: application rows plus the reserved counter row.
#[derive(Debug)]
pub struct AppsStore {
    apps: Vec<App>,
    counter: Option<u16>,
}

impl View for AppsStore {
    type V = StoreView;

    closed spec fn view(&self) -> StoreView {
        StoreView { apps: self.apps@, counter: self.counter }
    }
}

impl AppsStore {
    /// Rows are uniquely keyed. Established at construction and preserved by
    /// every operation.
    pub open spec fn wf(&self) -> bool {
        ids_unique(self@.apps)
    }

    /// An empty table: no rows, no counter row.
    pub fn new() -> (r: AppsStore)
        ensures
            r@.apps == Seq::<App>::empty(),
            r@.counter is None,
            r.wf(),
    {
        AppsStore { apps: Vec::new(), counter: None }
    }

    /// Idempotent bootstrap of the counter row: if the row is absent it is
    /// written with the fixed seed, and an existing row is left untouched.
    pub fn create_atomic_counter(&mut self)
        ensures
            final(self)@.apps == old(self)@.apps,
            final(self)@.counter == if old(self)@.counter is None {
                Some(COUNTER_SEED)
            } else {
                old(self)@.counter
            },
            final(self).wf() == old(self).wf(),
    {
        if self.counter.is_none() {
            self.counter = Some(COUNTER_SEED);
        }
    }

    /// The key under which a row is persisted: the decimal rendering of its
    /// id, distinct from the counter row's reserved key.
    pub fn row_key(id: u16) -> (r: String)
        ensures
            r@ == crate::text::decimal_digits(id as nat),
    {
        u16_to_string(id)
    }

    /// Atomically increments the counter row and returns the new value.
    /// Assumes the counter row exists: bootstrap establishes that once at
    /// startup, before any caller can reach this operation.
    pub fn get_id(&mut self) -> (r: Result<u16, ()>)
        requires
            old(self)@.counter is Some,
            old(self)@.counter.unwrap() < u16::MAX,
        ensures
            final(self)@.apps == old(self)@.apps,
            final(self)@.counter == Some((old(self)@.counter.unwrap() + 1) as u16),
            r == Ok::<u16, ()>((old(self)@.counter.unwrap() + 1) as u16),
            final(self).wf() == old(self).wf(),
    {
        let c = self.counter.unwrap();
        let next = c + 1;
        self.counter = Some(next);
        Ok(next)
    }

    /// Whether a row keyed by `id` exists: the store-side condition of the
    /// conditional writes.
    fn contains_id(&self, id: u16) -> (r: bool)
        requires
            self.wf(),
        ensures
            r == self@.app_map().contains_key(id),
    {
        let n = self.apps.len();
        let mut i: usize = 0;
        while i < n
            invariant
                n == self.apps.len(),
                i <= n,
                self.wf(),
                forall|j: int| 0 <= j < i ==> #[trigger] self@.apps[j].id != id,
            decreases n - i,
        {
            if self.apps[i].id == id {
                proof {
                    lemma_table_map_index(self@.apps, i as int);
                }
                return true;
            }
            i += 1;
        }
        proof {
            lemma_table_map_absent(self@.apps, id);
        }
        false
    }

    /// Reads the row keyed by `id`. Fails `ResourceNotFound` exactly when no
    /// such row exists.
    pub fn get_app(&self, id: u16) -> (r: Result<App, GetAppError>)
        requires
            self.wf(),
        ensures
            match r {
                Ok(a) => self@.app_map().contains_key(id) && a == self@.app_map()[id],
                Err(e) => !self@.app_map().contains_key(id) && e == GetAppError::ResourceNotFound(
                    id,
                ),
            },
    {
        let n = self.apps.len();
        let mut i: usize = 0;
        while i < n
            invariant
                n == self.apps.len(),
                i <= n,
                self.wf(),
                forall|j: int| 0 <= j < i ==> #[trigger] self@.apps[j].id != id,
            decreases n - i,
        {
            if self.apps[i].id == id {
                proof {
                    lemma_table_map_index(self@.apps, i as int);
                }
                return Ok(self.apps[i].clone());
            }
            i += 1;
        }
        proof {
            lemma_table_map_absent(self@.apps, id);
        }
        Err(GetAppError::ResourceNotFound(id))
    }

    /// Reads some row whose name equals `name`, character for character.
    /// Returns a row exactly when one with that name exists.
    pub fn get_app_by_name(&self, name: &String) -> (r: Option<App>)
        ensures
            match r {
                Some(a) => exists|i: int|
                    #![auto]
                    0 <= i < self@.apps.len() && self@.apps[i] == a && a.name@ == name@,
                None => forall|i: int|
                    0 <= i < self@.apps.len() ==> #[trigger] self@.apps[i].name@ != name@,
            },
    {
        let n = self.apps.len();
        let mut i: usize = 0;
        while i < n
            invariant
                n == self.apps.len(),
                i <= n,
                forall|j: int| 0 <= j < i ==> #[trigger] self@.apps[j].name@ != name@,
            decreases n - i,
        {
            if self.apps[i].name == *name {
                let found = self.apps[i].clone();
                proof {
                    assert(self@.apps[i as int] == found && found.name@ == name@);
                }
                return Some(found);
            }
            i += 1;
        }
        None
    }

    /// Inserts `app` conditioned on its key not existing; the write never
    /// silently overwrites. Fails `ResourceAlreadyExists` with the incoming
    /// name exactly when the key is taken, leaving the table unchanged.
    pub fn add_app(&mut self, app: App) -> (r: Result<App, AddAppError>)
        requires
            old(self).wf(),
        ensures
            final(self).wf(),
            final(self)@.counter == old(self)@.counter,
            if old(self)@.app_map().contains_key(app.id) {
                &&& final(self)@ == old(self)@
                &&& r == Err::<App, AddAppError>(AddAppError::ResourceAlreadyExists { name: app.name })
            } else {
                &&& final(self)@.apps == old(self)@.apps.push(app)
                &&& final(self)@.app_map() == old(self)@.app_map().insert(app.id, app)
                &&& r == Ok::<App, AddAppError>(app)
            },
    {
        if self.contains_id(app.id) {
            let name = app.name.clone();
            Err(AddAppError::ResourceAlreadyExists { name })
        } else {
            let stored = app.clone();
            proof {
                lemma_table_map_push(self@.apps, app);
                lemma_table_map_absent_push_unique(self@.apps, app);
            }
            self.apps.push(stored);
            Ok(app)
        }
    }

    /// Inserts `app` conditioned on its key not existing, for the custom
    /// creation path; the same conditional write as [`AppsStore::add_app`].
    pub fn create_app(&mut self, app: App) -> (r: Result<App, CreateAppError>)
        requires
            old(self).wf(),
        ensures
            final(self).wf(),
            final(self)@.counter == old(self)@.counter,
            if old(self)@.app_map().contains_key(app.id) {
                &&& final(self)@ == old(self)@
                &&& r == Err::<App, CreateAppError>(CreateAppError::ResourceAlreadyExists { name: app.name })
            } else {
                &&& final(self)@.apps == old(self)@.apps.push(app)
                &&& final(self)@.app_map() == old(self)@.app_map().insert(app.id, app)
                &&& r == Ok::<App, CreateAppError>(app)
            },
    {
        if self.contains_id(app.id) {
            let name = app.name.clone();
            Err(CreateAppError::ResourceAlreadyExists { name })
        } else {
            let stored = app.clone();
            proof {
                lemma_table_map_push(self@.apps, app);
                lemma_table_map_absent_push_unique(self@.apps, app);
            }
            self.apps.push(stored);
            Ok(app)
        }
    }

    /// Overwrites the row keyed by `app.id` unconditionally; existence is
    /// the caller's business (the service reads before it writes).
    pub fn update_app(&mut self, app: App) -> (r: Result<App, UpdateAppError>)
        requires
            old(self).wf(),
        ensures
            final(self).wf(),
            final(self)@.counter == old(self)@.counter,
            final(self)@.app_map() == old(self)@.app_map().insert(app.id, app),
            final(self)@.apps == if old(self)@.app_map().contains_key(app.id) {
                old(self)@.apps.remove(id_index(old(self)@.apps, app.id)).push(app)
            } else {
                old(self)@.apps.push(app)
            },
            r == Ok::<App, UpdateAppError>(app),
    {
        let stored = app.clone();
        let n = self.apps.len();
        let mut i: usize = 0;
        while i < n
            invariant
                n == self.apps.len(),
                i <= n,
                self.wf(),
                self@ == old(self)@,
                stored == app,
                forall|j: int| 0 <= j < i ==> #[trigger] self@.apps[j].id != app.id,
            decreases n - i,
        {
            if self.apps[i].id == app.id {
                proof {
                    lemma_table_map_index(self@.apps, i as int);
                    lemma_table_map_remove(self@.apps, i as int);
                    lemma_table_map_push(self@.apps.remove(i as int), app);
                    assert(id_index(self@.apps, app.id) == i as int) by {
                        let w = id_index(self@.apps, app.id);
                        assert(0 <= w < self@.apps.len() && self@.apps[w].id == app.id);
                    }
                    assert(table_map(self@.apps).remove(app.id).insert(app.id, app)
                        =~= table_map(self@.apps).insert(app.id, app));
                    lemma_table_map_absent_push_unique(self@.apps.remove(i as int), app);
                }
                self.apps.remove(i);
                self.apps.push(stored);
                return Ok(app);
            }
            i += 1;
        }
        proof {
            lemma_table_map_absent(self@.apps, app.id);
            lemma_table_map_push(self@.apps, app);
            lemma_table_map_absent_push_unique(self@.apps, app);
        }
        self.apps.push(stored);
        Ok(app)
    }

    /// Deletes the row keyed by `id`, conditioned on the key existing.
    /// Fails `ResourceNotFound` exactly when there is nothing to delete,
    /// leaving the table unchanged.
    pub fn delete_app(&mut self, id: u16) -> (r: Result<(), DeleteAppError>)
        requires
            old(self).wf(),
        ensures
            final(self).wf(),
            final(self)@.counter == old(self)@.counter,
            if old(self)@.app_map().contains_key(id) {
                &&& final(self)@.apps == old(self)@.apps.remove(id_index(old(self)@.apps, id))
                &&& final(self)@.app_map() == old(self)@.app_map().remove(id)
                &&& r == Ok::<(), DeleteAppError>(())
            } else {
                &&& final(self)@ == old(self)@
                &&& r == Err::<(), DeleteAppError>(DeleteAppError::ResourceNotFound(id))
            },
    {
        let n = self.apps.len();
        let mut i: usize = 0;
        while i < n
            invariant
                n == self.apps.len(),
                i <= n,
                self.wf(),
                self@ == old(self)@,
                forall|j: int| 0 <= j < i ==> #[trigger] self@.apps[j].id != id,
            decreases n - i,
        {
            if self.apps[i].id == id {
                proof {
                    lemma_table_map_index(self@.apps, i as int);
                    lemma_table_map_remove(self@.apps, i as int);
                    assert(id_index(self@.apps, id) == i as int) by {
                        let w = id_index(self@.apps, id);
                        assert(0 <= w < self@.apps.len() && self@.apps[w].id == id);
                    }
                }
                self.apps.remove(i);
                return Ok(());
            }
            i += 1;
        }
        proof {
            lemma_table_map_absent(self@.apps, id);
        }
        Err(DeleteAppError::ResourceNotFound(id))
    }

    /// Scans the whole table and returns every application row, excluding
    /// the reserved counter row. Never fails; an empty table yields an
    /// empty list.
    pub fn list_apps(&self) -> (r: Result<Vec<App>, ListAppsError>)
        ensures
            r matches Ok(v) && v@ == self@.apps,
    {
        let n = self.apps.len();
        let mut out: Vec<App> = Vec::new();
        let mut i: usize = 0;
        while i < n
            invariant
                n == self.apps.len(),
                i <= n,
                out@ == self@.apps.take(i as int),
            decreases n - i,
        {
            out.push(self.apps[i].clone());
            proof {
                assert(self@.apps.take(i as int).push(self@.apps[i as int]) =~= self@.apps.take(
                    i as int + 1,
                ));
            }
            i += 1;
        }
        proof {
            assert(self@.apps.take(n as int) =~= self@.apps);
        }
        Ok(out)
    }
}

/// Appending a row whose id the map does not hold keeps ids unique.
proof fn lemma_table_map_absent_push_unique(s: Seq<App>, a: App)
    requires
        ids_unique(s),
        !table_map(s).contains_key(a.id),
    ensures
        ids_unique(s.push(a)),
{
    assert(forall|i: int| 0 <= i < s.len() ==> #[trigger] s[i].id != a.id) by {
        assert forall|i: int| 0 <= i < s.len() implies #[trigger] s[i].id != a.id by {
            if s[i].id == a.id {
                lemma_table_map_index(s, i);
            }
        }
    }
    assert(forall|x: int, y: int|
        0 <= x < s.push(a).len() && 0 <= y < s.push(a).len() && #[trigger] s.push(a)[x].id
            == #[trigger] s.push(a)[y].id ==> x == y) by {
        assert(forall|x: int| 0 <= x < s.len() ==> #[trigger] s.push(a)[x] == s[x]);
        assert(s.push(a)[s.len() as int] == a);
    }
}

} // verus!
