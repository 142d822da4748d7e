//! The entity model: the `App` record and its enumerated fields.

use vstd::prelude::*;

verus! {

/// Lifecycle state of an application record. Any state may be assigned to
/// any record at any time; the service performs no transition validation.
#[derive(Clone, Copy, Debug, PartialEq, Eq, Structural)]
pub enum AppState {
    Discovered,
    Sanctioned,
    Closed,
}

/// Business category of an application record, over a fixed closed set.
#[derive(Clone, Copy, Debug, PartialEq, Eq, Structural)]
pub enum AppCategory {
    Operations,
    SalesAndMarketing,
    DeveloperTools,
    Design,
    ProjectManagement,
    CustomerSuccess,
    HumanResources,
    ItAndSecurity,
    Finance,
    Productivity,
    AnalyticsAndBi,
    Other,
}

/// The persisted application entity. `id` is the primary key and is unique
/// and immutable after creation. Timestamps are milliseconds since the Unix
/// epoch, handed in by the caller at the I/O boundary.
#[derive(Debug)]
pub struct App {
    pub id: u16,
    pub is_hidden: bool,
    pub name: String,
    pub state: AppState,
    pub url: String,
    pub image_url: Option<String>,
    pub category: AppCategory,
    pub users: Option<String>,
    pub description: Option<String>,
    pub tags: Option<String>,
    pub creation_time: i64,
    pub last_updated_at: i64,
    pub last_usage_time: Option<i64>,
    pub added_by: String,
    pub primary_owner: String,
    pub is_custom: bool,
    pub sources: Option<String>,
}

/// The descriptive metadata fields that every freshly constructed record
/// starts out with: not hidden, no optional metadata, and the fixed
/// bookkeeping strings.
pub open spec fn default_optional_meta(a: App) -> bool {
    &&& a.is_hidden == false
    &&& a.image_url is None
    &&& a.users is None
    &&& a.last_usage_time is None
    &&& a.sources is None
    &&& a.added_by@ == "Default"@
    &&& a.primary_owner@ == "N/A"@
}

/// Content equality of two records: scalar fields agree, and every string
/// field holds the same characters.
pub open spec fn app_eq(a: App, b: App) -> bool {
    &&& a.id == b.id
    &&& a.is_hidden == b.is_hidden
    &&& a.name@ == b.name@
    &&& a.state == b.state
    &&& a.url@ == b.url@
    &&& opt_string_eq_spec(a.image_url, b.image_url)
    &&& a.category == b.category
    &&& opt_string_eq_spec(a.users, b.users)
    &&& opt_string_eq_spec(a.description, b.description)
    &&& opt_string_eq_spec(a.tags, b.tags)
    &&& a.creation_time == b.creation_time
    &&& a.last_updated_at == b.last_updated_at
    &&& a.last_usage_time == b.last_usage_time
    &&& a.added_by@ == b.added_by@
    &&& a.primary_owner@ == b.primary_owner@
    &&& a.is_custom == b.is_custom
    &&& opt_string_eq_spec(a.sources, b.sources)
}

/// Two optional strings hold the same content.
pub open spec fn opt_string_eq_spec(a: Option<String>, b: Option<String>) -> bool {
    match (a, b) {
        (Option::Some(x), Option::Some(y)) => x@ == y@,
        (Option::None, Option::None) => true,
        _ => false,
    }
}

fn clone_opt_string(o: &Option<String>) -> (r: Option<String>)
    ensures
        r == *o,
{
    match o {
        Option::Some(s) => Option::Some(s.clone()),
        Option::None => Option::None,
    }
}

fn opt_string_eq(a: &Option<String>, b: &Option<String>) -> (r: bool)
    ensures
        r == opt_string_eq_spec(*a, *b),
{
    match (a, b) {
        (Option::Some(x), Option::Some(y)) => *x == *y,
        (Option::None, Option::None) => true,
        _ => false,
    }
}

impl Clone for App {
    fn clone(&self) -> (r: Self)
        ensures
            r == *self,
    {
        App {
            id: self.id,
            is_hidden: self.is_hidden,
            name: self.name.clone(),
            state: self.state,
            url: self.url.clone(),
            image_url: clone_opt_string(&self.image_url),
            category: self.category,
            users: clone_opt_string(&self.users),
            description: clone_opt_string(&self.description),
            tags: clone_opt_string(&self.tags),
            creation_time: self.creation_time,
            last_updated_at: self.last_updated_at,
            last_usage_time: self.last_usage_time,
            added_by: self.added_by.clone(),
            primary_owner: self.primary_owner.clone(),
            is_custom: self.is_custom,
            sources: clone_opt_string(&self.sources),
        }
    }
}

impl PartialEq for App {
    fn eq(&self, other: &Self) -> (r: bool) {
        self.id == other.id && self.is_hidden == other.is_hidden
            && self.name == other.name && self.state == other.state
            && self.url == other.url
            && opt_string_eq(&self.image_url, &other.image_url)
            && self.category == other.category
            && opt_string_eq(&self.users, &other.users)
            && opt_string_eq(&self.description, &other.description)
            && opt_string_eq(&self.tags, &other.tags)
            && self.creation_time == other.creation_time
            && self.last_updated_at == other.last_updated_at
            && self.last_usage_time == other.last_usage_time
            && self.added_by == other.added_by
            && self.primary_owner == other.primary_owner
            && self.is_custom == other.is_custom
            && opt_string_eq(&self.sources, &other.sources)
    }
}

impl vstd::std_specs::cmp::PartialEqSpecImpl for App {
    open spec fn obeys_eq_spec() -> bool {
        true
    }

    open spec fn eq_spec(&self, other: &Self) -> bool {
        app_eq(*self, *other)
    }
}

impl App {
    /// Builds a fresh custom record from the caller-supplied fields, with
    /// every remaining field at its default and both timestamps at `now`.
    pub fn new_custom(
        id: u16,
        name: String,
        state: AppState,
        url: String,
        category: AppCategory,
        tags: Option<String>,
        now: i64,
    ) -> (r: App)
        ensures
            r.id == id,
            r.name == name,
            r.state == state,
            r.url == url,
            r.category == category,
            r.tags == tags,
            r.is_custom == true,
            r.description is None,
            r.creation_time == now,
            r.last_updated_at == now,
            default_optional_meta(r),
    {
        App {
            id,
            is_hidden: false,
            name,
            state,
            url,
            image_url: Option::None,
            category,
            users: Option::None,
            description: Option::None,
            tags,
            creation_time: now,
            last_updated_at: now,
            last_usage_time: Option::None,
            added_by: "Default".to_owned(),
            primary_owner: "N/A".to_owned(),
            is_custom: true,
            sources: Option::None,
        }
    }
}

} // verus!
