//! Laws that tie the service operations together: what one operation's
//! outcome forces the next operation to do. Each law is stated over the
//! store views and spec functions that the operations' own contracts use.

use vstd::prelude::*;
use crate::apps_service::{apply_patch, catalog_name, is_catalog_id, is_catalog_template};
use crate::models::App;
use crate::repository::COUNTER_SEED;
use crate::routes::UpdateAppHttpRequestBody;

verus! {

/// A custom creation with a fresh name inserts the created record at its
/// id — `create_app`'s contract — and on the resulting store that id is
/// mapped to exactly that record, so `get_app`'s contract forces a
/// subsequent read of the returned id to yield an equal entity.
pub proof fn lemma_create_then_get(pre: Map<u16, App>, post: Map<u16, App>, a: App)
    requires
        post == pre.insert(a.id, a),
    ensures
        post.contains_key(a.id),
        post[a.id] == a,
{
}

/// Adding a catalog id the store lacks persists the catalog template at
/// that id — `add_app`'s contract — and on the resulting store the id is
/// present with the catalog's name, so `add_app`'s contract forces a second
/// call with the same id to fail `ResourceAlreadyExists`, carrying that
/// name.
pub proof fn lemma_add_app_twice(
    pre: Map<u16, App>,
    post: Map<u16, App>,
    a: App,
    id: u16,
    now: i64,
)
    requires
        is_catalog_id(id),
        !pre.contains_key(id),
        is_catalog_template(a, id, now),
        post == pre.insert(id, a),
    ensures
        post.contains_key(id),
        post[id].name@ == catalog_name(id),
{
}

/// Identifier issuance is strictly increasing and fresh: the minted id
/// exceeds the counter it came from, stays at or above the seed (so the
/// next mint is larger again), is never a catalog id, and collides with no
/// persisted row of a store whose ids sit at or below the counter.
pub proof fn lemma_next_id_fresh(m: Map<u16, App>, c: u16)
    requires
        COUNTER_SEED <= c < u16::MAX,
        forall|k: u16| #[trigger] m.contains_key(k) ==> k <= c,
    ensures
        c + 1 > c,
        (c + 1) as u16 >= COUNTER_SEED,
        !is_catalog_id((c + 1) as u16),
        !m.contains_key((c + 1) as u16),
{
}

/// A successful delete removes the id from the store — `delete_app`'s
/// contract — so `get_app`'s contract forces a subsequent read of the same
/// id to fail `ResourceNotFound`. A delete of an id the store lacks fails
/// `ResourceNotFound` directly by `delete_app`'s contract.
pub proof fn lemma_delete_then_get(pre: Map<u16, App>, post: Map<u16, App>, id: u16)
    requires
        pre.contains_key(id),
        post == pre.remove(id),
    ensures
        !post.contains_key(id),
{
}

/// A patch that supplies only a name keeps `state`, `url` and `category`
/// from the prior version, while `description` and `tags` are overwritten
/// with the patch's values, absent ones included; the id and the creation
/// time never move, and the update stamp is refreshed.
pub proof fn lemma_patch_name_only(a: App, p: UpdateAppHttpRequestBody, now: i64)
    requires
        p.name is Some,
        p.state is None,
        p.url is None,
        p.category is None,
    ensures
        apply_patch(a, p, now).name == p.name.unwrap(),
        apply_patch(a, p, now).state == a.state,
        apply_patch(a, p, now).url == a.url,
        apply_patch(a, p, now).category == a.category,
        apply_patch(a, p, now).description == p.description,
        apply_patch(a, p, now).tags == p.tags,
        apply_patch(a, p, now).id == a.id,
        apply_patch(a, p, now).creation_time == a.creation_time,
        apply_patch(a, p, now).last_updated_at == now,
{
}

} // verus!
