//! The laws of the library, each proved once and for all over the spec
//! functions that the operations' contracts use.

use vstd::prelude::*;

use crate::controller::{spec_listing, Pager};
use crate::errors::ApiError;
use crate::model::{spec_view, views_of, UserModel, UserRequest, UserView};
use crate::store::{
    lemma_find_idx_first, lemma_find_idx_none, lemma_find_idx_some, spec_created_row,
    spec_find_idx, spec_find_result, spec_page, spec_updated_row, Store,
};

verus! {

/// Round trip: creating a user in a well-formed table and then reading the
/// returned id back finds exactly the inserted row, so the read answers the
/// very view that creation answered — the request's four fields under the
/// new id, with `created_at` exposed and `updated_at` not.
pub proof fn lemma_create_round_trip(s: Store, req: UserRequest, now: i64)
    requires
        s.wf(),
        s.next_id < i32::MAX,
    ensures
        ({
            let row = spec_created_row(s, req, now);
            &&& spec_find_result(s.users@.push(row), row.id as i64) == Ok::<UserView, ApiError>(
                spec_view(row),
            )
            &&& spec_view(row) == (UserView {
                id: s.next_id,
                name: req.name,
                email: req.email,
                phone: req.phone,
                occupation: req.occupation,
                created_at: now,
            })
        }),
{
    let row = spec_created_row(s, req, now);
    let rows = s.users@.push(row);
    assert(forall|k: int| 0 <= k < s.users@.len() ==> (#[trigger] rows[k]).id as i64 != row.id as i64);
    lemma_find_idx_first(rows, row.id as i64, s.users@.len() as int);
}

/// Projection: the view of a row carries identity, the four business
/// fields and `created_at` unchanged; the view type has no `updated_at`
/// field, so the stamp can never be exposed.
pub proof fn lemma_view_projection(m: UserModel)
    ensures
        spec_view(m).id == m.id,
        spec_view(m).name == m.name,
        spec_view(m).email == m.email,
        spec_view(m).phone == m.phone,
        spec_view(m).occupation == m.occupation,
        spec_view(m).created_at == m.created_at,
{
}

/// Idempotent read: a read by id is pinned to one value determined by the
/// table and the id, so two reads with no intervening mutation answer
/// identical results.
pub proof fn lemma_read_idempotent(
    s: Store,
    id: i64,
    r1: Result<UserView, ApiError>,
    r2: Result<UserView, ApiError>,
)
    requires
        r1 == spec_find_result(s.users@, id),
        r2 == spec_find_result(s.users@, id),
    ensures
        r1 == r2,
{
}

/// Not-found consistency: when no row holds the asked id, the scan answers
/// `None`, so a read answers NotFound, and the update and delete contracts
/// take their absent-row arm on the same condition — NotFound again, never
/// a different kind.
pub proof fn lemma_not_found_consistency(s: Store, id: i64)
    requires
        forall|k: int| 0 <= k < s.users@.len() ==> (#[trigger] s.users@[k]).id as i64 != id,
    ensures
        spec_find_idx(s.users@, id) is None,
        spec_find_result(s.users@, id) == Err::<UserView, ApiError>(ApiError::NotFound),
{
    lemma_find_idx_none(s.users@, id);
}

/// Paging clamps: any limit at or below 1 and any offset at or below 0 are
/// corrected to 1 and 0, so such a page equals the page at limit 1,
/// offset 0.
pub proof fn lemma_paging_clamps(rows: Seq<UserModel>, limit: i64, offset: i64)
    requires
        limit <= 1,
        offset <= 0,
    ensures
        spec_page(rows, limit, offset) == spec_page(rows, 1, 0),
{
}

/// Delete semantics: removing the matching row leaves a table in which no
/// row holds that id, so a second delete of the same id matches zero rows
/// and the handler answers NotFound, while the first answered no-content.
pub proof fn lemma_delete_twice(s: Store, id: i64)
    requires
        s.wf(),
        spec_find_idx(s.users@, id) is Some,
    ensures
        ({
            let removed = s.users@.remove(spec_find_idx(s.users@, id)->0);
            &&& spec_find_idx(removed, id) is None
            &&& spec_find_result(removed, id) == Err::<UserView, ApiError>(ApiError::NotFound)
        }),
{
    let i = spec_find_idx(s.users@, id)->0;
    lemma_find_idx_some(s.users@, id);
    let removed = s.users@.remove(i);
    assert forall|k: int| 0 <= k < removed.len() implies (#[trigger] removed[k]).id as i64
        != id by {
        if k < i {
            assert(removed[k] == s.users@[k]);
            assert(s.users@[k].id < s.users@[i].id);
        } else {
            assert(removed[k] == s.users@[k + 1]);
            assert(s.users@[i].id < s.users@[k + 1].id);
        }
    }
    lemma_find_idx_none(removed, id);
}

/// List bifurcation, unbounded side: a pager with neither parameter
/// supplied answers the whole table, and in a well-formed table those
/// views come in strictly ascending id order.
pub proof fn lemma_full_listing_ordered(s: Store)
    requires
        s.wf(),
    ensures
        spec_listing(s.users@, Pager { limit: None, offset: None }) == views_of(s.users@),
        views_of(s.users@).len() == s.users@.len(),
        forall|i: int, j: int|
            0 <= i < j < s.users@.len() ==> views_of(s.users@)[i].id < views_of(s.users@)[j].id,
{
    assert forall|i: int, j: int|
        0 <= i < j < s.users@.len() implies views_of(s.users@)[i].id < views_of(
        s.users@,
    )[j].id by {
        assert(views_of(s.users@)[i] == spec_view(s.users@[i]));
        assert(views_of(s.users@)[j] == spec_view(s.users@[j]));
    }
}

/// Update replaces fully: when time has moved past the table's last write,
/// updating a present row replaces all four business fields with the
/// request's, stamps `updated_at` strictly forward, and leaves `id` and
/// `created_at` exactly as they were.
pub proof fn lemma_update_replaces_fully(s: Store, id: i64, req: UserRequest, now: i64)
    requires
        s.wf(),
        now > s.clock,
        spec_find_idx(s.users@, id) is Some,
    ensures
        ({
            let before = s.users@[spec_find_idx(s.users@, id)->0];
            let after = spec_updated_row(before, req, now);
            &&& after.id == before.id
            &&& after.created_at == before.created_at
            &&& after.name == req.name
            &&& after.email == req.email
            &&& after.phone == req.phone
            &&& after.occupation == req.occupation
            &&& after.updated_at == now
            &&& after.updated_at > before.updated_at
        }),
{
    lemma_find_idx_some(s.users@, id);
}

} // verus!
