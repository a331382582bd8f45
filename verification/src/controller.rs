//! The five operation handlers, each a strict pipeline: validate the
//! payload where one is present, invoke the gateway, and map the outcome
//! through the error taxonomy. Also the request validator and the paging
//! decisions the handlers make.

use vstd::prelude::*;

use crate::errors::ApiError;
use crate::model::{spec_view, views_of, UserModel, UserRequest, UserView};
use crate::store::{
    spec_created_row, spec_find_idx, spec_find_result, spec_page, spec_updated_row,
    Store,
};

verus! {

/// The optional paging parameters of a listing request.
#[derive(Debug, Clone, Copy, PartialEq, Eq)]
pub struct Pager {
    pub limit: Option<i64>,
    pub offset: Option<i64>,
}

/// How a listing request is answered: the unbounded table when neither
/// paging parameter was supplied, otherwise one page, with the absent
/// parameter defaulted.
#[derive(Debug, Clone, Copy, PartialEq, Eq)]
pub enum ListingPlan {
    All,
    Paged(i64, i64),
}

/// The default limit when only an offset was supplied.
pub const DEFAULT_LIMIT: i64 = 100;

/// The default offset when only a limit was supplied.
pub const DEFAULT_OFFSET: i64 = 0;

/// Whether a character is whitespace in the sense of trimming: the
/// Unicode White_Space set.
pub open spec fn spec_space(c: char) -> bool {
    let u = c as u32;
    u == 0x09 || u == 0x0A || u == 0x0B || u == 0x0C || u == 0x0D || u == 0x20 || u == 0x85
        || u == 0xA0 || u == 0x1680 || (0x2000 <= u && u <= 0x200A) || u == 0x2028 || u == 0x2029
        || u == 0x202F || u == 0x205F || u == 0x3000
}

/// Whether a field is empty after trimming surrounding whitespace: every
/// character of it is whitespace.
pub open spec fn spec_blank(s: Seq<char>) -> bool {
    forall|i: int| 0 <= i < s.len() ==> spec_space(#[trigger] s[i])
}

/// Whether a creation payload passes the validator: `name` and `email`,
/// after trimming, are non-empty. `phone` and `occupation` are never
/// validated here.
pub open spec fn spec_valid_create(req: UserRequest) -> bool {
    !spec_blank(req.name@) && !spec_blank(req.email@)
}

fn char_is_space(c: char) -> (r: bool)
    ensures
        r == spec_space(c),
{
    let u = c as u32;
    u == 0x09 || u == 0x0A || u == 0x0B || u == 0x0C || u == 0x0D || u == 0x20 || u == 0x85
        || u == 0xA0 || u == 0x1680 || (0x2000 <= u && u <= 0x200A) || u == 0x2028 || u == 0x2029
        || u == 0x202F || u == 0x205F || u == 0x3000
}

/// Whether a field is empty after trimming surrounding whitespace.
pub fn is_blank(s: &str) -> (r: bool)
    ensures
        r == spec_blank(s@),
{
    let n = s.unicode_len();
    let mut i: usize = 0;
    while i < n
        invariant
            n == s@.len(),
            i <= n,
            forall|k: int| 0 <= k < i ==> spec_space(#[trigger] s@[k]),
        decreases n - i,
    {
        if !char_is_space(s.get_char(i)) {
            return false;
        }
        i = i + 1;
    }
    true
}

/// The listing bifurcation as a value: which query path a pager selects.
pub open spec fn spec_plan(p: Pager) -> ListingPlan {
    if p.limit is Some || p.offset is Some {
        ListingPlan::Paged(
            if p.limit is Some {
                p.limit->0
            } else {
                DEFAULT_LIMIT
            },
            if p.offset is Some {
                p.offset->0
            } else {
                DEFAULT_OFFSET
            },
        )
    } else {
        ListingPlan::All
    }
}

/// Decide how a listing request is served: no parameters means the
/// unbounded path; either parameter alone or both mean the paged path,
/// with defaults filling the absent one.
pub fn plan_listing(p: &Pager) -> (r: ListingPlan)
    ensures
        r == spec_plan(*p),
{
    match (p.limit, p.offset) {
        (None, None) => ListingPlan::All,
        (l, o) => {
            let lim = match l {
                Some(v) => v,
                None => DEFAULT_LIMIT,
            };
            let off = match o {
                Some(v) => v,
                None => DEFAULT_OFFSET,
            };
            ListingPlan::Paged(lim, off)
        },
    }
}

/// What a listing request answers, as a function of the table and the
/// pager.
pub open spec fn spec_listing(rows: Seq<UserModel>, p: Pager) -> Seq<UserView> {
    match spec_plan(p) {
        ListingPlan::All => views_of(rows),
        ListingPlan::Paged(l, o) => views_of(spec_page(rows, l, o)),
    }
}

/// List users: the whole table when no paging parameter was supplied,
/// otherwise one page. Reads never fail.
pub fn users(store: &Store, p: Pager) -> (r: Result<Vec<UserView>, ApiError>)
    ensures
        r matches Ok(v) && v@ == spec_listing(store.users@, p),
{
    match plan_listing(&p) {
        ListingPlan::All => UserModel::find_all(store),
        ListingPlan::Paged(l, o) => UserModel::find_all_paged(store, l, o),
    }
}

/// Get one user by id, or NotFound.
pub fn get_user_by_id(store: &Store, id: i64) -> (r: Result<UserView, ApiError>)
    ensures
        r == spec_find_result(store.users@, id),
{
    UserModel::find_by_id(store, id)
}

/// Create a user: validate the payload, then insert. A blank `name` is
/// rejected first, then a blank `email`, each with its reason and with the
/// table untouched; a valid payload reaches the gateway unchanged.
pub fn create_user(store: &mut Store, body: UserRequest, now: i64) -> (r: Result<
    UserView,
    ApiError,
>)
    requires
        old(store).wf(),
        now >= old(store).clock,
    ensures
        final(store).wf(),
        spec_blank(body.name@) ==> {
            &&& *final(store) == *old(store)
            &&& r matches Err(e) && e matches ApiError::BadRequest(m) && m@ == "name required"@
        },
        !spec_blank(body.name@) && spec_blank(body.email@) ==> {
            &&& *final(store) == *old(store)
            &&& r matches Err(e) && e matches ApiError::BadRequest(m) && m@ == "email required"@
        },
        spec_valid_create(body) && old(store).next_id < i32::MAX ==> {
            &&& final(store).users@ == old(store).users@.push(
                spec_created_row(*old(store), body, now),
            )
            &&& final(store).next_id == old(store).next_id + 1
            &&& final(store).clock == now
            &&& r == Ok::<UserView, ApiError>(spec_view(spec_created_row(*old(store), body, now)))
        },
        spec_valid_create(body) && old(store).next_id == i32::MAX ==> {
            &&& *final(store) == *old(store)
            &&& r matches Err(e) && e is Db
        },
{
    if is_blank(body.name.as_str()) {
        return Err(ApiError::BadRequest(String::from_str("name required")));
    }
    if is_blank(body.email.as_str()) {
        return Err(ApiError::BadRequest(String::from_str("email required")));
    }
    UserModel::create(store, body, now)
}

/// Update a user by id, replacing the whole body. No validator runs here:
/// update payloads are passed through to the gateway as they stand.
pub fn update_user(store: &mut Store, id: i64, body: UserRequest, now: i64) -> (r: Result<
    UserView,
    ApiError,
>)
    requires
        old(store).wf(),
        now >= old(store).clock,
    ensures
        final(store).wf(),
        final(store).next_id == old(store).next_id,
        match spec_find_idx(old(store).users@, id) {
            Some(i) => {
                &&& final(store).users@ == old(store).users@.update(
                    i,
                    spec_updated_row(old(store).users@[i], body, now),
                )
                &&& final(store).clock == now
                &&& r == Ok::<UserView, ApiError>(
                    spec_view(spec_updated_row(old(store).users@[i], body, now)),
                )
            },
            None => {
                &&& *final(store) == *old(store)
                &&& r == Err::<UserView, ApiError>(ApiError::NotFound)
            },
        },
{
    UserModel::update(store, id, body, now)
}

/// How the handler reads the gateway's affected-row count: zero rows is
/// not-found, anything else is a successful no-content delete.
pub fn delete_outcome(affected: u64) -> (r: Result<(), ApiError>)
    ensures
        affected == 0 ==> r == Err::<(), ApiError>(ApiError::NotFound),
        affected != 0 ==> r == Ok::<(), ApiError>(()),
{
    if affected == 0 {
        Err(ApiError::NotFound)
    } else {
        Ok(())
    }
}

/// Delete a user by id. The gateway itself does not fail on a zero-match
/// delete; it is this handler that turns the zero count into NotFound.
pub fn delete_user(store: &mut Store, id: i64) -> (r: Result<(), ApiError>)
    requires
        old(store).wf(),
    ensures
        final(store).wf(),
        final(store).next_id == old(store).next_id,
        final(store).clock == old(store).clock,
        match spec_find_idx(old(store).users@, id) {
            Some(i) => {
                &&& final(store).users@ == old(store).users@.remove(i)
                &&& r == Ok::<(), ApiError>(())
            },
            None => {
                &&& *final(store) == *old(store)
                &&& r == Err::<(), ApiError>(ApiError::NotFound)
            },
        },
{
    let res = UserModel::delete(store, id);
    match res {
        Ok(affected) => delete_outcome(affected),
        Err(e) => {
            // the gateway's contract answers Ok on every input, so this
            // arm is unreachable
            proof {
                assert(false);
            }
            Err(e)
        },
    }
}

} // verus!
