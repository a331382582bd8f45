//! The relational table behind the gateway, modelled as a vector of rows
//! ordered by id, together with the five CRUD operations. The model keeps
//! exactly what the store guarantees: system-assigned unique ascending ids,
//! `updated_at` never behind `created_at`, and one monotone clock stamping
//! every write.

use vstd::prelude::*;

use crate::errors::ApiError;
use crate::model::{spec_view, views_of, UserModel, UserRequest, UserView};

verus! {

/// The user table. `users` is ordered by `id` ascending with no duplicate
/// ids; `next_id` is the id the next insert will take; `clock` is the
/// timestamp of the latest write, and no row's timestamp runs ahead of it.
pub struct Store {
    pub users: Vec<UserModel>,
    pub next_id: i32,
    pub clock: i64,
}

impl Store {
    /// Well-formedness of the table: ids ascending and below `next_id`,
    /// every row's `created_at <= updated_at <= clock`.
    pub open spec fn wf(self) -> bool {
        &&& 1 <= self.next_id
        &&& 0 <= self.clock
        &&& forall|i: int|
            0 <= i < self.users@.len() ==> {
                &&& 1 <= (#[trigger] self.users@[i]).id < self.next_id
                &&& self.users@[i].created_at <= self.users@[i].updated_at
                &&& self.users@[i].updated_at <= self.clock
            }
        &&& forall|i: int, j: int|
            0 <= i < j < self.users@.len() ==> self.users@[i].id < self.users@[j].id
    }

    /// An empty table: no rows, ids start at 1, the clock at 0.
    pub fn new() -> (s: Store)
        ensures
            s.wf(),
            s.users@ == Seq::<UserModel>::empty(),
            s.next_id == 1,
            s.clock == 0,
    {
        Store { users: Vec::new(), next_id: 1, clock: 0 }
    }
}

/// The position of the row whose id matches `id`, scanning from the front;
/// `None` when no row matches.
pub open spec fn spec_find_idx(rows: Seq<UserModel>, id: i64) -> Option<int>
    decreases rows.len(),
{
    if rows.len() == 0 {
        None
    } else if rows[0].id as i64 == id {
        Some(0int)
    } else {
        match spec_find_idx(rows.skip(1), id) {
            Some(j) => Some(j + 1),
            None => None,
        }
    }
}

/// The row whose id matches `id`, if any.
pub open spec fn spec_find(rows: Seq<UserModel>, id: i64) -> Option<UserModel> {
    match spec_find_idx(rows, id) {
        Some(i) => Some(rows[i]),
        None => None,
    }
}

/// What a read by id answers: the view of the matching row, or NotFound.
pub open spec fn spec_find_result(rows: Seq<UserModel>, id: i64) -> Result<UserView, ApiError> {
    match spec_find(rows, id) {
        Some(m) => Ok(spec_view(m)),
        None => Err(ApiError::NotFound),
    }
}

/// A caller-supplied limit, corrected to at least 1.
pub open spec fn spec_clamp_limit(limit: i64) -> i64 {
    if limit < 1 {
        1i64
    } else {
        limit
    }
}

/// A caller-supplied offset, corrected to at least 0.
pub open spec fn spec_clamp_offset(offset: i64) -> i64 {
    if offset < 0 {
        0i64
    } else {
        offset
    }
}

/// The clamping applied before any paged query runs: a limit below 1
/// becomes 1, an offset below 0 becomes 0. Caller-supplied values are
/// silently corrected, never rejected.
pub fn clamp_page(limit: i64, offset: i64) -> (r: (i64, i64))
    ensures
        r.0 == spec_clamp_limit(limit),
        r.1 == spec_clamp_offset(offset),
{
    let l: i64 = if limit < 1 {
        1
    } else {
        limit
    };
    let o: i64 = if offset < 0 {
        0
    } else {
        offset
    };
    (l, o)
}

/// The page of the table that a paged listing answers: clamp the limit and
/// offset, then cut that window out of the id-ordered rows.
pub open spec fn spec_page(rows: Seq<UserModel>, limit: i64, offset: i64) -> Seq<UserModel> {
    let lim = spec_clamp_limit(limit) as int;
    let off = spec_clamp_offset(offset) as int;
    let lo = if off <= rows.len() {
        off
    } else {
        rows.len() as int
    };
    let hi = if off + lim <= rows.len() {
        off + lim
    } else {
        rows.len() as int
    };
    rows.subrange(lo, hi)
}

/// The row a successful creation inserts: the next free id, the four
/// business fields of the request, and both timestamps set to `now`.
pub open spec fn spec_created_row(s: Store, req: UserRequest, now: i64) -> UserModel {
    UserModel {
        id: s.next_id,
        name: req.name,
        email: req.email,
        phone: req.phone,
        occupation: req.occupation,
        created_at: now,
        updated_at: now,
    }
}

/// The row a successful update leaves behind: identity and `created_at`
/// kept, all four business fields replaced, `updated_at` set to `now`.
pub open spec fn spec_updated_row(m: UserModel, req: UserRequest, now: i64) -> UserModel {
    UserModel {
        id: m.id,
        name: req.name,
        email: req.email,
        phone: req.phone,
        occupation: req.occupation,
        created_at: m.created_at,
        updated_at: now,
    }
}

/// When no row matches `id`, the scan answers `None`.
pub proof fn lemma_find_idx_none(rows: Seq<UserModel>, id: i64)
    requires
        forall|k: int| 0 <= k < rows.len() ==> (#[trigger] rows[k]).id as i64 != id,
    ensures
        spec_find_idx(rows, id) is None,
    decreases rows.len(),
{
    if rows.len() > 0 {
        assert(forall|k: int|
            0 <= k < rows.skip(1).len() ==> (#[trigger] rows.skip(1)[k]).id as i64 != id);
        lemma_find_idx_none(rows.skip(1), id);
    }
}

/// When `i` is the first matching position, the scan answers `Some(i)`.
pub proof fn lemma_find_idx_first(rows: Seq<UserModel>, id: i64, i: int)
    requires
        0 <= i < rows.len(),
        rows[i].id as i64 == id,
        forall|k: int| 0 <= k < i ==> (#[trigger] rows[k]).id as i64 != id,
    ensures
        spec_find_idx(rows, id) == Some(i),
    decreases i,
{
    if i > 0 {
        assert(rows.skip(1)[i - 1] == rows[i]);
        assert(forall|k: int|
            0 <= k < i - 1 ==> (#[trigger] rows.skip(1)[k]).id as i64 != id);
        lemma_find_idx_first(rows.skip(1), id, i - 1);
    }
}

/// Whatever the scan answers is a real match: a position inside the table
/// holding the id that was asked for.
pub proof fn lemma_find_idx_some(rows: Seq<UserModel>, id: i64)
    requires
        spec_find_idx(rows, id) is Some,
    ensures
        0 <= spec_find_idx(rows, id)->0 < rows.len(),
        rows[spec_find_idx(rows, id)->0].id as i64 == id,
    decreases rows.len(),
{
    if rows.len() > 0 && rows[0].id as i64 != id {
        lemma_find_idx_some(rows.skip(1), id);
        assert(rows.skip(1)[spec_find_idx(rows.skip(1), id)->0]
            == rows[spec_find_idx(rows.skip(1), id)->0 + 1]);
    }
}

impl UserModel {
    /// Insert a new row with a system-assigned id and both timestamps set
    /// to `now`, and answer its view. Fails, as any store write may, only
    /// when the store cannot take another row: here, when the id space is
    /// exhausted.
    pub fn create(store: &mut Store, req: UserRequest, now: i64) -> (r: Result<UserView, ApiError>)
        requires
            old(store).wf(),
            now >= old(store).clock,
        ensures
            final(store).wf(),
            old(store).next_id < i32::MAX ==> {
                &&& final(store).users@ == old(store).users@.push(
                    spec_created_row(*old(store), req, now),
                )
                &&& final(store).next_id == old(store).next_id + 1
                &&& final(store).clock == now
                &&& r == Ok::<UserView, ApiError>(
                    spec_view(spec_created_row(*old(store), req, now)),
                )
            },
            old(store).next_id == i32::MAX ==> {
                &&& *final(store) == *old(store)
                &&& r matches Err(e) && e matches ApiError::Db(m) && m@
                    == "user id space exhausted"@
            },
    {
        if store.next_id == i32::MAX {
            return Err(ApiError::Db(String::from_str("user id space exhausted")));
        }
        let view = UserView {
            id: store.next_id,
            name: req.name.clone(),
            email: req.email.clone(),
            phone: req.phone.clone(),
            occupation: req.occupation.clone(),
            created_at: now,
        };
        let row = UserModel {
            id: store.next_id,
            name: req.name,
            email: req.email,
            phone: req.phone,
            occupation: req.occupation,
            created_at: now,
            updated_at: now,
        };
        store.users.push(row);
        store.next_id = store.next_id + 1;
        store.clock = now;
        Ok(view)
    }

    /// Read one row by id; answer its view, or NotFound when no row
    /// matches. The answer is a function of the table and the id alone.
    pub fn find_by_id(store: &Store, id: i64) -> (r: Result<UserView, ApiError>)
        ensures
            r == spec_find_result(store.users@, id),
    {
        let n = store.users.len();
        let mut i: usize = 0;
        while i < n
            invariant
                n == store.users@.len(),
                i <= n,
                forall|k: int| 0 <= k < i ==> (#[trigger] store.users@[k]).id as i64 != id,
            decreases n - i,
        {
            let row = &store.users[i];
            if row.id as i64 == id {
                proof {
                    lemma_find_idx_first(store.users@, id, i as int);
                }
                return Ok(UserView {
                    id: row.id,
                    name: row.name.clone(),
                    email: row.email.clone(),
                    phone: row.phone.clone(),
                    occupation: row.occupation.clone(),
                    created_at: row.created_at,
                });
            }
            i = i + 1;
        }
        proof {
            lemma_find_idx_none(store.users@, id);
        }
        Err(ApiError::NotFound)
    }

    /// Read the whole table in id order, as views.
    pub fn find_all(store: &Store) -> (r: Result<Vec<UserView>, ApiError>)
        ensures
            r matches Ok(v) && v@ == views_of(store.users@),
    {
        let n = store.users.len();
        let mut out: Vec<UserView> = Vec::new();
        let mut i: usize = 0;
        while i < n
            invariant
                n == store.users@.len(),
                i <= n,
                out@ == views_of(store.users@).subrange(0, i as int),
            decreases n - i,
        {
            let row = &store.users[i];
            out.push(UserView {
                id: row.id,
                name: row.name.clone(),
                email: row.email.clone(),
                phone: row.phone.clone(),
                occupation: row.occupation.clone(),
                created_at: row.created_at,
            });
            proof {
                assert(out@ =~= views_of(store.users@).subrange(0, i + 1 as int));
            }
            i = i + 1;
        }
        proof {
            assert(views_of(store.users@).subrange(0, n as int) =~= views_of(store.users@));
        }
        Ok(out)
    }

    /// Read one page of the table in id order: the limit is corrected to at
    /// least 1 and the offset to at least 0 before the window is cut.
    pub fn find_all_paged(store: &Store, limit: i64, offset: i64) -> (r: Result<
        Vec<UserView>,
        ApiError,
    >)
        ensures
            r matches Ok(v) && v@ == views_of(spec_page(store.users@, limit, offset)),
    {
        let (lim, off) = clamp_page(limit, offset);
        let n = store.users.len();
        let start: usize = if (off as u128) <= (n as u128) {
            off as usize
        } else {
            n
        };
        let rem: usize = n - start;
        let take_n: usize = if (lim as u128) <= (rem as u128) {
            lim as usize
        } else {
            rem
        };
        let ghost lo = start as int;
        let ghost hi = start as int + take_n as int;
        proof {
            assert(spec_page(store.users@, limit, offset) == store.users@.subrange(lo, hi));
        }
        let mut out: Vec<UserView> = Vec::new();
        let mut i: usize = start;
        while i < start + take_n
            invariant
                n == store.users@.len(),
                start <= i <= start + take_n,
                start + take_n <= n,
                lo == start as int,
                hi == start as int + take_n as int,
                out@ == views_of(store.users@.subrange(lo, hi)).subrange(0, i - start),
            decreases start + take_n - i,
        {
            let row = &store.users[i];
            out.push(UserView {
                id: row.id,
                name: row.name.clone(),
                email: row.email.clone(),
                phone: row.phone.clone(),
                occupation: row.occupation.clone(),
                created_at: row.created_at,
            });
            proof {
                assert(store.users@.subrange(lo, hi)[i - start] == store.users@[i as int]);
                assert(out@ =~= views_of(store.users@.subrange(lo, hi)).subrange(
                    0,
                    i + 1 - start,
                ));
            }
            i = i + 1;
        }
        proof {
            assert(out@ =~= views_of(store.users@.subrange(lo, hi)));
        }
        Ok(out)
    }

    /// Replace all four business fields of the row matching `id` and stamp
    /// `updated_at` with `now`; identity and `created_at` are never
    /// altered. Answers NotFound, and leaves the table untouched, when no
    /// row matches.
    pub fn update(store: &mut Store, id: i64, req: UserRequest, now: i64) -> (r: Result<
        UserView,
        ApiError,
    >)
        requires
            old(store).wf(),
            now >= old(store).clock,
        ensures
            final(store).wf(),
            final(store).next_id == old(store).next_id,
            match spec_find_idx(old(store).users@, id) {
                Some(i) => {
                    &&& final(store).users@ == old(store).users@.update(
                        i,
                        spec_updated_row(old(store).users@[i], req, now),
                    )
                    &&& final(store).clock == now
                    &&& r == Ok::<UserView, ApiError>(
                        spec_view(spec_updated_row(old(store).users@[i], req, now)),
                    )
                },
                None => {
                    &&& *final(store) == *old(store)
                    &&& r == Err::<UserView, ApiError>(ApiError::NotFound)
                },
            },
    {
        let n = store.users.len();
        let mut i: usize = 0;
        while i < n
            invariant
                *store == *old(store),
                old(store).wf(),
                now >= old(store).clock,
                n == store.users@.len(),
                i <= n,
                forall|k: int| 0 <= k < i ==> (#[trigger] store.users@[k]).id as i64 != id,
            decreases n - i,
        {
            if store.users[i].id as i64 == id {
                proof {
                    lemma_find_idx_first(store.users@, id, i as int);
                }
                let old_row = store.users.remove(i);
                let view = UserView {
                    id: old_row.id,
                    name: req.name.clone(),
                    email: req.email.clone(),
                    phone: req.phone.clone(),
                    occupation: req.occupation.clone(),
                    created_at: old_row.created_at,
                };
                let new_row = UserModel {
                    id: old_row.id,
                    name: req.name,
                    email: req.email,
                    phone: req.phone,
                    occupation: req.occupation,
                    created_at: old_row.created_at,
                    updated_at: now,
                };
                store.users.insert(i, new_row);
                store.clock = now;
                proof {
                    assert(store.users@ =~= old(store).users@.update(
                        i as int,
                        spec_updated_row(old(store).users@[i as int], req, now),
                    ));
                }
                return Ok(view);
            }
            i = i + 1;
        }
        proof {
            lemma_find_idx_none(store.users@, id);
        }
        Err(ApiError::NotFound)
    }

    /// Remove the row matching `id` and answer how many rows went: 1 when a
    /// row matched, 0 when none did. A zero-match delete is not a failure
    /// of the store; the caller reads 0 as not-found.
    pub fn delete(store: &mut Store, id: i64) -> (r: Result<u64, ApiError>)
        requires
            old(store).wf(),
        ensures
            final(store).wf(),
            final(store).next_id == old(store).next_id,
            final(store).clock == old(store).clock,
            match spec_find_idx(old(store).users@, id) {
                Some(i) => {
                    &&& final(store).users@ == old(store).users@.remove(i)
                    &&& r == Ok::<u64, ApiError>(1)
                },
                None => {
                    &&& *final(store) == *old(store)
                    &&& r == Ok::<u64, ApiError>(0)
                },
            },
    {
        let n = store.users.len();
        let mut i: usize = 0;
        while i < n
            invariant
                *store == *old(store),
                old(store).wf(),
                n == store.users@.len(),
                i <= n,
                forall|k: int| 0 <= k < i ==> (#[trigger] store.users@[k]).id as i64 != id,
            decreases n - i,
        {
            if store.users[i].id as i64 == id {
                proof {
                    lemma_find_idx_first(store.users@, id, i as int);
                }
                store.users.remove(i);
                return Ok(1);
            }
            i = i + 1;
        }
        proof {
            lemma_find_idx_none(store.users@, id);
        }
        Ok(0)
    }
}

} // verus!
