//! The canonical persisted user record, the inbound request body, the
//! outward view, and the pure projection from record to view.

use vstd::prelude::*;

verus! {

/// A persisted user row. `id` is assigned by the store and never by the
/// caller; `created_at` is set once at creation; `updated_at` is refreshed
/// on every update and never runs behind `created_at`. Timestamps are
/// microseconds since the Unix epoch.
#[derive(Debug, Clone, PartialEq, Eq)]
pub struct UserModel {
    pub id: i32,
    pub name: String,
    pub email: String,
    pub phone: String,
    pub occupation: String,
    pub created_at: i64,
    pub updated_at: i64,
}

/// The inbound body for creation and full replacement. It carries no
/// identity: the target id for an update comes from the request path.
#[derive(Debug, Clone, PartialEq, Eq)]
pub struct UserRequest {
    pub name: String,
    pub email: String,
    pub phone: String,
    pub occupation: String,
}

/// The outward projection of a row: identity, the four business fields and
/// `created_at`. It deliberately has no `updated_at` field; dropping that
/// field is the one lossy step between a row and what a caller sees.
#[derive(Debug, Clone, PartialEq, Eq)]
pub struct UserView {
    pub id: i32,
    pub name: String,
    pub email: String,
    pub phone: String,
    pub occupation: String,
    pub created_at: i64,
}

/// The projection of a row: every field of the view taken unchanged from
/// the row, and `updated_at` dropped.
pub open spec fn spec_view(m: UserModel) -> UserView {
    UserView {
        id: m.id,
        name: m.name,
        email: m.email,
        phone: m.phone,
        occupation: m.occupation,
        created_at: m.created_at,
    }
}

/// The projection applied to a whole table.
pub open spec fn views_of(rows: Seq<UserModel>) -> Seq<UserView> {
    rows.map_values(|m: UserModel| spec_view(m))
}

impl From<UserModel> for UserView {
    /// The total, lossy conversion used for every outward answer.
    fn from(m: UserModel) -> (r: UserView)
        ensures
            r == spec_view(m),
    {
        UserView {
            id: m.id,
            name: m.name,
            email: m.email,
            phone: m.phone,
            occupation: m.occupation,
            created_at: m.created_at,
        }
    }
}

impl vstd::std_specs::convert::FromSpecImpl<UserModel> for UserView {
    open spec fn obeys_from_spec() -> bool {
        true
    }

    open spec fn from_spec(m: UserModel) -> UserView {
        spec_view(m)
    }
}

} // verus!
