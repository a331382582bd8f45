use user_service::controller::{
    create_user, delete_user, get_user_by_id, is_blank, plan_listing, update_user, users,
    ListingPlan, Pager,
};
use user_service::errors::ApiError;
use user_service::model::{UserModel, UserRequest, UserView};
use user_service::store::{clamp_page, Store};

fn req(name: &str, email: &str, phone: &str, occupation: &str) -> UserRequest {
    UserRequest {
        name: name.to_string(),
        email: email.to_string(),
        phone: phone.to_string(),
        occupation: occupation.to_string(),
    }
}

fn seeded(n: usize) -> Store {
    let mut s = Store::new();
    for i in 0..n {
        let r = req(
            &format!("user{}", i + 1),
            &format!("u{}@example.com", i + 1),
            "555",
            "dev",
        );
        create_user(&mut s, r, (i as i64 + 1) * 10).unwrap();
    }
    s
}

#[test]
fn round_trip_create_then_find() {
    let mut s = Store::new();
    let created = create_user(&mut s, req("Ada", "ada@example.com", "1", "eng"), 7).unwrap();
    let found = get_user_by_id(&s, created.id as i64).unwrap();
    assert_eq!(created, found);
    assert_eq!(found.name, "Ada");
    assert_eq!(found.email, "ada@example.com");
    assert_eq!(found.phone, "1");
    assert_eq!(found.occupation, "eng");
    assert_eq!(found.created_at, 7);
}

#[test]
fn projection_keeps_all_but_updated_at() {
    let m = UserModel {
        id: 9,
        name: "N".to_string(),
        email: "E".to_string(),
        phone: "P".to_string(),
        occupation: "O".to_string(),
        created_at: 3,
        updated_at: 99,
    };
    let v = UserView::from(m.clone());
    assert_eq!(v.id, m.id);
    assert_eq!(v.name, m.name);
    assert_eq!(v.email, m.email);
    assert_eq!(v.phone, m.phone);
    assert_eq!(v.occupation, m.occupation);
    assert_eq!(v.created_at, m.created_at);
}

#[test]
fn idempotent_read() {
    let s = seeded(3);
    let first = get_user_by_id(&s, 2);
    let second = get_user_by_id(&s, 2);
    assert_eq!(first, second);
    assert!(first.is_ok());
}

#[test]
fn not_found_consistency() {
    let mut s = seeded(2);
    assert_eq!(get_user_by_id(&s, 42), Err(ApiError::NotFound));
    assert_eq!(
        update_user(&mut s, 42, req("a", "b", "c", "d"), 100),
        Err(ApiError::NotFound)
    );
    assert_eq!(delete_user(&mut s, 42), Err(ApiError::NotFound));
}

#[test]
fn paging_clamps_negative_to_minimum() {
    let s = seeded(4);
    let clamped = UserModel::find_all_paged(&s, -5, -10).unwrap();
    let minimal = UserModel::find_all_paged(&s, 1, 0).unwrap();
    assert_eq!(clamped, minimal);
    assert_eq!(clamped.len(), 1);
    assert_eq!(clamped[0].id, 1);
    assert_eq!(clamp_page(-5, -10), (1, 0));
    assert_eq!(clamp_page(7, 3), (7, 3));
    assert_eq!(clamp_page(0, 0), (1, 0));
}

#[test]
fn validation_gate_empty_name() {
    let mut s = Store::new();
    let r = create_user(&mut s, req("", "x@y.com", "1", "o"), 1);
    assert_eq!(r, Err(ApiError::BadRequest("name required".to_string())));
    assert_eq!(s.users.len(), 0);
}

#[test]
fn validation_gate_whitespace_name() {
    let mut s = Store::new();
    let r = create_user(&mut s, req("  \t\n", "x@y.com", "1", "o"), 1);
    assert_eq!(r, Err(ApiError::BadRequest("name required".to_string())));
    let r2 = create_user(&mut s, req("\u{3000}\u{00A0}", "x@y.com", "1", "o"), 1);
    assert_eq!(r2, Err(ApiError::BadRequest("name required".to_string())));
}

#[test]
fn validation_gate_email() {
    let mut s = Store::new();
    let r = create_user(&mut s, req("Ada", "   ", "1", "o"), 1);
    assert_eq!(r, Err(ApiError::BadRequest("email required".to_string())));
    assert!(create_user(&mut s, req("Ada", "x@y.com", "1", "o"), 1).is_ok());
}

#[test]
fn update_requests_skip_validation() {
    let mut s = seeded(1);
    let r = update_user(&mut s, 1, req("", "", "", ""), 50).unwrap();
    assert_eq!(r.name, "");
    assert_eq!(r.email, "");
}

#[test]
fn delete_twice() {
    let mut s = seeded(2);
    assert_eq!(delete_user(&mut s, 1), Ok(()));
    assert_eq!(delete_user(&mut s, 1), Err(ApiError::NotFound));
    assert_eq!(s.users.len(), 1);
}

#[test]
fn delete_leaves_other_rows() {
    let mut s = seeded(3);
    assert_eq!(UserModel::delete(&mut s, 2), Ok(1));
    assert_eq!(UserModel::delete(&mut s, 2), Ok(0));
    let left = UserModel::find_all(&s).unwrap();
    let ids: Vec<i32> = left.iter().map(|v| v.id).collect();
    assert_eq!(ids, vec![1, 3]);
}

#[test]
fn list_bifurcation_no_params_returns_all_ascending() {
    let s = seeded(5);
    let all = users(
        &s,
        Pager {
            limit: None,
            offset: None,
        },
    )
    .unwrap();
    let ids: Vec<i32> = all.iter().map(|v| v.id).collect();
    assert_eq!(ids, vec![1, 2, 3, 4, 5]);
}

#[test]
fn list_bifurcation_page_two_from_second() {
    let s = seeded(5);
    let page = users(
        &s,
        Pager {
            limit: Some(2),
            offset: Some(1),
        },
    )
    .unwrap();
    let ids: Vec<i32> = page.iter().map(|v| v.id).collect();
    assert_eq!(ids, vec![2, 3]);
}

#[test]
fn listing_defaults_when_one_param_given() {
    assert_eq!(
        plan_listing(&Pager {
            limit: Some(2),
            offset: None
        }),
        ListingPlan::Paged(2, 0)
    );
    assert_eq!(
        plan_listing(&Pager {
            limit: None,
            offset: Some(3)
        }),
        ListingPlan::Paged(100, 3)
    );
    assert_eq!(
        plan_listing(&Pager {
            limit: None,
            offset: None
        }),
        ListingPlan::All
    );
    let s = seeded(3);
    let page = users(
        &s,
        Pager {
            limit: None,
            offset: Some(1),
        },
    )
    .unwrap();
    let ids: Vec<i32> = page.iter().map(|v| v.id).collect();
    assert_eq!(ids, vec![2, 3]);
}

#[test]
fn paging_window_past_end_is_empty() {
    let s = seeded(2);
    assert_eq!(UserModel::find_all_paged(&s, 1, 10).unwrap(), vec![]);
    let tail = UserModel::find_all_paged(&s, 100, 1).unwrap();
    let ids: Vec<i32> = tail.iter().map(|v| v.id).collect();
    assert_eq!(ids, vec![2]);
}

#[test]
fn paging_extreme_bounds() {
    let s = seeded(3);
    let all = UserModel::find_all_paged(&s, i64::MAX, 0).unwrap();
    assert_eq!(all.len(), 3);
    assert_eq!(UserModel::find_all_paged(&s, 1, i64::MAX).unwrap(), vec![]);
    let first = UserModel::find_all_paged(&s, i64::MIN, i64::MIN).unwrap();
    assert_eq!(first.len(), 1);
    assert_eq!(first[0].id, 1);
}

#[test]
fn is_blank_matches_trim_semantics() {
    let cases = [
        "",
        " ",
        "\u{85}",
        "\u{1680}x",
        "a",
        " a ",
        "\u{2000}\u{200A}\u{3000}\u{202F}\u{205F}\u{2028}\u{2029}\u{A0}",
        "\u{200B}",
        "\t\r\n\u{B}\u{C}",
    ];
    for s in cases {
        assert_eq!(is_blank(s), s.trim().is_empty(), "{:?}", s);
    }
}

#[test]
fn find_all_on_empty_store() {
    let s = Store::new();
    assert_eq!(UserModel::find_all(&s).unwrap(), vec![]);
    assert_eq!(
        users(
            &s,
            Pager {
                limit: None,
                offset: None
            }
        )
        .unwrap(),
        vec![]
    );
}

#[test]
fn update_replaces_fully_and_advances_stamp() {
    let mut s = seeded(1);
    let before = s.users[0].clone();
    let v = update_user(&mut s, 1, req("New", "new@example.com", "9", "ops"), 77).unwrap();
    let after = &s.users[0];
    assert_eq!(after.name, "New");
    assert_eq!(after.email, "new@example.com");
    assert_eq!(after.phone, "9");
    assert_eq!(after.occupation, "ops");
    assert_eq!(after.id, before.id);
    assert_eq!(after.created_at, before.created_at);
    assert!(after.updated_at > before.updated_at);
    assert_eq!(after.updated_at, 77);
    assert_eq!(v.id, before.id);
    assert_eq!(v.created_at, before.created_at);
}

#[test]
fn create_assigns_ascending_ids_and_stamps() {
    let mut s = Store::new();
    let a = create_user(&mut s, req("A", "a@x", "1", "o"), 10).unwrap();
    let b = create_user(&mut s, req("B", "b@x", "2", "o"), 20).unwrap();
    assert_eq!(a.id, 1);
    assert_eq!(b.id, 2);
    assert_eq!(s.users[0].updated_at, 10);
    assert_eq!(s.users[1].created_at, 20);
    assert_eq!(s.next_id, 3);
}

#[test]
fn create_fails_when_id_space_exhausted() {
    let mut s = Store {
        users: Vec::new(),
        next_id: i32::MAX,
        clock: 0,
    };
    let r = create_user(&mut s, req("A", "a@x", "1", "o"), 1);
    match r {
        Err(ApiError::Db(cause)) => assert_eq!(cause, "user id space exhausted"),
        other => panic!("expected a store failure, got {:?}", other),
    }
}
