use bug_tracker::auth::{
    assign_bug_gate, assign_form_gate, authenticate, bearer_token, claims_for, new_token_claims,
    Authenticated, TokenClaims,
};
use bug_tracker::reply::Body;

fn caller(role: &str) -> Authenticated {
    Authenticated { user_id: "u-1".to_string(), role: role.to_string() }
}

#[test]
fn role_checks_match_exact_role_names() {
    assert!(caller("admin").is_admin());
    assert!(!caller("admin").is_developer());
    assert!(!caller("admin").is_staff());
    assert!(caller("developer").is_developer());
    assert!(caller("staff").is_staff());
    assert!(!caller("Admin").is_admin());
    assert!(!caller("admin ").is_admin());
    assert!(!caller("").is_staff());
}

#[test]
fn bearer_token_takes_what_follows_the_prefix() {
    assert_eq!(bearer_token(Some("Bearer abc.def.ghi")), Some("abc.def.ghi".to_string()));
    assert_eq!(bearer_token(Some("Bearer ")), Some(String::new()));
    assert_eq!(bearer_token(Some("Bearer  x")), Some(" x".to_string()));
    assert_eq!(bearer_token(Some("Bearer é€")), Some("é€".to_string()));
}

#[test]
fn bearer_token_refuses_other_headers() {
    assert_eq!(bearer_token(None), None);
    assert_eq!(bearer_token(Some("bearer abc")), None);
    assert_eq!(bearer_token(Some("Bearer")), None);
    assert_eq!(bearer_token(Some("Basic abc")), None);
    assert_eq!(bearer_token(Some("")), None);
}

#[test]
fn authenticate_names_the_token_holder() {
    let claims = TokenClaims { sub: "id-7".to_string(), role: "staff".to_string(), exp: 10 };
    let a = authenticate(Some(claims)).unwrap();
    assert_eq!(a.user_id, "id-7");
    assert_eq!(a.role, "staff");
}

#[test]
fn authenticate_refuses_missing_token() {
    let r = authenticate(None).unwrap_err();
    assert_eq!(r.status, 401);
    match r.body {
        Body::ErrorText(t) => assert_eq!(t, "Invalid token"),
        other => panic!("unexpected body {:?}", other),
    }
}

#[test]
fn claims_name_the_account_by_its_uuid_text() {
    let c = claims_for(0x550e8400e29b41d4a716446655440000, "developer", 1_700_003_600);
    assert_eq!(c.sub, "550e8400-e29b-41d4-a716-446655440000");
    assert_eq!(c.role, "developer");
    assert_eq!(c.exp, 1_700_003_600usize);
    let z = claims_for(0, "admin", 0);
    assert_eq!(z.sub, "00000000-0000-0000-0000-000000000000");
    let m = claims_for(u128::MAX, "admin", 0);
    assert_eq!(m.sub, "ffffffff-ffff-ffff-ffff-ffffffffffff");
}

#[test]
fn new_claims_expire_in_an_hour() {
    let before = std::time::SystemTime::now()
        .duration_since(std::time::UNIX_EPOCH)
        .unwrap()
        .as_secs() as usize;
    let (issued_at, c) = new_token_claims(0xa1a2a3a4b1b2c1c2d1d2d3d4d5d6d7d8, "staff");
    let c = c.unwrap();
    assert_eq!(c.sub, "a1a2a3a4-b1b2-c1c2-d1d2-d3d4d5d6d7d8");
    assert_eq!(c.role, "staff");
    assert_eq!(c.exp, (issued_at + 3600) as usize);
    assert!(issued_at as usize >= before && issued_at as usize <= before + 10);
}

#[test]
fn only_admins_and_developers_see_the_assign_form() {
    assert!(assign_form_gate(&caller("admin")).is_none());
    assert!(assign_form_gate(&caller("developer")).is_none());
    let r = assign_form_gate(&caller("staff")).unwrap();
    assert_eq!(r.status, 403);
    match r.body {
        Body::Text(t) => assert_eq!(t, "UNAUTHORISED ACCESS"),
        other => panic!("unexpected body {:?}", other),
    }
}

#[test]
fn only_admins_assign_bugs() {
    assert!(assign_bug_gate(&caller("admin")).is_none());
    for role in ["developer", "staff", "guest"] {
        let r = assign_bug_gate(&caller(role)).unwrap();
        assert_eq!(r.status, 403);
        match r.body {
            Body::Text(t) => assert_eq!(t, "ADMIN ONLY"),
            other => panic!("unexpected body {:?}", other),
        }
    }
}
