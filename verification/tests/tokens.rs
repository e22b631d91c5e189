use app_common::app_error::AppError;
use app_common::objects::bearer_token;
use app_common::users::UserDB;
use app_common::users::UserState;
use app_common::users::Users;

const TEST_USER: &str = "test@self.com";
const TEST_PWD: &str = "deJDH`$%dei67ofHJwwwII)(&^%#";
const EXPIRE: i64 = 1800;

fn seeded_cache(now_str: &str) -> (Users, String) {
    let req = app_common::users::NewRequest {
        user: TEST_USER.to_string(),
        name: "My Test User".to_string(),
        password: TEST_PWD.to_string(),
        confirm_password: TEST_PWD.to_string(),
    };
    let row = app_common::users::signup_validate(false, &req).unwrap();
    let db = UserDB {
        id: Some(1),
        user: row.user.to_string(),
        name: row.name.to_string(),
        password: row.password.clone(),
        json_state: row.json_state.to_string(),
    };
    let mut users = Users::new();
    let resp = users.admit_signup_at(db, now_str);
    let token = match resp.response {
        Some(app_common::objects::ApiResponse::UsersLogin(l)) => l.token,
        _ => panic!("signup produced no login payload"),
    };
    (users, token)
}

#[test]
fn token_verifies_within_expiry_window() {
    let now_str = "2024-05-01T10:00:00+00:00";
    let issue = chrono::DateTime::parse_from_rfc3339(now_str).unwrap().timestamp();
    let (users, token) = seeded_cache(now_str);
    let ok = users.check_token_at(&token, EXPIRE, issue + EXPIRE - 1);
    assert!(ok.is_ok(), "token should verify one second before expiry: {ok:?}");
    let state = ok.unwrap();
    assert_eq!(state.id, Some(1));
}

#[test]
fn token_fails_after_expiry_window() {
    let now_str = "2024-05-01T10:00:00+00:00";
    let issue = chrono::DateTime::parse_from_rfc3339(now_str).unwrap().timestamp();
    let (users, token) = seeded_cache(now_str);
    let late = users.check_token_at(&token, EXPIRE, issue + EXPIRE + 1);
    assert!(matches!(late, Err(AppError::InvalidToken)));
    let exactly = users.check_token_at(&token, EXPIRE, issue + EXPIRE);
    assert!(matches!(exactly, Err(AppError::InvalidToken)));
}

#[test]
fn garbage_token_is_invalid() {
    let (users, _token) = seeded_cache("2024-05-01T10:00:00+00:00");
    let issue = chrono::DateTime::parse_from_rfc3339("2024-05-01T10:00:00+00:00")
        .unwrap()
        .timestamp();
    let r = users.check_token_at("not.a.token", EXPIRE, issue);
    assert!(matches!(r, Err(AppError::InvalidToken)));
}

#[test]
fn token_of_uncached_user_is_invalid() {
    let now_str = "2024-05-01T10:00:00+00:00";
    let issue = chrono::DateTime::parse_from_rfc3339(now_str).unwrap().timestamp();
    let (users, token) = seeded_cache(now_str);
    // A fresh process without the cached entry must refuse the token: no
    // store fallback happens at verification time.
    let empty = Users::new();
    let r = empty.check_token_at(&token, EXPIRE, issue);
    assert!(matches!(r, Err(AppError::InvalidToken)));
    assert_eq!(users.len(), 1);
}

#[test]
fn token_with_unparseable_issue_time_is_invalid() {
    let (users, _token) = seeded_cache("2024-05-01T10:00:00+00:00");
    // Issue a token whose embedded time is not RFC 3339 at all.
    let bad_token = users.get(0).get_token_at("not-a-timestamp");
    let r = users.check_token_at(&bad_token, EXPIRE, 0);
    assert!(matches!(r, Err(AppError::InvalidToken)));
}

#[test]
fn token_fails_after_password_digest_changes() {
    let now_str = "2024-05-01T10:00:00+00:00";
    let issue = chrono::DateTime::parse_from_rfc3339(now_str).unwrap().timestamp();
    let (users, token) = seeded_cache(now_str);
    // Rebuild the cache with a different stored digest: the embedded
    // digest no longer matches the current record, so the token dies.
    let mut changed = Users::new();
    let other = UserDB {
        id: Some(1),
        user: TEST_USER.to_string(),
        name: "My Test User".to_string(),
        password: vec![0u8; 32],
        json_state: String::new(),
    };
    changed.add_db_user(other);
    let r = changed.check_token_at(&token, EXPIRE, issue);
    assert!(matches!(r, Err(AppError::InvalidToken)));
    assert_eq!(users.len(), 1);
}

#[test]
fn token_without_state_is_invalid() {
    let now_str = "2024-05-01T10:00:00+00:00";
    let issue = chrono::DateTime::parse_from_rfc3339(now_str).unwrap().timestamp();
    let req = app_common::users::NewRequest {
        user: TEST_USER.to_string(),
        name: "My Test User".to_string(),
        password: TEST_PWD.to_string(),
        confirm_password: TEST_PWD.to_string(),
    };
    let row = app_common::users::signup_validate(false, &req).unwrap();
    let db = UserDB {
        id: Some(1),
        user: row.user.to_string(),
        name: row.name.to_string(),
        password: row.password.clone(),
        json_state: row.json_state.to_string(),
    };
    let mut users = Users::new();
    let i = users.add_db_user(db);
    let token = users.get(i).get_token_at(now_str);
    let r = users.check_token_at(&token, EXPIRE, issue);
    assert!(matches!(r, Err(AppError::InvalidToken)));
}

#[test]
fn real_clock_token_round_trip() {
    let mut users = Users::new();
    let req = app_common::users::NewRequest {
        user: TEST_USER.to_string(),
        name: "My Test User".to_string(),
        password: TEST_PWD.to_string(),
        confirm_password: TEST_PWD.to_string(),
    };
    let row = app_common::users::signup_validate(false, &req).unwrap();
    let db = UserDB {
        id: Some(1),
        user: row.user.to_string(),
        name: row.name.to_string(),
        password: row.password.clone(),
        json_state: row.json_state.to_string(),
    };
    let resp = users.admit_signup_at(db, &chrono::Utc::now().to_rfc3339());
    let token = match resp.response {
        Some(app_common::objects::ApiResponse::UsersLogin(l)) => l.token,
        _ => panic!("no token"),
    };
    let r = users.check_token(&token, EXPIRE);
    assert!(r.is_ok(), "freshly issued token should verify: {r:?}");
}

#[test]
fn bearer_header_extraction() {
    assert_eq!(bearer_token("Bearer abc.def.ghi"), Some("abc.def.ghi"));
    assert_eq!(bearer_token("BearerXabc.def.ghi"), None);
    assert_eq!(bearer_token("Basic abc"), None);
    assert_eq!(bearer_token("Bearer"), None);
    assert_eq!(bearer_token(""), None);
    assert_eq!(bearer_token("Bearer "), Some(""));
}

#[test]
fn save_replaces_state_of_matching_entry_only() {
    let now_str = "2024-05-01T10:00:00+00:00";
    let (mut users, _token) = seeded_cache(now_str);
    let other = UserDB {
        id: Some(2),
        user: "other@self.com".to_string(),
        name: "Other".to_string(),
        password: vec![1u8; 32],
        json_state: String::new(),
    };
    let j = users.add_db_user(other);
    let mut st = users.get(0).state.clone().unwrap();
    st.dummy = Some(vec![7, 8, 9]);
    st.save(&mut users).unwrap();
    assert_eq!(users.get(0).state.as_ref().unwrap().dummy, Some(vec![7, 8, 9]));
    assert!(users.get(0).needs_flush());
    assert!(users.get(j).state.is_none());
    assert!(!users.get(j).needs_flush());
}
