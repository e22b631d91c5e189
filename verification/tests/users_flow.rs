use app_common::app_error::AppError;
use app_common::objects::ApiResponse;
use app_common::objects::InfoResponse;
use app_common::users::signup_validate;
use app_common::users::LoginRequest;
use app_common::users::NewRequest;
use app_common::users::UserDB;
use app_common::users::UserState;
use app_common::users::Users;

const TEST_USER: &str = "test@self.com";
const TEST_PWD: &str = "deJDH`$%dei67ofHJwwwII)(&^%#";
const TEST_USERNAME: &str = "My Test User";

fn new_request(user: &str, name: &str, password: &str, confirm: &str) -> NewRequest {
    NewRequest {
        user: user.to_string(),
        name: name.to_string(),
        password: password.to_string(),
        confirm_password: confirm.to_string(),
    }
}

/// The glue a handler performs around the library for a signup: duplicate
/// probe against the store, validation, insert with a generated id,
/// re-query of the newest row, cache admission, immediate flush.
fn db_new_user(
    users: &mut Users,
    store: &mut Vec<UserDB>,
    req: NewRequest,
) -> Result<InfoResponse, AppError> {
    let exists = store.iter().any(|r| r.user == req.user);
    let new_user = signup_validate(exists, &req)?;
    let id = store.len() as i32 + 1;
    store.push(UserDB {
        id: Some(id),
        user: new_user.user.to_string(),
        name: new_user.name.to_string(),
        password: new_user.password.clone(),
        json_state: new_user.json_state.to_string(),
    });
    let newest = store.last().unwrap().clone();
    let resp = users.admit_signup_at(newest, &chrono::Utc::now().to_rfc3339());
    let idx = users.len() - 1;
    let blob = format!("state-of-{}", id);
    store.last_mut().unwrap().json_state = blob.clone();
    users.mark_flushed_at(idx, blob);
    Ok(resp)
}

/// The glue for a login that missed the cache: store lookup by name, then
/// cache admission with the state decoded from the persisted blob.
fn db_login_user(
    users: &mut Users,
    store: &Vec<UserDB>,
    req: &LoginRequest,
) -> Result<InfoResponse, AppError> {
    match store.iter().find(|r| r.user == req.user) {
        Some(row) => {
            let decoded: Option<UserState> = None;
            users.admit_login_at(row.clone(), decoded, req, &chrono::Utc::now().to_rfc3339())
        }
        None => Err(AppError::InvalidUser),
    }
}

#[test]
fn user_new() {
    let mut users = Users::new();
    let mut store: Vec<UserDB> = Vec::new();
    let login = db_new_user(
        &mut users,
        &mut store,
        new_request(TEST_USER, TEST_USERNAME, TEST_PWD, TEST_PWD),
    );
    match login {
        Err(AppError::ValidationError { field, msg }) => {
            assert!(
                field == "user" && msg == "already exists",
                "new user ValidationError {field} : {msg}"
            );
        }
        Err(_) => {
            assert!(login.is_ok(), "new user error: {login:?}");
        }
        Ok(_) => (),
    }
}

#[test]
fn user_login() {
    let mut users = Users::new();
    let mut store: Vec<UserDB> = Vec::new();
    let signup = db_new_user(
        &mut users,
        &mut store,
        new_request(TEST_USER, TEST_USERNAME, TEST_PWD, TEST_PWD),
    );
    assert!(signup.is_ok(), "signup error: {signup:?}");
    let mut fresh = Users::new();
    let login = db_login_user(
        &mut fresh,
        &store,
        &LoginRequest { user: TEST_USER.to_string(), password: TEST_PWD.to_string() },
    );
    assert!(login.is_ok(), "login error: {login:?}");
}

#[test]
fn signup_rejects_existing_username() {
    let mut users = Users::new();
    let mut store: Vec<UserDB> = Vec::new();
    let first = db_new_user(
        &mut users,
        &mut store,
        new_request(TEST_USER, TEST_USERNAME, TEST_PWD, TEST_PWD),
    );
    assert!(first.is_ok(), "first signup error: {first:?}");
    let second = db_new_user(
        &mut users,
        &mut store,
        new_request(TEST_USER, "Another Name", TEST_PWD, TEST_PWD),
    );
    match second {
        Err(AppError::ValidationError { field, msg }) => {
            assert_eq!(field, "user");
            assert_eq!(msg, "already exists");
        }
        other => panic!("expected duplicate-username rejection, got {other:?}"),
    }
}

#[test]
fn signup_digest_differs_from_password_and_login_round_trips() {
    let req = new_request(TEST_USER, TEST_USERNAME, TEST_PWD, TEST_PWD);
    let row = signup_validate(false, &req).unwrap();
    assert_eq!(row.password.len(), 32);
    assert_ne!(row.password.as_slice(), TEST_PWD.as_bytes());
    let again = signup_validate(false, &req).unwrap();
    assert_eq!(row.password, again.password);
    let db = UserDB {
        id: Some(1),
        user: TEST_USER.to_string(),
        name: TEST_USERNAME.to_string(),
        password: row.password.clone(),
        json_state: String::new(),
    };
    assert!(db.check_password(TEST_PWD).is_ok());
    assert!(matches!(db.check_password("Wrong-Password-1!"), Err(AppError::InvalidUser)));
}

#[test]
fn cache_login_wrong_password_is_invalid_user() {
    let mut users = Users::new();
    let mut store: Vec<UserDB> = Vec::new();
    db_new_user(&mut users, &mut store, new_request(TEST_USER, TEST_USERNAME, TEST_PWD, TEST_PWD))
        .unwrap();
    let login = users.login(&LoginRequest {
        user: TEST_USER.to_string(),
        password: "Wrong-Password-1!".to_string(),
    });
    assert!(matches!(login, Err(AppError::InvalidUser)));
}

#[test]
fn cache_miss_login_is_cache_error() {
    let users = Users::new();
    let login = users.login(&LoginRequest {
        user: "nobody@self.com".to_string(),
        password: TEST_PWD.to_string(),
    });
    assert!(matches!(login, Err(AppError::CacheError)));
}

#[test]
fn duplicate_first_logins_duplicate_the_cache_entry() {
    // Known race, documented as an open defect rather than intended
    // behavior: two concurrent first-time logins can both miss the cache
    // and both admit the loaded record, leaving two entries for one id.
    // This detects the duplication.
    let mut users = Users::new();
    let mut store: Vec<UserDB> = Vec::new();
    db_new_user(&mut users, &mut store, new_request(TEST_USER, TEST_USERNAME, TEST_PWD, TEST_PWD))
        .unwrap();
    let req = LoginRequest { user: TEST_USER.to_string(), password: TEST_PWD.to_string() };
    let mut fresh = Users::new();
    db_login_user(&mut fresh, &store, &req).unwrap();
    db_login_user(&mut fresh, &store, &req).unwrap();
    assert_eq!(fresh.len(), 2);
    assert_eq!(fresh.get(0).db.id, Some(1));
    assert_eq!(fresh.get(1).db.id, Some(1));
}

#[test]
fn flush_clears_dirty_and_keeps_blob() {
    let mut users = Users::new();
    let mut store: Vec<UserDB> = Vec::new();
    db_new_user(&mut users, &mut store, new_request(TEST_USER, TEST_USERNAME, TEST_PWD, TEST_PWD))
        .unwrap();
    assert_eq!(users.dirty_count(), 0);
    let st = users.get(0).state.clone().unwrap();
    st.save(&mut users).unwrap();
    assert_eq!(users.dirty_count(), 1);
    assert!(users.get(0).needs_flush());
    users.mark_flushed_at(0, "blob-after-save".to_string());
    assert_eq!(users.dirty_count(), 0);
    assert_eq!(users.get(0).db.json_state, "blob-after-save");
}

#[test]
fn save_unknown_id_is_cache_error() {
    let mut users = Users::new();
    let st = UserState::new(&Some(42));
    assert!(matches!(st.save(&mut users), Err(AppError::CacheError)));
}

#[test]
fn status_codes_by_error_kind() {
    let v = AppError::ValidationError { field: "user", msg: "already exists" };
    assert_eq!(v.status_code(), 400);
    assert_eq!(AppError::InvalidUser.status_code(), 401);
    assert_eq!(AppError::InvalidToken.status_code(), 401);
    assert_eq!(AppError::CacheError.status_code(), 500);
    assert_eq!(AppError::InternalError { msg: "boom".to_string() }.status_code(), 500);
}

#[test]
fn login_response_carries_token_and_state() {
    let mut users = Users::new();
    let mut store: Vec<UserDB> = Vec::new();
    let resp = db_new_user(
        &mut users,
        &mut store,
        new_request(TEST_USER, TEST_USERNAME, TEST_PWD, TEST_PWD),
    )
    .unwrap();
    let token = match resp.response {
        Some(ApiResponse::UsersLogin(l)) => l.token,
        other => panic!("expected login payload, got none: {:?}", other.is_some()),
    };
    assert!(!token.is_empty());
    let state = resp.user_state.unwrap();
    assert_eq!(state.id, Some(1));
    assert_eq!(state.user_lib, "user_app");
    assert_eq!(state.json_form.name, "app::MainRequest");
}
