use app_common::json_forms::JsonFormsRequest;
use app_common::shared::SharedUsers;
use app_common::users::signup_validate;
use app_common::users::LoginRequest;
use app_common::users::NewRequest;
use app_common::users::UserDB;
use app_common::users::UserState;
use app_common::user_app::handle_main_request;
use app_common::user_app::process_main_response;
use app_common::user_app::MainRequest;
use app_common::user_app::MainResponse;
use app_common::users::Users;

const TEST_USER: &str = "test@self.com";
const TEST_PWD: &str = "deJDH`$%dei67ofHJwwwII)(&^%#";
const NWORKERS: usize = 10;
const NITERS: usize = 1000;

fn seeded_row() -> UserDB {
    let req = NewRequest {
        user: TEST_USER.to_string(),
        name: "My Test User".to_string(),
        password: TEST_PWD.to_string(),
        confirm_password: TEST_PWD.to_string(),
    };
    let row = signup_validate(false, &req).unwrap();
    UserDB {
        id: Some(1),
        user: row.user.to_string(),
        name: row.name.to_string(),
        password: row.password.clone(),
        json_state: row.json_state.to_string(),
    }
}

fn state_with_slices() -> UserState {
    UserState {
        id: Some(1),
        user_lib: "user_app".to_string(),
        json_form: JsonFormsRequest { name: "app::MainRequest".to_string() },
        dummy: Some(vec![0; NWORKERS]),
    }
}

#[test]
fn state_saves_lose_no_updates() {
    // Workers share one logged-in user and each repeatedly loads the
    // state, increments its own slice of the array-valued field and saves
    // it back; every save is one full read-modify-write under the
    // exclusive lock, so after all rounds the array must hold exactly
    // NWORKERS * NITERS increments, distributed one slice per worker.
    let shared = SharedUsers::new();
    let login = LoginRequest { user: TEST_USER.to_string(), password: TEST_PWD.to_string() };
    let resp = shared
        .admit_login(seeded_row(), Some(state_with_slices()), &login, &chrono::Utc::now().to_rfc3339())
        .unwrap();
    let token = match resp.response {
        Some(app_common::objects::ApiResponse::UsersLogin(l)) => l.token,
        _ => panic!("no token"),
    };
    for _ in 0..NITERS {
        for i in 0..NWORKERS {
            let mut st = shared.check_token(&token, 1800).unwrap();
            let mut v = st.dummy.take().unwrap();
            v[i] += 1;
            st.dummy = Some(v);
            shared.save_state(st).unwrap();
        }
    }
    let final_state = shared.check_token(&token, 1800).unwrap();
    assert_eq!(final_state.dummy.unwrap(), vec![NITERS; NWORKERS]);
}

#[test]
fn main_request_flips_form_and_greets() {
    let mut users = Users::new();
    let resp = users.admit_signup_at(seeded_row(), &chrono::Utc::now().to_rfc3339());
    let st = resp.user_state.unwrap();
    let out = handle_main_request(
        &mut users,
        st,
        MainRequest { app_str: "world".to_string() },
    )
    .unwrap();
    match out.response {
        Some(app_common::user_app::ApiResponse::AppMain(m)) => {
            assert_eq!(m.hello(), "hello world");
        }
        _ => panic!("expected a main response"),
    }
    let st2 = out.user_state.unwrap();
    assert_eq!(st2.json_form.name, "app::DummyRequest");
    assert_eq!(users.get(0).state.as_ref().unwrap().json_form.name, "app::DummyRequest");
    assert!(users.get(0).needs_flush());
}

#[test]
fn main_request_without_cached_user_is_cache_error() {
    let mut users = Users::new();
    let st = UserState::new(&Some(9));
    let out = handle_main_request(&mut users, st, MainRequest { app_str: "x".to_string() });
    assert!(matches!(out, Err(app_common::app_error::AppError::CacheError)));
}

#[test]
fn wasm_response_appends_suffix() {
    let r = process_main_response(MainResponse { hello: "hello world".to_string() });
    assert_eq!(r.hello_response(), "hello world back from wasm");
}
