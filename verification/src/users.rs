use vstd::prelude::*;
use crate::app_error::AppError;
use crate::app_error::AppErrorView;
use crate::digest::bytes_eq;
use crate::digest::compute_sha256;
use crate::digest::hex_upper_of;
use crate::digest::password_digest;
use crate::digest::to_hex_upper;
use crate::json_forms::Button;
use crate::json_forms::ButtonPos;
use crate::json_forms::ButtonType;
use crate::json_forms::ButtonView;
use crate::json_forms::JsonFormsButtons;
use crate::json_forms::JsonFormsRequest;
use crate::json_forms::JsonFormsResponse;
use crate::json_forms::JsonFormsResponseView;
use crate::json_forms::JsonFormsSerializable;
use crate::objects::ApiResponse;
use crate::objects::ApiResponseView;
use crate::objects::InfoResponse;
use crate::objects::InfoResponseView;
use crate::json_forms::JsonFormsRequestView;
use crate::password::check_password_requirements;
use crate::password::pwd_ok;
use crate::password::pwd_violation_msg;
use crate::text::str_eq;
use crate::token::TokenClaims;
use crate::token::now_rfc3339;
use crate::token::now_timestamp;
use crate::token::parse_rfc3339_secs;
use crate::token::rfc3339_secs;
use crate::token::sign_claims;
use crate::token::signed_token;
use crate::token::verify_token;
use crate::opt_view;
use crate::res_view;

verus! {

/// Spec-level image of [`UserDB`].
#[verifier::ext_equal]
pub struct UserDBView {
    pub id: Option<i32>,
    pub user: Seq<char>,
    pub name: Seq<char>,
    pub password: Seq<u8>,
    pub json_state: Seq<char>,
}

/// One persistent user record: generated id (absent until inserted), unique
/// username, display name, password digest, and the serialized state blob.
#[derive(Debug)]
pub struct UserDB {
    pub id: Option<i32>,
    pub user: String,
    pub name: String,
    pub password: Vec<u8>,
    pub json_state: String,
}

impl View for UserDB {
    type V = UserDBView;

    open spec fn view(&self) -> UserDBView {
        UserDBView {
            id: self.id,
            user: self.user@,
            name: self.name@,
            password: self.password@,
            json_state: self.json_state@,
        }
    }
}

impl Clone for UserDB {
    fn clone(&self) -> (r: Self)
        ensures
            r@ == self@,
    {
        let password = self.password.clone();
        proof {
            assert(password@ =~= self.password@);
        }
        UserDB {
            id: self.id,
            user: self.user.clone(),
            name: self.name.clone(),
            password,
            json_state: self.json_state.clone(),
        }
    }
}

/// Spec-level image of [`UserState`].
#[verifier::ext_equal]
pub struct UserStateView {
    pub id: Option<i32>,
    pub user_lib: Seq<char>,
    pub json_form: JsonFormsRequestView,
    pub dummy: Option<Seq<usize>>,
}

/// The application state cached for one logged-in user. The core only needs
/// it to carry the owning user's id; the rest belongs to the application.
#[derive(Debug)]
pub struct UserState {
    pub id: Option<i32>,
    pub user_lib: String,
    pub json_form: JsonFormsRequest,
    pub dummy: Option<Vec<usize>>,
}

impl View for UserState {
    type V = UserStateView;

    open spec fn view(&self) -> UserStateView {
        UserStateView {
            id: self.id,
            user_lib: self.user_lib@,
            json_form: self.json_form@,
            dummy: match self.dummy {
                Some(ref v) => Some(v@),
                None => None,
            },
        }
    }
}

impl Clone for UserState {
    fn clone(&self) -> (r: Self)
        ensures
            r@ == self@,
    {
        UserState {
            id: self.id,
            user_lib: self.user_lib.clone(),
            json_form: self.json_form.clone(),
            dummy: match &self.dummy {
                Some(v) => {
                    let c = v.clone();
                    proof {
                        assert(c@ =~= v@);
                    }
                    Some(c)
                },
                None => None,
            },
        }
    }
}

/// The fresh application state a signup installs: it references the
/// application's entry-point form.
pub open spec fn fresh_user_state(id: Option<i32>) -> UserStateView {
    UserStateView {
        id,
        user_lib: "user_app"@,
        json_form: JsonFormsRequestView { name: "app::MainRequest"@ },
        dummy: None,
    }
}

impl UserState {
    pub fn new(id: &Option<i32>) -> (r: Self)
        ensures
            r@ == fresh_user_state(*id),
    {
        UserState {
            id: *id,
            user_lib: "user_app".to_owned(),
            json_form: JsonFormsRequest { name: "app::MainRequest".to_owned() },
            dummy: None,
        }
    }
}

/// Spec-level image of [`User`].
#[verifier::ext_equal]
pub struct UserView {
    pub db: UserDBView,
    pub state: Option<UserStateView>,
    pub requires_save: bool,
}

/// One cache entry: the record, the decoded application state if any, and
/// the dirty flag of the write-back protocol.
#[derive(Debug)]
pub struct User {
    pub db: UserDB,
    pub state: Option<UserState>,
    pub requires_save: bool,
}

impl View for User {
    type V = UserView;

    open spec fn view(&self) -> UserView {
        UserView { db: self.db@, state: opt_view(self.state), requires_save: self.requires_save }
    }
}

/// The in-process cache of logged-in users. The collection itself is the
/// only shared mutable resource of the core; callers guard it with one
/// process-wide reader-writer lock.
pub struct Users {
    users: Vec<User>,
}

impl View for Users {
    type V = Seq<UserView>;

    closed spec fn view(&self) -> Seq<UserView> {
        self.users@.map_values(|u: User| u@)
    }
}

/// Index of the first entry satisfying `p`, or -1 when none does.
pub open spec fn first_match(s: Seq<UserView>, p: spec_fn(UserView) -> bool) -> int
    decreases s.len(),
{
    if s.len() == 0 {
        -1
    } else if p(s[0]) {
        0
    } else {
        let r = first_match(s.drop_first(), p);
        if r < 0 {
            -1
        } else {
            r + 1
        }
    }
}

/// `first_match` finds the first satisfying index, and -1 exactly when no
/// entry satisfies `p`.
pub proof fn lemma_first_match(s: Seq<UserView>, p: spec_fn(UserView) -> bool)
    ensures
        first_match(s, p) < 0 ==> forall|j: int| 0 <= j < s.len() ==> !p(s[j]),
        first_match(s, p) >= 0 ==> 0 <= first_match(s, p) < s.len() && p(s[first_match(s, p)])
            && (forall|j: int| 0 <= j < first_match(s, p) ==> !p(s[j])),
    decreases s.len(),
{
    if s.len() > 0 && !p(s[0]) {
        lemma_first_match(s.drop_first(), p);
        assert forall|j: int| 1 <= j < s.len() implies s.drop_first()[j - 1] == s[j] by {}
    }
}

/// Predicate picking the cache entry of a given username.
pub open spec fn name_is(name: Seq<char>) -> spec_fn(UserView) -> bool {
    |u: UserView| u.db.user == name
}

/// Predicate picking the cache entry of a given record id.
pub open spec fn id_is(id: Option<i32>) -> spec_fn(UserView) -> bool {
    |u: UserView| u.db.id == id
}

impl User {
    /// Wraps a freshly loaded record: no decoded state yet, not dirty.
    pub fn new(user: UserDB) -> (r: Self)
        ensures
            r@ == (UserView { db: user@, state: None, requires_save: false }),
    {
        User { db: user, state: None, requires_save: false }
    }

    /// Replaces the cached application state and marks the entry dirty.
    pub fn set_state(&mut self, state: UserState)
        ensures
            final(self)@ == (UserView {
                db: old(self)@.db,
                state: Some(state@),
                requires_save: true,
            }),
    {
        self.state = Some(state);
        self.requires_save = true;
    }

    /// Installs the state decoded from the persisted blob; the dirty flag is
    /// untouched, as the blob is by definition what the store already holds.
    pub fn reset_state(&mut self, decoded: Option<UserState>)
        ensures
            final(self)@ == (UserView {
                db: old(self)@.db,
                state: opt_view(decoded),
                requires_save: old(self)@.requires_save,
            }),
    {
        self.state = decoded;
    }
}

impl Users {
    pub fn new() -> (r: Self)
        ensures
            r@ == Seq::<UserView>::empty(),
    {
        let r = Users { users: Vec::new() };
        proof {
            assert(r@ =~= Seq::<UserView>::empty());
        }
        r
    }

    pub fn len(&self) -> (n: usize)
        ensures
            n == self@.len(),
    {
        self.users.len()
    }

    pub fn get(&self, i: usize) -> (u: &User)
        requires
            i < self@.len(),
        ensures
            u@ == self@[i as int],
    {
        &self.users[i]
    }

    /// Appends a new entry for this record — without checking whether an
    /// entry with the same id is already cached — and returns its index.
    pub fn add_db_user(&mut self, user: UserDB) -> (i: usize)
        ensures
            i == old(self)@.len(),
            final(self)@ == old(self)@.push(
                (UserView { db: user@, state: None, requires_save: false }),
            ),
    {
        let ghost prev = self.users@;
        self.users.push(User::new(user));
        proof {
            assert(self.users@.map_values(|u: User| u@) =~= prev.map_values(|u: User| u@).push(
                self.users@.last()@,
            ));
        }
        self.users.len() - 1
    }

    /// Shared-lock lookup by username; the first matching entry wins.
    pub fn find_user(&self, user: &str) -> (r: Result<&User, AppError>)
        ensures
            match r {
                Ok(u) => {
                    let i = first_match(self@, name_is(user@));
                    0 <= i < self@.len() && u@ == self@[i]
                },
                Err(e) => e@ == AppErrorView::Cache && first_match(self@, name_is(user@)) < 0,
            },
    {
        proof {
            lemma_first_match(self@, name_is(user@));
        }
        let n = self.users.len();
        let mut i: usize = 0;
        while i < n
            invariant
                n == self@.len(),
                i <= n,
                self@.len() == self.users@.len(),
                forall|j: int| 0 <= j < i ==> !(name_is(user@)(self@[j])),
                first_match(self@, name_is(user@)) < 0 || first_match(self@, name_is(user@)) >= i,
            decreases n - i,
        {
            if str_eq(self.users[i].db.user.as_str(), user) {
                proof {
                    lemma_first_match(self@, name_is(user@));
                    assert(name_is(user@)(self@[i as int]));
                }
                return Ok(&self.users[i]);
            }
            proof {
                lemma_first_match(self@, name_is(user@));
                assert(!(name_is(user@)(self@[i as int])));
            }
            i += 1;
        }
        Err(AppError::CacheError)
    }

    /// Lookup by the id carried in an application state; the first matching
    /// entry wins. A miss is a cache-consistency fault.
    pub fn find_user_by_state(&self, user_state: &UserState) -> (r: Result<usize, AppError>)
        ensures
            match r {
                Ok(i) => i == first_match(self@, id_is(user_state.id)) && 0 <= i < self@.len(),
                Err(e) => e@ == AppErrorView::Cache && first_match(self@, id_is(user_state.id))
                    < 0,
            },
    {
        proof {
            lemma_first_match(self@, id_is(user_state.id));
        }
        let n = self.users.len();
        let mut i: usize = 0;
        while i < n
            invariant
                n == self@.len(),
                i <= n,
                self@.len() == self.users@.len(),
                forall|j: int| 0 <= j < i ==> !(id_is(user_state.id)(self@[j])),
                first_match(self@, id_is(user_state.id)) < 0 || first_match(
                    self@,
                    id_is(user_state.id),
                ) >= i,
            decreases n - i,
        {
            let same = match (&self.users[i].db.id, &user_state.id) {
                (Some(a), Some(b)) => *a == *b,
                (None, None) => true,
                _ => false,
            };
            if same {
                proof {
                    lemma_first_match(self@, id_is(user_state.id));
                    assert(id_is(user_state.id)(self@[i as int]));
                }
                return Ok(i);
            }
            proof {
                lemma_first_match(self@, id_is(user_state.id));
                assert(!(id_is(user_state.id)(self@[i as int])));
            }
            i += 1;
        }
        Err(AppError::CacheError)
    }
}

impl Default for Users {
    fn default() -> (r: Self)
        ensures
            r@ == Seq::<UserView>::empty(),
    {
        Users::new()
    }
}

/// Spec-level image of [`LoginRequest`].
#[verifier::ext_equal]
pub struct LoginRequestView {
    pub user: Seq<char>,
    pub password: Seq<char>,
}

/// Credentials presented at login.
pub struct LoginRequest {
    pub user: String,
    pub password: String,
}

impl View for LoginRequest {
    type V = LoginRequestView;

    open spec fn view(&self) -> LoginRequestView {
        LoginRequestView { user: self.user@, password: self.password@ }
    }
}

/// Spec-level image of [`LoginResponse`].
#[verifier::ext_equal]
pub struct LoginResponseView {
    pub token: Seq<char>,
}

/// A successful login or signup answers with a bearer token.
#[derive(Debug)]
pub struct LoginResponse {
    pub token: String,
}

impl View for LoginResponse {
    type V = LoginResponseView;

    open spec fn view(&self) -> LoginResponseView {
        LoginResponseView { token: self.token@ }
    }
}

/// Spec-level image of [`NewRequest`].
#[verifier::ext_equal]
pub struct NewRequestView {
    pub user: Seq<char>,
    pub name: Seq<char>,
    pub password: Seq<char>,
    pub confirm_password: Seq<char>,
}

/// The fields of a signup request.
pub struct NewRequest {
    pub user: String,
    pub name: String,
    pub password: String,
    pub confirm_password: String,
}

impl View for NewRequest {
    type V = NewRequestView;

    open spec fn view(&self) -> NewRequestView {
        NewRequestView {
            user: self.user@,
            name: self.name@,
            password: self.password@,
            confirm_password: self.confirm_password@,
        }
    }
}

/// Spec-level image of [`UserNew`].
#[verifier::ext_equal]
pub struct UserNewView {
    pub user: Seq<char>,
    pub name: Seq<char>,
    pub password: Seq<u8>,
    pub json_state: Seq<char>,
}

/// The row a signup hands to the store for insertion; the id is generated
/// by the store.
pub struct UserNew<'a> {
    pub user: &'a str,
    pub name: &'a str,
    pub password: Vec<u8>,
    pub json_state: &'a str,
}

impl<'a> View for UserNew<'a> {
    type V = UserNewView;

    open spec fn view(&self) -> UserNewView {
        UserNewView {
            user: self.user@,
            name: self.name@,
            password: self.password@,
            json_state: self.json_state@,
        }
    }
}

impl UserDB {
    /// Byte-exact comparison of the digest of `pwd` against the stored one.
    pub fn check_password(&self, pwd: &str) -> (r: Result<(), AppError>)
        ensures
            r is Ok <==> password_digest(pwd@) == self.password@,
            r is Err ==> r matches Err(AppError::InvalidUser),
    {
        let s = compute_sha256(pwd);
        if bytes_eq(&s, &self.password) {
            Ok(())
        } else {
            Err(AppError::InvalidUser)
        }
    }
}

impl User {
    /// Issues the bearer token for this entry with the given issue time:
    /// claims {user, uppercase-hex digest, time}, signed as one unit.
    pub fn get_token_at(&self, now_str: &str) -> (r: String)
        ensures
            r@ == signed_token(self.db.user@, hex_upper_of(self.db.password@), now_str@),
    {
        let hex = to_hex_upper(&self.db.password);
        let claims = TokenClaims {
            user: self.db.user.clone(),
            password: hex,
            token_time: now_str.to_owned(),
        };
        sign_claims(&claims)
    }

    /// Issues a token stamped with the current clock reading.
    pub fn get_token(&self) -> (r: String)
        ensures
            exists|t: Seq<char>|
                r@ == signed_token(self.db.user@, hex_upper_of(self.db.password@), t)
                    && rfc3339_secs(t) is Some,
    {
        let now = now_rfc3339();
        let r = self.get_token_at(now.as_str());
        proof {
            assert(r@ == signed_token(self.db.user@, hex_upper_of(self.db.password@), now@)
                && rfc3339_secs(now@) is Some);
        }
        r
    }
}

fn clone_opt_state(s: &Option<UserState>) -> (r: Option<UserState>)
    ensures
        opt_view(r) == opt_view(*s),
{
    match s {
        Some(st) => Some(st.clone()),
        None => None,
    }
}

/// What a cache-resident login answers: unknown name is a cache miss (the
/// caller then falls back to the store), a digest mismatch rejects the
/// user, and a match answers with a token and the cached state.
pub open spec fn spec_login(
    cache: Seq<UserView>,
    req: LoginRequestView,
    now: Seq<char>,
) -> Result<InfoResponseView, AppErrorView> {
    let i = first_match(cache, name_is(req.user));
    if i < 0 {
        Err(AppErrorView::Cache)
    } else if password_digest(req.password) != cache[i].db.password {
        Err(AppErrorView::InvalidUser)
    } else {
        Ok(InfoResponseView {
            response: Some(ApiResponseView::UsersLogin(LoginResponseView {
                token: signed_token(cache[i].db.user, hex_upper_of(cache[i].db.password), now),
            })),
            user_state: cache[i].state,
        })
    }
}

impl Users {
    /// Login against the cache alone, issuing a token with the given time.
    pub fn login_at(&self, l: &LoginRequest, now_str: &str) -> (r: Result<InfoResponse, AppError>)
        ensures
            res_view(r) == spec_login(self@, l@, now_str@),
    {
        let user = match self.find_user(l.user.as_str()) {
            Ok(u) => u,
            Err(e) => {
                return Err(e);
            },
        };
        match user.db.check_password(l.password.as_str()) {
            Ok(()) => (),
            Err(e) => {
                return Err(e);
            },
        }
        let token = user.get_token_at(now_str);
        Ok(InfoResponse {
            response: Some(ApiResponse::UsersLogin(LoginResponse { token })),
            user_state: clone_opt_state(&user.state),
        })
    }

    /// Login against the cache, stamping the token with the clock.
    pub fn login(&self, l: &LoginRequest) -> (r: Result<InfoResponse, AppError>)
        ensures
            exists|now: Seq<char>|
                res_view(r) == spec_login(self@, l@, now) && rfc3339_secs(now) is Some,
    {
        let now = now_rfc3339();
        let r = self.login_at(l, now.as_str());
        proof {
            assert(res_view(r) == spec_login(self@, l@, now@) && rfc3339_secs(now@) is Some);
        }
        r
    }
}

impl JsonFormsSerializable for LoginRequest {
    open spec fn spec_schemas() -> (Seq<char>, Seq<char>) {
        (
            r#"{"type":"object","properties":{"user":{"type":"string","minLength": 4, "title":"Login User"},"password":{"type":"string","passwordFmt":1, "format":"password", "title":"Login Password"}},"required": ["user","password"]}"#@,
            r##"{"type":"VerticalLayout","elements":[{"type":"Control","scope":"#/properties/user"},{"type":"Control","scope":"#/properties/password"}]}"##@,
        )
    }

    fn jsonforms_schema() -> (r: (String, String)) {
        (
            r#"{"type":"object","properties":{"user":{"type":"string","minLength": 4, "title":"Login User"},"password":{"type":"string","passwordFmt":1, "format":"password", "title":"Login Password"}},"required": ["user","password"]}"#.to_owned(),
            r##"{"type":"VerticalLayout","elements":[{"type":"Control","scope":"#/properties/user"},{"type":"Control","scope":"#/properties/password"}]}"##.to_owned(),
        )
    }
}

impl JsonFormsButtons for LoginRequest {
    open spec fn spec_buttons() -> Seq<ButtonView> {
        seq![
            ButtonView {
                name: "Sign In"@,
                form: None,
                btype: ButtonType::Submit,
                bpos: ButtonPos::Center,
            },
            ButtonView {
                name: "Sign Up"@,
                form: Some(JsonFormsRequestView { name: "users::NewRequest"@ }),
                btype: ButtonType::NextForm,
                bpos: ButtonPos::Right,
            },
        ]
    }

    fn add_buttons(form: &mut JsonFormsResponse) {
        form.add_button(Button {
            name: "Sign In",
            btype: ButtonType::Submit,
            bpos: ButtonPos::Center,
            form: None,
        });
        form.add_button(Button {
            name: "Sign Up",
            btype: ButtonType::NextForm,
            bpos: ButtonPos::Right,
            form: Some(JsonFormsRequest { name: "users::NewRequest".to_owned() }),
        });
        proof {
            assert(form@.buttons =~= old(form)@.buttons + Self::spec_buttons());
            assert(form@ =~= (JsonFormsResponseView {
                buttons: old(form)@.buttons + Self::spec_buttons(),
                ..old(form)@
            }));
        }
    }
}

impl JsonFormsSerializable for NewRequest {
    open spec fn spec_schemas() -> (Seq<char>, Seq<char>) {
        (
            r#"{"type":"object","properties":{"user":{"type":"string","minLength": 4, "title":"Login User"},"name":{"type":"string","minLength": 4},"password":{"type":"string","passwordFmt":2, "format":"password", "title":"New Password"},"confirm_password":{"type":"string","passwordFmt":1, "format":"password", "title":"Confirm Password"}},"required": ["user","name","password","confirm_password"]}"#@,
            r##"{"type":"VerticalLayout","elements":[{"type":"Control","scope":"#/properties/user"},{"type":"Control","scope":"#/properties/name"},{"type":"Control","scope":"#/properties/password"},{"type":"Control","scope":"#/properties/confirm_password"}]}"##@,
        )
    }

    fn jsonforms_schema() -> (r: (String, String)) {
        (
            r#"{"type":"object","properties":{"user":{"type":"string","minLength": 4, "title":"Login User"},"name":{"type":"string","minLength": 4},"password":{"type":"string","passwordFmt":2, "format":"password", "title":"New Password"},"confirm_password":{"type":"string","passwordFmt":1, "format":"password", "title":"Confirm Password"}},"required": ["user","name","password","confirm_password"]}"#.to_owned(),
            r##"{"type":"VerticalLayout","elements":[{"type":"Control","scope":"#/properties/user"},{"type":"Control","scope":"#/properties/name"},{"type":"Control","scope":"#/properties/password"},{"type":"Control","scope":"#/properties/confirm_password"}]}"##.to_owned(),
        )
    }
}

impl JsonFormsButtons for NewRequest {
    open spec fn spec_buttons() -> Seq<ButtonView> {
        seq![
            ButtonView {
                name: "Sign Up"@,
                form: None,
                btype: ButtonType::Submit,
                bpos: ButtonPos::Center,
            },
            ButtonView {
                name: "Sign In"@,
                form: Some(JsonFormsRequestView { name: "users::LoginRequest"@ }),
                btype: ButtonType::NextForm,
                bpos: ButtonPos::Right,
            },
        ]
    }

    fn add_buttons(form: &mut JsonFormsResponse) {
        form.add_button(Button {
            name: "Sign Up",
            btype: ButtonType::Submit,
            bpos: ButtonPos::Center,
            form: None,
        });
        form.add_button(Button {
            name: "Sign In",
            btype: ButtonType::NextForm,
            bpos: ButtonPos::Right,
            form: Some(JsonFormsRequest { name: "users::LoginRequest".to_owned() }),
        });
        proof {
            assert(form@.buttons =~= old(form)@.buttons + Self::spec_buttons());
            assert(form@ =~= (JsonFormsResponseView {
                buttons: old(form)@.buttons + Self::spec_buttons(),
                ..old(form)@
            }));
        }
    }
}

/// What checking extracted claims against the cache yields: the user must
/// be cached (tokens are only valid for users resident in this process),
/// the claimed digest must match the cached record byte for byte, and the
/// issue time must parse and still be within the expiry window. Every
/// failure is the one undifferentiated invalid-token error.
pub open spec fn spec_check_claims(
    cache: Seq<UserView>,
    user: Seq<char>,
    password: Seq<char>,
    token_time: Seq<char>,
    expire: int,
    now: int,
) -> Result<UserStateView, AppErrorView> {
    let i = first_match(cache, name_is(user));
    if i < 0 {
        Err(AppErrorView::InvalidToken)
    } else if password != hex_upper_of(cache[i].db.password) {
        Err(AppErrorView::InvalidToken)
    } else {
        match rfc3339_secs(token_time) {
            None => Err(AppErrorView::InvalidToken),
            Some(ts) => if ts + expire > now {
                match cache[i].state {
                    Some(st) => Ok(st),
                    None => Err(AppErrorView::InvalidToken),
                }
            } else {
                Err(AppErrorView::InvalidToken)
            },
        }
    }
}


/// Whether `r` is the verdict that checking `token` against `cache` at
/// time `now` yields, for every claim triple the token may sign.
pub open spec fn spec_check_token_outcome(
    cache: Seq<UserView>,
    token: Seq<char>,
    expire: int,
    now: int,
    r: Result<UserStateView, AppErrorView>,
) -> bool {
    forall|u: Seq<char>, p: Seq<char>, t: Seq<char>|
        token == #[trigger] signed_token(u, p, t) ==> r == spec_check_claims(
            cache,
            u,
            p,
            t,
            expire,
            now,
        )
}

impl Users {
    /// Checks one extracted claim triple against the cache at time `now`.
    pub fn check_claims(&self, claims: &TokenClaims, token_expire: i64, now: i64) -> (r: Result<
        UserState,
        AppError,
    >)
        ensures
            res_view(r) == spec_check_claims(
                self@,
                claims.user@,
                claims.password@,
                claims.token_time@,
                token_expire as int,
                now as int,
            ),
            r is Err ==> r matches Err(AppError::InvalidToken),
    {
        let user = match self.find_user(claims.user.as_str()) {
            Ok(u) => u,
            Err(_) => {
                return Err(AppError::InvalidToken);
            },
        };
        let hex = to_hex_upper(&user.db.password);
        if !str_eq(claims.password.as_str(), hex.as_str()) {
            return Err(AppError::InvalidToken);
        }
        let ts = match parse_rfc3339_secs(claims.token_time.as_str()) {
            Some(t) => t,
            None => {
                return Err(AppError::InvalidToken);
            },
        };
        if (ts as i128) + (token_expire as i128) > (now as i128) {
            match &user.state {
                Some(st) => Ok(st.clone()),
                None => Err(AppError::InvalidToken),
            }
        } else {
            Err(AppError::InvalidToken)
        }
    }

    /// Verifies a bearer token against the cache at time `now`: for any
    /// token that is the signed form of some claims, the result is exactly
    /// what checking those claims yields; every failure is InvalidToken.
    pub fn check_token_at(&self, token: &str, token_expire: i64, now: i64) -> (r: Result<
        UserState,
        AppError,
    >)
        ensures
            forall|u: Seq<char>, p: Seq<char>, t: Seq<char>|
                token@ == #[trigger] signed_token(u, p, t) ==> res_view(r) == spec_check_claims(
                    self@,
                    u,
                    p,
                    t,
                    token_expire as int,
                    now as int,
                ),
            r is Err ==> r matches Err(AppError::InvalidToken),
    {
        match verify_token(token) {
            None => Err(AppError::InvalidToken),
            Some(claims) => self.check_claims(&claims, token_expire, now),
        }
    }

    /// Verifies a bearer token against the cache at the clock's present
    /// reading. The clock decides which instant that is, so the outcome is
    /// pinned only relative to some instant; every failure is the
    /// undifferentiated InvalidToken.
    pub fn check_token(&self, token: &str, token_expire: i64) -> (r: Result<UserState, AppError>)
        ensures
            exists|now: i64|
                #[trigger] spec_check_token_outcome(
                    self@,
                    token@,
                    token_expire as int,
                    now as int,
                    res_view(r),
                ),
            r is Err ==> r matches Err(AppError::InvalidToken),
    {
        let now = now_timestamp();
        let r = self.check_token_at(token, token_expire, now);
        proof {
            assert(spec_check_token_outcome(
                self@,
                token@,
                token_expire as int,
                now as int,
                res_view(r),
            ));
        }
        r
    }
}

/// What validating a signup decides: the password policy first, in fixed
/// order, then the duplicate-username rejection; on success the row to
/// insert, carrying the password digest and an empty state blob.
pub open spec fn spec_signup_validate(
    user_exists: bool,
    req: NewRequestView,
) -> Result<UserNewView, AppErrorView> {
    if !pwd_ok(req.password, req.confirm_password) {
        Err(AppErrorView::Validation {
            field: "New Password"@,
            msg: pwd_violation_msg(req.password, req.confirm_password),
        })
    } else if user_exists {
        Err(AppErrorView::Validation { field: "user"@, msg: "already exists"@ })
    } else {
        Ok(UserNewView {
            user: req.user,
            name: req.name,
            password: password_digest(req.password),
            json_state: ""@,
        })
    }
}

/// Signup succeeds for a username not previously present and is rejected
/// for a present one: under the password policy (which is checked first),
/// a signup against a store already holding the username is answered with
/// exactly the duplicate-user error, and one against a store without it
/// is never rejected.
pub proof fn lemma_signup_once(user_exists: bool, req: NewRequestView)
    requires
        pwd_ok(req.password, req.confirm_password),
    ensures
        user_exists ==> spec_signup_validate(user_exists, req) == Err::<
            UserNewView,
            AppErrorView,
        >(AppErrorView::Validation { field: "user"@, msg: "already exists"@ }),
        !user_exists ==> spec_signup_validate(user_exists, req) is Ok,
{
}

/// Validates a signup; see [`spec_signup_validate`] for the decision. A
/// username not previously present is never rejected here, and a present
/// one always is.
pub fn signup_validate<'a>(user_exists: bool, req: &'a NewRequest) -> (r: Result<
    UserNew<'a>,
    AppError,
>)
    ensures
        res_view(r) == spec_signup_validate(user_exists, req@),
{
    match check_password_requirements(req.password.as_str(), req.confirm_password.as_str()) {
        Ok(()) => (),
        Err(e) => {
            return Err(e);
        },
    }
    if user_exists {
        return Err(AppError::ValidationError { field: "user", msg: "already exists" });
    }
    let psha256 = compute_sha256(req.password.as_str());
    Ok(UserNew { user: req.user.as_str(), name: req.name.as_str(), password: psha256, json_state: "" })
}

impl Users {
    /// Admits the freshly inserted signup row into the cache: a new entry
    /// is appended, given a fresh application state referencing the entry
    /// form, marked dirty (the caller flushes it at once), and answered
    /// with a token stamped `now_str`.
    pub fn admit_signup_at(&mut self, row: UserDB, now_str: &str) -> (r: InfoResponse)
        ensures
            final(self)@ == old(self)@.push(
                (UserView {
                    db: row@,
                    state: Some(fresh_user_state(row@.id)),
                    requires_save: true,
                }),
            ),
            r@ == (InfoResponseView {
                response: Some(ApiResponseView::UsersLogin(LoginResponseView {
                    token: signed_token(row@.user, hex_upper_of(row@.password), now_str@),
                })),
                user_state: Some(fresh_user_state(row@.id)),
            }),
    {
        let id = row.id;
        let ghost row_v = row@;
        let i = self.add_db_user(row);
        let ghost mid_view = self@;
        let ghost mid_users = self.users@;
        proof {
            assert(self@.len() == self.users@.len());
            assert(i < self.users@.len());
            assert(mid_users[i as int]@ == mid_view[i as int]);
        }
        let token = self.users[i].get_token_at(now_str);
        let st = UserState::new(&id);
        let st2 = st.clone();
        let u = &mut self.users[i];
        u.set_state(st);
        proof {
            let target = UserView {
                db: row_v,
                state: Some(fresh_user_state(row_v.id)),
                requires_save: true,
            };
            assert forall|j: int| 0 <= j < self@.len() implies self@[j] == old(self)@.push(
                target,
            )[j] by {
                assert(self@[j] == self.users@[j]@);
                if j == i {
                    assert(mid_users[i as int]@ == mid_view[i as int]);
                } else {
                    assert(self.users@[j] == mid_users[j]);
                    assert(mid_users[j]@ == mid_view[j]);
                }
            }
            assert(self@ =~= old(self)@.push(target));
        }
        InfoResponse {
            response: Some(ApiResponse::UsersLogin(LoginResponse { token })),
            user_state: Some(st2),
        }
    }

    /// Admits a record loaded from the store on a cache-miss login. The
    /// password is checked against the record before the cache is touched;
    /// on a match the entry is appended — with no check for an entry
    /// already caching the same id — and the answer carries a token
    /// stamped `now_str` and the state decoded from the persisted blob.
    pub fn admit_login_at(
        &mut self,
        row: UserDB,
        decoded: Option<UserState>,
        l: &LoginRequest,
        now_str: &str,
    ) -> (r: Result<InfoResponse, AppError>)
        ensures
            password_digest(l.password@) != row@.password ==> final(self)@ == old(self)@ && (
            r matches Err(AppError::InvalidUser)),
            password_digest(l.password@) == row@.password ==> final(self)@ == old(self)@.push(
                (UserView { db: row@, state: opt_view(decoded), requires_save: false }),
            ) && (r matches Ok(resp) && resp@ == (InfoResponseView {
                response: Some(ApiResponseView::UsersLogin(LoginResponseView {
                    token: signed_token(row@.user, hex_upper_of(row@.password), now_str@),
                })),
                user_state: opt_view(decoded),
            })),
    {
        match row.check_password(l.password.as_str()) {
            Ok(()) => (),
            Err(e) => {
                return Err(e);
            },
        }
        let ghost row_v = row@;
        let ghost dec_v = opt_view(decoded);
        let response_state = clone_opt_state(&decoded);
        let i = self.add_db_user(row);
        let ghost mid_view = self@;
        let ghost mid_users = self.users@;
        proof {
            assert(self@.len() == self.users@.len());
            assert(i < self.users@.len());
            assert(mid_users[i as int]@ == mid_view[i as int]);
        }
        let u = &mut self.users[i];
        u.reset_state(decoded);
        proof {
            let target = UserView { db: row_v, state: dec_v, requires_save: false };
            assert forall|j: int| 0 <= j < self@.len() implies self@[j] == old(self)@.push(
                target,
            )[j] by {
                assert(self@[j] == self.users@[j]@);
                if j == i {
                    assert(mid_users[i as int]@ == mid_view[i as int]);
                } else {
                    assert(self.users@[j] == mid_users[j]);
                    assert(mid_users[j]@ == mid_view[j]);
                }
            }
            assert(self@ =~= old(self)@.push(target));
            assert(self@.len() == self.users@.len());
            assert(i < self.users@.len());
            assert(self.users@[i as int]@ == self@[i as int]);
        }
        let token = self.users[i].get_token_at(now_str);
        Ok(InfoResponse {
            response: Some(ApiResponse::UsersLogin(LoginResponse { token })),
            user_state: response_state,
        })
    }
}
impl User {
    /// Whether the write-back protocol owes this entry a flush.
    pub fn needs_flush(&self) -> (r: bool)
        ensures
            r == self@.requires_save,
    {
        self.requires_save
    }

    /// Records a successful flush: the persisted blob now reads
    /// `serialized`, and the entry is clean. On a store failure the caller
    /// simply does not call this, so the entry stays dirty and a later
    /// flush retries.
    pub fn mark_flushed(&mut self, serialized: String)
        ensures
            final(self)@ == (UserView {
                db: (UserDBView { json_state: serialized@, ..old(self)@.db }),
                state: old(self)@.state,
                requires_save: false,
            }),
    {
        self.db.json_state = serialized;
        self.requires_save = false;
    }
}

impl Users {
    /// Records a successful flush of the entry at `i`; see
    /// [`User::mark_flushed`].
    pub fn mark_flushed_at(&mut self, i: usize, serialized: String)
        requires
            i < old(self)@.len(),
        ensures
            final(self)@ == old(self)@.update(
                i as int,
                (UserView {
                    db: (UserDBView { json_state: serialized@, ..old(self)@[i as int].db }),
                    state: old(self)@[i as int].state,
                    requires_save: false,
                }),
            ),
    {
        proof {
            assert(self@.len() == self.users@.len());
        }
        let ghost mid_users = self.users@;
        let u = &mut self.users[i];
        u.mark_flushed(serialized);
        proof {
            let target = UserView {
                db: UserDBView { json_state: serialized@, ..old(self)@[i as int].db },
                state: old(self)@[i as int].state,
                requires_save: false,
            };
            assert forall|j: int| 0 <= j < self@.len() implies self@[j] == old(self)@.update(
                i as int,
                target,
            )[j] by {
                assert(self@[j] == self.users@[j]@);
                if j != i {
                    assert(self.users@[j] == mid_users[j]);
                    assert(mid_users[j]@ == old(self)@[j]);
                } else {
                    assert(mid_users[i as int]@ == old(self)@[i as int]);
                }
            }
            assert(self@ =~= old(self)@.update(i as int, target));
        }
    }

    /// The number of dirty entries; what a flush pass over the whole cache
    /// still has to write back.
    pub fn dirty_count(&self) -> (n: usize)
        ensures
            n as int == spec_dirty_count(self@),
    {
        let mut n: usize = 0;
        let mut i: usize = 0;
        let len = self.users.len();
        while i < len
            invariant
                len == self@.len(),
                self@.len() == self.users@.len(),
                i <= len,
                n as int == spec_dirty_count(self@.take(i as int)),
                n <= i,
            decreases len - i,
        {
            proof {
                assert(self@.take(i + 1).drop_last() =~= self@.take(i as int));
                assert(self@.take(i + 1).last() == self@[i as int]);
                assert(self@[i as int] == self.users@[i as int]@);
            }
            if self.users[i].requires_save {
                n = n + 1;
            }
            i += 1;
        }
        proof {
            assert(self@.take(self@.len() as int) =~= self@);
        }
        n
    }
}

/// How many entries of a cache are dirty.
pub open spec fn spec_dirty_count(s: Seq<UserView>) -> int
    decreases s.len(),
{
    if s.len() == 0 {
        0
    } else {
        spec_dirty_count(s.drop_last()) + if s.last().requires_save {
            1int
        } else {
            0int
        }
    }
}

/// What saving an application state does to the cache: the first entry
/// whose id matches is given the new state and marked dirty; every other
/// entry is untouched.
pub open spec fn spec_save(cache: Seq<UserView>, st: UserStateView) -> Seq<UserView> {
    let i = first_match(cache, id_is(st.id));
    cache.update(
        i,
        UserView { db: cache[i].db, state: Some(st), requires_save: true },
    )
}

impl UserState {
    /// Applies a mutated application state back to the cache: the whole
    /// read-modify-write runs under the caller's exclusive lock, so
    /// concurrent saves are fully serialized. A missing entry is a
    /// cache-consistency fault and leaves the cache untouched.
    pub fn save(self, users: &mut Users) -> (r: Result<(), AppError>)
        ensures
            first_match(old(users)@, id_is(self.id)) < 0 ==> final(users)@ == old(users)@ && (
            r matches Err(e) && e@ == AppErrorView::Cache),
            first_match(old(users)@, id_is(self.id)) >= 0 ==> r is Ok && final(users)@
                == spec_save(old(users)@, self@),
    {
        let i = match users.find_user_by_state(&self) {
            Ok(i) => i,
            Err(e) => {
                return Err(e);
            },
        };
        let ghost mid_users = users.users@;
        proof {
            assert(users@.len() == users.users@.len());
        }
        let u = &mut users.users[i];
        u.set_state(self);
        proof {
            let target = UserView {
                db: old(users)@[i as int].db,
                state: Some(self@),
                requires_save: true,
            };
            assert forall|j: int| 0 <= j < users@.len() implies users@[j] == old(users)@.update(
                i as int,
                target,
            )[j] by {
                assert(users@[j] == users.users@[j]@);
                if j != i {
                    assert(users.users@[j] == mid_users[j]);
                    assert(mid_users[j]@ == old(users)@[j]);
                } else {
                    assert(mid_users[i as int]@ == old(users)@[i as int]);
                }
            }
            assert(users@ =~= old(users)@.update(i as int, target));
        }
        Ok(())
    }
}

/// For any password meeting policy, the digest computed at signup equals
/// the digest computed at a later login — `password_digest` is a function
/// of the password alone — so a login against a cache entry holding the
/// record that signup stored succeeds.
pub proof fn lemma_signup_digest_round_trip(
    cache: Seq<UserView>,
    req: LoginRequestView,
    confirm: Seq<char>,
    now: Seq<char>,
)
    requires
        pwd_ok(req.password, confirm),
        0 <= first_match(cache, name_is(req.user)),
        cache[first_match(cache, name_is(req.user))].db.password == password_digest(req.password),
    ensures
        spec_login(cache, req, now) is Ok,
{
    lemma_first_match(cache, name_is(req.user));
}

/// A token issued at time T verifies successfully when checked at
/// T + expiry - 1 and fails with the undifferentiated invalid-token error
/// at T + expiry + 1, provided its claims name a cached user whose digest
/// matches and whose entry holds a state.
pub proof fn lemma_token_expiry_window(
    cache: Seq<UserView>,
    user: Seq<char>,
    token_time: Seq<char>,
    expire: int,
    issue: i64,
)
    requires
        rfc3339_secs(token_time) == Some(issue),
        0 <= first_match(cache, name_is(user)),
        cache[first_match(cache, name_is(user))].state is Some,
    ensures
        spec_check_claims(
            cache,
            user,
            hex_upper_of(cache[first_match(cache, name_is(user))].db.password),
            token_time,
            expire,
            issue + expire - 1,
        ) == Ok::<UserStateView, AppErrorView>(
            cache[first_match(cache, name_is(user))].state->Some_0,
        ),
        spec_check_claims(
            cache,
            user,
            hex_upper_of(cache[first_match(cache, name_is(user))].db.password),
            token_time,
            expire,
            issue + expire + 1,
        ) == Err::<UserStateView, AppErrorView>(AppErrorView::InvalidToken),
{
    lemma_first_match(cache, name_is(user));
}

/// A save is one read-modify-write of a single entry: the first entry
/// whose id matches takes the new state and the dirty mark, and every
/// other entry — in particular every entry other workers save to — is
/// left exactly as it was, so serialized saves lose no updates.
pub proof fn lemma_save_touches_only_its_entry(cache: Seq<UserView>, st: UserStateView, j: int)
    requires
        0 <= first_match(cache, id_is(st.id)),
        0 <= j < cache.len(),
    ensures
        spec_save(cache, st).len() == cache.len(),
        j != first_match(cache, id_is(st.id)) ==> spec_save(cache, st)[j] == cache[j],
        j == first_match(cache, id_is(st.id)) ==> spec_save(cache, st)[j] == (UserView {
            db: cache[j].db,
            state: Some(st),
            requires_save: true,
        }),
{
    lemma_first_match(cache, id_is(st.id));
}

} // verus!
