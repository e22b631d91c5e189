use vstd::prelude::*;
use vstd::rwlock::RwLock;
use crate::app_error::AppError;
use crate::objects::InfoResponse;
use crate::users::LoginRequest;
use crate::users::UserDB;
use crate::users::UserState;
use crate::users::UserStateView;
use crate::users::Users;
use crate::users::UserView;
use crate::app_error::AppErrorView;
use crate::digest::hex_upper_of;
use crate::digest::password_digest;
use crate::objects::ApiResponseView;
use crate::objects::InfoResponseView;
use crate::token::signed_token;
use crate::users::LoginResponseView;
use crate::opt_view;
use crate::users::first_match;
use crate::users::id_is;
use crate::users::spec_check_token_outcome;
use crate::users::spec_login;
use crate::token::rfc3339_secs;
use crate::res_view;

verus! {

/// The process-wide cache behind one coarse reader-writer lock: lookups
/// run under a shared lock, and insertions and saves take the exclusive
/// lock for their whole read-modify-write, so concurrent saves are fully
/// serialized. What another worker does between two calls is unknown, so
/// each contract speaks of the cache value the lock handed out.
pub struct SharedUsers {
    lock: RwLock<Users, spec_fn(Users) -> bool>,
}

impl SharedUsers {
    /// Any cache value may be stored: the lock guards access, not a
    /// data invariant.
    #[verifier::type_invariant]
    spec fn inv(&self) -> bool {
        forall|u: Users| #[trigger] self.lock.inv(u)
    }

    pub fn new() -> (r: Self) {
        SharedUsers { lock: RwLock::new(Users::new(), Ghost(|u: Users| true)) }
    }

    /// Login against the cache under a shared lock.
    pub fn login(&self, l: &LoginRequest) -> (r: Result<InfoResponse, AppError>)
        ensures
            exists|cache: Seq<UserView>, now: Seq<char>|
                res_view(r) == #[trigger] spec_login(cache, l@, now) && rfc3339_secs(now)
                    is Some,
    {
        let handle = self.lock.acquire_read();
        let r = handle.borrow().login(l);
        handle.release_read();
        r
    }

    /// Token verification against the cache under a shared lock, at the
    /// clock's present reading.
    pub fn check_token(&self, token: &str, token_expire: i64) -> (r: Result<UserState, AppError>)
        ensures
            exists|cache: Seq<UserView>, now: i64|
                #[trigger] spec_check_token_outcome(
                    cache,
                    token@,
                    token_expire as int,
                    now as int,
                    res_view(r),
                ),
            r is Err ==> r matches Err(AppError::InvalidToken),
    {
        let handle = self.lock.acquire_read();
        let r = handle.borrow().check_token(token, token_expire);
        handle.release_read();
        r
    }

    /// Applies a mutated state under the exclusive lock: the whole
    /// read-modify-write is one critical section, so no concurrent save
    /// to the same entry is lost. The only failure is the
    /// cache-consistency fault of a state naming no cached user.
    pub fn save_state(&self, st: UserState) -> (r: Result<(), AppError>)
        ensures
            exists|cache: Seq<UserView>|
                (first_match(cache, #[trigger] id_is(st.id)) >= 0 ==> r is Ok) && (first_match(
                    cache,
                    id_is(st.id),
                ) < 0 ==> r is Err),
            r is Err ==> r matches Err(AppError::CacheError),
    {
        proof {
            use_type_invariant(self);
        }
        let (mut users, handle) = self.lock.acquire_write();
        let ghost cache = users@;
        let r = st.save(&mut users);
        handle.release_write(users);
        proof {
            assert((first_match(cache, id_is(st.id)) >= 0 ==> r is Ok) && (first_match(
                cache,
                id_is(st.id),
            ) < 0 ==> r is Err));
        }
        r
    }

    /// Admits a record loaded from the store under the exclusive lock;
    /// see [`Users::admit_login_at`] for what one admission does to the
    /// cache. The answer itself does not depend on the cache: the password
    /// is checked against the loaded record, and a match is answered with
    /// a token over that record and the decoded state.
    pub fn admit_login(
        &self,
        row: UserDB,
        decoded: Option<UserState>,
        l: &LoginRequest,
        now_str: &str,
    ) -> (r: Result<InfoResponse, AppError>)
        ensures
            password_digest(l.password@) != row@.password ==> r matches Err(
                AppError::InvalidUser,
            ),
            password_digest(l.password@) == row@.password ==> (r matches Ok(resp) && resp@
                == (InfoResponseView {
                response: Some(ApiResponseView::UsersLogin(LoginResponseView {
                    token: signed_token(row@.user, hex_upper_of(row@.password), now_str@),
                })),
                user_state: opt_view(decoded),
            })),
    {
        proof {
            use_type_invariant(self);
        }
        let (mut users, handle) = self.lock.acquire_write();
        let r = users.admit_login_at(row, decoded, l, now_str);
        handle.release_write(users);
        r
    }
}

} // verus!
