use vstd::prelude::*;
use crate::app_error::AppError;
use crate::json_forms::JsonFormsRequest;
use crate::json_forms::JsonFormsResponse;
use crate::json_forms::JsonFormsResponseView;
use crate::json_forms::form_response;
use crate::json_forms::spec_form_response;
use crate::text::str_eq;
use crate::users::LoginRequest;
use crate::users::LoginResponse;
use crate::users::LoginResponseView;
use crate::users::NewRequest;
use crate::users::UserState;
use crate::users::UserStateView;
use crate::opt_view;
use vstd::string::StringExecFns;
use vstd::string::StrSliceExecFns;

verus! {

/// A request body of the public API: ask for a form, log in, or sign up.
pub enum InfoRequest {
    JsonForms(JsonFormsRequest),
    UsersLogin(LoginRequest),
    UsersNew(NewRequest),
}

/// Spec-level image of [`ApiResponse`].
#[verifier::ext_equal]
pub enum ApiResponseView {
    JsonForms(JsonFormsResponseView),
    UsersLogin(LoginResponseView),
}

/// The payload of a successful API answer.
#[derive(Debug)]
pub enum ApiResponse {
    JsonForms(JsonFormsResponse),
    UsersLogin(LoginResponse),
}

impl View for ApiResponse {
    type V = ApiResponseView;

    open spec fn view(&self) -> ApiResponseView {
        match self {
            ApiResponse::JsonForms(f) => ApiResponseView::JsonForms(f@),
            ApiResponse::UsersLogin(l) => ApiResponseView::UsersLogin(l@),
        }
    }
}

/// Spec-level image of [`InfoResponse`].
#[verifier::ext_equal]
pub struct InfoResponseView {
    pub response: Option<ApiResponseView>,
    pub user_state: Option<UserStateView>,
}

/// An API answer: an optional payload and the caller's state snapshot.
#[derive(Debug)]
pub struct InfoResponse {
    pub response: Option<ApiResponse>,
    pub user_state: Option<UserState>,
}

impl View for InfoResponse {
    type V = InfoResponseView;

    open spec fn view(&self) -> InfoResponseView {
        InfoResponseView {
            response: opt_view(self.response),
            user_state: opt_view(self.user_state),
        }
    }
}

/// Answers a form request by name: the login form, the signup form, or an
/// internal error naming the unknown form.
pub fn get(r: JsonFormsRequest) -> (res: Result<InfoResponse, AppError>)
    ensures
        r.name@ == "users::LoginRequest"@ ==> (res matches Ok(resp) && resp@
            == (InfoResponseView {
            response: Some(
                ApiResponseView::JsonForms(spec_form_response::<LoginRequest>("Login"@)),
            ),
            user_state: None,
        })),
        r.name@ != "users::LoginRequest"@ && r.name@ == "users::NewRequest"@ ==> (res matches Ok(
            resp,
        ) && resp@ == (InfoResponseView {
            response: Some(
                ApiResponseView::JsonForms(spec_form_response::<NewRequest>("User Sign Up"@)),
            ),
            user_state: None,
        })),
        r.name@ != "users::LoginRequest"@ && r.name@ != "users::NewRequest"@ ==> (res matches Err(
            AppError::InternalError { msg },
        ) && msg@ == "unknown requested json schema "@ + r.name@),
{
    if str_eq(r.name.as_str(), "users::LoginRequest") {
        return Ok(InfoResponse {
            response: Some(ApiResponse::JsonForms(form_response::<LoginRequest>("Login"))),
            user_state: None,
        });
    }
    if str_eq(r.name.as_str(), "users::NewRequest") {
        return Ok(InfoResponse {
            response: Some(ApiResponse::JsonForms(form_response::<NewRequest>("User Sign Up"))),
            user_state: None,
        });
    }
    let msg = String::from_str("unknown requested json schema ").concat(r.name.as_str());
    Err(AppError::InternalError { msg })
}

/// What the authorization header yields: the header must read `Bearer`,
/// then one space, then the token; anything shorter or shaped otherwise
/// is malformed and refused.
pub open spec fn spec_bearer_token(h: Seq<char>) -> Option<Seq<char>> {
    if h.len() >= 7 && h.subrange(0, 6) == "Bearer"@ && h[6] == ' ' {
        Some(h.subrange(7, h.len() as int))
    } else {
        None
    }
}

/// Extracts the bearer token from an authorization header value.
pub fn bearer_token(header: &str) -> (r: Option<&str>)
    ensures
        match r {
            Some(t) => spec_bearer_token(header@) == Some(t@),
            None => spec_bearer_token(header@) is None,
        },
{
    let n = header.unicode_len();
    if n < 7 {
        return None;
    }
    let prefix = header.substring_char(0, 6);
    if !str_eq(prefix, "Bearer") {
        return None;
    }
    if header.get_char(6) != ' ' {
        return None;
    }
    Some(header.substring_char(7, n))
}

} // verus!
