use vstd::prelude::*;
use vstd::string::StringExecFns;
use crate::app_error::AppError;
use crate::app_error::AppErrorView;
use crate::json_forms::Button;
use crate::json_forms::ButtonPos;
use crate::json_forms::ButtonType;
use crate::json_forms::ButtonView;
use crate::json_forms::JsonFormsButtons;
use crate::json_forms::JsonFormsRequest;
use crate::json_forms::JsonFormsRequestView;
use crate::json_forms::JsonFormsResponse;
use crate::json_forms::JsonFormsResponseView;
use crate::json_forms::JsonFormsSerializable;
use crate::json_forms::form_response;
use crate::json_forms::spec_form_response;
use crate::text::str_eq;
use crate::users::UserState;
use crate::users::UserStateView;
use crate::users::UserView;
use crate::users::Users;
use crate::users::first_match;
use crate::users::id_is;
use crate::users::spec_save;
use crate::opt_view;

verus! {

/// Spec-level image of [`MainRequest`].
#[verifier::ext_equal]
pub struct MainRequestView {
    pub app_str: Seq<char>,
}

/// The application's entry-point form: one free-text field.
pub struct MainRequest {
    pub app_str: String,
}

impl View for MainRequest {
    type V = MainRequestView;

    open spec fn view(&self) -> MainRequestView {
        MainRequestView { app_str: self.app_str@ }
    }
}

impl JsonFormsSerializable for MainRequest {
    open spec fn spec_schemas() -> (Seq<char>, Seq<char>) {
        (
            r#"{"type":"object","properties":{"app_str":{"type":"string"}},"required": ["app_str"]}"#@,
            r##"{"type":"VerticalLayout","elements":[{"type":"Control","scope":"#/properties/app_str"}]}"##@,
        )
    }

    fn jsonforms_schema() -> (r: (String, String)) {
        (
            r#"{"type":"object","properties":{"app_str":{"type":"string"}},"required": ["app_str"]}"#.to_owned(),
            r##"{"type":"VerticalLayout","elements":[{"type":"Control","scope":"#/properties/app_str"}]}"##.to_owned(),
        )
    }
}

impl JsonFormsButtons for MainRequest {
    open spec fn spec_buttons() -> Seq<ButtonView> {
        seq![
            ButtonView {
                name: "Submit"@,
                form: None,
                btype: ButtonType::Submit,
                bpos: ButtonPos::Center,
            },
        ]
    }

    fn add_buttons(form: &mut JsonFormsResponse) {
        form.add_button(Button {
            name: "Submit",
            btype: ButtonType::Submit,
            bpos: ButtonPos::Center,
            form: None,
        });
        proof {
            assert(form@.buttons =~= old(form)@.buttons + Self::spec_buttons());
            assert(form@ =~= (JsonFormsResponseView {
                buttons: old(form)@.buttons + Self::spec_buttons(),
                ..old(form)@
            }));
        }
    }
}

/// Spec-level image of [`DummyRequest`].
#[verifier::ext_equal]
pub struct DummyRequestView {
    pub dummy_str: Seq<char>,
}

/// The placeholder follow-up form the entry form hands over to.
pub struct DummyRequest {
    pub dummy_str: String,
}

impl View for DummyRequest {
    type V = DummyRequestView;

    open spec fn view(&self) -> DummyRequestView {
        DummyRequestView { dummy_str: self.dummy_str@ }
    }
}

impl JsonFormsSerializable for DummyRequest {
    open spec fn spec_schemas() -> (Seq<char>, Seq<char>) {
        (
            r#"{"type":"object","properties":{"dummy_str":{"type":"string"}},"required": ["dummy_str"]}"#@,
            r##"{"type":"VerticalLayout","elements":[{"type":"Control","scope":"#/properties/dummy_str"}]}"##@,
        )
    }

    fn jsonforms_schema() -> (r: (String, String)) {
        (
            r#"{"type":"object","properties":{"dummy_str":{"type":"string"}},"required": ["dummy_str"]}"#.to_owned(),
            r##"{"type":"VerticalLayout","elements":[{"type":"Control","scope":"#/properties/dummy_str"}]}"##.to_owned(),
        )
    }
}

impl JsonFormsButtons for DummyRequest {
    open spec fn spec_buttons() -> Seq<ButtonView> {
        seq![
            ButtonView {
                name: "Submit"@,
                form: None,
                btype: ButtonType::Submit,
                bpos: ButtonPos::Center,
            },
            ButtonView {
                name: "Go To Main"@,
                form: Some(JsonFormsRequestView { name: "app::MainRequest"@ }),
                btype: ButtonType::NextForm,
                bpos: ButtonPos::Right,
            },
        ]
    }

    fn add_buttons(form: &mut JsonFormsResponse) {
        form.add_button(Button {
            name: "Submit",
            btype: ButtonType::Submit,
            bpos: ButtonPos::Center,
            form: None,
        });
        form.add_button(Button {
            name: "Go To Main",
            btype: ButtonType::NextForm,
            bpos: ButtonPos::Right,
            form: Some(JsonFormsRequest { name: "app::MainRequest".to_owned() }),
        });
        proof {
            assert(form@.buttons =~= old(form)@.buttons + Self::spec_buttons());
            assert(form@ =~= (JsonFormsResponseView {
                buttons: old(form)@.buttons + Self::spec_buttons(),
                ..old(form)@
            }));
        }
    }
}

/// Spec-level image of [`MainResponse`].
#[verifier::ext_equal]
pub struct MainResponseView {
    pub hello: Seq<char>,
}

/// The answer of the entry-point form.
#[derive(Debug)]
pub struct MainResponse {
    pub hello: String,
}

impl View for MainResponse {
    type V = MainResponseView;

    open spec fn view(&self) -> MainResponseView {
        MainResponseView { hello: self.hello@ }
    }
}

impl MainResponse {
    pub fn hello(&self) -> (r: String)
        ensures
            r@ == self.hello@,
    {
        self.hello.clone()
    }
}

/// Spec-level image of [`WasmMainResponse`].
#[verifier::ext_equal]
pub struct WasmMainResponseView {
    pub hello_response: Seq<char>,
}

/// What the browser-side layer answers after processing a [`MainResponse`].
#[derive(Debug)]
pub struct WasmMainResponse {
    pub hello_response: String,
}

impl View for WasmMainResponse {
    type V = WasmMainResponseView;

    open spec fn view(&self) -> WasmMainResponseView {
        WasmMainResponseView { hello_response: self.hello_response@ }
    }
}

impl WasmMainResponse {
    pub fn hello_response(&self) -> (r: String)
        ensures
            r@ == self.hello_response@,
    {
        self.hello_response.clone()
    }
}

/// The browser-side processing of a main answer: it echoes the greeting
/// back with a fixed suffix. The conversion to and from the browser's
/// value representation stays outside the library.
pub fn process_main_response(response: MainResponse) -> (r: WasmMainResponse)
    ensures
        r@.hello_response == response.hello@ + " back from wasm"@,
{
    WasmMainResponse { hello_response: response.hello.concat(" back from wasm") }
}

/// A request body of the application's API: ask for a form, or submit the
/// entry-point form.
pub enum InfoRequest {
    JsonForms(JsonFormsRequest),
    AppMain(MainRequest),
}

/// Spec-level image of [`ApiResponse`].
#[verifier::ext_equal]
pub enum ApiResponseView {
    JsonForms(JsonFormsResponseView),
    AppMain(MainResponseView),
}

/// The payload of a successful application API answer.
#[derive(Debug)]
pub enum ApiResponse {
    JsonForms(JsonFormsResponse),
    AppMain(MainResponse),
}

impl View for ApiResponse {
    type V = ApiResponseView;

    open spec fn view(&self) -> ApiResponseView {
        match self {
            ApiResponse::JsonForms(f) => ApiResponseView::JsonForms(f@),
            ApiResponse::AppMain(m) => ApiResponseView::AppMain(m@),
        }
    }
}

/// Spec-level image of [`InfoResponse`].
#[verifier::ext_equal]
pub struct InfoResponseView {
    pub response: Option<ApiResponseView>,
    pub user_state: Option<UserStateView>,
}

/// An application API answer: an optional payload and the caller's state.
#[derive(Debug)]
pub struct InfoResponse {
    pub response: Option<ApiResponse>,
    pub user_state: Option<UserState>,
}

impl View for InfoResponse {
    type V = InfoResponseView;

    open spec fn view(&self) -> InfoResponseView {
        InfoResponseView {
            response: opt_view(self.response),
            user_state: opt_view(self.user_state),
        }
    }
}

/// The state the entry-point handler leaves behind: the same state, with
/// the follow-up form as the next one to show.
pub open spec fn spec_main_next_state(st: UserStateView) -> UserStateView {
    UserStateView { json_form: JsonFormsRequestView { name: "app::DummyRequest"@ }, ..st }
}

/// Handles a submission of the entry-point form: points the caller's state
/// at the follow-up form, saves it back to the cache (the state must name
/// a cached user), and answers with a greeting.
pub fn handle_main_request(users: &mut Users, user_state: UserState, r: MainRequest) -> (res:
    Result<InfoResponse, AppError>)
    ensures
        first_match(old(users)@, id_is(user_state.id)) < 0 ==> final(users)@ == old(users)@ && (
        res matches Err(e) && e@ == AppErrorView::Cache),
        first_match(old(users)@, id_is(user_state.id)) >= 0 ==> final(users)@ == spec_save(
            old(users)@,
            spec_main_next_state(user_state@),
        ) && (res matches Ok(resp) && resp@ == (InfoResponseView {
            response: Some(
                ApiResponseView::AppMain(MainResponseView { hello: "hello "@ + r.app_str@ }),
            ),
            user_state: Some(spec_main_next_state(user_state@)),
        })),
{
    let mut user_state = user_state;
    user_state.json_form.name = "app::DummyRequest".to_owned();
    let res_state = user_state.clone();
    match user_state.save(users) {
        Ok(()) => (),
        Err(e) => {
            return Err(e);
        },
    }
    Ok(InfoResponse {
        response: Some(ApiResponse::AppMain(MainResponse {
            hello: String::from_str("hello ").concat(r.app_str.as_str()),
        })),
        user_state: Some(res_state),
    })
}

/// Answers a form request of the application layer by name, or an internal
/// error naming the unknown form.
pub fn get(r: JsonFormsRequest) -> (res: Result<InfoResponse, AppError>)
    ensures
        r.name@ == "app::MainRequest"@ ==> (res matches Ok(resp) && resp@ == (InfoResponseView {
            response: Some(
                ApiResponseView::JsonForms(spec_form_response::<MainRequest>("Main User Form"@)),
            ),
            user_state: None,
        })),
        r.name@ != "app::MainRequest"@ && r.name@ == "app::DummyRequest"@ ==> (res matches Ok(
            resp,
        ) && resp@ == (InfoResponseView {
            response: Some(
                ApiResponseView::JsonForms(
                    spec_form_response::<DummyRequest>("Dummy User Form"@),
                ),
            ),
            user_state: None,
        })),
        r.name@ != "app::MainRequest"@ && r.name@ != "app::DummyRequest"@ ==> (res matches Err(
            AppError::InternalError { msg },
        ) && msg@ == "user_app unknown requested json schema "@ + r.name@),
{
    if str_eq(r.name.as_str(), "app::MainRequest") {
        return Ok(InfoResponse {
            response: Some(
                ApiResponse::JsonForms(form_response::<MainRequest>("Main User Form")),
            ),
            user_state: None,
        });
    }
    if str_eq(r.name.as_str(), "app::DummyRequest") {
        return Ok(InfoResponse {
            response: Some(
                ApiResponse::JsonForms(form_response::<DummyRequest>("Dummy User Form")),
            ),
            user_state: None,
        });
    }
    let msg = String::from_str("user_app unknown requested json schema ").concat(r.name.as_str());
    Err(AppError::InternalError { msg })
}

} // verus!
