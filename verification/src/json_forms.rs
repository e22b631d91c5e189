use vstd::prelude::*;
use vstd::string::StringExecFns;

verus! {

/// Spec-level image of [`JsonFormsRequest`].
#[verifier::ext_equal]
pub struct JsonFormsRequestView {
    pub name: Seq<char>,
}

/// A client's request for one named form.
#[derive(Debug)]
pub struct JsonFormsRequest {
    pub name: String,
}

impl View for JsonFormsRequest {
    type V = JsonFormsRequestView;

    open spec fn view(&self) -> JsonFormsRequestView {
        JsonFormsRequestView { name: self.name@ }
    }
}

impl Clone for JsonFormsRequest {
    fn clone(&self) -> (r: Self)
        ensures
            r@ == self@,
    {
        JsonFormsRequest { name: self.name.clone() }
    }
}

#[derive(Clone, Copy, Debug, PartialEq, Eq, Structural)]
pub enum ButtonPos {
    Center,
    Right,
}

#[derive(Clone, Copy, Debug, PartialEq, Eq, Structural)]
pub enum ButtonType {
    Submit,
    NextForm,
}

/// Spec-level image of [`Button`].
#[verifier::ext_equal]
pub struct ButtonView {
    pub name: Seq<char>,
    pub form: Option<JsonFormsRequestView>,
    pub btype: ButtonType,
    pub bpos: ButtonPos,
}

/// One button offered under a form: submit it, or switch to another form.
#[derive(Debug)]
pub struct Button {
    pub name: &'static str,
    pub form: Option<JsonFormsRequest>,
    pub btype: ButtonType,
    pub bpos: ButtonPos,
}

impl View for Button {
    type V = ButtonView;

    open spec fn view(&self) -> ButtonView {
        ButtonView {
            name: self.name@,
            form: match self.form {
                Some(f) => Some(f@),
                None => None,
            },
            btype: self.btype,
            bpos: self.bpos,
        }
    }
}

/// Spec-level image of [`JsonFormsResponse`].
#[verifier::ext_equal]
pub struct JsonFormsResponseView {
    pub schema: Seq<char>,
    pub uischema: Seq<char>,
    pub buttons: Seq<ButtonView>,
    pub title: Option<Seq<char>>,
}

/// A form description handed to the client: a JSON schema, a UI schema,
/// the buttons under the form, and an optional title.
#[derive(Debug)]
pub struct JsonFormsResponse {
    pub schema: String,
    pub uischema: String,
    pub buttons: Vec<Button>,
    pub title: Option<String>,
}

impl View for JsonFormsResponse {
    type V = JsonFormsResponseView;

    open spec fn view(&self) -> JsonFormsResponseView {
        JsonFormsResponseView {
            schema: self.schema@,
            uischema: self.uischema@,
            buttons: self.buttons@.map_values(|b: Button| b@),
            title: match self.title {
                Some(t) => Some(t@),
                None => None,
            },
        }
    }
}

impl JsonFormsResponse {
    pub fn add_button(&mut self, b: Button)
        ensures
            final(self)@ == (JsonFormsResponseView {
                buttons: old(self)@.buttons.push(b@),
                ..old(self)@
            }),
    {
        self.buttons.push(b);
        proof {
            assert(self.buttons@.map_values(|x: Button| x@) =~= old(
                self,
            ).buttons@.map_values(|x: Button| x@).push(b@));
        }
    }
}

/// A type that can describe itself as a pair of JSON schema and UI schema.
pub trait JsonFormsSerializable {
    /// The schema pair this type renders to, as character sequences.
    spec fn spec_schemas() -> (Seq<char>, Seq<char>);

    fn jsonforms_schema() -> (r: (String, String))
        ensures
            r.0@ == Self::spec_schemas().0,
            r.1@ == Self::spec_schemas().1,
    ;
}

/// A type that knows which buttons belong under its form.
pub trait JsonFormsButtons {
    /// The buttons this type appends, in order.
    spec fn spec_buttons() -> Seq<ButtonView>;

    fn add_buttons(form: &mut JsonFormsResponse)
        ensures
            final(form)@ == (JsonFormsResponseView {
                buttons: old(form)@.buttons + Self::spec_buttons(),
                ..old(form)@
            }),
    ;
}

/// The form answer built for a form type: its schema pair, its buttons,
/// and the given title.
pub open spec fn spec_form_response<T: JsonFormsSerializable + JsonFormsButtons>(
    title: Seq<char>,
) -> JsonFormsResponseView {
    JsonFormsResponseView {
        schema: T::spec_schemas().0,
        uischema: T::spec_schemas().1,
        buttons: T::spec_buttons(),
        title: Some(title),
    }
}

pub(crate) fn form_response<T: JsonFormsSerializable + JsonFormsButtons>(title: &str) -> (res:
    JsonFormsResponse)
    ensures
        res@ == spec_form_response::<T>(title@),
{
    let (schema, uischema) = T::jsonforms_schema();
    let mut form = JsonFormsResponse { schema, uischema, buttons: Vec::new(), title: None };
    proof {
        assert(form@.buttons =~= Seq::<ButtonView>::empty());
    }
    T::add_buttons(&mut form);
    form.title = Some(title.to_owned());
    proof {
        assert(form@.buttons =~= T::spec_buttons());
        assert(form@ =~= spec_form_response::<T>(title@));
    }
    form
}

} // verus!
