use vstd::prelude::*;

pub mod app_error;
pub mod digest;
pub mod json_forms;
pub mod token;
pub mod password;
pub mod users;
pub mod objects;
pub mod user_app;
pub mod shared;
pub mod text;

verus! {

/// The view of an optional value, when the payload has one.
pub open spec fn opt_view<T: View>(o: Option<T>) -> Option<T::V> {
    match o {
        Some(t) => Some(t@),
        None => None,
    }
}

/// The view of a result, taken on whichever side is present.
pub open spec fn res_view<T: View, E: View>(r: Result<T, E>) -> Result<T::V, E::V> {
    match r {
        Ok(t) => Ok(t@),
        Err(e) => Err(e@),
    }
}

} // verus!
