use vstd::prelude::*;
use vstd::string::StrSliceExecFns;
use crate::app_error::AppError;
use crate::text::str_eq;

verus! {

/// Whether `char::is_uppercase` holds of `c`: the Unicode uppercase property,
/// a fixed table far too large to restate here.
pub uninterp spec fn is_uppercase_char(c: char) -> bool;

/// Whether `char::is_lowercase` holds of `c`: the Unicode lowercase property.
pub uninterp spec fn is_lowercase_char(c: char) -> bool;

/// Relies on char::is_uppercase: a pure table lookup of the Unicode
/// uppercase property of `c`.
pub assume_specification[ char::is_uppercase ](c: char) -> (r: bool)
    ensures
        r == is_uppercase_char(c),
;

/// Relies on char::is_lowercase: a pure table lookup of the Unicode
/// lowercase property of `c`.
pub assume_specification[ char::is_lowercase ](c: char) -> (r: bool)
    ensures
        r == is_lowercase_char(c),
;

pub open spec fn is_digit_char(c: char) -> bool {
    48 <= c as u32 && c as u32 <= 57
}

/// The fixed set of punctuation characters the password policy accepts.
pub open spec fn is_pwd_punct(c: char) -> bool {
    c == '.' || c == ',' || c == '/' || c == '#' || c == '!' || c == '$' || c == '%' || c == '\\'
        || c == '^' || c == '&' || c == '*' || c == ';' || c == ':' || c == '{' || c == '}'
        || c == '=' || c == '-' || c == '_' || c == '`' || c == '~' || c == '(' || c == ')'
        || c == '@'
}

pub open spec fn has_upper(s: Seq<char>) -> bool {
    exists|j: int| 0 <= j < s.len() && is_uppercase_char(s[j])
}

pub open spec fn has_lower(s: Seq<char>) -> bool {
    exists|j: int| 0 <= j < s.len() && is_lowercase_char(s[j])
}

pub open spec fn has_digit(s: Seq<char>) -> bool {
    exists|j: int| 0 <= j < s.len() && is_digit_char(s[j])
}

pub open spec fn has_punct(s: Seq<char>) -> bool {
    exists|j: int| 0 <= j < s.len() && is_pwd_punct(s[j])
}

/// The whole password policy: length, one uppercase, one lowercase, one
/// digit, one allowed punctuation character, and a matching confirmation.
pub open spec fn pwd_ok(p: Seq<char>, confirm: Seq<char>) -> bool {
    &&& p.len() >= 8
    &&& has_upper(p)
    &&& has_lower(p)
    &&& has_digit(p)
    &&& has_punct(p)
    &&& p == confirm
}

/// The message reported for the first policy rule that fails, in policy
/// order; meaningful only when `!pwd_ok(p, confirm)`.
pub open spec fn pwd_violation_msg(p: Seq<char>, confirm: Seq<char>) -> Seq<char> {
    if p.len() < 8 {
        "weak, less then 8 characters"@
    } else if !has_upper(p) {
        "weak, no upper case letter found"@
    } else if !has_lower(p) {
        "weak, no lower case letter found"@
    } else if !has_digit(p) {
        "weak, no digit found"@
    } else if !has_punct(p) {
        r#"weak, no punctuation found. Use some of .,\/#!$%\\^&\*;:{}=\-_`~()@"#@
    } else {
        "does not match Confirm Password"@
    }
}

fn contains_uppercase(s: &str) -> (r: bool)
    ensures
        r == has_upper(s@),
{
    let n = s.unicode_len();
    let mut i: usize = 0;
    while i < n
        invariant
            n == s@.len(),
            i <= n,
            forall|j: int| 0 <= j < i ==> !is_uppercase_char(s@[j]),
        decreases n - i,
    {
        if s.get_char(i).is_uppercase() {
            return true;
        }
        i += 1;
    }
    false
}

fn contains_lowercase(s: &str) -> (r: bool)
    ensures
        r == has_lower(s@),
{
    let n = s.unicode_len();
    let mut i: usize = 0;
    while i < n
        invariant
            n == s@.len(),
            i <= n,
            forall|j: int| 0 <= j < i ==> !is_lowercase_char(s@[j]),
        decreases n - i,
    {
        if s.get_char(i).is_lowercase() {
            return true;
        }
        i += 1;
    }
    false
}

fn is_digit_exec(c: char) -> (r: bool)
    ensures
        r == is_digit_char(c),
{
    let u = c as u32;
    48 <= u && u <= 57
}

fn is_pwd_punct_exec(c: char) -> (r: bool)
    ensures
        r == is_pwd_punct(c),
{
    match c {
        '.' | ',' | '/' | '#' | '!' | '$' | '%' | '\\' | '^' | '&' | '*' | ';' | ':' | '{' | '}'
            | '=' | '-' | '_' | '`' | '~' | '(' | ')' | '@' => true,
        _ => false,
    }
}

fn contains_digit(s: &str) -> (r: bool)
    ensures
        r == has_digit(s@),
{
    let n = s.unicode_len();
    let mut i: usize = 0;
    while i < n
        invariant
            n == s@.len(),
            i <= n,
            forall|j: int| 0 <= j < i ==> !is_digit_char(s@[j]),
        decreases n - i,
    {
        if is_digit_exec(s.get_char(i)) {
            return true;
        }
        i += 1;
    }
    false
}

fn contains_punct(s: &str) -> (r: bool)
    ensures
        r == has_punct(s@),
{
    let n = s.unicode_len();
    let mut i: usize = 0;
    while i < n
        invariant
            n == s@.len(),
            i <= n,
            forall|j: int| 0 <= j < i ==> !is_pwd_punct(s@[j]),
        decreases n - i,
    {
        if is_pwd_punct_exec(s.get_char(i)) {
            return true;
        }
        i += 1;
    }
    false
}

/// Enforces the password policy in fixed order; the first failing rule
/// names the field and a specific message.
pub fn check_password_requirements(password: &str, confirm_password: &str) -> (r: Result<
    (),
    AppError,
>)
    ensures
        r is Ok <==> pwd_ok(password@, confirm_password@),
        !pwd_ok(password@, confirm_password@) ==> (r matches Err(AppError::ValidationError {
            field,
            msg,
        }) && field@ == "New Password"@ && msg@ == pwd_violation_msg(
            password@,
            confirm_password@,
        )),
{
    if password.unicode_len() < 8 {
        return Err(AppError::ValidationError {
            field: "New Password",
            msg: "weak, less then 8 characters",
        });
    }
    if !contains_uppercase(password) {
        return Err(AppError::ValidationError {
            field: "New Password",
            msg: "weak, no upper case letter found",
        });
    }
    if !contains_lowercase(password) {
        return Err(AppError::ValidationError {
            field: "New Password",
            msg: "weak, no lower case letter found",
        });
    }
    if !contains_digit(password) {
        return Err(AppError::ValidationError {
            field: "New Password",
            msg: "weak, no digit found",
        });
    }
    if !contains_punct(password) {
        return Err(AppError::ValidationError {
            field: "New Password",
            msg: r#"weak, no punctuation found. Use some of .,\/#!$%\\^&\*;:{}=\-_`~()@"#,
        });
    }
    if !str_eq(password, confirm_password) {
        return Err(AppError::ValidationError {
            field: "New Password",
            msg: "does not match Confirm Password",
        });
    }
    Ok(())
}

} // verus!
