//! Status codes: how a response is classified, and how a status is written.

use vstd::prelude::*;

verus! {

/// What a status code means for a call.
#[derive(Debug, Clone, Copy, PartialEq, Eq, Structural)]
pub enum StatusClass {
    /// 200 to 299: the body is to be decoded.
    Success,
    /// 300 to 399: a redirection, which is never followed.
    Redirection,
    /// Anything else: the server refused or failed.
    Other,
}

/// Whether `status` lies in 200 to 299.
pub open spec fn is_success(status: u16) -> bool {
    200 <= status < 300
}

/// Whether `status` lies in 300 to 399.
pub open spec fn is_redirection(status: u16) -> bool {
    300 <= status < 400
}

/// The class of `status`.
pub open spec fn status_class(status: u16) -> StatusClass {
    if is_success(status) {
        StatusClass::Success
    } else if is_redirection(status) {
        StatusClass::Redirection
    } else {
        StatusClass::Other
    }
}

/// Classifies a status code.
pub fn classify_status(status: u16) -> (r: StatusClass)
    ensures
        r == status_class(status),
{
    if 200 <= status && status < 300 {
        StatusClass::Success
    } else if 300 <= status && status < 400 {
        StatusClass::Redirection
    } else {
        StatusClass::Other
    }
}

/// How the `http` crate writes the status code `status`: the number, a
/// space, and the reason phrase that it knows for the number, if any.
pub uninterp spec fn status_line(status: u16) -> Seq<char>;

/// Makes an `http::StatusCode` with `StatusCode::from_u16`, which takes 100
/// to 999, and writes it with its `Display`. Trusted: the text is
/// `status_line` of the number.
#[verifier::external_body]
pub(crate) fn write_status(status: u16) -> (r: String)
    requires
        100 <= status <= 999,
    ensures
        r@ == status_line(status),
{
    match reqwest::StatusCode::from_u16(status) {
        Ok(code) => code.to_string(),
        Err(_) => String::new(),
    }
}

} // verus!
