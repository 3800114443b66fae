use vstd::prelude::*;
use vstd::string::*;

verus! {

/// Why `url::Url::parse` refused a text.
#[verifier::external_type_specification]
#[verifier::external_body]
pub struct ExParseError(url::ParseError);

/// Relies on the derived `Clone` of `url::ParseError`, a fieldless `Copy` enum.
pub assume_specification[ <url::ParseError as Clone>::clone ](e: &url::ParseError) -> (r: url::ParseError)
    ensures
        r == *e,
;

/// Every way a call of this client can fail.
#[derive(Debug, Clone, PartialEq)]
pub enum JellyfinError {
    /// The HTTP exchange itself failed: connection, TLS, timeout.
    NetworkError(String),
    /// The base URL, or a URL built from it, does not parse.
    UrlParseError(url::ParseError),
    /// A call that needs an authenticated user was made before any
    /// authentication succeeded.
    AuthNotFound,
    /// The response body is not the JSON that the call expects.
    DecodeError(String),
}

impl JellyfinError {
    /// A message for people.
    pub fn to_string(&self) -> (r: String)
        ensures
            self matches JellyfinError::NetworkError(m) ==> r@ == m@,
            self matches JellyfinError::DecodeError(m) ==> r@ == m@,
            self matches JellyfinError::UrlParseError(e) ==> to_string_from_display_ensures::<
                url::ParseError,
            >(&e, r),
            self is AuthNotFound ==> r@ == "Unauthorized."@,
    {
        match self {
            JellyfinError::NetworkError(m) => m.clone(),
            JellyfinError::UrlParseError(e) => e.to_string(),
            JellyfinError::AuthNotFound => String::from_str("Unauthorized."),
            JellyfinError::DecodeError(m) => m.clone(),
        }
    }
}

impl From<url::ParseError> for JellyfinError {
    fn from(e: url::ParseError) -> (r: JellyfinError) {
        JellyfinError::UrlParseError(e)
    }
}

impl vstd::std_specs::convert::FromSpecImpl<url::ParseError> for JellyfinError {
    open spec fn obeys_from_spec() -> bool {
        true
    }

    open spec fn from_spec(e: url::ParseError) -> JellyfinError {
        JellyfinError::UrlParseError(e)
    }
}

} // verus!
