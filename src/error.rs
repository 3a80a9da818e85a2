use vstd::prelude::*;

verus! {

/// What went wrong while fetching repositories.
///
/// `NotFound` is an HTTP failure too; it stands apart because a missing
/// organization is the most common failure and the one a user can act on.
#[derive(Debug, Clone, PartialEq, Eq)]
pub enum CliError {
    /// A transport or HTTP status failure, with its cause.
    Http(String),
    /// The response body did not have the expected shape, with the reason.
    Json(String),
    /// The backend does not know the organization.
    NotFound,
}

/// The HTTP status that marks an unknown organization.
pub const NOT_FOUND_STATUS: u16 = 404;

/// The failure kind for a transport failure that carried `status` when it came
/// from a response, was a body decoding failure when `decode` holds, and is
/// described by `cause`.
pub open spec fn classified(status: Option<u16>, decode: bool, cause: String) -> CliError {
    match status {
        Some(code) => if code == NOT_FOUND_STATUS {
            CliError::NotFound
        } else {
            CliError::Http(cause)
        },
        None => if decode {
            CliError::Json(cause)
        } else {
            CliError::Http(cause)
        },
    }
}

/// The short description of a failure.
pub open spec fn description(e: CliError) -> Seq<char> {
    match e {
        CliError::Http(cause) => cause@,
        CliError::Json(reason) => "JSON parse error: "@ + reason@,
        CliError::NotFound => "Organization not found"@,
    }
}

/// The message shown to the user for a failure.
pub open spec fn user_message(e: CliError) -> Seq<char> {
    match e {
        CliError::Http(cause) => "Error: HTTP connection failed - "@ + cause@,
        CliError::Json(reason) => "Error: the data returned by the server does not match the expected shape: "@
            + reason@,
        CliError::NotFound => "Error: the requested organization was not found"@,
    }
}

/// The process exit status for a failure; success exits with 0.
pub open spec fn exit_status(e: CliError) -> i32 {
    match e {
        CliError::Http(_) => 1,
        CliError::NotFound => 2,
        CliError::Json(_) => 3,
    }
}

/// reqwest's error type, carried opaquely into `CliError::from_reqwest`.
#[verifier::external_type_specification]
#[verifier::external_body]
pub struct ExReqwestError(reqwest::Error);

/// The HTTP status code type that reqwest re-exports from the http crate.
#[verifier::external_type_specification]
#[verifier::external_body]
pub struct ExStatusCode(reqwest::StatusCode);

/// The code of the status that a reqwest error came with, if it came from a response.
pub uninterp spec fn status_of(e: reqwest::Error) -> Option<u16>;

/// Whether a reqwest error was a failure to decode the response body.
pub uninterp spec fn decode_of(e: reqwest::Error) -> bool;

/// The numeric code of an HTTP status.
pub uninterp spec fn code_of(s: reqwest::StatusCode) -> u16;

/// Relies on reqwest::Error::status: the status of the response the error came
/// from, if it came from one; the error's kind alone decides it.
pub assume_specification[ reqwest::Error::status ](e: &reqwest::Error) -> (r: Option<
    reqwest::StatusCode,
>)
    ensures
        r matches Some(s) ==> status_of(*e) == Some(code_of(s)),
        r is None ==> status_of(*e) is None,
;

/// Relies on reqwest::Error::is_decode: whether decoding the response body failed.
pub assume_specification[ reqwest::Error::is_decode ](e: &reqwest::Error) -> (r: bool)
    ensures
        r == decode_of(*e),
;

/// Relies on http::StatusCode::as_u16: the numeric code, which a status code
/// only holds within 100 to 999.
pub assume_specification[ reqwest::StatusCode::as_u16 ](s: &reqwest::StatusCode) -> (r: u16)
    ensures
        r == code_of(*s),
        100 <= r <= 999,
;

impl CliError {
    /// Sorts a transport failure into one of the three kinds.
    pub fn classify(status: Option<u16>, decode: bool, cause: String) -> (e: CliError)
        ensures
            e == classified(status, decode, cause),
    {
        match status {
            Some(code) => if code == NOT_FOUND_STATUS {
                CliError::NotFound
            } else {
                CliError::Http(cause)
            },
            None => if decode {
                CliError::Json(cause)
            } else {
                CliError::Http(cause)
            },
        }
    }

    /// Sorts a failure that reqwest reported into one of the three kinds, by
    /// the status it came with and whether it was a decoding failure.
    pub fn from_reqwest(err: reqwest::Error) -> (e: CliError)
        ensures
            exists|cause: String| e == classified(status_of(err), decode_of(err), cause),
    {
        let status: Option<u16> = match err.status() {
            Some(code) => Some(code.as_u16()),
            None => None,
        };
        let decode = err.is_decode();
        let cause = err.to_string();
        CliError::classify(status, decode, cause)
    }

    /// The short description of the failure.
    pub fn to_string(&self) -> (s: String)
        ensures
            s@ == description(*self),
    {
        match self {
            CliError::Http(cause) => cause.clone(),
            CliError::Json(reason) => {
                let mut s = String::from_str("JSON parse error: ");
                s.append(reason.as_str());
                s
            },
            CliError::NotFound => String::from_str("Organization not found"),
        }
    }

    /// The message shown to the user for the failure.
    pub fn message(&self) -> (s: String)
        ensures
            s@ == user_message(*self),
    {
        match self {
            CliError::Http(cause) => {
                let mut s = String::from_str("Error: HTTP connection failed - ");
                s.append(cause.as_str());
                s
            },
            CliError::Json(reason) => {
                let mut s = String::from_str(
                    "Error: the data returned by the server does not match the expected shape: ",
                );
                s.append(reason.as_str());
                s
            },
            CliError::NotFound => String::from_str("Error: the requested organization was not found"),
        }
    }

    /// The process exit status for the failure.
    pub fn exit_status(&self) -> (code: i32)
        ensures
            code == exit_status(*self),
    {
        match self {
            CliError::Http(_) => 1,
            CliError::NotFound => 2,
            CliError::Json(_) => 3,
        }
    }
}

} // verus!
