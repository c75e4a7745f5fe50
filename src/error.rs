//! Failures, and the classifier that turns a remote response's status and
//! problem-detail body into success or a structured failure.

use vstd::prelude::*;

verus! {

/// The transport's error: opaque, carried through unchanged.
#[verifier::external_type_specification]
#[verifier::external_body]
pub struct ExReqwestError(reqwest::Error);

/// Why an operation failed.
#[derive(Debug)]
pub enum VippsError {
    /// Sending or receiving failed, or the payload could not be decoded.
    HttpError(reqwest::Error),
    /// The remote API answered with a status outside 2xx.
    ApiError { code: u16, title: String, detail: String },
}

pub type Result<T> = std::result::Result<T, VippsError>;

impl From<reqwest::Error> for VippsError {
    fn from(e: reqwest::Error) -> (r: Self)
        ensures
            r == VippsError::HttpError(e),
    {
        VippsError::HttpError(e)
    }
}

impl vstd::std_specs::convert::FromSpecImpl<reqwest::Error> for VippsError {
    open spec fn obeys_from_spec() -> bool {
        true
    }

    open spec fn from_spec(e: reqwest::Error) -> Self {
        VippsError::HttpError(e)
    }
}

/// One named invalid parameter of a problem-detail body.
#[derive(Clone, Debug, PartialEq, Eq)]
pub struct InvalidParam {
    pub name: String,
    pub reason: String,
}

/// The standardized error body of a failed response.
#[derive(Clone, Debug, PartialEq, Eq)]
pub struct ProblemDetails {
    pub ty: Option<String>,
    pub title: String,
    pub detail: String,
    pub instance: String,
    pub extra_details: Option<Vec<InvalidParam>>,
    pub invalid_params: Option<Vec<InvalidParam>>,
}

/// Title of a failure whose body could not be decoded.
pub const UNKNOWN_ERROR_TITLE: &'static str = "Unknown error";

/// The status code reported by the API when a looked-up item does not exist.
pub const NOT_FOUND: u16 = 404;

/// A 2xx status.
pub open spec fn spec_is_success(code: u16) -> bool {
    200 <= code < 300
}

/// The title and detail that a failure with the given decoded body
/// carries: the body's, or the unknown-error title and an empty detail
/// where the body could not be decoded.
pub open spec fn failure_text(problem: Option<ProblemDetails>) -> (Seq<char>, Seq<char>) {
    match problem {
        Some(p) => (p.title@, p.detail@),
        None => (UNKNOWN_ERROR_TITLE@, Seq::empty()),
    }
}

/// `e` is the API error for status `code` and the decoded body `problem`.
pub open spec fn is_api_error(e: VippsError, code: u16, problem: Option<ProblemDetails>) -> bool {
    match e {
        VippsError::ApiError { code: c, title, detail } => c == code && (title@, detail@) == failure_text(
            problem,
        ),
        _ => false,
    }
}

/// Whether the status denotes success.
pub fn is_success_status(code: u16) -> (r: bool)
    ensures
        r == spec_is_success(code),
{
    200 <= code && code < 300
}

/// Whether the status says that the item looked up does not exist.
pub fn is_not_found(code: u16) -> (r: bool)
    ensures
        r == (code == 404),
{
    code == NOT_FOUND
}

/// The failure for a non-success status `code`, with the problem-detail
/// body where it could be decoded.
pub fn api_error(code: u16, problem: Option<ProblemDetails>) -> (r: VippsError)
    ensures
        is_api_error(r, code, problem),
{
    match problem {
        Some(p) => VippsError::ApiError { code, title: p.title, detail: p.detail },
        None => VippsError::ApiError {
            code,
            title: String::from_str(UNKNOWN_ERROR_TITLE),
            detail: String::new(),
        },
    }
}

/// `r` is the classification of a response with status `code` and, for a
/// failure, the decoded problem-detail body `problem`: success for 2xx,
/// otherwise the API error.
pub open spec fn classified(r: Result<()>, code: u16, problem: Option<ProblemDetails>) -> bool {
    match r {
        Ok(_) => spec_is_success(code),
        Err(e) => !spec_is_success(code) && is_api_error(e, code, problem),
    }
}

/// `r` is the classification of a lookup's response: `Ok(false)`, the
/// absent value, for 404; `Ok(true)` for success; the API error otherwise.
pub open spec fn lookup_classified(r: Result<bool>, code: u16, problem: Option<ProblemDetails>) -> bool {
    if code == 404 {
        r matches Ok(false)
    } else {
        match r {
            Ok(found) => found && spec_is_success(code),
            Err(e) => !spec_is_success(code) && is_api_error(e, code, problem),
        }
    }
}

/// Classifies a response by its status and, for a failure, its decoded
/// problem-detail body (`None` where the body was absent or malformed).
/// Never fails itself; the worst case is the unknown-error failure.
pub fn classify(code: u16, problem: Option<ProblemDetails>) -> (r: Result<()>)
    ensures
        classified(r, code, problem),
{
    if is_success_status(code) {
        Ok(())
    } else {
        Err(api_error(code, problem))
    }
}

/// Classifies the response of a lookup, where a missing item is an absent
/// value rather than a failure.
pub fn classify_lookup(code: u16, problem: Option<ProblemDetails>) -> (r: Result<bool>)
    ensures
        lookup_classified(r, code, problem),
{
    if is_not_found(code) {
        Ok(false)
    } else {
        match classify(code, problem) {
            Ok(()) => Ok(true),
            Err(e) => Err(e),
        }
    }
}

/// A 404 is an absent value on a lookup and, on any other operation, an API
/// error that carries code 404.
pub proof fn lemma_not_found_only_on_lookup(
    problem: Option<ProblemDetails>,
    lookup: Result<bool>,
    other: Result<()>,
)
    requires
        lookup_classified(lookup, 404, problem),
        classified(other, 404, problem),
    ensures
        lookup matches Ok(false),
        other matches Err(e) && e matches VippsError::ApiError { code, .. } && code == 404,
{
}

} // verus!
