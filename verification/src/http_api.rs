//! How service errors and request headers become HTTP answers.
use vstd::prelude::*;

use crate::operator_types::{error_message, OperatorError};
use crate::pages::navigation::NavigationTarget;
use crate::text::{chars_of, seq_eq, slice_range, starts_with, str_eq, trim, trim_bounds, trim_string};

verus! {

/// An error answer: HTTP status, stable code, message, and whether the
/// caller may retry.
#[derive(Clone, Debug)]
pub struct ApiError {
    pub status: u16,
    pub code: &'static str,
    pub message: String,
    pub retryable: bool,
}

/// Status, code and retryability that an error is answered with.
pub open spec fn error_answer(e: OperatorError) -> (u16, Seq<char>, bool) {
    match e {
        OperatorError::NotFound => (404, "not_found"@, false),
        OperatorError::MissingIdempotencyKey => (400, "missing_idempotency_key"@, false),
        OperatorError::IdempotencyConflict | OperatorError::ActiveConflict
        | OperatorError::TokenMismatch | OperatorError::FingerprintMismatch
        | OperatorError::IdempotencyMismatch | OperatorError::NotAwaitingConfirmation
        | OperatorError::AbortConflict | OperatorError::Expired => (409, "state_conflict"@, false),
        OperatorError::OutcomeUnknown => (503, "outcome_unknown"@, false),
        OperatorError::UiUnavailable(_) => (503, "ui_unavailable"@, true),
        OperatorError::Validation(_) => (422, "validation_failed"@, false),
        OperatorError::Storage(_) => (500, "storage_error"@, false),
        OperatorError::Internal(_) => (500, "internal_error"@, false),
    }
}

/// The message an error is answered with: a validation error's own text,
/// fixed texts for UI, storage and internal failures (their detail is not
/// shown), and the error's message otherwise.
pub open spec fn answer_message(e: OperatorError) -> Seq<char> {
    match e {
        OperatorError::UiUnavailable(_) => "broker UI unavailable"@,
        OperatorError::Validation(m) => m@,
        OperatorError::Storage(_) => "storage error"@,
        OperatorError::Internal(_) => "internal error"@,
        _ => error_message(e),
    }
}

impl ApiError {
    /// The answer for a service error.
    pub fn from(err: OperatorError) -> (r: ApiError)
        ensures
            (r.status, r.code@, r.retryable) == error_answer(err),
            r.message@ == answer_message(err),
    {
        let (status, code, retryable): (u16, &'static str, bool) = match &err {
            OperatorError::NotFound => (404, "not_found", false),
            OperatorError::MissingIdempotencyKey => (400, "missing_idempotency_key", false),
            OperatorError::IdempotencyConflict | OperatorError::ActiveConflict
            | OperatorError::TokenMismatch | OperatorError::FingerprintMismatch
            | OperatorError::IdempotencyMismatch | OperatorError::NotAwaitingConfirmation
            | OperatorError::AbortConflict | OperatorError::Expired => (409, "state_conflict", false),
            OperatorError::OutcomeUnknown => (503, "outcome_unknown", false),
            OperatorError::UiUnavailable(_) => (503, "ui_unavailable", true),
            OperatorError::Validation(_) => (422, "validation_failed", false),
            OperatorError::Storage(_) => (500, "storage_error", false),
            OperatorError::Internal(_) => (500, "internal_error", false),
        };
        let message = match &err {
            OperatorError::UiUnavailable(_) => String::from_str("broker UI unavailable"),
            OperatorError::Validation(m) => m.clone(),
            OperatorError::Storage(_) => String::from_str("storage error"),
            OperatorError::Internal(_) => String::from_str("internal error"),
            _ => err.message(),
        };
        ApiError { status, code, message, retryable }
    }

    /// The answer for an unexpected failure: a service error keeps its
    /// message, anything else is hidden.
    pub fn internal(service_error: Option<OperatorError>) -> (r: ApiError)
        ensures
            r.status == 500,
            r.code@ == "internal_error"@,
            !r.retryable,
            r.message@ == match service_error {
                Some(e) => error_message(e),
                None => "internal error"@,
            },
    {
        let message = match &service_error {
            Some(e) => e.message(),
            None => String::from_str("internal error"),
        };
        ApiError { status: 500, code: "internal_error", message, retryable: false }
    }
}

/// The idempotency key of a request, from its `Idempotency-Key` header (its
/// text, when the header is present and readable): surrounding whitespace
/// is dropped, and a missing or blank key is refused.
pub fn idempotency_key(header: Option<&str>) -> (r: Result<String, ApiError>)
    ensures
        match header {
            Some(h) if trim(h@).len() > 0 => r matches Ok(k) && k@ == trim(h@),
            _ => r matches Err(e) && e.status == 400 && e.code@ == "missing_idempotency_key"@
                && e.message@ == "Idempotency-Key header is required"@ && !e.retryable,
        },
{
    match header {
        Some(h) => {
            let k = trim_string(h);
            if k.as_str().unicode_len() > 0 {
                return Ok(k);
            }
        },
        None => {},
    }
    Err(ApiError {
        status: 400,
        code: "missing_idempotency_key",
        message: String::from_str("Idempotency-Key header is required"),
        retryable: false,
    })
}

/// The target named in a navigation path.
pub open spec fn target_named(s: Seq<char>) -> Option<NavigationTarget> {
    if s == "positions"@ {
        Some(NavigationTarget::Positions)
    } else if s == "orders"@ {
        Some(NavigationTarget::Orders)
    } else if s == "executions"@ {
        Some(NavigationTarget::Executions)
    } else if s == "funds"@ {
        Some(NavigationTarget::Funds)
    } else {
        None
    }
}

pub fn parse_navigation_target(target: &str) -> (r: Result<NavigationTarget, ApiError>)
    ensures
        match target_named(target@) {
            Some(t) => r matches Ok(v) && v == t,
            None => r matches Err(e) && e.status == 400 && e.code@ == "invalid_target"@ && e.message@
                == "unsupported navigation target: "@ + target@ && !e.retryable,
        },
{
    if str_eq(target, "positions") {
        Ok(NavigationTarget::Positions)
    } else if str_eq(target, "orders") {
        Ok(NavigationTarget::Orders)
    } else if str_eq(target, "executions") {
        Ok(NavigationTarget::Executions)
    } else if str_eq(target, "funds") {
        Ok(NavigationTarget::Funds)
    } else {
        let mut message = String::from_str("unsupported navigation target: ");
        message.append(target);
        Err(ApiError { status: 400, code: "invalid_target", message, retryable: false })
    }
}

/// A request is let through only with an `Authorization` header of the form
/// `Bearer <token>` whose token, trimmed, is exactly the configured one.
pub open spec fn bearer_matches(header: Option<Seq<char>>, expected: Seq<char>) -> bool {
    match header {
        Some(h) => starts_with(h, "Bearer "@) && trim(h.skip(7)) == expected,
        None => false,
    }
}

pub fn bearer_authorized(header: Option<&str>, expected: &str) -> (b: bool)
    ensures
        b == bearer_matches(
            match header {
                Some(h) => Some(h@),
                None => None,
            },
            expected@,
        ),
{
    let h = match header {
        Some(h) => h,
        None => {
            return false;
        },
    };
    let chars = chars_of(h);
    let prefix = chars_of("Bearer ");
    proof {
        reveal_strlit("Bearer ");
    }
    if chars.len() < 7 {
        return false;
    }
    let head = slice_range(&chars, 0, 7);
    if !seq_eq(head.as_slice(), prefix.as_slice()) {
        return false;
    }
    let rest = slice_range(&chars, 7, chars.len());
    proof {
        assert(rest@ =~= h@.skip(7));
    }
    let (a, b) = trim_bounds(rest.as_slice());
    let token = slice_range(&rest, a, b);
    let want = chars_of(expected);
    seq_eq(token.as_slice(), want.as_slice())
}

} // verus!
