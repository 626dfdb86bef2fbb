//! Requests, responses and errors of the live-operation service.
use vstd::prelude::*;

use crate::pages::cancel_order::CancellationTarget;
use crate::pages::stage_order::StageOrderRequest;
use crate::storage::{LiveOperationKind, LiveOperationState};

verus! {

#[derive(Clone, Debug)]
pub struct PrepareOrderRequest {
    pub order: StageOrderRequest,
}

#[derive(Clone, Debug)]
pub struct PrepareCancellationRequest {
    pub target: CancellationTarget,
}

#[derive(Clone, Debug)]
pub struct ConfirmOperationRequest {
    pub operation_id: String,
    pub confirmation_token: String,
    pub fingerprint: String,
}

/// A live operation as the service reports it; `expires_at` is in
/// milliseconds since the epoch.
#[derive(Clone, Debug)]
pub struct LiveOperationResponse {
    pub operation_id: String,
    pub kind: LiveOperationKind,
    pub state: LiveOperationState,
    pub confirmation_token: Option<String>,
    pub fingerprint: String,
    pub expires_at: i64,
}

/// Why a live operation was refused or failed. The detail of a broker UI,
/// storage or internal failure is carried as its message.
#[derive(Clone, Debug)]
pub enum OperatorError {
    NotFound,
    MissingIdempotencyKey,
    IdempotencyConflict,
    ActiveConflict,
    TokenMismatch,
    FingerprintMismatch,
    IdempotencyMismatch,
    NotAwaitingConfirmation,
    AbortConflict,
    Expired,
    OutcomeUnknown,
    UiUnavailable(String),
    Validation(String),
    Storage(String),
    Internal(String),
}

/// The message of an error.
pub open spec fn error_message(e: OperatorError) -> Seq<char> {
    match e {
        OperatorError::NotFound => "operation not found"@,
        OperatorError::MissingIdempotencyKey => "Idempotency-Key is required"@,
        OperatorError::IdempotencyConflict => "Idempotency-Key has already been used"@,
        OperatorError::ActiveConflict => "another live operation still owns the broker dialog"@,
        OperatorError::TokenMismatch => "confirmation token does not match"@,
        OperatorError::FingerprintMismatch => "operation fingerprint does not match"@,
        OperatorError::IdempotencyMismatch => "idempotency key does not match the prepared operation"@,
        OperatorError::NotAwaitingConfirmation => "operation is not awaiting confirmation"@,
        OperatorError::AbortConflict => "operation cannot be aborted in its current state"@,
        OperatorError::Expired => "operation has expired"@,
        OperatorError::OutcomeUnknown => "confirmation outcome is unknown; do not retry automatically"@,
        OperatorError::UiUnavailable(_) => "broker UI unavailable"@,
        OperatorError::Validation(m) => "validation failed: "@ + m@,
        OperatorError::Storage(_) => "internal storage error"@,
        OperatorError::Internal(m) => m@,
    }
}

impl OperatorError {
    /// The error's message.
    pub fn message(&self) -> (s: String)
        ensures
            s@ == error_message(*self),
    {
        match self {
            OperatorError::NotFound => String::from_str("operation not found"),
            OperatorError::MissingIdempotencyKey => String::from_str("Idempotency-Key is required"),
            OperatorError::IdempotencyConflict => String::from_str("Idempotency-Key has already been used"),
            OperatorError::ActiveConflict => String::from_str(
                "another live operation still owns the broker dialog",
            ),
            OperatorError::TokenMismatch => String::from_str("confirmation token does not match"),
            OperatorError::FingerprintMismatch => String::from_str("operation fingerprint does not match"),
            OperatorError::IdempotencyMismatch => String::from_str(
                "idempotency key does not match the prepared operation",
            ),
            OperatorError::NotAwaitingConfirmation => String::from_str(
                "operation is not awaiting confirmation",
            ),
            OperatorError::AbortConflict => String::from_str(
                "operation cannot be aborted in its current state",
            ),
            OperatorError::Expired => String::from_str("operation has expired"),
            OperatorError::OutcomeUnknown => String::from_str(
                "confirmation outcome is unknown; do not retry automatically",
            ),
            OperatorError::UiUnavailable(_) => String::from_str("broker UI unavailable"),
            OperatorError::Validation(m) => {
                let mut s = String::from_str("validation failed: ");
                s.append(m.as_str());
                s
            },
            OperatorError::Storage(_) => String::from_str("internal storage error"),
            OperatorError::Internal(m) => m.clone(),
        }
    }
}

} // verus!
