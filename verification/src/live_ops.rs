//! Decisions of the live-operation service: which request may go on to the
//! broker dialog, what the store is asked to record, and what the caller is
//! answered. The service performs the storage and broker-UI work between
//! these steps and hands each outcome back.
use vstd::prelude::*;

use crate::operator_types::{ConfirmOperationRequest, LiveOperationResponse, OperatorError};
use crate::pages::cancel_order::CancellationTarget;
use crate::pages::stage_order::StageOrderRequest;
use crate::storage::redaction::{
    cancellation_summary_error, order_summary_error, reconstruct_cancellation, reconstruct_order,
    side_named, CancellationSummary, LivePayload, OrderSummary,
};
use crate::storage::{LiveOperationKind, LiveOperationState};
use crate::text::{ascii_lower, contains, contains_str, str_eq, trim, trim_string};

verus! {

/// How long a prepared operation waits for confirmation, in milliseconds.
pub const OPERATION_TTL_MILLIS: i64 = 30000;

/// An operation as the store holds it; times are milliseconds since the
/// epoch, and the payload summary is read both as an order and as a
/// cancellation (the kind says which one applies).
#[derive(Clone, Debug)]
pub struct StoredOperation {
    pub id: String,
    pub kind: LiveOperationKind,
    pub state: LiveOperationState,
    pub fingerprint: String,
    pub idempotency_key: Option<String>,
    pub expires_at: i64,
    pub order_summary: OrderSummary,
    pub cancellation_summary: CancellationSummary,
}

/// A hexadecimal digit, in either case.
pub open spec fn hex_digit(c: char) -> bool {
    ('0' <= c <= '9') || ('a' <= c <= 'f') || ('A' <= c <= 'F')
}

/// A hyphenated UUID: 36 characters, hyphens at 8, 13, 18 and 23 and hex
/// digits elsewhere.
pub open spec fn hyphenated_uuid(s: Seq<char>) -> bool {
    &&& s.len() == 36
    &&& forall|i: int|
        0 <= i < 36 ==> if i == 8 || i == 13 || i == 18 || i == 23 {
            #[trigger] s[i] == '-'
        } else {
            hex_digit(s[i])
        }
}

/// Whether `uuid::Uuid::parse_str` accepts `s`: 32 hex digits, a hyphenated
/// UUID, one in braces, or one after a `urn:uuid:` prefix in any case.
pub open spec fn uuid_text(s: Seq<char>) -> bool {
    ||| s.len() == 32 && (forall|i: int| 0 <= i < 32 ==> hex_digit(#[trigger] s[i]))
    ||| hyphenated_uuid(s)
    ||| s.len() == 38 && s[0] == '{' && s[37] == '}' && hyphenated_uuid(s.subrange(1, 37))
    ||| s.len() == 45 && ascii_lower(s.subrange(0, 9)) == "urn:uuid:"@ && hyphenated_uuid(
        s.subrange(9, 45),
    )
}

/// Tells whether `uuid::Uuid::parse_str` accepts `s` (see `uuid_text`; the
/// parser works on bytes, and every text it accepts is ASCII).
#[verifier::external_body]
pub fn is_uuid(s: &str) -> (b: bool)
    ensures
        b == uuid_text(s@),
{
    uuid::Uuid::parse_str(s).is_ok()
}

/// The response for a stored operation: its confirmation token is shown only
/// while the operation waits for confirmation.
pub fn to_response(record: &StoredOperation, confirmation_token: Option<String>) -> (r: LiveOperationResponse)
    ensures
        r.operation_id == record.id,
        r.kind == record.kind,
        r.state == record.state,
        r.fingerprint == record.fingerprint,
        r.expires_at == record.expires_at,
        r.confirmation_token == (if record.state == LiveOperationState::ConfirmationOpened {
            confirmation_token
        } else {
            None
        }),
{
    let token = if record.state == LiveOperationState::ConfirmationOpened {
        confirmation_token
    } else {
        None
    };
    LiveOperationResponse {
        operation_id: record.id.clone(),
        kind: record.kind,
        state: record.state,
        confirmation_token: token,
        fingerprint: record.fingerprint.clone(),
        expires_at: record.expires_at,
    }
}

/// The idempotency key that a live request carries, without surrounding
/// whitespace; an empty one is refused.
pub fn require_idempotency_key(raw: &str) -> (r: Result<String, OperatorError>)
    ensures
        match r {
            Ok(k) => k@ == trim(raw@) && k@.len() > 0,
            Err(e) => trim(raw@).len() == 0 && e == OperatorError::MissingIdempotencyKey,
        },
{
    let key = trim_string(raw);
    if key.as_str().unicode_len() == 0 {
        Err(OperatorError::MissingIdempotencyKey)
    } else {
        Ok(key)
    }
}

/// A prepare may go on only when its key has not been used and no other
/// live operation holds the broker dialog; a store failure is reported as
/// such.
pub fn check_prepare_allowed(
    key_used: Result<bool, String>,
    active: Result<bool, String>,
) -> (r: Result<(), OperatorError>)
    ensures
        match key_used {
            Err(m) => r == Err::<(), OperatorError>(OperatorError::Storage(m)),
            Ok(true) => r == Err::<(), OperatorError>(OperatorError::IdempotencyConflict),
            Ok(false) => match active {
                Err(m) => r == Err::<(), OperatorError>(OperatorError::Storage(m)),
                Ok(true) => r == Err::<(), OperatorError>(OperatorError::ActiveConflict),
                Ok(false) => r == Ok::<(), OperatorError>(()),
            },
        },
{
    match key_used {
        Err(m) => Err(OperatorError::Storage(m)),
        Ok(true) => Err(OperatorError::IdempotencyConflict),
        Ok(false) => match active {
            Err(m) => Err(OperatorError::Storage(m)),
            Ok(true) => Err(OperatorError::ActiveConflict),
            Ok(false) => Ok(()),
        },
    }
}

/// The deadline of an operation prepared at `now`.
pub fn expiry_after(now: i64) -> (t: i64)
    requires
        now <= i64::MAX - OPERATION_TTL_MILLIS,
    ensures
        t == now + OPERATION_TTL_MILLIS,
{
    now + OPERATION_TTL_MILLIS
}

/// The answer to a prepare once the confirmation dialog was opened: the
/// operation waits for confirmation and its token is handed out.
pub fn prepared_response(
    operation_id: String,
    kind: LiveOperationKind,
    confirmation_token: String,
    fingerprint: String,
    expires_at: i64,
) -> (r: LiveOperationResponse)
    ensures
        r.operation_id == operation_id,
        r.kind == kind,
        r.state == LiveOperationState::ConfirmationOpened,
        r.confirmation_token == Some(confirmation_token),
        r.fingerprint == fingerprint,
        r.expires_at == expires_at,
{
    LiveOperationResponse {
        operation_id,
        kind,
        state: LiveOperationState::ConfirmationOpened,
        confirmation_token: Some(confirmation_token),
        fingerprint,
        expires_at,
    }
}

/// The error that a failed broker-UI step is reported as, and the message
/// recorded with the operation's unknown outcome.
pub fn ui_failure(detail: String) -> (r: (OperatorError, String))
    ensures
        r.0 == OperatorError::UiUnavailable(detail),
        r.1@ == "broker UI unavailable"@,
{
    (OperatorError::UiUnavailable(detail), String::from_str("broker UI unavailable"))
}

/// The first checks of a confirmation: a key is required and the operation
/// id must be a UUID.
pub fn begin_confirmation(request: &ConfirmOperationRequest, idempotency_key: &str) -> (r: Result<String, OperatorError>)
    ensures
        match r {
            Ok(k) => k@ == trim(idempotency_key@) && k@.len() > 0 && uuid_text(request.operation_id@),
            Err(e) => if trim(idempotency_key@).len() == 0 {
                e == OperatorError::MissingIdempotencyKey
            } else {
                !uuid_text(request.operation_id@) && (e matches OperatorError::Validation(m)
                    && m@ == "invalid operation_id"@)
            },
        },
{
    let key = require_idempotency_key(idempotency_key)?;
    if !is_uuid(request.operation_id.as_str()) {
        return Err(OperatorError::Validation(String::from_str("invalid operation_id")));
    }
    Ok(key)
}

/// A stored operation that was looked up: a store failure, or its absence,
/// ends the request.
pub fn require_found(found: Result<Option<StoredOperation>, String>) -> (r: Result<StoredOperation, OperatorError>)
    ensures
        match found {
            Err(m) => r == Err::<StoredOperation, OperatorError>(OperatorError::Storage(m)),
            Ok(None) => r == Err::<StoredOperation, OperatorError>(OperatorError::NotFound),
            Ok(Some(op)) => r == Ok::<StoredOperation, OperatorError>(op),
        },
{
    match found {
        Err(m) => Err(OperatorError::Storage(m)),
        Ok(None) => Err(OperatorError::NotFound),
        Ok(Some(op)) => Ok(op),
    }
}

/// The prepared operation must carry the request's idempotency key and
/// fingerprint.
pub fn check_stored_matches(stored: &StoredOperation, key: &str, request: &ConfirmOperationRequest) -> (r: Result<(), OperatorError>)
    ensures
        match r {
            Ok(_) => stored.idempotency_key matches Some(k) && k@ == key@ && stored.fingerprint@
                == request.fingerprint@,
            Err(e) => if !(stored.idempotency_key matches Some(k) && k@ == key@) {
                e == OperatorError::IdempotencyMismatch
            } else {
                e == OperatorError::FingerprintMismatch && stored.fingerprint@ != request.fingerprint@
            },
        },
{
    let key_matches = match &stored.idempotency_key {
        Some(k) => str_eq(k.as_str(), key),
        None => false,
    };
    if !key_matches {
        return Err(OperatorError::IdempotencyMismatch);
    }
    if !str_eq(stored.fingerprint.as_str(), request.fingerprint.as_str()) {
        return Err(OperatorError::FingerprintMismatch);
    }
    Ok(())
}

/// The token handed out at prepare time must be the one presented.
pub fn check_token(issued: Option<&str>, request: &ConfirmOperationRequest) -> (r: Result<(), OperatorError>)
    ensures
        r is Ok <==> (issued matches Some(t) && t@ == request.confirmation_token@),
        r matches Err(e) ==> e == OperatorError::TokenMismatch,
{
    match issued {
        Some(t) => {
            if str_eq(t, request.confirmation_token.as_str()) {
                Ok(())
            } else {
                Err(OperatorError::TokenMismatch)
            }
        },
        None => Err(OperatorError::TokenMismatch),
    }
}

/// After stale operations were swept, the operation must still wait for
/// confirmation.
pub fn check_awaiting_confirmation(
    sweep: Result<(), String>,
    current: Result<Option<StoredOperation>, String>,
) -> (r: Result<StoredOperation, OperatorError>)
    ensures
        match sweep {
            Err(m) => r == Err::<StoredOperation, OperatorError>(OperatorError::Storage(m)),
            Ok(_) => match current {
                Err(m) => r == Err::<StoredOperation, OperatorError>(OperatorError::Storage(m)),
                Ok(None) => r == Err::<StoredOperation, OperatorError>(OperatorError::NotFound),
                Ok(Some(op)) => if op.state == LiveOperationState::ConfirmationOpened {
                    r == Ok::<StoredOperation, OperatorError>(op)
                } else {
                    r == Err::<StoredOperation, OperatorError>(OperatorError::NotAwaitingConfirmation)
                },
            },
        },
{
    match sweep {
        Err(m) => {
            return Err(OperatorError::Storage(m));
        },
        Ok(_) => {},
    }
    let op = require_found(current)?;
    if op.state != LiveOperationState::ConfirmationOpened {
        return Err(OperatorError::NotAwaitingConfirmation);
    }
    Ok(op)
}

/// How a refused move to `confirming` is reported: an expired operation as
/// such, anything else as a store failure.
pub fn confirming_error(message: String) -> (e: OperatorError)
    ensures
        if contains(message@, "expired"@) {
            e == OperatorError::Expired
        } else {
            e == OperatorError::Storage(message)
        },
{
    if contains_str(message.as_str(), "expired") {
        OperatorError::Expired
    } else {
        OperatorError::Storage(message)
    }
}

/// Why the stored summary of `op` cannot be read back as a payload, if it
/// cannot.
pub open spec fn payload_error(op: StoredOperation) -> Option<Seq<char>> {
    match op.kind {
        LiveOperationKind::SubmitOrder => order_summary_error(op.order_summary),
        LiveOperationKind::CancelOrder => cancellation_summary_error(op.cancellation_summary),
    }
}

/// `p` is the payload that the stored summary of `op` reads back as: the
/// order with the summary's code, side, price and quantity, or the
/// cancellation target with its contract id, code, name, side, price and
/// quantity, as the operation's kind says.
pub open spec fn stored_payload_is(op: StoredOperation, p: LivePayload) -> bool {
    match (op.kind, p) {
        (LiveOperationKind::SubmitOrder, LivePayload::Order(o)) => {
            &&& op.order_summary.security_code == Some(o.security_code)
            &&& op.order_summary.side matches Some(side) && side_named(side@) == Some(o.side)
            &&& op.order_summary.price == Some(o.price)
            &&& op.order_summary.quantity == Some(o.quantity)
        },
        (LiveOperationKind::CancelOrder, LivePayload::Cancellation(t)) => {
            &&& op.cancellation_summary.contract_id == Some(t.contract_id)
            &&& op.cancellation_summary.security_code == Some(t.security_code)
            &&& op.cancellation_summary.security_name == Some(t.security_name)
            &&& op.cancellation_summary.side == Some(t.side)
            &&& op.cancellation_summary.price == Some(t.price)
            &&& op.cancellation_summary.quantity == Some(t.quantity)
        },
        _ => false,
    }
}

/// The payload to act on in the broker dialog, read back from the stored
/// summary that matches the operation's kind.
pub fn stored_payload(op: &StoredOperation) -> (r: Result<LivePayload, OperatorError>)
    ensures
        match payload_error(*op) {
            None => r matches Ok(p) && stored_payload_is(*op, p),
            Some(m) => r matches Err(OperatorError::Validation(e)) && e@ == m,
        },
{
    match op.kind {
        LiveOperationKind::SubmitOrder => match reconstruct_order(&op.order_summary) {
            Ok(o) => Ok(LivePayload::Order(o)),
            Err(m) => Err(OperatorError::Validation(m)),
        },
        LiveOperationKind::CancelOrder => match reconstruct_cancellation(&op.cancellation_summary) {
            Ok(t) => Ok(LivePayload::Cancellation(t)),
            Err(m) => Err(OperatorError::Validation(m)),
        },
    }
}

/// What the store is asked to record after the broker dialog was driven.
#[derive(Clone, Debug, PartialEq, Eq, Structural)]
pub enum OutcomeRecord {
    /// The dialog did what was asked: record the target state.
    Done,
    /// The dialog failed: record that the outcome is unknown.
    Unknown,
}

pub fn outcome_record(ui_ok: bool) -> (r: OutcomeRecord)
    ensures
        ui_ok <==> r == OutcomeRecord::Done,
{
    if ui_ok {
        OutcomeRecord::Done
    } else {
        OutcomeRecord::Unknown
    }
}

/// Whether recording the outcome stops the request: only a failure to
/// record a successful confirmation does; a failure to record an unknown
/// outcome is passed over.
pub fn check_recorded(record: OutcomeRecord, stored: Result<(), String>) -> (r: Result<(), OperatorError>)
    ensures
        match (record, stored) {
            (OutcomeRecord::Done, Err(m)) => r == Err::<(), OperatorError>(OperatorError::Storage(m)),
            _ => r == Ok::<(), OperatorError>(()),
        },
{
    match (record, stored) {
        (OutcomeRecord::Done, Err(m)) => Err(OperatorError::Storage(m)),
        _ => Ok(()),
    }
}

/// `resp` reports the stored operation `op` as it stands, without a token.
pub open spec fn answers(resp: LiveOperationResponse, op: StoredOperation) -> bool {
    &&& resp.operation_id == op.id
    &&& resp.kind == op.kind
    &&& resp.state == op.state
    &&& resp.confirmation_token is None
    &&& resp.fingerprint == op.fingerprint
    &&& resp.expires_at == op.expires_at
}

/// The answer to a confirmation once the token was withdrawn: the final
/// record without a token when the dialog succeeded, and an unknown outcome
/// otherwise (once the record could be read).
pub fn confirmation_answer(ui_ok: bool, final_op: Result<Option<StoredOperation>, String>) -> (r: Result<LiveOperationResponse, OperatorError>)
    ensures
        match final_op {
            Err(m) => r == Err::<LiveOperationResponse, OperatorError>(OperatorError::Storage(m)),
            Ok(None) => r == Err::<LiveOperationResponse, OperatorError>(OperatorError::NotFound),
            Ok(Some(op)) => if ui_ok {
                r matches Ok(resp) && answers(resp, op)
            } else {
                r == Err::<LiveOperationResponse, OperatorError>(OperatorError::OutcomeUnknown)
            },
        },
{
    let op = require_found(final_op)?;
    let response = to_response(&op, None);
    if !ui_ok {
        return Err(OperatorError::OutcomeUnknown);
    }
    Ok(response)
}

/// An abort applies only to an operation that waits for confirmation, has
/// expired, or whose outcome is unknown.
pub fn check_abortable(current: &StoredOperation) -> (r: Result<(), OperatorError>)
    ensures
        r is Ok <==> (current.state == LiveOperationState::ConfirmationOpened || current.state
            == LiveOperationState::Expired || current.state == LiveOperationState::Unknown),
        r matches Err(e) ==> e == OperatorError::AbortConflict,
{
    match current.state {
        LiveOperationState::ConfirmationOpened
        | LiveOperationState::Expired
        | LiveOperationState::Unknown => Ok(()),
        _ => Err(OperatorError::AbortConflict),
    }
}

/// The answer to an abort: an unknown outcome when the dialog could not be
/// closed, else the final record without a token.
pub fn abort_answer(ui_ok: bool, recorded: Result<(), String>, final_op: Result<Option<StoredOperation>, String>) -> (r: Result<LiveOperationResponse, OperatorError>)
    ensures
        !ui_ok ==> r == Err::<LiveOperationResponse, OperatorError>(OperatorError::OutcomeUnknown),
        ui_ok ==> match recorded {
            Err(m) => r == Err::<LiveOperationResponse, OperatorError>(OperatorError::Storage(m)),
            Ok(_) => match final_op {
                Err(m) => r == Err::<LiveOperationResponse, OperatorError>(OperatorError::Storage(m)),
                Ok(None) => r == Err::<LiveOperationResponse, OperatorError>(OperatorError::NotFound),
                Ok(Some(op)) => r matches Ok(resp) && answers(resp, op),
            },
        },
{
    if !ui_ok {
        return Err(OperatorError::OutcomeUnknown);
    }
    match recorded {
        Err(m) => {
            return Err(OperatorError::Storage(m));
        },
        Ok(_) => {},
    }
    let op = require_found(final_op)?;
    Ok(to_response(&op, None))
}

/// The token of an operation is shown only while it waits for
/// confirmation; an operation id that is not a UUID is refused then.
pub fn operation_token_lookup(op: &StoredOperation, operation_id: &str) -> (r: Result<bool, OperatorError>)
    ensures
        op.state != LiveOperationState::ConfirmationOpened ==> r == Ok::<bool, OperatorError>(false),
        op.state == LiveOperationState::ConfirmationOpened ==> if uuid_text(operation_id@) {
            r == Ok::<bool, OperatorError>(true)
        } else {
            r matches Err(e) && (e matches OperatorError::Validation(m) && m@ == "invalid operation_id"@)
        },
{
    if op.state == LiveOperationState::ConfirmationOpened {
        if is_uuid(operation_id) {
            Ok(true)
        } else {
            Err(OperatorError::Validation(String::from_str("invalid operation_id")))
        }
    } else {
        Ok(false)
    }
}

} // verus!
