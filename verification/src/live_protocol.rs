//! The live-operation calls as step machines. The service performs the
//! action that a step asks for (a store read or write, a broker-dialog step,
//! dropping a held token) and hands back what came of it, until a step
//! answers the caller. The steps' contracts carry the protocol: what must
//! have been established before the store or the broker dialog is touched,
//! and what each outcome is answered.
use vstd::prelude::*;

use crate::live_ops::{
    abort_answer, answers, payload_error, stored_payload_is, begin_confirmation, check_abortable, check_awaiting_confirmation,
    check_prepare_allowed, check_recorded, check_stored_matches, check_token,
    confirmation_answer, confirming_error, expiry_after, outcome_record, prepared_response,
    require_found, require_idempotency_key, stored_payload, ui_failure, uuid_text,
    OutcomeRecord, StoredOperation, OPERATION_TTL_MILLIS,
};
use crate::operator_types::{ConfirmOperationRequest, LiveOperationResponse, OperatorError};
use crate::pages::cancel_order::CancellationTarget;
use crate::pages::stage_order::StageOrderRequest;
use crate::storage::redaction::{fingerprint, fingerprint_json, hex_text, sha256, LivePayload};
use vstd::utf8::encode_utf8;
use crate::storage::{LiveOperationKind, LiveOperationState};
use crate::text::{contains, trim};

verus! {

/// What the service does next for a live call.
pub enum LiveAction {
    /// Read the operation from the store.
    LookUp,
    /// Read the confirmation token held for the operation.
    ReadToken,
    /// Expire stale operations, then read the operation again.
    SweepAndReload,
    /// Ask whether the idempotency key was used and whether a live
    /// operation is active.
    CheckStore,
    /// Mint a fresh operation id and confirmation token, and read the clock.
    Mint,
    /// Insert the prepared operation: the run's id, key and kind, with this
    /// fingerprint, created at `created_at` and waiting for confirmation
    /// until `expires_at`.
    Insert { fingerprint: String, created_at: i64, expires_at: i64 },
    /// Hold the run's confirmation token for the operation, then open the
    /// broker's confirmation dialog for the payload.
    HoldTokenAndOpen(LivePayload),
    /// Move the operation to `confirming` in the store.
    StartConfirming,
    /// Press confirm in the broker dialog.
    Press(LivePayload),
    /// Close the broker dialog without confirming.
    Close(LivePayload),
    /// Record the outcome: the call's target state when the dialog step
    /// succeeded, else an unknown outcome with this message.
    Record(OutcomeRecord, String),
    /// Drop the held token, then read the operation again.
    DropTokenAndReload,
    /// Drop the held token and answer the caller.
    DropTokenAndAnswer(Result<LiveOperationResponse, OperatorError>),
    /// Answer the caller; the call is over.
    Answer(Result<LiveOperationResponse, OperatorError>),
}

/// What came of an action.
pub enum LiveEvent {
    /// The operation as read from the store.
    Found(Result<Option<StoredOperation>, String>),
    /// The token held for the operation.
    Token(Option<String>),
    /// The sweep of stale operations, and the operation read after it.
    Swept(Result<(), String>, Result<Option<StoredOperation>, String>),
    /// Whether the key was used, and whether an operation is active.
    Checked(Result<bool, String>, Result<bool, String>),
    /// A fresh operation id and confirmation token, and the clock in
    /// milliseconds since the epoch.
    Minted { operation_id: String, token: String, now: i64 },
    /// A store write.
    Stored(Result<(), String>),
    /// A broker-dialog step; the error is the driver's detail.
    Dialog(Result<(), String>),
}

/// The answer to an event that the current stage does not expect.
fn out_of_order() -> (a: LiveAction)
    ensures
        a matches LiveAction::Answer(Err(OperatorError::Internal(_))),
{
    LiveAction::Answer(Err(OperatorError::Internal(String::from_str("unexpected step in a live operation"))))
}

/// The message recorded with an outcome: none with the target state, and
/// the broker UI error's text with an unknown outcome.
pub open spec fn record_message(rec: OutcomeRecord) -> Seq<char> {
    match rec {
        OutcomeRecord::Done => Seq::empty(),
        OutcomeRecord::Unknown => "broker UI unavailable"@,
    }
}

#[derive(Clone, Copy, Debug, PartialEq, Eq, Structural)]
pub enum ConfirmStage {
    LookingUp,
    ReadingToken,
    Sweeping,
    Starting,
    Reloading,
    Pressing,
    Recording,
    Finishing,
    Done,
}

pub open spec fn confirm_rank(s: ConfirmStage) -> int {
    match s {
        ConfirmStage::LookingUp => 0,
        ConfirmStage::ReadingToken => 1,
        ConfirmStage::Sweeping => 2,
        ConfirmStage::Starting => 3,
        ConfirmStage::Reloading => 4,
        ConfirmStage::Pressing => 5,
        ConfirmStage::Recording => 6,
        ConfirmStage::Finishing => 7,
        ConfirmStage::Done => 8,
    }
}

/// A confirmation in progress, with what it has established so far.
pub struct ConfirmRun {
    pub request: ConfirmOperationRequest,
    /// The trimmed idempotency key of the call.
    pub key: String,
    pub stage: ConfirmStage,
    /// The operation as first looked up.
    pub looked_up: Option<StoredOperation>,
    /// The token held for the operation.
    pub held_token: Option<String>,
    /// The operation as read after stale operations were swept.
    pub current: Option<StoredOperation>,
    /// The operation as read after it was moved to `confirming`.
    pub target: Option<StoredOperation>,
    /// The store moved the operation to `confirming`.
    pub started: bool,
    /// The broker confirmed.
    pub ui_ok: bool,
    /// What the store was asked to record.
    pub record: Option<OutcomeRecord>,
    /// The confirmed state was recorded.
    pub recorded: bool,
}

/// The looked-up operation carries the call's key and fingerprint, the held
/// token is the one presented, and after the sweep the operation still
/// waited for confirmation.
pub open spec fn confirm_cleared(run: ConfirmRun) -> bool {
    &&& run.looked_up matches Some(op) && op.idempotency_key matches Some(k) && k@ == run.key@
        && op.fingerprint@ == run.request.fingerprint@
    &&& run.held_token matches Some(t) && t@ == run.request.confirmation_token@
    &&& run.current matches Some(c) && c.state == LiveOperationState::ConfirmationOpened
}

/// What a confirmation has established at each stage.
pub open spec fn confirm_wf(run: ConfirmRun) -> bool {
    let rank = confirm_rank(run.stage);
    &&& rank < 8 ==> run.key@.len() > 0
    &&& 1 <= rank < 8 ==> (run.looked_up matches Some(op) && op.idempotency_key matches Some(k)
        && k@ == run.key@ && op.fingerprint@ == run.request.fingerprint@)
    &&& 2 <= rank < 8 ==> (run.held_token matches Some(t) && t@ == run.request.confirmation_token@)
    &&& 3 <= rank < 8 ==> (run.current matches Some(c) && c.state
        == LiveOperationState::ConfirmationOpened)
    &&& 4 <= rank < 8 ==> run.started
    &&& rank < 4 ==> !run.started
    &&& rank < 7 ==> !run.recorded
    &&& 6 <= rank < 8 ==> (run.record matches Some(rec) && (rec == OutcomeRecord::Done <==> run.ui_ok))
    &&& rank == 7 ==> (run.recorded <==> run.ui_ok)
    &&& run.ui_ok ==> run.started && confirm_cleared(run)
    &&& run.recorded ==> run.ui_ok
}

/// The confirmation laws, for the action that a step asks for: the
/// operation is moved to `confirming` only once it was cleared (key,
/// fingerprint, token, still awaiting confirmation); the broker's confirm
/// button is pressed, the outcome recorded and the token dropped only after
/// that move; a confirmed state is recorded exactly when the broker
/// confirmed; and a success answer follows only a recorded confirmation and
/// carries no token.
pub open spec fn confirm_action_ok(run: ConfirmRun, action: LiveAction) -> bool {
    &&& action matches LiveAction::StartConfirming ==> confirm_cleared(run) && !run.started
    &&& action matches LiveAction::Press(p) ==> confirm_cleared(run) && run.started && (run.target matches Some(
        t) && stored_payload_is(t, p))
    &&& action matches LiveAction::Record(rec, m) ==> run.started && (rec == OutcomeRecord::Done
        <==> run.ui_ok) && m@ == record_message(rec)
    &&& action matches LiveAction::DropTokenAndReload ==> run.started
    &&& action matches LiveAction::Answer(Ok(resp)) ==> confirm_cleared(run) && run.started
        && run.ui_ok && run.recorded && resp.confirmation_token is None
    &&& (action is Answer) == (run.stage == ConfirmStage::Done)
    &&& !(action is CheckStore || action is Mint || action is Insert || action is HoldTokenAndOpen
        || action is Close || action is DropTokenAndAnswer)
}

fn confirm_finished(run: ConfirmRun, answer: Result<LiveOperationResponse, OperatorError>) -> (r: (ConfirmRun, LiveAction))
    requires
        confirm_wf(run),
        answer is Ok ==> run.started && run.ui_ok && run.recorded && confirm_cleared(run),
        answer matches Ok(resp) ==> resp.confirmation_token is None,
    ensures
        confirm_wf(r.0),
        r.0.stage == ConfirmStage::Done,
        r.0.request == run.request,
        r.0.started == run.started,
        r.1 == LiveAction::Answer(answer),
        confirm_action_ok(r.0, r.1),
{
    (ConfirmRun { stage: ConfirmStage::Done, ..run }, LiveAction::Answer(answer))
}

/// Starts a confirmation: the key is required and the operation id must be
/// a UUID; then the operation is looked up.
pub fn confirm_begin(request: ConfirmOperationRequest, raw_key: &str) -> (r: (ConfirmRun, LiveAction))
    ensures
        confirm_wf(r.0),
        confirm_action_ok(r.0, r.1),
        r.0.request == request,
        !r.0.started,
        trim(raw_key@).len() == 0 ==> r.1 == LiveAction::Answer(Err(OperatorError::MissingIdempotencyKey)),
        trim(raw_key@).len() > 0 && !uuid_text(request.operation_id@) ==> (r.1 matches LiveAction::Answer(
            Err(OperatorError::Validation(m)),
        ) && m@ == "invalid operation_id"@),
        trim(raw_key@).len() > 0 && uuid_text(request.operation_id@) ==> r.1 is LookUp && r.0.key@
            == trim(raw_key@),
{
    let checked = begin_confirmation(&request, raw_key);
    let run = ConfirmRun {
        request,
        key: String::new(),
        stage: ConfirmStage::Done,
        looked_up: None,
        held_token: None,
        current: None,
        target: None,
        started: false,
        ui_ok: false,
        record: None,
        recorded: false,
    };
    match checked {
        Ok(key) => (ConfirmRun { key, stage: ConfirmStage::LookingUp, ..run }, LiveAction::LookUp),
        Err(e) => confirm_finished(run, Err(e)),
    }
}

/// One step of a confirmation: what came of the last action decides the
/// next one.
pub fn confirm_step(run: ConfirmRun, event: LiveEvent) -> (r: (ConfirmRun, LiveAction))
    requires
        confirm_wf(run),
        run.stage != ConfirmStage::Done,
    ensures
        confirm_wf(r.0),
        confirm_action_ok(r.0, r.1),
        r.0.request == run.request,
        run.started ==> r.0.started,
        r.0.started && !run.started ==> run.stage == ConfirmStage::Starting,
        match (run.stage, event) {
            (ConfirmStage::LookingUp, LiveEvent::Found(found)) => match found {
                Err(m) => r.1 == LiveAction::Answer(Err(OperatorError::Storage(m))),
                Ok(None) => r.1 == LiveAction::Answer(Err(OperatorError::NotFound)),
                Ok(Some(op)) => if !(op.idempotency_key matches Some(k) && k@ == run.key@) {
                    r.1 == LiveAction::Answer(Err(OperatorError::IdempotencyMismatch))
                } else if op.fingerprint@ != run.request.fingerprint@ {
                    r.1 == LiveAction::Answer(Err(OperatorError::FingerprintMismatch))
                } else {
                    r.1 is ReadToken
                },
            },
            (ConfirmStage::ReadingToken, LiveEvent::Token(held)) => if held matches Some(t) && t@
                == run.request.confirmation_token@ {
                r.1 is SweepAndReload
            } else {
                r.1 == LiveAction::Answer(Err(OperatorError::TokenMismatch))
            },
            (ConfirmStage::Sweeping, LiveEvent::Swept(sweep, current)) => match sweep {
                Err(m) => r.1 == LiveAction::Answer(Err(OperatorError::Storage(m))),
                Ok(_) => match current {
                    Err(m) => r.1 == LiveAction::Answer(Err(OperatorError::Storage(m))),
                    Ok(None) => r.1 == LiveAction::Answer(Err(OperatorError::NotFound)),
                    Ok(Some(op)) => if op.state == LiveOperationState::ConfirmationOpened {
                        r.1 is StartConfirming
                    } else {
                        r.1 == LiveAction::Answer(Err(OperatorError::NotAwaitingConfirmation))
                    },
                },
            },
            (ConfirmStage::Starting, LiveEvent::Stored(moved)) => match moved {
                Ok(_) => r.1 is LookUp && r.0.started,
                Err(m) => if contains(m@, "expired"@) {
                    r.1 == LiveAction::Answer(Err(OperatorError::Expired))
                } else {
                    r.1 == LiveAction::Answer(Err(OperatorError::Storage(m)))
                },
            },
            (ConfirmStage::Reloading, LiveEvent::Found(found)) => match found {
                Err(m) => r.1 == LiveAction::Answer(Err(OperatorError::Storage(m))),
                Ok(None) => r.1 == LiveAction::Answer(Err(OperatorError::NotFound)),
                Ok(Some(op)) => match payload_error(op) {
                    None => r.1 matches LiveAction::Press(p) && stored_payload_is(op, p),
                    Some(m) => r.1 matches LiveAction::Answer(Err(OperatorError::Validation(e)))
                        && e@ == m,
                },
            },
            (ConfirmStage::Pressing, LiveEvent::Dialog(ui)) => r.1 matches LiveAction::Record(rec, m)
                && (rec == OutcomeRecord::Done <==> ui is Ok) && m@ == record_message(rec) && (r.0.ui_ok <==> ui is Ok),
            (ConfirmStage::Recording, LiveEvent::Stored(stored)) => if run.record == Some(
                OutcomeRecord::Done,
            ) && stored is Err {
                r.1 == LiveAction::Answer(Err(OperatorError::Storage(stored->Err_0)))
            } else {
                r.1 is DropTokenAndReload
            },
            (ConfirmStage::Finishing, LiveEvent::Found(found)) => match found {
                Err(m) => r.1 == LiveAction::Answer(Err(OperatorError::Storage(m))),
                Ok(None) => r.1 == LiveAction::Answer(Err(OperatorError::NotFound)),
                Ok(Some(op)) => if run.ui_ok {
                    r.1 matches LiveAction::Answer(Ok(resp)) && answers(resp, op)
                } else {
                    r.1 == LiveAction::Answer(Err(OperatorError::OutcomeUnknown))
                },
            },
            _ => r.1 matches LiveAction::Answer(Err(OperatorError::Internal(_))),
        },
{
    match (run.stage, event) {
        (ConfirmStage::LookingUp, LiveEvent::Found(found)) => {
            match require_found(found) {
                Err(e) => confirm_finished(run, Err(e)),
                Ok(op) => match check_stored_matches(&op, run.key.as_str(), &run.request) {
                    Err(e) => confirm_finished(run, Err(e)),
                    Ok(_) => (
                        ConfirmRun { stage: ConfirmStage::ReadingToken, looked_up: Some(op), ..run },
                        LiveAction::ReadToken,
                    ),
                },
            }
        },
        (ConfirmStage::ReadingToken, LiveEvent::Token(held)) => {
            let checked = match &held {
                Some(t) => check_token(Some(t.as_str()), &run.request),
                None => check_token(None, &run.request),
            };
            match checked {
                Err(e) => confirm_finished(run, Err(e)),
                Ok(_) => (
                    ConfirmRun { stage: ConfirmStage::Sweeping, held_token: held, ..run },
                    LiveAction::SweepAndReload,
                ),
            }
        },
        (ConfirmStage::Sweeping, LiveEvent::Swept(sweep, current)) => {
            match check_awaiting_confirmation(sweep, current) {
                Err(e) => confirm_finished(run, Err(e)),
                Ok(op) => (
                    ConfirmRun { stage: ConfirmStage::Starting, current: Some(op), ..run },
                    LiveAction::StartConfirming,
                ),
            }
        },
        (ConfirmStage::Starting, LiveEvent::Stored(moved)) => {
            match moved {
                Err(m) => confirm_finished(run, Err(confirming_error(m))),
                Ok(_) => (
                    ConfirmRun { stage: ConfirmStage::Reloading, started: true, ..run },
                    LiveAction::LookUp,
                ),
            }
        },
        (ConfirmStage::Reloading, LiveEvent::Found(found)) => {
            match require_found(found) {
                Err(e) => confirm_finished(run, Err(e)),
                Ok(op) => match stored_payload(&op) {
                    Err(e) => confirm_finished(run, Err(e)),
                    Ok(payload) => (
                        ConfirmRun { stage: ConfirmStage::Pressing, target: Some(op), ..run },
                        LiveAction::Press(payload),
                    ),
                },
            }
        },
        (ConfirmStage::Pressing, LiveEvent::Dialog(ui)) => {
            let ui_ok = ui.is_ok();
            let rec = outcome_record(ui_ok);
            let message = match ui {
                Ok(_) => String::new(),
                Err(detail) => ui_failure(detail).1,
            };
            let record = match rec {
                OutcomeRecord::Done => OutcomeRecord::Done,
                OutcomeRecord::Unknown => OutcomeRecord::Unknown,
            };
            (
                ConfirmRun { stage: ConfirmStage::Recording, ui_ok, record: Some(record), ..run },
                LiveAction::Record(rec, message),
            )
        },
        (ConfirmStage::Recording, LiveEvent::Stored(stored)) => {
            let rec = match &run.record {
                Some(OutcomeRecord::Done) => OutcomeRecord::Done,
                _ => OutcomeRecord::Unknown,
            };
            let recorded = match rec {
                OutcomeRecord::Done => true,
                OutcomeRecord::Unknown => false,
            };
            match check_recorded(rec, stored) {
                Err(e) => confirm_finished(run, Err(e)),
                Ok(_) => (
                    ConfirmRun { stage: ConfirmStage::Finishing, recorded, ..run },
                    LiveAction::DropTokenAndReload,
                ),
            }
        },
        (ConfirmStage::Finishing, LiveEvent::Found(found)) => {
            let answer = confirmation_answer(run.ui_ok, found);
            confirm_finished(run, answer)
        },
        _ => {
            let run = ConfirmRun { stage: ConfirmStage::Done, ..run };
            (run, out_of_order())
        },
    }
}

#[derive(Clone, Copy, Debug, PartialEq, Eq, Structural)]
pub enum AbortStage {
    Checking,
    LookingUp,
    Closing,
    Recording,
    Finishing,
    Done,
}

pub open spec fn abort_rank(s: AbortStage) -> int {
    match s {
        AbortStage::Checking => 0,
        AbortStage::LookingUp => 1,
        AbortStage::Closing => 2,
        AbortStage::Recording => 3,
        AbortStage::Finishing => 4,
        AbortStage::Done => 5,
    }
}

/// An abort in progress.
pub struct AbortRun {
    pub operation_id: String,
    pub stage: AbortStage,
    /// The operation as read once the broker dialog was held.
    pub current: Option<StoredOperation>,
    /// The broker dialog was closed.
    pub ui_ok: bool,
    /// What the store was asked to record.
    pub record: Option<OutcomeRecord>,
}

/// An operation may be aborted while it waits for confirmation, once it
/// expired, or while its outcome is unknown.
pub open spec fn abortable(state: LiveOperationState) -> bool {
    state == LiveOperationState::ConfirmationOpened || state == LiveOperationState::Expired || state
        == LiveOperationState::Unknown
}

/// The operation read for the abort could be aborted.
pub open spec fn abort_cleared(run: AbortRun) -> bool {
    run.current matches Some(c) && abortable(c.state)
}

pub open spec fn abort_wf(run: AbortRun) -> bool {
    let rank = abort_rank(run.stage);
    &&& 2 <= rank < 5 ==> abort_cleared(run)
    &&& rank < 3 ==> run.record is None && !run.ui_ok
    &&& 3 <= rank < 5 ==> (run.record matches Some(rec) && (rec == OutcomeRecord::Done <==> run.ui_ok))
    &&& rank == 4 ==> run.ui_ok
    &&& run.record is Some ==> abort_cleared(run)
}

/// The abort laws, for the action that a step asks for: the broker dialog
/// is closed, and anything recorded, only for an operation that could be
/// aborted (any other is refused with nothing changed); an aborted state is
/// recorded exactly when the dialog was closed; a failed close drops the
/// token and answers an unknown outcome; a success answer follows only a
/// recorded abort and carries no token.
pub open spec fn abort_action_ok(run: AbortRun, action: LiveAction) -> bool {
    &&& action matches LiveAction::Close(p) ==> abort_cleared(run) && run.record is None && (run.current matches Some(
        c) && stored_payload_is(c, p))
    &&& action matches LiveAction::Record(rec, m) ==> abort_cleared(run) && (rec == OutcomeRecord::Done
        <==> run.ui_ok) && m@ == record_message(rec)
    &&& action matches LiveAction::DropTokenAndReload ==> abort_cleared(run) && run.ui_ok
        && run.record == Some(OutcomeRecord::Done)
    &&& action matches LiveAction::DropTokenAndAnswer(a) ==> abort_cleared(run) && !run.ui_ok && a
        == Err::<LiveOperationResponse, OperatorError>(OperatorError::OutcomeUnknown)
    &&& action matches LiveAction::Answer(Ok(resp)) ==> abort_cleared(run) && run.ui_ok
        && resp.confirmation_token is None
    &&& (action is Answer || action is DropTokenAndAnswer) == (run.stage == AbortStage::Done)
    &&& !(action is ReadToken || action is SweepAndReload || action is CheckStore || action is Mint
        || action is Insert || action is HoldTokenAndOpen || action is StartConfirming
        || action is Press)
}

fn abort_finished(run: AbortRun, action: LiveAction) -> (r: (AbortRun, LiveAction))
    requires
        abort_wf(run),
        action is Answer,
        action matches LiveAction::Answer(Ok(resp)) ==> abort_cleared(run) && run.ui_ok
            && resp.confirmation_token is None,
    ensures
        abort_wf(r.0),
        r.0.stage == AbortStage::Done,
        r.0.operation_id == run.operation_id,
        r.1 == action,
        abort_action_ok(r.0, r.1),
{
    (AbortRun { stage: AbortStage::Done, ..run }, action)
}

/// Starts an abort: the operation is looked up.
pub fn abort_begin(operation_id: String) -> (r: (AbortRun, LiveAction))
    ensures
        abort_wf(r.0),
        abort_action_ok(r.0, r.1),
        r.0.operation_id == operation_id,
        r.0.stage == AbortStage::Checking,
        r.1 is LookUp,
{
    (
        AbortRun { operation_id, stage: AbortStage::Checking, current: None, ui_ok: false, record: None },
        LiveAction::LookUp,
    )
}

/// One step of an abort.
pub fn abort_step(run: AbortRun, event: LiveEvent) -> (r: (AbortRun, LiveAction))
    requires
        abort_wf(run),
        run.stage != AbortStage::Done,
    ensures
        abort_wf(r.0),
        abort_action_ok(r.0, r.1),
        r.0.operation_id == run.operation_id,
        match (run.stage, event) {
            (AbortStage::Checking, LiveEvent::Found(found)) => match found {
                Err(m) => r.1 == LiveAction::Answer(Err(OperatorError::Storage(m))),
                Ok(None) => r.1 == LiveAction::Answer(Err(OperatorError::NotFound)),
                Ok(Some(_)) => r.1 is LookUp,
            },
            (AbortStage::LookingUp, LiveEvent::Found(found)) => match found {
                Err(m) => r.1 == LiveAction::Answer(Err(OperatorError::Storage(m))),
                Ok(None) => r.1 == LiveAction::Answer(Err(OperatorError::NotFound)),
                Ok(Some(op)) => if !abortable(op.state) {
                    r.1 == LiveAction::Answer(Err(OperatorError::AbortConflict))
                } else {
                    match payload_error(op) {
                        None => r.1 matches LiveAction::Close(p) && stored_payload_is(op, p),
                        Some(m) => r.1 matches LiveAction::Answer(Err(OperatorError::Validation(e)))
                            && e@ == m,
                    }
                },
            },
            (AbortStage::Closing, LiveEvent::Dialog(ui)) => r.1 matches LiveAction::Record(rec, m)
                && (rec == OutcomeRecord::Done <==> ui is Ok) && m@ == record_message(rec),
            (AbortStage::Recording, LiveEvent::Stored(stored)) => if run.ui_ok {
                match stored {
                    Err(m) => r.1 == LiveAction::Answer(Err(OperatorError::Storage(m))),
                    Ok(_) => r.1 is DropTokenAndReload,
                }
            } else {
                r.1 == LiveAction::DropTokenAndAnswer(Err(OperatorError::OutcomeUnknown))
            },
            (AbortStage::Finishing, LiveEvent::Found(found)) => match found {
                Err(m) => r.1 == LiveAction::Answer(Err(OperatorError::Storage(m))),
                Ok(None) => r.1 == LiveAction::Answer(Err(OperatorError::NotFound)),
                Ok(Some(op)) => r.1 matches LiveAction::Answer(Ok(resp)) && answers(resp, op),
            },
            _ => r.1 matches LiveAction::Answer(Err(OperatorError::Internal(_))),
        },
{
    match (run.stage, event) {
        (AbortStage::Checking, LiveEvent::Found(found)) => {
            match require_found(found) {
                Err(e) => abort_finished(run, LiveAction::Answer(Err(e))),
                Ok(_) => (AbortRun { stage: AbortStage::LookingUp, ..run }, LiveAction::LookUp),
            }
        },
        (AbortStage::LookingUp, LiveEvent::Found(found)) => {
            match require_found(found) {
                Err(e) => abort_finished(run, LiveAction::Answer(Err(e))),
                Ok(op) => match check_abortable(&op) {
                    Err(e) => abort_finished(run, LiveAction::Answer(Err(e))),
                    Ok(_) => match stored_payload(&op) {
                        Err(e) => abort_finished(run, LiveAction::Answer(Err(e))),
                        Ok(payload) => (
                            AbortRun { stage: AbortStage::Closing, current: Some(op), ..run },
                            LiveAction::Close(payload),
                        ),
                    },
                },
            }
        },
        (AbortStage::Closing, LiveEvent::Dialog(ui)) => {
            let ui_ok = ui.is_ok();
            let rec = outcome_record(ui_ok);
            let message = match ui {
                Ok(_) => String::new(),
                Err(detail) => ui_failure(detail).1,
            };
            let record = match rec {
                OutcomeRecord::Done => OutcomeRecord::Done,
                OutcomeRecord::Unknown => OutcomeRecord::Unknown,
            };
            (
                AbortRun { stage: AbortStage::Recording, ui_ok, record: Some(record), ..run },
                LiveAction::Record(rec, message),
            )
        },
        (AbortStage::Recording, LiveEvent::Stored(stored)) => {
            if run.ui_ok {
                match stored {
                    Err(m) => abort_finished(run, LiveAction::Answer(Err(OperatorError::Storage(m)))),
                    Ok(_) => (AbortRun { stage: AbortStage::Finishing, ..run }, LiveAction::DropTokenAndReload),
                }
            } else {
                (
                    AbortRun { stage: AbortStage::Done, ..run },
                    LiveAction::DropTokenAndAnswer(Err(OperatorError::OutcomeUnknown)),
                )
            }
        },
        (AbortStage::Finishing, LiveEvent::Found(found)) => {
            let answer = abort_answer(true, Ok(()), found);
            abort_finished(run, LiveAction::Answer(answer))
        },
        _ => abort_finished(run, out_of_order()),
    }
}

/// A copy of a payload.
fn payload_copy(p: &LivePayload) -> (r: LivePayload)
    ensures
        r == *p,
{
    match p {
        LivePayload::Order(o) => LivePayload::Order(StageOrderRequest {
            security_code: o.security_code.clone(),
            side: o.side,
            price: o.price.clone(),
            quantity: o.quantity,
        }),
        LivePayload::Cancellation(t) => LivePayload::Cancellation(CancellationTarget {
            contract_id: t.contract_id.clone(),
            security_code: t.security_code.clone(),
            security_name: t.security_name.clone(),
            side: t.side.clone(),
            price: t.price.clone(),
            quantity: t.quantity,
        }),
    }
}

/// The fingerprint of a payload of the given kind: the lower-case hex
/// SHA-256 of its JSON text.
pub open spec fn payload_fingerprint(kind: LiveOperationKind, payload: LivePayload) -> Seq<char> {
    hex_text(sha256(encode_utf8(fingerprint_json(kind, payload)->0)))
}

#[derive(Clone, Copy, Debug, PartialEq, Eq, Structural)]
pub enum PrepareStage {
    CheckingStore,
    Minting,
    Inserting,
    Opening,
    RecordingFailure,
    Done,
}

pub open spec fn prepare_rank(s: PrepareStage) -> int {
    match s {
        PrepareStage::CheckingStore => 0,
        PrepareStage::Minting => 1,
        PrepareStage::Inserting => 2,
        PrepareStage::Opening => 3,
        PrepareStage::RecordingFailure => 4,
        PrepareStage::Done => 5,
    }
}

/// A prepare in progress.
pub struct PrepareRun {
    pub kind: LiveOperationKind,
    /// The payload of the call.
    pub payload: LivePayload,
    /// The trimmed idempotency key of the call.
    pub key: String,
    pub stage: PrepareStage,
    /// The key was unused and no live operation was active.
    pub allowed: bool,
    pub fingerprint: String,
    pub operation_id: String,
    pub token: String,
    pub created_at: i64,
    pub expires_at: i64,
    /// The operation was inserted into the store.
    pub inserted: bool,
    /// What a failed broker dialog is answered.
    pub failure: Option<OperatorError>,
}

pub open spec fn prepare_wf(run: PrepareRun) -> bool {
    let rank = prepare_rank(run.stage);
    &&& rank < 5 ==> run.key@.len() > 0
    &&& 1 <= rank < 5 ==> run.allowed
    &&& 1 <= rank < 5 ==> run.fingerprint@.len() == 64
    &&& 1 <= rank < 5 ==> run.fingerprint@ == payload_fingerprint(run.kind, run.payload)
    &&& 2 <= rank < 5 ==> run.expires_at == run.created_at + OPERATION_TTL_MILLIS
    &&& 3 <= rank < 5 ==> run.inserted
    &&& rank < 3 ==> !run.inserted
    &&& rank == 4 ==> (run.failure matches Some(OperatorError::UiUnavailable(_)))
    &&& run.inserted ==> run.allowed && run.expires_at == run.created_at + OPERATION_TTL_MILLIS
}

/// The prepare laws, for the action that a step asks for: an operation is
/// inserted only under a non-empty key that was unused while no other live
/// operation was active, and it expires exactly the time to live after it
/// was created; its token is held, the broker dialog opened for the call's
/// own payload, whose fingerprint was inserted, and a failure recorded (with
/// the broker UI error's text) only once it was inserted; a refusal before the insert writes
/// nothing and holds no token; a failed dialog drops the token and answers
/// that the broker UI was unavailable; and a success answer hands out the
/// token of an operation that waits for confirmation.
pub open spec fn prepare_action_ok(run: PrepareRun, action: LiveAction) -> bool {
    &&& action matches LiveAction::Insert { fingerprint, created_at, expires_at } ==> run.allowed
        && run.key@.len() > 0 && fingerprint@ == run.fingerprint@ && created_at == run.created_at
        && expires_at == created_at + OPERATION_TTL_MILLIS && !run.inserted
    &&& action matches LiveAction::HoldTokenAndOpen(p) ==> run.inserted && p == run.payload
        && run.fingerprint@ == payload_fingerprint(run.kind, p)
    &&& action matches LiveAction::Record(rec, m) ==> run.inserted && rec == OutcomeRecord::Unknown
        && m@ == record_message(rec)
    &&& action matches LiveAction::DropTokenAndAnswer(a) ==> run.inserted && (a matches Err(
        OperatorError::UiUnavailable(_),
    ))
    &&& action matches LiveAction::Answer(Err(_)) ==> !run.inserted
    &&& action matches LiveAction::Answer(Ok(resp)) ==> run.inserted && resp.operation_id
        == run.operation_id && resp.kind == run.kind && resp.state
        == LiveOperationState::ConfirmationOpened && resp.confirmation_token == Some(run.token)
        && resp.fingerprint == run.fingerprint && resp.expires_at == run.created_at
        + OPERATION_TTL_MILLIS
    &&& (action is Answer || action is DropTokenAndAnswer) == (run.stage == PrepareStage::Done)
    &&& !(action is LookUp || action is ReadToken || action is SweepAndReload
        || action is StartConfirming || action is Press || action is Close
        || action is DropTokenAndReload)
}

/// Starts a prepare: the idempotency key is required; then the store is
/// asked whether the key was used and whether an operation is active.
pub fn prepare_begin(kind: LiveOperationKind, payload: LivePayload, raw_key: &str) -> (r: (PrepareRun, LiveAction))
    ensures
        prepare_wf(r.0),
        prepare_action_ok(r.0, r.1),
        r.0.kind == kind,
        r.0.payload == payload,
        trim(raw_key@).len() == 0 ==> r.1 == LiveAction::Answer(Err(OperatorError::MissingIdempotencyKey)),
        trim(raw_key@).len() > 0 ==> r.1 is CheckStore && r.0.key@ == trim(raw_key@),
{
    let checked = require_idempotency_key(raw_key);
    let run = PrepareRun {
        kind,
        payload,
        key: String::new(),
        stage: PrepareStage::Done,
        allowed: false,
        fingerprint: String::new(),
        operation_id: String::new(),
        token: String::new(),
        created_at: 0,
        expires_at: 0,
        inserted: false,
        failure: None,
    };
    match checked {
        Ok(key) => (PrepareRun { key, stage: PrepareStage::CheckingStore, ..run }, LiveAction::CheckStore),
        Err(e) => (run, LiveAction::Answer(Err(e))),
    }
}

/// One step of a prepare.
pub fn prepare_step(run: PrepareRun, event: LiveEvent) -> (r: (PrepareRun, LiveAction))
    requires
        prepare_wf(run),
        run.stage != PrepareStage::Done,
    ensures
        prepare_wf(r.0),
        prepare_action_ok(r.0, r.1),
        r.0.kind == run.kind,
        r.0.key == run.key,
        r.0.payload == run.payload,
        match (run.stage, event) {
            (PrepareStage::CheckingStore, LiveEvent::Checked(used, active)) => match used {
                Err(m) => r.1 == LiveAction::Answer(Err(OperatorError::Storage(m))),
                Ok(true) => r.1 == LiveAction::Answer(Err(OperatorError::IdempotencyConflict)),
                Ok(false) => match active {
                    Err(m) => r.1 == LiveAction::Answer(Err(OperatorError::Storage(m))),
                    Ok(true) => r.1 == LiveAction::Answer(Err(OperatorError::ActiveConflict)),
                    Ok(false) => r.1 is Mint && r.0.fingerprint@ == payload_fingerprint(
                        run.kind,
                        run.payload,
                    ),
                },
            },
            (PrepareStage::Minting, LiveEvent::Minted { operation_id, token, now }) => if now
                <= i64::MAX - OPERATION_TTL_MILLIS {
                r.1 is Insert && r.0.operation_id == operation_id && r.0.token == token
                    && r.0.created_at == now
            } else {
                r.1 matches LiveAction::Answer(Err(OperatorError::Internal(_)))
            },
            (PrepareStage::Inserting, LiveEvent::Stored(stored)) => match stored {
                Err(m) => r.1 == LiveAction::Answer(Err(OperatorError::Storage(m))),
                Ok(_) => r.1 == LiveAction::HoldTokenAndOpen(run.payload),
            },
            (PrepareStage::Opening, LiveEvent::Dialog(ui)) => match ui {
                Ok(_) => r.1 is Answer && r.1->Answer_0 is Ok,
                Err(d) => r.1 matches LiveAction::Record(OutcomeRecord::Unknown, m) && m@
                    == record_message(OutcomeRecord::Unknown) && r.0.failure
                    == Some(OperatorError::UiUnavailable(d)),
            },
            (PrepareStage::RecordingFailure, LiveEvent::Stored(_)) => r.1
                == LiveAction::DropTokenAndAnswer(Err(run.failure->0)),
            _ => r.1 matches LiveAction::Answer(Err(OperatorError::Internal(_))) || r.1 is DropTokenAndAnswer,
        },
{
    match (run.stage, event) {
        (PrepareStage::CheckingStore, LiveEvent::Checked(used, active)) => {
            match check_prepare_allowed(used, active) {
                Err(e) => (PrepareRun { stage: PrepareStage::Done, ..run }, LiveAction::Answer(Err(e))),
                Ok(_) => {
                    let printed = fingerprint(run.kind, &run.payload);
                    match printed {
                        Err(m) => (
                            PrepareRun { stage: PrepareStage::Done, ..run },
                            LiveAction::Answer(Err(OperatorError::Internal(m))),
                        ),
                        Ok(f) => (
                            PrepareRun { stage: PrepareStage::Minting, allowed: true, fingerprint: f, ..run },
                            LiveAction::Mint,
                        ),
                    }
                },
            }
        },
        (PrepareStage::Minting, LiveEvent::Minted { operation_id, token, now }) => {
            if now > i64::MAX - OPERATION_TTL_MILLIS {
                (
                    PrepareRun { stage: PrepareStage::Done, ..run },
                    LiveAction::Answer(Err(OperatorError::Internal(String::from_str("clock is out of range")))),
                )
            } else {
                let expires_at = expiry_after(now);
                let action = LiveAction::Insert { fingerprint: run.fingerprint.clone(), created_at: now, expires_at };
                (
                    PrepareRun {
                        stage: PrepareStage::Inserting,
                        operation_id,
                        token,
                        created_at: now,
                        expires_at,
                        ..run
                    },
                    action,
                )
            }
        },
        (PrepareStage::Inserting, LiveEvent::Stored(stored)) => {
            match stored {
                Err(m) => (
                    PrepareRun { stage: PrepareStage::Done, ..run },
                    LiveAction::Answer(Err(OperatorError::Storage(m))),
                ),
                Ok(_) => {
                    let payload = payload_copy(&run.payload);
                    (
                        PrepareRun { stage: PrepareStage::Opening, inserted: true, ..run },
                        LiveAction::HoldTokenAndOpen(payload),
                    )
                },
            }
        },
        (PrepareStage::Opening, LiveEvent::Dialog(ui)) => {
            match ui {
                Ok(_) => {
                    let response = prepared_response(
                        run.operation_id.clone(),
                        run.kind,
                        run.token.clone(),
                        run.fingerprint.clone(),
                        run.expires_at,
                    );
                    (PrepareRun { stage: PrepareStage::Done, ..run }, LiveAction::Answer(Ok(response)))
                },
                Err(detail) => {
                    let (error, message) = ui_failure(detail);
                    (
                        PrepareRun { stage: PrepareStage::RecordingFailure, failure: Some(error), ..run },
                        LiveAction::Record(OutcomeRecord::Unknown, message),
                    )
                },
            }
        },
        (PrepareStage::RecordingFailure, LiveEvent::Stored(_)) => {
            let PrepareRun {
                kind, payload, key, stage, allowed, fingerprint, operation_id, token, created_at,
                expires_at, inserted, failure,
            } = run;
            let error = match failure {
                Some(e) => e,
                None => OperatorError::UiUnavailable(String::new()),
            };
            (
                PrepareRun {
                    kind, payload, key, stage: PrepareStage::Done, allowed, fingerprint,
                    operation_id, token, created_at, expires_at, inserted, failure: None,
                },
                LiveAction::DropTokenAndAnswer(Err(error)),
            )
        },
        _ => {
            if run.inserted {
                (
                    PrepareRun { stage: PrepareStage::Done, ..run },
                    LiveAction::DropTokenAndAnswer(Err(OperatorError::UiUnavailable(String::from_str("unexpected step in a live operation")))),
                )
            } else {
                (PrepareRun { stage: PrepareStage::Done, ..run }, out_of_order())
            }
        },
    }
}

} // verus!
