use stock_operator::live_ops::{OutcomeRecord, StoredOperation, OPERATION_TTL_MILLIS};
use stock_operator::live_protocol::{
    abort_begin, abort_step, confirm_begin, confirm_step, prepare_begin, prepare_step, LiveAction,
    LiveEvent,
};
use stock_operator::operator_types::{ConfirmOperationRequest, OperatorError};
use stock_operator::pages::stage_order::{OrderSide, StageOrderRequest};
use stock_operator::storage::redaction::{CancellationSummary, LivePayload, OrderSummary};
use stock_operator::storage::{LiveOperationKind, LiveOperationState};

const ID: &str = "67e55044-10b1-426f-9247-bb680e5fe0c8";

fn op(state: LiveOperationState) -> StoredOperation {
    StoredOperation {
        id: ID.to_string(),
        kind: LiveOperationKind::SubmitOrder,
        state,
        fingerprint: "fp".to_string(),
        idempotency_key: Some("key-1".to_string()),
        expires_at: 30_000,
        order_summary: OrderSummary {
            security_code: Some("600028".to_string()),
            side: Some("buy".to_string()),
            price: Some("4.55".to_string()),
            quantity: Some(100),
        },
        cancellation_summary: CancellationSummary {
            contract_id: None,
            security_code: None,
            security_name: None,
            side: None,
            price: None,
            quantity: None,
        },
    }
}

fn request(token: &str) -> ConfirmOperationRequest {
    ConfirmOperationRequest {
        operation_id: ID.to_string(),
        confirmation_token: token.to_string(),
        fingerprint: "fp".to_string(),
    }
}

fn order() -> StageOrderRequest {
    StageOrderRequest {
        security_code: "600028".to_string(),
        side: OrderSide::Buy,
        price: "4.55".to_string(),
        quantity: 100,
    }
}

#[test]
fn confirm_runs_to_a_recorded_confirmation() {
    let (run, action) = confirm_begin(request("tok"), "  key-1 ");
    assert!(matches!(action, LiveAction::LookUp));
    assert_eq!(run.key, "key-1");
    let (run, action) = confirm_step(run, LiveEvent::Found(Ok(Some(op(LiveOperationState::ConfirmationOpened)))));
    assert!(matches!(action, LiveAction::ReadToken));
    let (run, action) = confirm_step(run, LiveEvent::Token(Some("tok".to_string())));
    assert!(matches!(action, LiveAction::SweepAndReload));
    let (run, action) = confirm_step(
        run,
        LiveEvent::Swept(Ok(()), Ok(Some(op(LiveOperationState::ConfirmationOpened)))),
    );
    assert!(matches!(action, LiveAction::StartConfirming));
    let (run, action) = confirm_step(run, LiveEvent::Stored(Ok(())));
    assert!(matches!(action, LiveAction::LookUp));
    assert!(run.started);
    let (run, action) = confirm_step(run, LiveEvent::Found(Ok(Some(op(LiveOperationState::Confirming)))));
    match action {
        LiveAction::Press(LivePayload::Order(o)) => {
            assert_eq!(o.security_code, "600028");
            assert_eq!(o.side, OrderSide::Buy);
            assert_eq!(o.price, "4.55");
            assert_eq!(o.quantity, 100);
        }
        _ => panic!("expected the confirm button to be pressed"),
    }
    let (run, action) = confirm_step(run, LiveEvent::Dialog(Ok(())));
    assert!(matches!(action, LiveAction::Record(OutcomeRecord::Done, _)));
    let (run, action) = confirm_step(run, LiveEvent::Stored(Ok(())));
    assert!(matches!(action, LiveAction::DropTokenAndReload));
    let (_, action) = confirm_step(run, LiveEvent::Found(Ok(Some(op(LiveOperationState::Confirmed)))));
    match action {
        LiveAction::Answer(Ok(resp)) => {
            assert_eq!(resp.state, LiveOperationState::Confirmed);
            assert!(resp.confirmation_token.is_none());
        }
        _ => panic!("expected a confirmed answer"),
    }
}

#[test]
fn confirm_refusals_come_before_the_store_is_moved() {
    let (_, action) = confirm_begin(request("tok"), "   ");
    assert!(matches!(action, LiveAction::Answer(Err(OperatorError::MissingIdempotencyKey))));
    let mut bad_id = request("tok");
    bad_id.operation_id = "not-a-uuid".to_string();
    let (_, action) = confirm_begin(bad_id, "key-1");
    assert!(matches!(action, LiveAction::Answer(Err(OperatorError::Validation(ref m))) if m == "invalid operation_id"));

    let (run, _) = confirm_begin(request("tok"), "other-key");
    let (_, action) = confirm_step(run, LiveEvent::Found(Ok(Some(op(LiveOperationState::ConfirmationOpened)))));
    assert!(matches!(action, LiveAction::Answer(Err(OperatorError::IdempotencyMismatch))));

    let (run, _) = confirm_begin(request("tok"), "key-1");
    let (run, _) = confirm_step(run, LiveEvent::Found(Ok(Some(op(LiveOperationState::ConfirmationOpened)))));
    let (run, action) = confirm_step(run, LiveEvent::Token(Some("other".to_string())));
    assert!(matches!(action, LiveAction::Answer(Err(OperatorError::TokenMismatch))));
    assert!(!run.started);

    let (run, _) = confirm_begin(request("tok"), "key-1");
    let (run, _) = confirm_step(run, LiveEvent::Found(Ok(Some(op(LiveOperationState::ConfirmationOpened)))));
    let (run, _) = confirm_step(run, LiveEvent::Token(Some("tok".to_string())));
    let (_, action) = confirm_step(run, LiveEvent::Swept(Ok(()), Ok(Some(op(LiveOperationState::Expired)))));
    assert!(matches!(action, LiveAction::Answer(Err(OperatorError::NotAwaitingConfirmation))));
}

#[test]
fn confirm_with_failed_dialog_records_unknown_outcome() {
    let (run, _) = confirm_begin(request("tok"), "key-1");
    let (run, _) = confirm_step(run, LiveEvent::Found(Ok(Some(op(LiveOperationState::ConfirmationOpened)))));
    let (run, _) = confirm_step(run, LiveEvent::Token(Some("tok".to_string())));
    let (run, _) = confirm_step(run, LiveEvent::Swept(Ok(()), Ok(Some(op(LiveOperationState::ConfirmationOpened)))));
    let (run, action) = confirm_step(run, LiveEvent::Stored(Err("operation expired".to_string())));
    assert!(matches!(action, LiveAction::Answer(Err(OperatorError::Expired))));
    assert!(!run.started);

    let (run, _) = confirm_begin(request("tok"), "key-1");
    let (run, _) = confirm_step(run, LiveEvent::Found(Ok(Some(op(LiveOperationState::ConfirmationOpened)))));
    let (run, _) = confirm_step(run, LiveEvent::Token(Some("tok".to_string())));
    let (run, _) = confirm_step(run, LiveEvent::Swept(Ok(()), Ok(Some(op(LiveOperationState::ConfirmationOpened)))));
    let (run, _) = confirm_step(run, LiveEvent::Stored(Ok(())));
    let (run, _) = confirm_step(run, LiveEvent::Found(Ok(Some(op(LiveOperationState::Confirming)))));
    let (run, action) = confirm_step(run, LiveEvent::Dialog(Err("window gone".to_string())));
    assert!(matches!(action, LiveAction::Record(OutcomeRecord::Unknown, ref m) if m == "broker UI unavailable"));
    let (run, action) = confirm_step(run, LiveEvent::Stored(Err("disk full".to_string())));
    assert!(matches!(action, LiveAction::DropTokenAndReload));
    let (_, action) = confirm_step(run, LiveEvent::Found(Ok(Some(op(LiveOperationState::Unknown)))));
    assert!(matches!(action, LiveAction::Answer(Err(OperatorError::OutcomeUnknown))));
}

#[test]
fn abort_refuses_a_confirmed_operation_and_aborts_an_open_one() {
    let (run, action) = abort_begin(ID.to_string());
    assert!(matches!(action, LiveAction::LookUp));
    let (run, action) = abort_step(run, LiveEvent::Found(Ok(Some(op(LiveOperationState::Confirmed)))));
    assert!(matches!(action, LiveAction::LookUp));
    let (_, action) = abort_step(run, LiveEvent::Found(Ok(Some(op(LiveOperationState::Confirmed)))));
    assert!(matches!(action, LiveAction::Answer(Err(OperatorError::AbortConflict))));

    let (run, _) = abort_begin(ID.to_string());
    let (_, action) = abort_step(run, LiveEvent::Found(Ok(None)));
    assert!(matches!(action, LiveAction::Answer(Err(OperatorError::NotFound))));

    let (run, _) = abort_begin(ID.to_string());
    let (run, _) = abort_step(run, LiveEvent::Found(Ok(Some(op(LiveOperationState::ConfirmationOpened)))));
    let (run, action) = abort_step(run, LiveEvent::Found(Ok(Some(op(LiveOperationState::ConfirmationOpened)))));
    assert!(matches!(action, LiveAction::Close(LivePayload::Order(_))));
    let (run, action) = abort_step(run, LiveEvent::Dialog(Ok(())));
    assert!(matches!(action, LiveAction::Record(OutcomeRecord::Done, _)));
    let (run, action) = abort_step(run, LiveEvent::Stored(Ok(())));
    assert!(matches!(action, LiveAction::DropTokenAndReload));
    let (_, action) = abort_step(run, LiveEvent::Found(Ok(Some(op(LiveOperationState::Aborted)))));
    match action {
        LiveAction::Answer(Ok(resp)) => {
            assert_eq!(resp.state, LiveOperationState::Aborted);
            assert!(resp.confirmation_token.is_none());
        }
        _ => panic!("expected an aborted answer"),
    }
}

#[test]
fn abort_with_failed_dialog_drops_token_and_reports_unknown() {
    let (run, _) = abort_begin(ID.to_string());
    let (run, _) = abort_step(run, LiveEvent::Found(Ok(Some(op(LiveOperationState::Expired)))));
    let (run, _) = abort_step(run, LiveEvent::Found(Ok(Some(op(LiveOperationState::Expired)))));
    let (run, action) = abort_step(run, LiveEvent::Dialog(Err("no window".to_string())));
    assert!(matches!(action, LiveAction::Record(OutcomeRecord::Unknown, ref m) if m == "broker UI unavailable"));
    let (_, action) = abort_step(run, LiveEvent::Stored(Ok(())));
    assert!(matches!(action, LiveAction::DropTokenAndAnswer(Err(OperatorError::OutcomeUnknown))));
}

#[test]
fn prepare_inserts_then_opens_and_hands_out_the_token() {
    let (run, action) = prepare_begin(LiveOperationKind::SubmitOrder, LivePayload::Order(order()), " key-9 ");
    assert!(matches!(action, LiveAction::CheckStore));
    assert_eq!(run.key, "key-9");
    let (run, action) = prepare_step(run, LiveEvent::Checked(Ok(false), Ok(false)));
    assert!(matches!(action, LiveAction::Mint));
    assert_eq!(run.fingerprint.len(), 64);
    let (run, action) = prepare_step(
        run,
        LiveEvent::Minted { operation_id: ID.to_string(), token: "tok".to_string(), now: 1_000 },
    );
    match &action {
        LiveAction::Insert { fingerprint, created_at, expires_at } => {
            assert_eq!(fingerprint, &run.fingerprint);
            assert_eq!(*created_at, 1_000);
            assert_eq!(*expires_at, 1_000 + OPERATION_TTL_MILLIS);
        }
        _ => panic!("expected an insert"),
    }
    let (run, action) = prepare_step(run, LiveEvent::Stored(Ok(())));
    match &action {
        LiveAction::HoldTokenAndOpen(LivePayload::Order(o)) => {
            assert_eq!(o.security_code, "600028");
            assert_eq!(o.price, "4.55");
            assert_eq!(o.quantity, 100);
        }
        _ => panic!("expected the dialog to open for the requested order"),
    }
    let (_, action) = prepare_step(run, LiveEvent::Dialog(Ok(())));
    match action {
        LiveAction::Answer(Ok(resp)) => {
            assert_eq!(resp.operation_id, ID);
            assert_eq!(resp.state, LiveOperationState::ConfirmationOpened);
            assert_eq!(resp.confirmation_token.as_deref(), Some("tok"));
            assert_eq!(resp.expires_at, 31_000);
        }
        _ => panic!("expected a prepared answer"),
    }
}

#[test]
fn prepare_refusals_and_dialog_failure() {
    let (_, action) = prepare_begin(LiveOperationKind::SubmitOrder, LivePayload::Order(order()), "");
    assert!(matches!(action, LiveAction::Answer(Err(OperatorError::MissingIdempotencyKey))));
    let (run, _) = prepare_begin(LiveOperationKind::SubmitOrder, LivePayload::Order(order()), "k");
    let (run, action) = prepare_step(run, LiveEvent::Checked(Ok(true), Ok(false)));
    assert!(matches!(action, LiveAction::Answer(Err(OperatorError::IdempotencyConflict))));
    assert!(!run.inserted);
    let (run, _) = prepare_begin(LiveOperationKind::SubmitOrder, LivePayload::Order(order()), "k");
    let (_, action) = prepare_step(run, LiveEvent::Checked(Ok(false), Ok(true)));
    assert!(matches!(action, LiveAction::Answer(Err(OperatorError::ActiveConflict))));

    let (run, _) = prepare_begin(LiveOperationKind::SubmitOrder, LivePayload::Order(order()), "k");
    let (run, _) = prepare_step(run, LiveEvent::Checked(Ok(false), Ok(false)));
    let (run, _) = prepare_step(run, LiveEvent::Minted { operation_id: ID.to_string(), token: "t".to_string(), now: 5 });
    let (run, _) = prepare_step(run, LiveEvent::Stored(Ok(())));
    let (run, action) = prepare_step(run, LiveEvent::Dialog(Err("no window".to_string())));
    assert!(matches!(action, LiveAction::Record(OutcomeRecord::Unknown, _)));
    let (_, action) = prepare_step(run, LiveEvent::Stored(Ok(())));
    assert!(matches!(action, LiveAction::DropTokenAndAnswer(Err(OperatorError::UiUnavailable(ref d))) if d == "no window"));
}
