use stock_operator::http_api::{idempotency_key, parse_navigation_target, ApiError};
use stock_operator::live_ops::{
    abort_answer, begin_confirmation, check_abortable, check_awaiting_confirmation,
    check_prepare_allowed, check_recorded, check_stored_matches, check_token,
    confirmation_answer, confirming_error, expiry_after, is_uuid, operation_token_lookup,
    outcome_record, stored_payload, to_response, OutcomeRecord, StoredOperation,
};
use stock_operator::operator_types::{ConfirmOperationRequest, OperatorError};
use stock_operator::pages::navigation::NavigationTarget;
use stock_operator::storage::redaction::{CancellationSummary, LivePayload, OrderSummary};
use stock_operator::storage::{LiveOperationKind, LiveOperationState};
use stock_operator::http_api::bearer_authorized;

const ID: &str = "67e55044-10b1-426f-9247-bb680e5fe0c8";

fn stored(state: LiveOperationState) -> StoredOperation {
    StoredOperation {
        id: ID.to_string(),
        kind: LiveOperationKind::SubmitOrder,
        state,
        fingerprint: "fp".to_string(),
        idempotency_key: Some("key-1".to_string()),
        expires_at: 30_000,
        order_summary: OrderSummary {
            security_code: Some("600028".to_string()),
            side: Some("buy".to_string()),
            price: Some("4.55".to_string()),
            quantity: Some(100),
        },
        cancellation_summary: CancellationSummary {
            contract_id: None,
            security_code: None,
            security_name: None,
            side: None,
            price: None,
            quantity: None,
        },
    }
}

fn confirm_request(token: &str, fingerprint: &str) -> ConfirmOperationRequest {
    ConfirmOperationRequest {
        operation_id: ID.to_string(),
        confirmation_token: token.to_string(),
        fingerprint: fingerprint.to_string(),
    }
}

#[test]
fn token_is_shown_only_while_awaiting_confirmation() {
    let open = to_response(
        &stored(LiveOperationState::ConfirmationOpened),
        Some("secret".to_string()),
    );
    assert_eq!(open.confirmation_token.as_deref(), Some("secret"));
    for state in [
        LiveOperationState::Confirming,
        LiveOperationState::Confirmed,
        LiveOperationState::Unknown,
        LiveOperationState::Expired,
        LiveOperationState::Aborted,
    ] {
        let r = to_response(&stored(state), Some("secret".to_string()));
        assert!(r.confirmation_token.is_none());
        assert_eq!(r.state, state);
    }
    assert_eq!(
        operation_token_lookup(&stored(LiveOperationState::Confirmed), ID).unwrap(),
        false
    );
    assert_eq!(
        operation_token_lookup(&stored(LiveOperationState::ConfirmationOpened), ID).unwrap(),
        true
    );
}

#[test]
fn has_active_blocks_second_prepare() {
    assert!(check_prepare_allowed(Ok(false), Ok(false)).is_ok());
    assert!(matches!(
        check_prepare_allowed(Ok(true), Ok(false)),
        Err(OperatorError::IdempotencyConflict)
    ));
    assert!(matches!(
        check_prepare_allowed(Ok(false), Ok(true)),
        Err(OperatorError::ActiveConflict)
    ));
    assert!(matches!(
        check_prepare_allowed(Err("db".to_string()), Ok(false)),
        Err(OperatorError::Storage(m)) if m == "db"
    ));
    assert_eq!(expiry_after(1_000), 31_000);
}

#[test]
fn confirmation_checks_key_uuid_token_and_fingerprint() {
    assert!(is_uuid(ID));
    assert!(!is_uuid("not-a-uuid"));
    assert_eq!(
        begin_confirmation(&confirm_request("t", "fp"), "  key-1 ").unwrap(),
        "key-1"
    );
    assert!(matches!(
        begin_confirmation(&confirm_request("t", "fp"), "   "),
        Err(OperatorError::MissingIdempotencyKey)
    ));
    let mut bad_id = confirm_request("t", "fp");
    bad_id.operation_id = "42".to_string();
    assert!(matches!(
        begin_confirmation(&bad_id, "key-1"),
        Err(OperatorError::Validation(m)) if m == "invalid operation_id"
    ));
    let op = stored(LiveOperationState::ConfirmationOpened);
    assert!(check_stored_matches(&op, "key-1", &confirm_request("t", "fp")).is_ok());
    assert!(matches!(
        check_stored_matches(&op, "key-2", &confirm_request("t", "fp")),
        Err(OperatorError::IdempotencyMismatch)
    ));
    assert!(matches!(
        check_stored_matches(&op, "key-1", &confirm_request("t", "other")),
        Err(OperatorError::FingerprintMismatch)
    ));
    assert!(check_token(Some("t"), &confirm_request("t", "fp")).is_ok());
    assert!(matches!(
        check_token(Some("u"), &confirm_request("t", "fp")),
        Err(OperatorError::TokenMismatch)
    ));
    assert!(matches!(
        check_token(None, &confirm_request("t", "fp")),
        Err(OperatorError::TokenMismatch)
    ));
}

#[test]
fn confirm_flow_and_audit() {
    let awaiting = check_awaiting_confirmation(
        Ok(()),
        Ok(Some(stored(LiveOperationState::ConfirmationOpened))),
    );
    assert!(awaiting.is_ok());
    assert!(matches!(
        check_awaiting_confirmation(Ok(()), Ok(Some(stored(LiveOperationState::Expired)))),
        Err(OperatorError::NotAwaitingConfirmation)
    ));
    assert!(matches!(
        check_awaiting_confirmation(Ok(()), Ok(None)),
        Err(OperatorError::NotFound)
    ));
    assert!(matches!(
        confirming_error("operation expired".to_string()),
        OperatorError::Expired
    ));
    assert!(matches!(
        confirming_error("disk full".to_string()),
        OperatorError::Storage(m) if m == "disk full"
    ));
    match stored_payload(&stored(LiveOperationState::Confirming)).unwrap() {
        LivePayload::Order(o) => {
            assert_eq!(o.security_code, "600028");
            assert_eq!(o.quantity, 100);
        }
        LivePayload::Cancellation(_) => panic!("expected an order"),
    }
    assert_eq!(outcome_record(true), OutcomeRecord::Done);
    assert_eq!(outcome_record(false), OutcomeRecord::Unknown);
    assert!(check_recorded(OutcomeRecord::Unknown, Err("x".to_string())).is_ok());
    assert!(check_recorded(OutcomeRecord::Done, Err("x".to_string())).is_err());
    let done = confirmation_answer(true, Ok(Some(stored(LiveOperationState::Confirmed)))).unwrap();
    assert_eq!(done.state, LiveOperationState::Confirmed);
    assert!(done.confirmation_token.is_none());
    assert!(matches!(
        confirmation_answer(false, Ok(Some(stored(LiveOperationState::Unknown)))),
        Err(OperatorError::OutcomeUnknown)
    ));
}

#[test]
fn unknown_and_abort_flow() {
    assert!(check_abortable(&stored(LiveOperationState::Unknown)).is_ok());
    assert!(check_abortable(&stored(LiveOperationState::Expired)).is_ok());
    assert!(matches!(
        check_abortable(&stored(LiveOperationState::Confirmed)),
        Err(OperatorError::AbortConflict)
    ));
    let aborted = abort_answer(true, Ok(()), Ok(Some(stored(LiveOperationState::Aborted)))).unwrap();
    assert_eq!(aborted.state, LiveOperationState::Aborted);
    assert!(matches!(
        abort_answer(false, Ok(()), Ok(None)),
        Err(OperatorError::OutcomeUnknown)
    ));
}

#[test]
fn api_errors_carry_status_code_and_retry_hint() {
    let e = ApiError::from(OperatorError::ActiveConflict);
    assert_eq!(e.status, 409);
    assert_eq!(e.code, "state_conflict");
    assert!(e.message.contains("another live operation"));
    let ui = ApiError::from(OperatorError::UiUnavailable("ax".to_string()));
    assert_eq!(ui.status, 503);
    assert!(ui.retryable);
    let v = ApiError::from(OperatorError::Validation("bad price".to_string()));
    assert_eq!(v.status, 422);
    assert_eq!(v.message, "bad price");
    let s = ApiError::from(OperatorError::Storage("disk".to_string()));
    assert_eq!(s.message, "storage error");
    assert_eq!(ApiError::from(OperatorError::NotFound).status, 404);
    assert_eq!(ApiError::from(OperatorError::OutcomeUnknown).status, 503);
    assert_eq!(ApiError::internal(None).message, "internal error");
}

#[test]
fn idempotency_header_and_navigation_target() {
    assert_eq!(idempotency_key(Some(" k ")).unwrap(), "k");
    assert_eq!(idempotency_key(None).unwrap_err().status, 400);
    assert_eq!(idempotency_key(Some("  ")).unwrap_err().code, "missing_idempotency_key");
    assert!(matches!(
        parse_navigation_target("funds"),
        Ok(NavigationTarget::Funds)
    ));
    let err = parse_navigation_target("cash").unwrap_err();
    assert_eq!(err.code, "invalid_target");
    assert_eq!(err.message, "unsupported navigation target: cash");
}

#[test]
fn only_the_exact_bearer_token_is_authorized() {
    assert!(bearer_authorized(Some("Bearer test-token"), "test-token"));
    assert!(bearer_authorized(Some("Bearer  test-token "), "test-token"));
    assert!(!bearer_authorized(Some("bearer test-token"), "test-token"));
    assert!(!bearer_authorized(Some("Bearer other"), "test-token"));
    assert!(!bearer_authorized(Some("test-token"), "test-token"));
    assert!(!bearer_authorized(None, "test-token"));
}

#[test]
fn uuid_forms_that_parse() {
    assert!(is_uuid("67e5504410b1426f9247bb680e5fe0c8"));
    assert!(is_uuid("{67e55044-10b1-426f-9247-bb680e5fe0c8}"));
    assert!(is_uuid("URN:uuid:67E55044-10B1-426F-9247-BB680E5FE0C8"));
    assert!(!is_uuid("67e55044-10b1-426f-9247-bb680e5fe0c"));
    assert!(!is_uuid("67e55044x10b1-426f-9247-bb680e5fe0c8"));
    assert!(!is_uuid("urn:uuid:67e5504410b1426f9247bb680e5fe0c8"));
}
