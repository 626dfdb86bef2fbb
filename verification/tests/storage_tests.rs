use stock_operator::pages::cancel_order::CancellationTarget;
use stock_operator::pages::stage_order::{OrderSide, StageOrderRequest};
use stock_operator::storage::redaction::{
    fingerprint, reconstruct_cancellation, reconstruct_order, redacted_cancellation_summary,
    redacted_order_summary, to_hex, LivePayload, OrderSummary,
};
use stock_operator::storage::{
    check_abort, check_confirm, check_mark_unknown, check_stale_resolvable,
    check_start_confirming, kind_to_str, parse_kind, parse_state, parse_time, reconcile_state,
    state_to_str, LiveOperationKind, LiveOperationState,
};
use stock_operator::storage::known_instance_id;
use stock_operator::storage::{plan_outcome, Outcome};

fn order() -> StageOrderRequest {
    StageOrderRequest {
        security_code: "600028".to_string(),
        side: OrderSide::Buy,
        price: "4.55".to_string(),
        quantity: 100,
    }
}

fn cancellation() -> CancellationTarget {
    CancellationTarget {
        contract_id: "3506784".to_string(),
        security_code: "600028".to_string(),
        security_name: "中国石化".to_string(),
        side: "买入".to_string(),
        price: "4.55".to_string(),
        quantity: 100,
    }
}

#[test]
fn fingerprint_is_stable_and_payload_bound() {
    let first = fingerprint(LiveOperationKind::SubmitOrder, &LivePayload::Order(order())).unwrap();
    let second = fingerprint(LiveOperationKind::SubmitOrder, &LivePayload::Order(order())).unwrap();
    assert_eq!(first, second);
    assert_eq!(first.len(), 64);
    assert_ne!(
        first,
        fingerprint(
            LiveOperationKind::CancelOrder,
            &LivePayload::Cancellation(cancellation())
        )
        .unwrap()
    );
}

#[test]
fn fingerprint_changes_with_the_order_price() {
    let mut other = order();
    other.price = "4.56".to_string();
    let a = fingerprint(LiveOperationKind::SubmitOrder, &LivePayload::Order(order())).unwrap();
    let b = fingerprint(LiveOperationKind::SubmitOrder, &LivePayload::Order(other)).unwrap();
    assert_ne!(a, b);
    assert!(a.chars().all(|c| c.is_ascii_hexdigit() && !c.is_ascii_uppercase()));
}

#[test]
fn hex_encodes_each_byte_as_two_lower_case_digits() {
    assert_eq!(to_hex(&[0x00, 0xab, 0x10, 0xff]), "00ab10ff");
    assert_eq!(to_hex(&[]), "");
}

#[test]
fn reconstruct_order_roundtrip() {
    let summary = redacted_order_summary(&order());
    let rebuilt = reconstruct_order(&summary).unwrap();
    assert_eq!(rebuilt.security_code, order().security_code);
    assert_eq!(rebuilt.price, order().price);
    assert_eq!(rebuilt.quantity, order().quantity);
}

#[test]
fn reconstruct_cancellation_roundtrip() {
    let target = cancellation();
    let summary = redacted_cancellation_summary(&target);
    let rebuilt = reconstruct_cancellation(&summary).unwrap();
    assert_eq!(rebuilt.contract_id, target.contract_id);
}

#[test]
fn reconstruct_order_reports_the_missing_field() {
    let summary = OrderSummary {
        security_code: Some("600028".to_string()),
        side: Some("hold".to_string()),
        price: Some("4.55".to_string()),
        quantity: Some(100),
    };
    assert!(reconstruct_order(&summary).is_err());
    let summary = OrderSummary {
        security_code: None,
        side: Some("buy".to_string()),
        price: Some("4.55".to_string()),
        quantity: Some(100),
    };
    assert!(reconstruct_order(&summary).is_err());
}

#[test]
fn redacted_summaries_do_not_contain_secrets() {
    let order_str = format!("{:?}", redacted_order_summary(&order()));
    let cancel_str = format!("{:?}", redacted_cancellation_summary(&cancellation()));
    for needle in [
        "confirmation_token",
        "auth_token",
        "bearer",
        "Authorization",
        "STOCK_OPERATOR",
    ] {
        assert!(!order_str.to_lowercase().contains(&needle.to_lowercase()));
        assert!(!cancel_str.to_lowercase().contains(&needle.to_lowercase()));
    }
    assert!(order_str.contains("600028"));
    assert!(order_str.contains("4.55"));
    assert!(cancel_str.contains("3506784"));
}

#[test]
fn state_and_kind_names_round_trip() {
    for state in [
        LiveOperationState::ConfirmationOpened,
        LiveOperationState::Confirming,
        LiveOperationState::Confirmed,
        LiveOperationState::Unknown,
        LiveOperationState::Expired,
        LiveOperationState::Aborted,
    ] {
        assert_eq!(parse_state(state_to_str(state)).unwrap(), state);
    }
    for kind in [LiveOperationKind::SubmitOrder, LiveOperationKind::CancelOrder] {
        assert_eq!(parse_kind(kind_to_str(kind)).unwrap(), kind);
    }
    assert!(parse_state("bogus").is_err());
    assert!(parse_kind("bogus").is_err());
}

#[test]
fn unknown_guard_rejects_terminal_states() {
    assert!(check_mark_unknown("confirmed").is_err());
    assert!(check_mark_unknown("aborted").is_err());
    assert!(check_mark_unknown("unknown").is_err());
    assert!(check_mark_unknown("confirming").is_ok());
    assert!(check_abort("confirmed").is_err());
    assert!(check_abort("unknown").is_ok());
    assert!(check_start_confirming("confirmation_opened").is_ok());
    assert!(check_start_confirming("confirming").is_err());
    assert!(check_confirm("confirming").is_ok());
    assert!(check_confirm("confirmation_opened").is_err());
}

#[test]
fn reconcile_pending_to_unknown_or_expired() {
    let deadline = parse_time("2024-01-01T00:00:30Z").unwrap();
    assert_eq!(deadline, 1_704_067_230_000);
    assert_eq!(
        reconcile_state(deadline - 1, "2024-01-01T00:00:30Z"),
        LiveOperationState::Unknown
    );
    assert_eq!(
        reconcile_state(deadline, "2024-01-01T00:00:30Z"),
        LiveOperationState::Expired
    );
    assert_eq!(reconcile_state(0, "garbage"), LiveOperationState::Expired);
    assert!(parse_time("garbage").is_err());
    assert!(check_stale_resolvable(LiveOperationState::Unknown).is_ok());
    assert!(check_stale_resolvable(LiveOperationState::Confirming).is_err());
}

#[test]
fn settings_instance_id_generated_and_persisted() {
    assert_eq!(
        known_instance_id(Some("  abc "), Some("old")),
        Some(("abc".to_string(), true))
    );
    assert_eq!(
        known_instance_id(Some("  "), Some("old")),
        Some(("old".to_string(), false))
    );
    assert_eq!(known_instance_id(None, Some(" ")), None);
    assert_eq!(known_instance_id(None, None), None);
}

#[test]
fn fingerprint_escapes_quotes_and_control_characters_as_json_does() {
    let order = StageOrderRequest {
        security_code: "60\"0\u{1f}\n".to_string(),
        side: OrderSide::Buy,
        price: "4.55".to_string(),
        quantity: 100,
    };
    assert_eq!(
        fingerprint(LiveOperationKind::SubmitOrder, &LivePayload::Order(order)).unwrap(),
        "c40760bf4eb5be9ba58a9f1e28d5d253bb0200a55aaf8600bbc1e5fe34945544"
    );
}

#[test]
fn outcome_writes_name_the_old_state_and_refuse_terminal_ones() {
    let w = plan_outcome("confirmed", Outcome::Unknown);
    assert_eq!(w.err().unwrap(), "operation cannot transition to unknown from confirmed");
    let w = plan_outcome("unknown", Outcome::Aborted).unwrap();
    assert_eq!(w.state, LiveOperationState::Aborted);
    assert_eq!(w.event_type, "abort");
    assert_eq!(w.from_state, "unknown");
    assert_eq!(w.to_state, "aborted");
    assert!(plan_outcome("confirmed", Outcome::Aborted).is_err());
    let w = plan_outcome("confirming", Outcome::Confirmed).unwrap();
    assert_eq!((w.event_type, w.from_state.as_str(), w.to_state), ("confirmed", "confirming", "confirmed"));
    assert!(plan_outcome("confirmation_opened", Outcome::Confirmed).is_err());
}
