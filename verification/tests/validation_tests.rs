use stock_operator::cli::require_live;
use stock_operator::config::normalize_path;
use stock_operator::desktop::validation::{
    is_bundle_char, validate_bundle_id, validate_mcp_path, validate_max_depth, validate_max_nodes,
    validate_process_name,
};
use stock_operator::operator_types::OperatorError;
use stock_operator::pages::order_validation::{order_value, validate_request};
use stock_operator::pages::security_selection::validate_security_code;
use stock_operator::pages::stage_order::{OrderSide, StageOrderRequest};

#[test]
fn normalizes_mcp_path() {
    assert_eq!(normalize_path("mcp/"), "/mcp");
    assert_eq!(normalize_path("/"), "/");
}

#[test]
fn validates_mcp_path() {
    assert_eq!(validate_mcp_path("/mcp").unwrap(), "/mcp");
    assert_eq!(validate_mcp_path("mcp/").unwrap(), "/mcp");
    assert!(validate_mcp_path("").is_err());
    assert!(validate_mcp_path("/a b").is_err());
}

#[test]
fn validates_bundle_id() {
    assert!(validate_bundle_id("com.citics.mac.tdx").is_ok());
    assert!(validate_bundle_id("").is_err());
    assert!(validate_bundle_id("no-dot").is_err());
    assert!(validate_bundle_id("com example").is_err());
}

#[test]
fn typed_error_mapping_preserves_conflict_semantics() {
    let err = OperatorError::IdempotencyConflict;
    assert!(err.message().contains("already been used"));
    let err2 = OperatorError::ActiveConflict;
    assert!(err2.message().contains("another live operation"));
}

#[test]
fn validates_supported_security_codes() {
    validate_security_code("600028").unwrap();
    validate_security_code("00700").unwrap();
    assert!(validate_security_code("6002").is_err());
    assert!(validate_security_code("60002A").is_err());
}

fn request(price: &str, quantity: u64) -> StageOrderRequest {
    StageOrderRequest {
        security_code: "600028".to_string(),
        side: OrderSide::Buy,
        price: price.to_string(),
        quantity,
    }
}

#[test]
fn validates_and_formats_order_value() {
    let request = request("5.06", 100);
    validate_request(&request).unwrap();
    assert_eq!(order_value(&request).unwrap(), "506.00");
}

#[test]
fn rejects_invalid_code_quantity_lot_and_limit() {
    let mut invalid = request("5.06", 100);
    invalid.security_code = "6002".to_string();
    assert!(validate_request(&invalid).is_err());
    assert!(validate_request(&request("5.06", 0)).is_err());
    assert!(validate_request(&request("5.06", 99)).is_err());
    assert!(validate_request(&request("500.00", 100)).is_err());
}

#[test]
fn permits_odd_lot_sell_for_full_position_exit() {
    let mut request = request("5.06", 99);
    request.side = OrderSide::Sell;
    validate_request(&request).unwrap();
}

#[test]
fn process_name_and_limits_are_bounded() {
    assert_eq!(validate_process_name("  tdx ").unwrap(), "tdx");
    assert!(validate_process_name("   ").is_err());
    assert!(validate_max_depth(0).is_err());
    assert_eq!(validate_max_depth(6).unwrap(), 6);
    assert!(validate_max_nodes(0).is_err());
    assert_eq!(validate_max_nodes(300).unwrap(), 300);
}

#[test]
fn live_commands_require_explicit_flag() {
    assert_eq!(
        require_live(false).unwrap_err(),
        "this command can mutate the broker UI; add --live explicitly"
    );
    assert!(require_live(true).is_ok());
}

#[test]
fn bundle_characters_are_letters_digits_dots_dashes_and_underscores() {
    for c in ['a', 'Z', '7', '.', '-', '_', '中'] {
        assert!(is_bundle_char(c));
    }
    for c in ['/', ' ', '@', '+'] {
        assert!(!is_bundle_char(c));
    }
    assert_eq!(validate_bundle_id("com.citics.mac.tdx"), Ok("com.citics.mac.tdx".to_string()));
}
