use stock_operator::cli::{require_live, PreflightArgs};
use stock_operator::config::{
    is_private_ip, validate_bind_for_mode, IpAddress, NetworkMode, SocketAddress,
};
use stock_operator::pages::helpers::{detect_panel, detect_workspace, is_sensitive_title};
use stock_operator::pages::navigation::NavigationTarget;
use stock_operator::pages::ocr_navigation::{
    choose_label, navigation_outcome, target_for_label, LabelCandidate,
};
use stock_operator::pages::stage_order::OrderSide;
use stock_operator::pages::submit_order::{check_contract_id, check_order_dialog};
use stock_operator::pages::stage_order::StageOrderRequest;
use stock_operator::pages::types::{PanelKind, WorkspaceKind};
use stock_operator::ratio::percent_text;
use stock_operator::pages::helpers::page_evidence;
use stock_operator::pages::preflight::{integer_value, label_value, security_identity, selected_security};
use stock_operator::config::resolve_network_mode;
use stock_operator::config::database_path;
use stock_operator::pages::panels::{funds_table_refusal, note_empty_table, ocr_panel_refusal, panel_table_verdict};

/// Labels as OCR read them with enough confidence, each on the given row.
fn candidates(labels: &[(&str, i64)]) -> Vec<LabelCandidate> {
    labels
        .iter()
        .filter_map(|(text, row)| {
            target_for_label(text).map(|target| LabelCandidate { target, row: *row })
        })
        .collect()
}

#[test]
fn finds_unique_target_in_verified_navigation_row() {
    let c = candidates(&[("持仓", 52), ("当日委托", 52), ("资金明细", 52)]);
    assert_eq!(choose_label(&c, NavigationTarget::Funds), Some(2));
}

#[test]
fn rejects_low_confidence_or_isolated_labels() {
    // The low-confidence label never becomes a candidate.
    let c = candidates(&[("持仓", 52)]);
    assert_eq!(choose_label(&c, NavigationTarget::Funds), None);
    let c = candidates(&[("资金明细", 52)]);
    assert_eq!(choose_label(&c, NavigationTarget::Funds), None);
}

#[test]
fn rejects_ambiguous_target() {
    let c = candidates(&[("持仓", 52), ("资金明细", 52), ("资金明细", 52)]);
    assert_eq!(choose_label(&c, NavigationTarget::Funds), None);
}

#[test]
fn navigation_reports_whether_the_panel_was_reached() {
    assert!(navigation_outcome(NavigationTarget::Funds, PanelKind::Funds).0);
    assert!(!navigation_outcome(NavigationTarget::Funds, PanelKind::Orders).0);
    assert_eq!(target_for_label("随便"), None);
}

#[test]
fn detects_workspace_and_panel_from_visible_text() {
    assert_eq!(detect_workspace("中信证券 买入下单 600028"), WorkspaceKind::BuyOrder);
    assert_eq!(detect_workspace("卖出下单"), WorkspaceKind::SellOrder);
    assert_eq!(detect_workspace("行情"), WorkspaceKind::Unknown);
    assert_eq!(detect_panel("", &Vec::new()), PanelKind::Unknown);
    assert!(is_sensitive_title(Some("资金账号")));
    assert!(!is_sensitive_title(Some("行情")));
    assert!(!is_sensitive_title(None));
}

#[test]
fn network_modes_parse_aliases_and_refuse_unknown_names() {
    assert_eq!(NetworkMode::parse(" Tailscale ").unwrap(), NetworkMode::PrivateOverlay);
    assert_eq!(NetworkMode::parse("loopback_only").unwrap(), NetworkMode::Loopback);
    assert_eq!(
        NetworkMode::parse("public").unwrap_err(),
        "unknown network mode 'public'; expected 'loopback' or 'private-overlay'"
    );
    assert_eq!(NetworkMode::parse("  ").unwrap_err(), "network mode is required");
    assert_eq!(NetworkMode::PrivateOverlay.as_str(), "private-overlay");
}

#[test]
fn private_overlay_never_exposes_public_addresses() {
    let public = SocketAddress { ip: IpAddress::V4(8, 8, 8, 8), port: 5190 };
    let overlay = SocketAddress { ip: IpAddress::V4(100, 64, 0, 1), port: 5190 };
    let loopback = SocketAddress { ip: IpAddress::V4(127, 0, 0, 1), port: 5190 };
    assert!(validate_bind_for_mode(public, "8.8.8.8:5190", NetworkMode::PrivateOverlay).is_err());
    assert!(validate_bind_for_mode(overlay, "100.64.0.1:5190", NetworkMode::PrivateOverlay).is_ok());
    assert!(validate_bind_for_mode(overlay, "100.64.0.1:5190", NetworkMode::Loopback).is_err());
    assert!(validate_bind_for_mode(loopback, "127.0.0.1:5190", NetworkMode::Loopback).is_ok());
    assert!(is_private_ip(IpAddress::V4(10, 1, 2, 3)));
    assert!(!is_private_ip(IpAddress::V4(100, 128, 0, 1)));
}

#[test]
fn percent_text_rounds_half_up_to_four_digits() {
    assert_eq!(percent_text(1, 3), "33.3333");
    assert_eq!(percent_text(2, 3), "66.6667");
    assert_eq!(percent_text(10, 500), "2.0000");
    assert_eq!(percent_text(0, 7), "0.0000");
}

fn order() -> StageOrderRequest {
    StageOrderRequest {
        security_code: "600028".to_string(),
        side: OrderSide::Buy,
        price: "5.06".to_string(),
        quantity: 100,
    }
}

#[test]
fn order_dialog_must_echo_the_order() {
    assert!(check_contract_id("3506784").is_ok());
    assert!(check_contract_id("35a").is_err());
    assert_eq!(
        check_order_dialog("无关的文字", &order()).unwrap_err(),
        "order confirmation dialog does not match expected field: 交易确认"
    );
    let text = "交易确认\n操作类别:   买入\n股票代码:   600028\n委托价格:   5.06\n委托数量:   100股";
    assert!(check_order_dialog(text, &order()).is_ok());
    assert_eq!(
        check_order_dialog("交易确认 操作类别:   买入 股票代码:   600028 委托价格:   5.07", &order())
            .unwrap_err(),
        "order confirmation dialog does not match expected field: 委托价格:   5.06"
    );
}

#[test]
fn preflight_arguments_come_all_together_or_not_at_all() {
    let none = PreflightArgs {
        security_code: None,
        side: None,
        price: None,
        quantity: None,
        reference_price: Some("5.06".to_string()),
        reference_source: "backend".to_string(),
        reference_captured_at: None,
    };
    let req = none.clone().into_request().unwrap();
    assert!(req.order.is_none());
    assert_eq!(req.reference_quote.unwrap().latest_price, "5.06");
    let mut partial = none;
    partial.security_code = Some("600028".to_string());
    assert_eq!(
        partial.into_request().unwrap_err(),
        "security-code, side, price, and quantity must be provided together"
    );
    assert!(require_live(false).is_err());
    assert!(require_live(true).is_ok());
}

#[test]
fn page_evidence_is_sorted_and_unique() {
    let texts: Vec<String> = ["买入下单", "  ", "全部", "买入下单", "证券代码", "行情"]
        .iter()
        .map(|s| s.to_string())
        .collect();
    let evidence = page_evidence(&texts, WorkspaceKind::BuyOrder, PanelKind::Unknown);
    let mut expected = vec!["买入下单".to_string(), "全部".to_string()];
    expected.sort();
    assert_eq!(evidence, expected);
    let positions = page_evidence(&texts, WorkspaceKind::Unknown, PanelKind::Positions);
    assert_eq!(positions, vec!["证券代码".to_string()]);
    let both = page_evidence(&texts, WorkspaceKind::SellOrder, PanelKind::Positions);
    let mut expected = vec!["买入下单".to_string(), "全部".to_string(), "证券代码".to_string()];
    expected.sort();
    assert_eq!(both, expected);
}

#[test]
fn header_line_names_the_selected_security() {
    let s = security_identity("600028  中国 石化").unwrap();
    assert_eq!(s.code, "600028");
    assert_eq!(s.name, "中国 石化");
    assert!(security_identity("600028").is_none());
    assert!(security_identity("6000 中国石化").is_none());
    let lines = vec!["行情".to_string(), "00700 腾讯控股".to_string()];
    assert_eq!(selected_security(&lines).unwrap().code, "00700");
    let two = vec!["00700 腾讯控股".to_string(), "600028 中国石化".to_string()];
    assert!(selected_security(&two).is_none());
    assert_eq!(integer_value("+300"), Some(300));
    assert_eq!(integer_value("300.00"), Some(300));
    assert_eq!(integer_value("300.50"), None);
    assert_eq!(label_value("  可买 ", &["可买"]), None);
    assert_eq!(label_value(" 1,000 ", &["可买"]).as_deref(), Some("1,000"));
}

#[test]
fn network_mode_comes_from_env_then_store_then_default() {
    assert_eq!(resolve_network_mode(Some(" overlay "), Some("loopback")).unwrap(), NetworkMode::PrivateOverlay);
    assert_eq!(resolve_network_mode(Some("  "), Some("tailscale")).unwrap(), NetworkMode::PrivateOverlay);
    assert_eq!(resolve_network_mode(None, None).unwrap(), NetworkMode::Loopback);
    assert!(resolve_network_mode(Some("public"), Some("loopback")).is_err());
}

#[test]
fn database_path_prefers_override_then_home_then_xdg() {
    assert_eq!(database_path(Some(" /tmp/x.db "), Some("/Users/a"), None), "/tmp/x.db");
    assert_eq!(
        database_path(None, Some("/Users/a"), Some("/xdg")),
        "/Users/a/Library/Application Support/Stock Operator/operator.sqlite3"
    );
    assert_eq!(
        database_path(Some(""), Some(" "), Some("/xdg/")),
        "/xdg/stock-operator/operator.sqlite3"
    );
    assert_eq!(database_path(None, None, None), "operator.sqlite3");
}

#[test]
fn panel_reads_use_only_the_requested_panels_table() {
    let (used, warnings) = panel_table_verdict(PanelKind::Funds, PanelKind::Orders, true);
    assert!(!used);
    assert_eq!(warnings, vec!["current panel is Funds, not the requested Orders".to_string()]);
    let (used, warnings) = panel_table_verdict(PanelKind::Unknown, PanelKind::Orders, false);
    assert!(!used);
    assert_eq!(warnings, vec!["Orders table was not exposed by the current window".to_string()]);
    let (used, warnings) = panel_table_verdict(PanelKind::Orders, PanelKind::Orders, true);
    assert!(used);
    assert!(warnings.is_empty());
    let mut w = Vec::new();
    note_empty_table(&mut w, true, 0, "orders");
    note_empty_table(&mut w, true, 3, "orders");
    note_empty_table(&mut w, false, 0, "orders");
    assert_eq!(w, vec!["orders table exposed no rows".to_string()]);
    assert_eq!(
        ocr_panel_refusal(true, PanelKind::Unknown, PanelKind::Executions, false, "executions").as_deref(),
        Some("executions table signature was not exposed by the current window")
    );
    assert_eq!(
        ocr_panel_refusal(false, PanelKind::Unknown, PanelKind::Executions, true, "executions").as_deref(),
        Some("target window is unavailable")
    );
    assert_eq!(ocr_panel_refusal(true, PanelKind::Executions, PanelKind::Executions, true, "executions"), None);
    assert_eq!(
        funds_table_refusal(true, false).as_deref(),
        Some("funds table was not exposed by the current window")
    );
    assert_eq!(funds_table_refusal(true, true), None);
}
