use stock_operator::pages::business::normalize::{normalize_number, split_numeric_pair};
use stock_operator::pages::business::tables::{
    execution_table, funds_table, order_table, position_table,
};
use stock_operator::pages::types::{DataQuality, DataSource, ObservedText, TableColumn, TableRow};

#[test]
fn normalizes_numeric_display_values() {
    assert_eq!(normalize_number("1,234.50"), Some("1234.50".to_string()));
    assert_eq!(normalize_number("(12.30)"), Some("-12.30".to_string()));
    assert_eq!(normalize_number("0.210%"), Some("0.210".to_string()));
}

#[test]
fn rejects_merged_or_non_numeric_values() {
    assert_eq!(normalize_number("4595.05 4545.000"), None);
    assert_eq!(normalize_number("--"), None);
}

#[test]
fn normalizes_unicode_minus_signs() {
    assert_eq!(normalize_number("－12.30"), Some("-12.30".to_string()));
    assert_eq!(normalize_number("−12.30"), Some("-12.30".to_string()));
}

#[test]
fn splits_numeric_pairs_only_when_both_halves_are_numbers() {
    assert_eq!(
        split_numeric_pair("0 28090.00"),
        Some(("0".to_string(), "28090.00".to_string()))
    );
    assert_eq!(split_numeric_pair("28090.00"), None);
    assert_eq!(split_numeric_pair("1 2 3"), None);
    assert_eq!(normalize_number("+5"), Some("+5".to_string()));
    assert_eq!(normalize_number(""), None);
}

#[test]
fn splits_merged_security_code_and_name() {
    let columns = position_columns();
    let rows = vec![TableRow {
        ordinal: 0,
        cells: vec![
            exact("600028 中国石化"),
            unavailable(),
            exact("900.00"),
            exact("5.0500"),
        ],
    }];

    let (table, quality) = position_table(&columns, &rows);
    let record = &table.records[0];
    assert_eq!(record.security_code.normalized.as_deref(), Some("600028"));
    assert_eq!(record.security_name.normalized.as_deref(), Some("中国石化"));
    assert_eq!(record.security_name.source, DataSource::Inferred);
    assert_eq!(quality, DataQuality::Exact);
}

#[test]
fn strips_security_code_from_merged_name_when_code_column_is_present() {
    let columns = position_columns();
    let rows = vec![TableRow {
        ordinal: 0,
        cells: vec![
            exact("600028 中国石化"),
            partial("600028 中国石化"),
            exact("900.00"),
            exact("5.0500"),
        ],
    }];

    let (table, _) = position_table(&columns, &rows);
    assert_eq!(
        table.records[0].security_name.normalized.as_deref(),
        Some("中国石化")
    );
    assert_eq!(table.records[0].security_name.source, DataSource::Inferred);
}

#[test]
fn recovers_security_code_merged_into_name_column() {
    let columns = position_columns();
    let rows = vec![TableRow {
        ordinal: 0,
        cells: vec![
            unavailable(),
            partial("600028 中国石化"),
            exact("900.00"),
            exact("5.0500"),
        ],
    }];

    let (table, quality) = position_table(&columns, &rows);
    let record = &table.records[0];
    assert_eq!(record.security_code.normalized.as_deref(), Some("600028"));
    assert_eq!(record.security_code.source, DataSource::Inferred);
    assert_eq!(record.security_code.quality, DataQuality::Partial);
    assert_eq!(record.security_name.normalized.as_deref(), Some("中国石化"));
    assert_eq!(quality, DataQuality::Exact);
}

#[test]
fn marks_missing_required_position_fields_partial() {
    let columns = position_columns();
    let rows = vec![TableRow {
        ordinal: 0,
        cells: vec![
            exact("600028 中国石化"),
            unavailable(),
            exact("900.00"),
            unavailable(),
        ],
    }];

    let (table, quality) = position_table(&columns, &rows);
    assert_eq!(quality, DataQuality::Partial);
    assert!(table
        .warnings
        .iter()
        .any(|warning| warning.contains("position.current_price")));
}

#[test]
fn reports_each_invalid_record() {
    let columns = position_columns();
    let rows = ["600028 中国石化", "600546 山煤国际"]
        .into_iter()
        .enumerate()
        .map(|(ordinal, code)| TableRow {
            ordinal,
            cells: vec![exact(code), unavailable(), exact("900.00"), unavailable()],
        })
        .collect::<Vec<_>>();

    let (table, quality) = position_table(&columns, &rows);
    assert_eq!(quality, DataQuality::Partial);
    assert_eq!(
        table
            .warnings
            .iter()
            .filter(|warning| warning.contains("position.current_price"))
            .count(),
        2
    );
    assert!(table
        .warnings
        .iter()
        .any(|warning| warning.contains("record 1")));
}

#[test]
fn supports_five_digit_security_codes() {
    let columns = position_columns();
    let rows = vec![TableRow {
        ordinal: 0,
        cells: vec![
            exact("00700 腾讯控股"),
            unavailable(),
            exact("100.00"),
            exact("300.00"),
        ],
    }];

    let (table, quality) = position_table(&columns, &rows);
    assert_eq!(quality, DataQuality::Exact);
    assert_eq!(
        table.records[0].security_code.normalized.as_deref(),
        Some("00700")
    );
    assert_eq!(
        table.records[0].security_name.normalized.as_deref(),
        Some("腾讯控股")
    );
}

#[test]
fn leaves_unparseable_security_cell_without_normalized_code() {
    let columns = position_columns();
    let rows = vec![TableRow {
        ordinal: 0,
        cells: vec![
            exact("中国石化"),
            unavailable(),
            exact("900.00"),
            exact("5.0500"),
        ],
    }];

    let (table, quality) = position_table(&columns, &rows);
    assert_eq!(quality, DataQuality::Partial);
    assert_eq!(table.records[0].security_code.normalized, None);
}

#[test]
fn maps_order_execution_and_funds_fixtures() {
    let order_columns = columns(&["证券代码", "买卖方向", "委托价格", "委托数量", "委托状态"]);
    let order_rows = vec![TableRow {
        ordinal: 0,
        cells: vec![
            exact("600028 中国石化"),
            exact("买入"),
            exact("5.0500"),
            exact("100"),
            exact("已报"),
        ],
    }];
    let (orders, order_quality) = order_table(&order_columns, &order_rows);
    assert_eq!(order_quality, DataQuality::Exact);
    assert_eq!(
        orders.records[0].quantity.normalized.as_deref(),
        Some("100")
    );

    let execution_columns = columns(&["证券代码", "买卖方向", "成交价格", "成交数量", "成交金额"]);
    let execution_rows = vec![TableRow {
        ordinal: 0,
        cells: vec![
            exact("600028 中国石化"),
            exact("卖出"),
            exact("5.0500"),
            exact("100"),
            exact("505.00"),
        ],
    }];
    let (executions, execution_quality) = execution_table(&execution_columns, &execution_rows);
    assert_eq!(execution_quality, DataQuality::Exact);
    assert_eq!(
        executions.records[0].amount.normalized.as_deref(),
        Some("505.00")
    );

    let funds_columns = columns(&["总资产", "可用资金", "冻结资金"]);
    let funds_rows = vec![TableRow {
        ordinal: 0,
        cells: vec![exact("10,000.00"), exact("1,000.00"), exact("0.00")],
    }];
    let (funds, funds_quality) = funds_table(&funds_columns, &funds_rows);
    assert_eq!(funds_quality, DataQuality::Exact);
    assert_eq!(
        funds.records[0].available_funds.normalized.as_deref(),
        Some("1000.00")
    );
}

#[test]
fn maps_real_order_header_aliases() {
    let order_columns = columns(&[
        "证券代码",
        "证券名称",
        "申请编号",
        "买卖标志",
        "委托状态",
        "委托价格",
        "委托数量",
        "撤单标志",
    ]);
    let order_rows = vec![TableRow {
        ordinal: 0,
        cells: vec![
            exact("600028"),
            exact("中国石化"),
            exact("42"),
            exact("买入"),
            exact("已报"),
            exact("5.0500"),
            exact("100"),
            exact("可撤"),
        ],
    }];

    let (orders, quality) = order_table(&order_columns, &order_rows);
    let record = &orders.records[0];
    assert_eq!(record.order_id.normalized.as_deref(), Some("42"));
    assert_eq!(record.side.normalized.as_deref(), Some("买入"));
    assert_eq!(record.cancelable.normalized.as_deref(), Some("可撤"));
    assert_eq!(quality, DataQuality::Exact);
}

#[test]
fn maps_real_execution_header_aliases() {
    let execution_columns = columns(&[
        "证券代码",
        "证券名称",
        "成交时间",
        "申请编号",
        "买卖标志",
        "成交价格",
        "成交数量",
        "成交金额",
        "成交编号",
    ]);
    let execution_rows = vec![TableRow {
        ordinal: 0,
        cells: vec![
            exact("600028"),
            exact("中国石化"),
            exact("09:31:00"),
            exact("42"),
            exact("买入"),
            exact("5.0500"),
            exact("100"),
            exact("505.00"),
            exact("84"),
        ],
    }];

    let (executions, quality) = execution_table(&execution_columns, &execution_rows);
    let record = &executions.records[0];
    assert_eq!(record.order_id.normalized.as_deref(), Some("42"));
    assert_eq!(record.side.normalized.as_deref(), Some("买入"));
    assert_eq!(record.execution_id.normalized.as_deref(), Some("84"));
    assert_eq!(quality, DataQuality::Exact);
}

#[test]
fn preserves_distinct_executions_with_identical_trade_values() {
    let execution_columns = columns(&[
        "证券代码",
        "成交时间",
        "成交编号",
        "买卖标志",
        "成交价格",
        "成交数量",
        "成交金额",
    ]);
    let execution_rows = ["84", "85"]
        .into_iter()
        .enumerate()
        .map(|(ordinal, execution_id)| TableRow {
            ordinal,
            cells: vec![
                exact("600028 中国石化"),
                exact("09:31:00"),
                exact(execution_id),
                exact("买入"),
                exact("5.05"),
                exact("100"),
                exact("505.00"),
            ],
        })
        .collect::<Vec<_>>();

    let (executions, quality) = execution_table(&execution_columns, &execution_rows);
    assert_eq!(executions.records.len(), 2);
    assert_eq!(quality, DataQuality::Exact);
}

#[test]
fn recovers_only_consistent_merged_execution_values() {
    let execution_columns = columns(&["证券代码", "买卖标志", "成交价格", "成交数量", "成交金额"]);
    let consistent = vec![TableRow {
        ordinal: 0,
        cells: vec![
            exact("600028 中国石化"),
            exact("买入"),
            exact("5.05"),
            unavailable(),
            partial("100 505.00"),
        ],
    }];
    let (executions, quality) = execution_table(&execution_columns, &consistent);
    assert_eq!(
        executions.records[0].quantity.normalized.as_deref(),
        Some("100")
    );
    assert_eq!(
        executions.records[0].amount.normalized.as_deref(),
        Some("505.00")
    );
    assert_eq!(quality, DataQuality::Exact);

    let inconsistent = vec![TableRow {
        ordinal: 0,
        cells: vec![
            exact("600028 中国石化"),
            exact("买入"),
            exact("5.05"),
            unavailable(),
            partial("100 900.00"),
        ],
    }];
    let (executions, quality) = execution_table(&execution_columns, &inconsistent);
    assert_eq!(executions.records[0].quantity.normalized, None);
    assert_eq!(quality, DataQuality::Partial);
}

#[test]
fn recovers_funds_values_merged_across_adjacent_columns() {
    let funds_columns = columns(&[
        "资金余额",
        "可用资金",
        "可取资金",
        "冻结金额",
        "证券市值",
        "现金资产",
        "总资产",
    ]);
    let funds_rows = vec![TableRow {
        ordinal: 0,
        cells: vec![
            exact("19.91"),
            exact("19.91"),
            exact("19.91"),
            unavailable(),
            partial("0 28090.00"),
            unavailable(),
            partial("19.91 28109.910"),
        ],
    }];

    let (funds, quality) = funds_table(&funds_columns, &funds_rows);
    let record = &funds.records[0];
    assert_eq!(record.frozen_funds.normalized.as_deref(), Some("0"));
    assert_eq!(record.market_value.normalized.as_deref(), Some("28090.00"));
    assert_eq!(record.cash_balance.normalized.as_deref(), Some("19.91"));
    assert_eq!(record.total_assets.normalized.as_deref(), Some("28109.910"));
    assert_eq!(record.total_assets.source, DataSource::Inferred);
    assert_eq!(quality, DataQuality::Exact);
}

#[test]
fn recovers_numeric_pair_when_other_cell_has_placeholder() {
    let funds_columns = columns(&["冻结金额", "证券市值"]);
    let funds_rows = vec![TableRow {
        ordinal: 0,
        cells: vec![partial("-"), partial("0 28090.00")],
    }];

    let (funds, _) = funds_table(&funds_columns, &funds_rows);
    let record = &funds.records[0];
    assert_eq!(record.frozen_funds.normalized.as_deref(), Some("0"));
    assert_eq!(record.market_value.normalized.as_deref(), Some("28090.00"));
}

#[test]
fn prefers_dedicated_cash_balance_over_inferred_cash_assets() {
    let funds_columns = columns(&["资金余额", "现金资产", "总资产"]);
    let funds_rows = vec![TableRow {
        ordinal: 0,
        cells: vec![exact("19.91"), unavailable(), partial("19.91 28109.910")],
    }];

    let (funds, _) = funds_table(&funds_columns, &funds_rows);
    assert_eq!(
        funds.records[0].cash_balance.normalized.as_deref(),
        Some("19.91")
    );
    assert_eq!(funds.records[0].cash_balance.source, DataSource::Ocr);
}

fn position_columns() -> Vec<TableColumn> {
    columns(&["证券代码", "证券名称", "可用股份", "当前价"])
}

fn columns(titles: &[&str]) -> Vec<TableColumn> {
    titles
        .iter()
        .enumerate()
        .map(|(ordinal, title)| TableColumn {
            ordinal,
            identifier: None,
            title: exact(title),
        })
        .collect()
}

fn exact(value: &str) -> ObservedText {
    ObservedText {
        value: Some(value.to_string()),
        quality: DataQuality::Exact,
        source: DataSource::Ocr,
    }
}

fn partial(value: &str) -> ObservedText {
    ObservedText {
        value: Some(value.to_string()),
        quality: DataQuality::Partial,
        source: DataSource::Ocr,
    }
}

fn unavailable() -> ObservedText {
    ObservedText {
        value: None,
        quality: DataQuality::Unavailable,
        source: DataSource::Unavailable,
    }
}

#[test]
fn normalized_numbers_normalize_to_themselves() {
    for raw in ["1,234.50", "(12.30)", "－5．5", "+3", "42%"] {
        let once = normalize_number(raw).unwrap();
        assert_eq!(normalize_number(&once), Some(once.clone()));
    }
}
