//! Positions, orders, executions and funds read from OCR tables.
use vstd::prelude::*;

use vstd::seq_lib::lemma_concat_associative;

use super::columns::{
    alias_views, column_index, exact_index, field_model, observed_at, pair_model, position_of,
    security_model, titles_of, ColumnMap,
};
use super::normalize::{
    all_numbers, normalize_number, normalized_number, numbers_of, plain_number, product_consistent,
    product_matches, small_number,
};
use super::types::{
    inferred_model, model, opt_chars, BusinessTable, ExecutionRecord, FieldModel, FundsRecord, OrderRecord,
    PositionRecord, StructuredField,
};
use crate::pages::types::{
    lemma_rank_injective, quality_rank, snapshot_with_source, spec_worse, DataQuality,
    ExecutionsSnapshot, FundsSnapshot, ObservedText, OrdersSnapshot, PageSnapshot, PositionsSnapshot,
    TableColumn, TableRow,
};
use crate::text::{
    chars_of, decimal, msg_if, push_message, push_owned, split_words, str_eq, string_from_chars,
    trim, trim_bounds, u64_to_string, words,
};

verus! {

/// Whether a row holds some non-blank value.
pub open spec fn row_has_data(cells: Seq<ObservedText>) -> bool {
    exists|i: int|
        0 <= i < cells.len() && (#[trigger] cells[i]).value is Some && trim(cells[i].value->0@).len() > 0
}

/// The rows that hold some value, in order.
pub open spec fn data_rows(rows: Seq<TableRow>) -> Seq<TableRow>
    decreases rows.len(),
{
    if rows.len() == 0 {
        seq![]
    } else if row_has_data(rows.last().cells@) {
        data_rows(rows.drop_last()).push(rows.last())
    } else {
        data_rows(rows.drop_last())
    }
}

pub fn has_data(row: &TableRow) -> (b: bool)
    ensures
        b == row_has_data(row.cells@),
{
    let mut i: usize = 0;
    while i < row.cells.len()
        invariant
            i <= row.cells@.len(),
            forall|k: int|
                0 <= k < i ==> !((#[trigger] row.cells@[k]).value is Some && trim(
                    row.cells@[k].value->0@,
                ).len() > 0),
        decreases row.cells@.len() - i,
    {
        match &row.cells[i].value {
            Some(v) => {
                let chars = chars_of(v.as_str());
                let (a, b) = trim_bounds(chars.as_slice());
                if a < b {
                    return true;
                }
            },
            None => {},
        }
        i = i + 1;
    }
    false
}

/// A field counts as present when it has a normalized value and its quality
/// is not unavailable.
pub open spec fn present(f: StructuredField) -> bool {
    f.normalized is Some && f.quality != DataQuality::Unavailable
}

/// The warning for a required field missing from a record.
pub open spec fn missing_text(index: nat, label: Seq<char>) -> Seq<char> {
    "required structured field is unavailable at record "@ + decimal(index) + ": "@ + label
}

/// Checks that a required field is present, warning when it is not.
pub fn required_field(field: &StructuredField, label: &str, index: usize, warnings: &mut Vec<String>) -> (ok: bool)
    ensures
        ok == present(*field),
        final(warnings).deep_view() == old(warnings).deep_view() + msg_if(!ok, missing_text(index as nat, label@)),
{
    if field.normalized.is_some() && field.quality != DataQuality::Unavailable {
        assert(warnings.deep_view() =~= old(warnings).deep_view() + seq![]);
        true
    } else {
        let mut m = String::from_str("required structured field is unavailable at record ");
        let n = u64_to_string(index as u64);
        m.append(n.as_str());
        m.append(": ");
        m.append(label);
        push_owned(warnings, m);
        false
    }
}

/// A record whose required fields can be checked.
pub trait CheckedRecord: Sized {
    /// Whether the record at `index` has its required fields, and the
    /// warnings for those it lacks.
    spec fn check(&self, index: nat) -> (bool, Seq<Seq<char>>);

    fn validate(&self, index: usize, warnings: &mut Vec<String>) -> (ok: bool)
        ensures
            ok == self.check(index as nat).0,
            final(warnings).deep_view() == old(warnings).deep_view() + self.check(index as nat).1,
    ;
}

/// Validity and warnings of a run of records, numbered from zero.
pub open spec fn checks_of<T: CheckedRecord>(records: Seq<T>) -> (bool, Seq<Seq<char>>)
    decreases records.len(),
{
    if records.len() == 0 {
        (true, seq![])
    } else {
        let rest = checks_of(records.drop_last());
        let last = records.last().check((records.len() - 1) as nat);
        (rest.0 && last.0, rest.1 + last.1)
    }
}

/// Quality of a set of records: unavailable (with a warning) when there is
/// none, exact when every record has its required fields, partial otherwise.
pub open spec fn records_quality_of<T: CheckedRecord>(records: Seq<T>) -> (DataQuality, Seq<Seq<char>>) {
    if records.len() == 0 {
        (DataQuality::Unavailable, seq!["no structured records were produced"@])
    } else if checks_of(records).0 {
        (DataQuality::Exact, checks_of(records).1)
    } else {
        (DataQuality::Partial, checks_of(records).1)
    }
}

pub fn records_quality<T: CheckedRecord>(records: &Vec<T>, warnings: &mut Vec<String>) -> (q: DataQuality)
    ensures
        q == records_quality_of(records@).0,
        final(warnings).deep_view() == old(warnings).deep_view() + records_quality_of(records@).1,
{
    let ghost w0 = warnings.deep_view();
    if records.len() == 0 {
        push_message(warnings, "no structured records were produced");
        return DataQuality::Unavailable;
    }
    let mut valid = true;
    let mut i: usize = 0;
    while i < records.len()
        invariant
            i <= records@.len(),
            valid == checks_of(records@.take(i as int)).0,
            warnings.deep_view() == w0 + checks_of(records@.take(i as int)).1,
        decreases records@.len() - i,
    {
        let ghost wi = warnings.deep_view();
        let ok = records[i].validate(i, warnings);
        proof {
            let t = records@.take(i + 1);
            assert(t.drop_last() =~= records@.take(i as int));
            assert(t.last() == records@[i as int]);
            lemma_concat_associative(w0, checks_of(records@.take(i as int)).1, records@[i as int].check(
                i as nat,
            ).1);
        }
        valid = valid && ok;
        i = i + 1;
    }
    proof {
        assert(records@.take(records@.len() as int) =~= records@);
    }
    if valid {
        DataQuality::Exact
    } else {
        DataQuality::Partial
    }
}

pub open spec fn position_check(r: PositionRecord, i: nat) -> (bool, Seq<Seq<char>>) {
    (present(r.security_code) && present(r.available_quantity) && present(r.current_price), msg_if(
        !present(r.security_code),
        missing_text(i, "position.security_code"@),
    ) + msg_if(!present(r.available_quantity), missing_text(i, "position.available_quantity"@))
        + msg_if(!present(r.current_price), missing_text(i, "position.current_price"@)))
}

impl CheckedRecord for PositionRecord {
    open spec fn check(&self, index: nat) -> (bool, Seq<Seq<char>>) {
        position_check(*self, index)
    }

    fn validate(&self, index: usize, warnings: &mut Vec<String>) -> (ok: bool) {
        let a = required_field(&self.security_code, "position.security_code", index, warnings);
        let b = required_field(&self.available_quantity, "position.available_quantity", index, warnings);
        let c = required_field(&self.current_price, "position.current_price", index, warnings);
        a && b && c
    }
}

pub open spec fn order_check(r: OrderRecord, i: nat) -> (bool, Seq<Seq<char>>) {
    (present(r.security_code) && present(r.side) && present(r.price) && present(r.quantity) && present(
        r.status,
    ), msg_if(!present(r.security_code), missing_text(i, "order.security_code"@)) + msg_if(
        !present(r.side),
        missing_text(i, "order.side"@),
    ) + msg_if(!present(r.price), missing_text(i, "order.price"@)) + msg_if(
        !present(r.quantity),
        missing_text(i, "order.quantity"@),
    ) + msg_if(!present(r.status), missing_text(i, "order.status"@)))
}

impl CheckedRecord for OrderRecord {
    open spec fn check(&self, index: nat) -> (bool, Seq<Seq<char>>) {
        order_check(*self, index)
    }

    fn validate(&self, index: usize, warnings: &mut Vec<String>) -> (ok: bool) {
        let a = required_field(&self.security_code, "order.security_code", index, warnings);
        let b = required_field(&self.side, "order.side", index, warnings);
        let c = required_field(&self.price, "order.price", index, warnings);
        let d = required_field(&self.quantity, "order.quantity", index, warnings);
        let e = required_field(&self.status, "order.status", index, warnings);
        a && b && c && d && e
    }
}

pub open spec fn execution_check(r: ExecutionRecord, i: nat) -> (bool, Seq<Seq<char>>) {
    (present(r.security_code) && present(r.side) && present(r.price) && present(r.quantity), msg_if(
        !present(r.security_code),
        missing_text(i, "execution.security_code"@),
    ) + msg_if(!present(r.side), missing_text(i, "execution.side"@)) + msg_if(
        !present(r.price),
        missing_text(i, "execution.price"@),
    ) + msg_if(!present(r.quantity), missing_text(i, "execution.quantity"@)))
}

impl CheckedRecord for ExecutionRecord {
    open spec fn check(&self, index: nat) -> (bool, Seq<Seq<char>>) {
        execution_check(*self, index)
    }

    fn validate(&self, index: usize, warnings: &mut Vec<String>) -> (ok: bool) {
        let a = required_field(&self.security_code, "execution.security_code", index, warnings);
        let b = required_field(&self.side, "execution.side", index, warnings);
        let c = required_field(&self.price, "execution.price", index, warnings);
        let d = required_field(&self.quantity, "execution.quantity", index, warnings);
        a && b && c && d
    }
}

pub open spec fn funds_check(r: FundsRecord, i: nat) -> (bool, Seq<Seq<char>>) {
    (present(r.available_funds) && present(r.total_assets), msg_if(
        !present(r.available_funds),
        missing_text(i, "funds.available_funds"@),
    ) + msg_if(!present(r.total_assets), missing_text(i, "funds.total_assets"@)))
}

impl CheckedRecord for FundsRecord {
    open spec fn check(&self, index: nat) -> (bool, Seq<Seq<char>>) {
        funds_check(*self, index)
    }

    fn validate(&self, index: usize, warnings: &mut Vec<String>) -> (ok: bool) {
        let a = required_field(&self.available_funds, "funds.available_funds", index, warnings);
        let b = required_field(&self.total_assets, "funds.total_assets", index, warnings);
        a && b
    }
}

fn field1(map: &ColumnMap, row: &TableRow, a: &str, numeric: bool) -> (f: StructuredField)
    ensures
        model(f) == field_model(map.view_titles(), row.cells@, seq![a@], numeric),
{
    let aliases: [&str; 1] = [a];
    proof {
        assert(alias_views(aliases@) =~= seq![a@]);
    }
    map.field(row, &aliases, numeric)
}

fn field2(map: &ColumnMap, row: &TableRow, a: &str, b: &str, numeric: bool) -> (f: StructuredField)
    ensures
        model(f) == field_model(map.view_titles(), row.cells@, seq![a@, b@], numeric),
{
    let aliases: [&str; 2] = [a, b];
    proof {
        assert(alias_views(aliases@) =~= seq![a@, b@]);
    }
    map.field(row, &aliases, numeric)
}

fn field3(map: &ColumnMap, row: &TableRow, a: &str, b: &str, c: &str, numeric: bool) -> (f: StructuredField)
    ensures
        model(f) == field_model(map.view_titles(), row.cells@, seq![a@, b@, c@], numeric),
{
    let aliases: [&str; 3] = [a, b, c];
    proof {
        assert(alias_views(aliases@) =~= seq![a@, b@, c@]);
    }
    map.field(row, &aliases, numeric)
}

fn field4(map: &ColumnMap, row: &TableRow, a: &str, b: &str, c: &str, d: &str, numeric: bool) -> (f: StructuredField)
    ensures
        model(f) == field_model(map.view_titles(), row.cells@, seq![a@, b@, c@, d@], numeric),
{
    let aliases: [&str; 4] = [a, b, c, d];
    proof {
        assert(alias_views(aliases@) =~= seq![a@, b@, c@, d@]);
    }
    map.field(row, &aliases, numeric)
}

/// A position record as read from a row.
pub open spec fn position_ok(t: Seq<Seq<char>>, c: Seq<ObservedText>, r: PositionRecord) -> bool {
    &&& (model(r.security_code), model(r.security_name)) == security_model(t, c)
    &&& model(r.yesterday_balance) == field_model(t, c, seq!["昨日余额"@], true)
    &&& model(r.reference_holding) == field_model(t, c, seq!["参考持股"@], true)
    &&& model(r.available_quantity) == field_model(t, c, seq!["可用股份"@, "可用数量"@], true)
    &&& model(r.frozen_quantity) == field_model(t, c, seq!["冻结数量"@], true)
    &&& model(r.cost_price) == field_model(t, c, seq!["成本价"@], true)
    &&& model(r.current_price) == field_model(t, c, seq!["当前价"@], true)
    &&& model(r.current_cost) == field_model(t, c, seq!["当前成本"@], true)
    &&& model(r.market_value) == field_model(t, c, seq!["最新市值"@], true)
    &&& model(r.floating_pnl) == field_model(t, c, seq!["浮动盈亏"@], true)
    &&& model(r.pnl_ratio) == field_model(t, c, seq!["盈亏比例"@], true)
    &&& model(r.today_buy_quantity) == field_model(t, c, seq!["今买成交数量"@], true)
    &&& model(r.reference_pnl) == field_model(t, c, seq!["无费用参考盈亏"@], true)
    &&& model(r.share_balance) == field_model(t, c, seq!["股份余额"@], true)
    &&& model(r.shareholder_account) == field_model(t, c, seq!["股东代码"@], false)
    &&& model(r.custodian_unit) == field_model(t, c, seq!["托管单元"@], false)
    &&& model(r.fund_account) == field_model(t, c, seq!["资金账号"@], false)
}

pub fn position_record(map: &ColumnMap, row: &TableRow) -> (r: PositionRecord)
    ensures
        position_ok(map.view_titles(), row.cells@, r),
{
    let (security_code, security_name) = map.security_fields(row);
    PositionRecord {
        security_code,
        security_name,
        yesterday_balance: field1(map, row, "昨日余额", true),
        reference_holding: field1(map, row, "参考持股", true),
        available_quantity: field2(map, row, "可用股份", "可用数量", true),
        frozen_quantity: field1(map, row, "冻结数量", true),
        cost_price: field1(map, row, "成本价", true),
        current_price: field1(map, row, "当前价", true),
        current_cost: field1(map, row, "当前成本", true),
        market_value: field1(map, row, "最新市值", true),
        floating_pnl: field1(map, row, "浮动盈亏", true),
        pnl_ratio: field1(map, row, "盈亏比例", true),
        today_buy_quantity: field1(map, row, "今买成交数量", true),
        reference_pnl: field1(map, row, "无费用参考盈亏", true),
        share_balance: field1(map, row, "股份余额", true),
        shareholder_account: field1(map, row, "股东代码", false),
        custodian_unit: field1(map, row, "托管单元", false),
        fund_account: field1(map, row, "资金账号", false),
    }
}

/// An order record as read from a row.
pub open spec fn order_ok(t: Seq<Seq<char>>, c: Seq<ObservedText>, r: OrderRecord) -> bool {
    &&& (model(r.security_code), model(r.security_name)) == security_model(t, c)
    &&& model(r.order_id) == field_model(t, c, seq!["委托编号"@, "申请编号"@, "合同编号"@, "委托序号"@], false)
    &&& model(r.submitted_at) == field_model(t, c, seq!["委托时间"@, "申报时间"@], false)
    &&& model(r.side) == field_model(t, c, seq!["买卖方向"@, "买卖标志"@, "操作"@], false)
    &&& model(r.order_type) == field_model(t, c, seq!["委托类型"@, "报价方式"@], false)
    &&& model(r.price) == field_model(t, c, seq!["委托价格"@, "委托价"@], true)
    &&& model(r.quantity) == field_model(t, c, seq!["委托数量"@, "申报数量"@], true)
    &&& model(r.filled_quantity) == field_model(t, c, seq!["成交数量"@, "已成交"@], true)
    &&& model(r.remaining_quantity) == field_model(t, c, seq!["剩余数量"@, "未成交"@], true)
    &&& model(r.status) == field_model(t, c, seq!["委托状态"@, "状态"@], false)
    &&& model(r.cancelable) == field_model(t, c, seq!["可撤"@, "可撤单"@, "撤单标志"@], false)
}

pub fn order_record(map: &ColumnMap, row: &TableRow) -> (r: OrderRecord)
    ensures
        order_ok(map.view_titles(), row.cells@, r),
{
    let (security_code, security_name) = map.security_fields(row);
    OrderRecord {
        order_id: field4(map, row, "委托编号", "申请编号", "合同编号", "委托序号", false),
        submitted_at: field2(map, row, "委托时间", "申报时间", false),
        security_code,
        security_name,
        side: field3(map, row, "买卖方向", "买卖标志", "操作", false),
        order_type: field2(map, row, "委托类型", "报价方式", false),
        price: field2(map, row, "委托价格", "委托价", true),
        quantity: field2(map, row, "委托数量", "申报数量", true),
        filled_quantity: field2(map, row, "成交数量", "已成交", true),
        remaining_quantity: field2(map, row, "剩余数量", "未成交", true),
        status: field2(map, row, "委托状态", "状态", false),
        cancelable: field3(map, row, "可撤", "可撤单", "撤单标志", false),
    }
}

/// A funds record as read from a row: frozen funds and market value, and
/// cash assets and total assets, are read as adjacent pairs; a dedicated
/// cash balance column is preferred over the cash assets.
pub open spec fn funds_ok(t: Seq<Seq<char>>, c: Seq<ObservedText>, r: FundsRecord) -> bool {
    let frozen_market = pair_model(
        field_model(t, c, seq!["冻结资金"@, "冻结金额"@], true),
        field_model(t, c, seq!["证券市值"@, "股票市值"@, "市值"@], true),
    );
    let cash_total = pair_model(
        field_model(t, c, seq!["现金资产"@], true),
        field_model(t, c, seq!["总资产"@], true),
    );
    let dedicated = field_model(t, c, seq!["资金余额"@, "现金余额"@], true);
    &&& model(r.total_assets) == cash_total.1
    &&& model(r.available_funds) == field_model(t, c, seq!["可用资金"@], true)
    &&& model(r.frozen_funds) == frozen_market.0
    &&& model(r.cash_balance) == (if dedicated.1 is Some {
        dedicated
    } else {
        cash_total.0
    })
    &&& model(r.market_value) == frozen_market.1
    &&& model(r.withdrawable_funds) == field_model(t, c, seq!["可取资金"@, "可取余额"@], true)
}

pub fn funds_record(map: &ColumnMap, row: &TableRow) -> (r: FundsRecord)
    ensures
        funds_ok(map.view_titles(), row.cells@, r),
{
    let frozen_left: [&str; 2] = ["冻结资金", "冻结金额"];
    let market_right: [&str; 3] = ["证券市值", "股票市值", "市值"];
    let cash_left: [&str; 1] = ["现金资产"];
    let total_right: [&str; 1] = ["总资产"];
    proof {
        assert(alias_views(frozen_left@) =~= seq!["冻结资金"@, "冻结金额"@]);
        assert(alias_views(market_right@) =~= seq!["证券市值"@, "股票市值"@, "市值"@]);
        assert(alias_views(cash_left@) =~= seq!["现金资产"@]);
        assert(alias_views(total_right@) =~= seq!["总资产"@]);
    }
    let (frozen_funds, market_value) = map.numeric_pair(row, &frozen_left, &market_right);
    let (cash_assets, total_assets) = map.numeric_pair(row, &cash_left, &total_right);
    let dedicated = field2(map, row, "资金余额", "现金余额", true);
    let cash_balance = if dedicated.normalized.is_some() {
        dedicated
    } else {
        cash_assets
    };
    FundsRecord {
        total_assets,
        available_funds: field1(map, row, "可用资金", true),
        frozen_funds,
        cash_balance,
        market_value,
        withdrawable_funds: field2(map, row, "可取资金", "可取余额", true),
    }
}

/// The first word that names a side, `买入` or `卖出`.
pub open spec fn first_side_word(ws: Seq<Seq<char>>) -> Option<Seq<char>>
    decreases ws.len(),
{
    if ws.len() == 0 {
        None
    } else if ws[0] == "买入"@ || ws[0] == "卖出"@ {
        Some(ws[0])
    } else {
        first_side_word(ws.drop_first())
    }
}

/// The side word in a neighbouring cell, if any.
pub open spec fn merged_side(o: Option<ObservedText>) -> Option<Seq<char>> {
    match o {
        Some(x) => match x.value {
            Some(v) => first_side_word(words(v@)),
            None => None,
        },
        None => None,
    }
}

/// A side field, recovered from cells the OCR merged it into when it is
/// missing.
pub open spec fn side_model(
    field: FieldModel,
    m1: Option<ObservedText>,
    m2: Option<ObservedText>,
    m3: Option<ObservedText>,
) -> FieldModel {
    if field.1 is Some {
        field
    } else if merged_side(m1) is Some {
        inferred_model(merged_side(m1)->0)
    } else if merged_side(m2) is Some {
        inferred_model(merged_side(m2)->0)
    } else if merged_side(m3) is Some {
        inferred_model(merged_side(m3)->0)
    } else {
        field
    }
}

/// The words of a cell that are numbers, normalized, in order.
pub open spec fn numeric_words(ws: Seq<Seq<char>>) -> Seq<Seq<char>>
    decreases ws.len(),
{
    if ws.len() == 0 {
        seq![]
    } else {
        match normalized_number(ws.last()) {
            Some(n) => numeric_words(ws.drop_last()).push(n),
            None => numeric_words(ws.drop_last()),
        }
    }
}

/// A price field, recovered from a merged cell that holds exactly one
/// number when it is missing.
pub open spec fn price_model(field: FieldModel, merged: Option<ObservedText>) -> FieldModel {
    if field.1 is Some {
        field
    } else {
        match merged {
            Some(o) => match o.value {
                Some(v) => if numeric_words(words(v@)).len() == 1 {
                    inferred_model(numeric_words(words(v@))[0])
                } else {
                    field
                },
                None => field,
            },
            None => field,
        }
    }
}

/// Quantity and amount recovered from a cell holding exactly two numbers,
/// when the price times the quantity matches the amount within 0.02
/// (checked exactly, for numbers of at most eleven digits).
pub open spec fn recovered_pair(merged: Option<ObservedText>, price: Option<Seq<char>>) -> Option<(Seq<char>, Seq<char>)> {
    match merged {
        Some(o) => match o.value {
            Some(v) => match all_numbers(words(v@)) {
                Some(ns) => if ns.len() == 2 && price is Some && plain_number(price->0) && small_number(
                    price->0,
                ) && small_number(ns[0]) && small_number(ns[1]) && product_matches(price->0, ns[0], ns[1]) {
                    Some((ns[0], ns[1]))
                } else {
                    None
                },
                None => None,
            },
            None => None,
        },
        None => None,
    }
}

proof fn lemma_all_numbers_plain(ws: Seq<Seq<char>>)
    requires
        all_numbers(ws) is Some,
    ensures
        forall|i: int| 0 <= i < all_numbers(ws)->0.len() ==> plain_number(#[trigger] all_numbers(ws)->0[i]),
        all_numbers(ws)->0.len() == ws.len(),
    decreases ws.len(),
{
    if ws.len() > 0 {
        lemma_all_numbers_plain(ws.drop_last());
        let rest = all_numbers(ws.drop_last())->0;
        let n = normalized_number(ws.last())->0;
        assert(all_numbers(ws)->0 == rest.push(n));
        assert forall|i: int| 0 <= i < rest.push(n).len() implies plain_number(#[trigger] rest.push(n)[i]) by {
            if i < rest.len() {
                assert(rest.push(n)[i] == rest[i]);
            }
        }
    }
}

fn first_side_word_in(v: &str) -> (r: Option<String>)
    ensures
        match r {
            Some(w) => first_side_word(words(v@)) == Some(w@),
            None => first_side_word(words(v@)) is None,
        },
{
    let chars = chars_of(v);
    let ws = split_words(chars.as_slice());
    let ghost all = ws.deep_view();
    let mut i: usize = 0;
    proof {
        assert(all.skip(0) =~= all);
    }
    while i < ws.len()
        invariant
            i <= ws@.len(),
            all == ws.deep_view(),
            all == words(v@),
            first_side_word(all) == first_side_word(all.skip(i as int)),
        decreases ws@.len() - i,
    {
        proof {
            assert(all[i as int] == ws@[i as int]@);
            assert(all.skip(i as int)[0] == all[i as int]);
            assert(all.skip(i as int).drop_first() =~= all.skip(i + 1));
        }
        let w = string_from_chars(ws[i].as_slice());
        if str_eq(w.as_str(), "买入") || str_eq(w.as_str(), "卖出") {
            return Some(w);
        }
        i = i + 1;
    }
    None
}

fn merged_side_word(o: Option<&ObservedText>) -> (r: Option<String>)
    ensures
        match r {
            Some(w) => merged_side(match o {
                Some(x) => Some(*x),
                None => None,
            }) == Some(w@),
            None => merged_side(match o {
                Some(x) => Some(*x),
                None => None,
            }) is None,
        },
{
    match o {
        Some(x) => match &x.value {
            Some(v) => first_side_word_in(v.as_str()),
            None => None,
        },
        None => None,
    }
}

pub open spec fn opt_ref(o: Option<&ObservedText>) -> Option<ObservedText> {
    match o {
        Some(x) => Some(*x),
        None => None,
    }
}

/// See `side_model`.
pub fn side_from_merged(
    field: StructuredField,
    m1: Option<&ObservedText>,
    m2: Option<&ObservedText>,
    m3: Option<&ObservedText>,
) -> (r: StructuredField)
    ensures
        model(r) == side_model(model(field), opt_ref(m1), opt_ref(m2), opt_ref(m3)),
{
    if field.normalized.is_some() {
        return field;
    }
    match merged_side_word(m1) {
        Some(w) => {
            return StructuredField::inferred(w);
        },
        None => {},
    }
    match merged_side_word(m2) {
        Some(w) => {
            return StructuredField::inferred(w);
        },
        None => {},
    }
    match merged_side_word(m3) {
        Some(w) => {
            return StructuredField::inferred(w);
        },
        None => {},
    }
    field
}

fn numeric_words_of(v: &str) -> (r: Vec<String>)
    ensures
        r.deep_view() == numeric_words(words(v@)),
{
    let chars = chars_of(v);
    let ws = split_words(chars.as_slice());
    let mut out: Vec<String> = Vec::new();
    let mut i: usize = 0;
    while i < ws.len()
        invariant
            i <= ws@.len(),
            ws.deep_view() == words(v@),
            out.deep_view() == numeric_words(ws.deep_view().take(i as int)),
        decreases ws@.len() - i,
    {
        proof {
            assert(ws.deep_view().take(i + 1).drop_last() =~= ws.deep_view().take(i as int));
            assert(ws.deep_view().take(i + 1).last() == ws@[i as int]@);
        }
        let w = string_from_chars(ws[i].as_slice());
        match normalize_number(w.as_str()) {
            Some(n) => {
                push_owned(&mut out, n);
            },
            None => {},
        }
        i = i + 1;
    }
    proof {
        assert(ws.deep_view().take(ws@.len() as int) =~= ws.deep_view());
    }
    out
}

/// See `price_model`.
pub fn price_from_merged(field: StructuredField, merged: Option<&ObservedText>) -> (r: StructuredField)
    ensures
        model(r) == price_model(model(field), opt_ref(merged)),
{
    if field.normalized.is_some() {
        return field;
    }
    match merged {
        Some(o) => match &o.value {
            Some(v) => {
                let numbers = numeric_words_of(v.as_str());
                if numbers.len() == 1 {
                    proof {
                        assert(numbers.deep_view()[0] == numbers@[0]@);
                    }
                    StructuredField::inferred(numbers[0].clone())
                } else {
                    field
                }
            },
            None => field,
        },
        None => field,
    }
}

/// See `recovered_pair`.
pub fn execution_pair(merged: Option<&ObservedText>, normalized_price: Option<&str>) -> (r: Option<(String, String)>)
    ensures
        match r {
            Some((q, a)) => recovered_pair(opt_ref(merged), match normalized_price {
                Some(p) => Some(p@),
                None => None,
            }) == Some((q@, a@)),
            None => recovered_pair(opt_ref(merged), match normalized_price {
                Some(p) => Some(p@),
                None => None,
            }) is None,
        },
{
    let v = match merged {
        Some(o) => match &o.value {
            Some(v) => v,
            None => {
                return None;
            },
        },
        None => {
            return None;
        },
    };
    let numbers = match numbers_of(v.as_str()) {
        Some(ns) => ns,
        None => {
            return None;
        },
    };
    if numbers.len() != 2 {
        return None;
    }
    let p = match normalized_price {
        Some(p) => p,
        None => {
            return None;
        },
    };
    let pc = chars_of(p);
    if !super::normalize::is_plain_number(&pc) {
        return None;
    }
    proof {
        lemma_all_numbers_plain(words(v@));
        assert(numbers.deep_view()[0] == numbers@[0]@);
        assert(numbers.deep_view()[1] == numbers@[1]@);
    }
    let qc = chars_of(numbers[0].as_str());
    let ac = chars_of(numbers[1].as_str());
    match product_consistent(&pc, &qc, &ac) {
        Some(true) => Some((numbers[0].clone(), numbers[1].clone())),
        _ => None,
    }
}

pub open spec fn pair_first(p: Option<(Seq<char>, Seq<char>)>) -> Seq<char> {
    let (a, _) = p->0;
    a
}

pub open spec fn pair_second(p: Option<(Seq<char>, Seq<char>)>) -> Seq<char> {
    let (_, b) = p->0;
    b
}

/// An execution record as read from a row: a missing side or price is
/// recovered from cells the OCR merged it into, and a missing quantity or
/// amount from a merged amount cell whose two numbers agree with the price.
pub open spec fn execution_ok(t: Seq<Seq<char>>, c: Seq<ObservedText>, r: ExecutionRecord) -> bool {
    let merged_price = observed_at(t, c, seq!["成交价格"@, "成交价"@]);
    let merged_amount = observed_at(t, c, seq!["成交金额"@, "成交额"@]);
    let merged_order_type = observed_at(t, c, seq!["委托类型"@, "报价方式"@]);
    let merged_business = observed_at(t, c, seq!["业务名称"@]);
    let side = field_model(t, c, seq!["买卖方向"@, "买卖标志"@, "操作"@], false);
    let price = price_model(field_model(t, c, seq!["成交价格"@, "成交价"@], true), merged_price);
    let quantity = field_model(t, c, seq!["成交数量"@, "成交股数"@], true);
    let amount = field_model(t, c, seq!["成交金额"@, "成交额"@], true);
    let pair = recovered_pair(merged_amount, price.1);
    &&& model(r.execution_id) == field_model(t, c, seq!["成交编号"@, "成交序号"@], false)
    &&& model(r.executed_at) == field_model(t, c, seq!["成交时间"@, "成交日期"@], false)
    &&& model(r.order_id) == field_model(t, c, seq!["委托编号"@, "申请编号"@, "合同编号"@], false)
    &&& (model(r.security_code), model(r.security_name)) == security_model(t, c)
    &&& model(r.side) == side_model(side, merged_price, merged_order_type, merged_business)
    &&& model(r.price) == price
    &&& model(r.quantity) == (if quantity.1 is Some {
        quantity
    } else if pair is Some {
        inferred_model(pair_first(pair))
    } else {
        quantity
    })
    &&& model(r.amount) == (if amount.1 is Some {
        amount
    } else if pair is Some {
        inferred_model(pair_second(pair))
    } else {
        amount
    })
}

fn observed1<'a>(map: &ColumnMap, row: &'a TableRow, a: &str) -> (r: Option<&'a ObservedText>)
    ensures
        opt_ref(r) == observed_at(map.view_titles(), row.cells@, seq![a@]),
{
    let aliases: [&str; 1] = [a];
    proof {
        assert(alias_views(aliases@) =~= seq![a@]);
    }
    map.observed(row, &aliases)
}

fn observed2<'a>(map: &ColumnMap, row: &'a TableRow, a: &str, b: &str) -> (r: Option<&'a ObservedText>)
    ensures
        opt_ref(r) == observed_at(map.view_titles(), row.cells@, seq![a@, b@]),
{
    let aliases: [&str; 2] = [a, b];
    proof {
        assert(alias_views(aliases@) =~= seq![a@, b@]);
    }
    map.observed(row, &aliases)
}

pub fn execution_record(map: &ColumnMap, row: &TableRow) -> (r: ExecutionRecord)
    ensures
        execution_ok(map.view_titles(), row.cells@, r),
{
    let (security_code, security_name) = map.security_fields(row);
    let merged_price = observed2(map, row, "成交价格", "成交价");
    let merged_amount = observed2(map, row, "成交金额", "成交额");
    let merged_order_type = observed2(map, row, "委托类型", "报价方式");
    let merged_business = observed1(map, row, "业务名称");
    let side = field3(map, row, "买卖方向", "买卖标志", "操作", false);
    let price = field2(map, row, "成交价格", "成交价", true);
    let quantity = field2(map, row, "成交数量", "成交股数", true);
    let amount = field2(map, row, "成交金额", "成交额", true);
    let price = price_from_merged(price, merged_price);
    let recovered = match &price.normalized {
        Some(p) => execution_pair(merged_amount, Some(p.as_str())),
        None => execution_pair(merged_amount, None),
    };
    let quantity = if quantity.normalized.is_some() {
        quantity
    } else {
        match &recovered {
            Some((q, _)) => StructuredField::inferred(q.clone()),
            None => quantity,
        }
    };
    let amount = if amount.normalized.is_some() {
        amount
    } else {
        match &recovered {
            Some((_, a)) => StructuredField::inferred(a.clone()),
            None => amount,
        }
    };
    ExecutionRecord {
        execution_id: field2(map, row, "成交编号", "成交序号", false),
        executed_at: field2(map, row, "成交时间", "成交日期", false),
        order_id: field3(map, row, "委托编号", "申请编号", "合同编号", false),
        security_code,
        security_name,
        side: side_from_merged(side, merged_price, merged_order_type, merged_business),
        price,
        quantity,
        amount,
    }
}

/// A position table read from these columns and rows.
pub open spec fn position_table_ok(columns: Seq<TableColumn>, rows: Seq<TableRow>, t: BusinessTable<PositionRecord>) -> bool {
    &&& t.records@.len() == data_rows(rows).len()
    &&& forall|i: int|
        0 <= i < t.records@.len() ==> position_ok(titles_of(columns), data_rows(rows)[i].cells@, #[trigger] t.records@[i])
    &&& t.row_count == t.records@.len()
    &&& t.mapped_columns.deep_view() == titles_of(columns)
    &&& t.warnings.deep_view() == records_quality_of(t.records@).1
}

/// The positions table: one record per row that holds data, with the quality
/// and warnings that their required fields give.
pub fn position_table(columns: &[TableColumn], rows: &[TableRow]) -> (r: (BusinessTable<PositionRecord>, DataQuality))
    ensures
        position_table_ok(columns@, rows@, r.0),
        r.1 == records_quality_of(r.0.records@).0,
{
    let map = ColumnMap::new(columns);
    let mut records: Vec<PositionRecord> = Vec::new();
    let mut i: usize = 0;
    while i < rows.len()
        invariant
            i <= rows@.len(),
            map.view_titles() == titles_of(columns@),
            records@.len() == data_rows(rows@.take(i as int)).len(),
            forall|k: int|
                0 <= k < records@.len() ==> position_ok(
                    titles_of(columns@),
                    data_rows(rows@.take(i as int))[k].cells@,
                    #[trigger] records@[k],
                ),
        decreases rows@.len() - i,
    {
        proof {
            assert(rows@.take(i + 1).drop_last() =~= rows@.take(i as int));
            assert(rows@.take(i + 1).last() == rows@[i as int]);
        }
        if has_data(&rows[i]) {
            let rec = position_record(&map, &rows[i]);
            records.push(rec);
        }
        i = i + 1;
    }
    proof {
        assert(rows@.take(rows@.len() as int) =~= rows@);
    }
    let mut warnings: Vec<String> = Vec::new();
    let quality = records_quality(&records, &mut warnings);
    proof {
        assert(warnings.deep_view() =~= records_quality_of(records@).1);
    }
    let row_count = records.len();
    (BusinessTable { records, row_count, mapped_columns: map.titles, warnings }, quality)
}

/// A order table read from these columns and rows.
pub open spec fn order_table_ok(columns: Seq<TableColumn>, rows: Seq<TableRow>, t: BusinessTable<OrderRecord>) -> bool {
    &&& t.records@.len() == data_rows(rows).len()
    &&& forall|i: int|
        0 <= i < t.records@.len() ==> order_ok(titles_of(columns), data_rows(rows)[i].cells@, #[trigger] t.records@[i])
    &&& t.row_count == t.records@.len()
    &&& t.mapped_columns.deep_view() == titles_of(columns)
    &&& t.warnings.deep_view() == records_quality_of(t.records@).1
}

/// The orders table: one record per row that holds data, with the quality
/// and warnings that their required fields give.
pub fn order_table(columns: &[TableColumn], rows: &[TableRow]) -> (r: (BusinessTable<OrderRecord>, DataQuality))
    ensures
        order_table_ok(columns@, rows@, r.0),
        r.1 == records_quality_of(r.0.records@).0,
{
    let map = ColumnMap::new(columns);
    let mut records: Vec<OrderRecord> = Vec::new();
    let mut i: usize = 0;
    while i < rows.len()
        invariant
            i <= rows@.len(),
            map.view_titles() == titles_of(columns@),
            records@.len() == data_rows(rows@.take(i as int)).len(),
            forall|k: int|
                0 <= k < records@.len() ==> order_ok(
                    titles_of(columns@),
                    data_rows(rows@.take(i as int))[k].cells@,
                    #[trigger] records@[k],
                ),
        decreases rows@.len() - i,
    {
        proof {
            assert(rows@.take(i + 1).drop_last() =~= rows@.take(i as int));
            assert(rows@.take(i + 1).last() == rows@[i as int]);
        }
        if has_data(&rows[i]) {
            let rec = order_record(&map, &rows[i]);
            records.push(rec);
        }
        i = i + 1;
    }
    proof {
        assert(rows@.take(rows@.len() as int) =~= rows@);
    }
    let mut warnings: Vec<String> = Vec::new();
    let quality = records_quality(&records, &mut warnings);
    proof {
        assert(warnings.deep_view() =~= records_quality_of(records@).1);
    }
    let row_count = records.len();
    (BusinessTable { records, row_count, mapped_columns: map.titles, warnings }, quality)
}

/// A execution table read from these columns and rows.
pub open spec fn execution_table_ok(columns: Seq<TableColumn>, rows: Seq<TableRow>, t: BusinessTable<ExecutionRecord>) -> bool {
    &&& t.records@.len() == data_rows(rows).len()
    &&& forall|i: int|
        0 <= i < t.records@.len() ==> execution_ok(titles_of(columns), data_rows(rows)[i].cells@, #[trigger] t.records@[i])
    &&& t.row_count == t.records@.len()
    &&& t.mapped_columns.deep_view() == titles_of(columns)
    &&& t.warnings.deep_view() == records_quality_of(t.records@).1
}

/// The executions table: one record per row that holds data, with the quality
/// and warnings that their required fields give.
pub fn execution_table(columns: &[TableColumn], rows: &[TableRow]) -> (r: (BusinessTable<ExecutionRecord>, DataQuality))
    ensures
        execution_table_ok(columns@, rows@, r.0),
        r.1 == records_quality_of(r.0.records@).0,
{
    let map = ColumnMap::new(columns);
    let mut records: Vec<ExecutionRecord> = Vec::new();
    let mut i: usize = 0;
    while i < rows.len()
        invariant
            i <= rows@.len(),
            map.view_titles() == titles_of(columns@),
            records@.len() == data_rows(rows@.take(i as int)).len(),
            forall|k: int|
                0 <= k < records@.len() ==> execution_ok(
                    titles_of(columns@),
                    data_rows(rows@.take(i as int))[k].cells@,
                    #[trigger] records@[k],
                ),
        decreases rows@.len() - i,
    {
        proof {
            assert(rows@.take(i + 1).drop_last() =~= rows@.take(i as int));
            assert(rows@.take(i + 1).last() == rows@[i as int]);
        }
        if has_data(&rows[i]) {
            let rec = execution_record(&map, &rows[i]);
            records.push(rec);
        }
        i = i + 1;
    }
    proof {
        assert(rows@.take(rows@.len() as int) =~= rows@);
    }
    let mut warnings: Vec<String> = Vec::new();
    let quality = records_quality(&records, &mut warnings);
    proof {
        assert(warnings.deep_view() =~= records_quality_of(records@).1);
    }
    let row_count = records.len();
    (BusinessTable { records, row_count, mapped_columns: map.titles, warnings }, quality)
}

/// A funds table read from these columns and rows.
pub open spec fn funds_table_ok(columns: Seq<TableColumn>, rows: Seq<TableRow>, t: BusinessTable<FundsRecord>) -> bool {
    &&& t.records@.len() == data_rows(rows).len()
    &&& forall|i: int|
        0 <= i < t.records@.len() ==> funds_ok(titles_of(columns), data_rows(rows)[i].cells@, #[trigger] t.records@[i])
    &&& t.row_count == t.records@.len()
    &&& t.mapped_columns.deep_view() == titles_of(columns)
    &&& t.warnings.deep_view() == records_quality_of(t.records@).1
}

/// The funds table: one record per row that holds data, with the quality
/// and warnings that their required fields give.
pub fn funds_table(columns: &[TableColumn], rows: &[TableRow]) -> (r: (BusinessTable<FundsRecord>, DataQuality))
    ensures
        funds_table_ok(columns@, rows@, r.0),
        r.1 == records_quality_of(r.0.records@).0,
{
    let map = ColumnMap::new(columns);
    let mut records: Vec<FundsRecord> = Vec::new();
    let mut i: usize = 0;
    while i < rows.len()
        invariant
            i <= rows@.len(),
            map.view_titles() == titles_of(columns@),
            records@.len() == data_rows(rows@.take(i as int)).len(),
            forall|k: int|
                0 <= k < records@.len() ==> funds_ok(
                    titles_of(columns@),
                    data_rows(rows@.take(i as int))[k].cells@,
                    #[trigger] records@[k],
                ),
        decreases rows@.len() - i,
    {
        proof {
            assert(rows@.take(i + 1).drop_last() =~= rows@.take(i as int));
            assert(rows@.take(i + 1).last() == rows@[i as int]);
        }
        if has_data(&rows[i]) {
            let rec = funds_record(&map, &rows[i]);
            records.push(rec);
        }
        i = i + 1;
    }
    proof {
        assert(rows@.take(rows@.len() as int) =~= rows@);
    }
    let mut warnings: Vec<String> = Vec::new();
    let quality = records_quality(&records, &mut warnings);
    proof {
        assert(warnings.deep_view() =~= records_quality_of(records@).1);
    }
    let row_count = records.len();
    (BusinessTable { records, row_count, mapped_columns: map.titles, warnings }, quality)
}

/// The structured positions of an OCR snapshot: the snapshot's workspace,
/// panel, source and warnings, the records of its table, and the worse of
/// the table's and the snapshot's quality.
pub fn positions_structured(snapshot: PageSnapshot<PositionsSnapshot>, observed_at: String) -> (r: PageSnapshot<BusinessTable<PositionRecord>>)
    ensures
        r.workspace == snapshot.workspace,
        r.panel == snapshot.panel,
        r.source == snapshot.source,
        r.warnings == snapshot.warnings,
        r.observed_at == observed_at,
        position_table_ok(snapshot.data.columns@, snapshot.data.rows@, r.data),
        r.quality == spec_worse(records_quality_of(r.data.records@).0, snapshot.quality),
{
    let (data, quality) = position_table(snapshot.data.columns.as_slice(), snapshot.data.rows.as_slice());
    let q = quality.min(snapshot.quality);
    proof {
        lemma_min_is_worse(quality, snapshot.quality, q);
    }
    snapshot_with_source(snapshot.workspace, snapshot.panel, data, q, snapshot.source, snapshot.warnings, observed_at)
}

/// The structured orders of an OCR snapshot: the snapshot's workspace,
/// panel, source and warnings, the records of its table, and the worse of
/// the table's and the snapshot's quality.
pub fn orders_structured(snapshot: PageSnapshot<OrdersSnapshot>, observed_at: String) -> (r: PageSnapshot<BusinessTable<OrderRecord>>)
    ensures
        r.workspace == snapshot.workspace,
        r.panel == snapshot.panel,
        r.source == snapshot.source,
        r.warnings == snapshot.warnings,
        r.observed_at == observed_at,
        order_table_ok(snapshot.data.columns@, snapshot.data.rows@, r.data),
        r.quality == spec_worse(records_quality_of(r.data.records@).0, snapshot.quality),
{
    let (data, quality) = order_table(snapshot.data.columns.as_slice(), snapshot.data.rows.as_slice());
    let q = quality.min(snapshot.quality);
    proof {
        lemma_min_is_worse(quality, snapshot.quality, q);
    }
    snapshot_with_source(snapshot.workspace, snapshot.panel, data, q, snapshot.source, snapshot.warnings, observed_at)
}

/// The structured executions of an OCR snapshot: the snapshot's workspace,
/// panel, source and warnings, the records of its table, and the worse of
/// the table's and the snapshot's quality.
pub fn executions_structured(snapshot: PageSnapshot<ExecutionsSnapshot>, observed_at: String) -> (r: PageSnapshot<BusinessTable<ExecutionRecord>>)
    ensures
        r.workspace == snapshot.workspace,
        r.panel == snapshot.panel,
        r.source == snapshot.source,
        r.warnings == snapshot.warnings,
        r.observed_at == observed_at,
        execution_table_ok(snapshot.data.columns@, snapshot.data.rows@, r.data),
        r.quality == spec_worse(records_quality_of(r.data.records@).0, snapshot.quality),
{
    let (data, quality) = execution_table(snapshot.data.columns.as_slice(), snapshot.data.rows.as_slice());
    let q = quality.min(snapshot.quality);
    proof {
        lemma_min_is_worse(quality, snapshot.quality, q);
    }
    snapshot_with_source(snapshot.workspace, snapshot.panel, data, q, snapshot.source, snapshot.warnings, observed_at)
}

/// The structured funds of an OCR snapshot: the snapshot's workspace,
/// panel, source and warnings, the records of its table, and the worse of
/// the table's and the snapshot's quality.
pub fn funds_structured(snapshot: PageSnapshot<FundsSnapshot>, observed_at: String) -> (r: PageSnapshot<BusinessTable<FundsRecord>>)
    ensures
        r.workspace == snapshot.workspace,
        r.panel == snapshot.panel,
        r.source == snapshot.source,
        r.warnings == snapshot.warnings,
        r.observed_at == observed_at,
        funds_table_ok(snapshot.data.columns@, snapshot.data.rows@, r.data),
        r.quality == spec_worse(records_quality_of(r.data.records@).0, snapshot.quality),
{
    let (data, quality) = funds_table(snapshot.data.columns.as_slice(), snapshot.data.rows.as_slice());
    let q = quality.min(snapshot.quality);
    proof {
        lemma_min_is_worse(quality, snapshot.quality, q);
    }
    snapshot_with_source(snapshot.workspace, snapshot.panel, data, q, snapshot.source, snapshot.warnings, observed_at)
}

proof fn lemma_min_is_worse(a: DataQuality, b: DataQuality, m: DataQuality)
    requires
        quality_rank(m) == if quality_rank(a) >= quality_rank(b) {
            quality_rank(a)
        } else {
            quality_rank(b)
        },
    ensures
        m == spec_worse(a, b),
{
    lemma_rank_injective(m, spec_worse(a, b));
}


/// `f` holds the cell under the first column titled exactly `title`,
/// whenever the row has such a column and the cell holds text: its raw text
/// is the cell's, its normalized value is the number the cell shows
/// (`numeric`) or the trimmed text, and its source is the cell's.
pub open spec fn read_under(
    f: StructuredField,
    titles: Seq<Seq<char>>,
    cells: Seq<ObservedText>,
    title: Seq<char>,
    numeric: bool,
) -> bool {
    forall|j: int|
        #![trigger titles[j], cells[j]]
        0 <= j < titles.len() && j < cells.len() && titles[j] == title && (forall|k: int|
            0 <= k < j ==> titles[k] != title) && cells[j].value is Some ==> {
            let v = cells[j].value->0@;
            &&& opt_chars(f.raw) == Some(v)
            &&& opt_chars(f.normalized) == (if numeric {
                normalized_number(v)
            } else {
                Some(trim(v)) })
            &&& f.source == cells[j].source
        }
}

proof fn lemma_first_position(titles: Seq<Seq<char>>, title: Seq<char>, j: int)
    requires
        0 <= j < titles.len(),
        titles[j] == title,
        forall|k: int| 0 <= k < j ==> titles[k] != title,
    ensures
        position_of(titles, title) == Some(j),
    decreases j,
{
    if j > 0 {
        let rest = titles.drop_first();
        assert(titles[0] != title);
        assert forall|k: int| 0 <= k < j - 1 implies rest[k] != title by {
            assert(rest[k] == titles[k + 1]);
        }
        lemma_first_position(rest, title, j - 1);
    }
}

/// A field read for these aliases holds the cell under the first column
/// titled with the first alias.
proof fn lemma_read_under_first_alias(
    f: StructuredField,
    titles: Seq<Seq<char>>,
    cells: Seq<ObservedText>,
    aliases: Seq<Seq<char>>,
    numeric: bool,
)
    requires
        aliases.len() > 0,
        model(f) == field_model(titles, cells, aliases, numeric),
    ensures
        read_under(f, titles, cells, aliases[0], numeric),
{
    assert forall|j: int|
        #![trigger titles[j], cells[j]]
        0 <= j < titles.len() && j < cells.len() && titles[j] == aliases[0] && (forall|k: int|
            0 <= k < j ==> titles[k] != aliases[0]) && cells[j].value is Some implies {
            let v = cells[j].value->0@;
            &&& opt_chars(f.raw) == Some(v)
            &&& opt_chars(f.normalized) == (if numeric {
                normalized_number(v)
            } else {
                Some(trim(v)) })
            &&& f.source == cells[j].source
        } by {
        lemma_first_position(titles, aliases[0], j);
        assert(exact_index(titles, aliases) == Some(j));
        assert(column_index(titles, aliases) == Some(j));
        assert(observed_at(titles, cells, aliases) == Some(cells[j]));
    }
}

/// Each field of a position record is read from its own column: the cell
/// under the column titled with the field's name in the broker's table
/// (成本价 for the cost price, 当前价 for the current price, and so on).
pub proof fn law_position_fields_read_their_columns(t: Seq<Seq<char>>, c: Seq<ObservedText>, r: PositionRecord)
    requires
        position_ok(t, c, r),
    ensures
        read_under(r.yesterday_balance, t, c, "昨日余额"@, true),
        read_under(r.reference_holding, t, c, "参考持股"@, true),
        read_under(r.available_quantity, t, c, "可用股份"@, true),
        read_under(r.frozen_quantity, t, c, "冻结数量"@, true),
        read_under(r.cost_price, t, c, "成本价"@, true),
        read_under(r.current_price, t, c, "当前价"@, true),
        read_under(r.current_cost, t, c, "当前成本"@, true),
        read_under(r.market_value, t, c, "最新市值"@, true),
        read_under(r.floating_pnl, t, c, "浮动盈亏"@, true),
        read_under(r.pnl_ratio, t, c, "盈亏比例"@, true),
        read_under(r.today_buy_quantity, t, c, "今买成交数量"@, true),
        read_under(r.reference_pnl, t, c, "无费用参考盈亏"@, true),
        read_under(r.share_balance, t, c, "股份余额"@, true),
        read_under(r.shareholder_account, t, c, "股东代码"@, false),
        read_under(r.custodian_unit, t, c, "托管单元"@, false),
        read_under(r.fund_account, t, c, "资金账号"@, false),
{
    lemma_read_under_first_alias(r.yesterday_balance, t, c, seq!["昨日余额"@], true);
    lemma_read_under_first_alias(r.reference_holding, t, c, seq!["参考持股"@], true);
    lemma_read_under_first_alias(r.available_quantity, t, c, seq!["可用股份"@, "可用数量"@], true);
    lemma_read_under_first_alias(r.frozen_quantity, t, c, seq!["冻结数量"@], true);
    lemma_read_under_first_alias(r.cost_price, t, c, seq!["成本价"@], true);
    lemma_read_under_first_alias(r.current_price, t, c, seq!["当前价"@], true);
    lemma_read_under_first_alias(r.current_cost, t, c, seq!["当前成本"@], true);
    lemma_read_under_first_alias(r.market_value, t, c, seq!["最新市值"@], true);
    lemma_read_under_first_alias(r.floating_pnl, t, c, seq!["浮动盈亏"@], true);
    lemma_read_under_first_alias(r.pnl_ratio, t, c, seq!["盈亏比例"@], true);
    lemma_read_under_first_alias(r.today_buy_quantity, t, c, seq!["今买成交数量"@], true);
    lemma_read_under_first_alias(r.reference_pnl, t, c, seq!["无费用参考盈亏"@], true);
    lemma_read_under_first_alias(r.share_balance, t, c, seq!["股份余额"@], true);
    lemma_read_under_first_alias(r.shareholder_account, t, c, seq!["股东代码"@], false);
    lemma_read_under_first_alias(r.custodian_unit, t, c, seq!["托管单元"@], false);
    lemma_read_under_first_alias(r.fund_account, t, c, seq!["资金账号"@], false);
}

/// Each field of an order record is read from its own column: the cell
/// under the column titled with the field's name in the broker's orders
/// table (委托价格 for the price, 委托数量 for the quantity, and so on).
pub proof fn law_order_fields_read_their_columns(t: Seq<Seq<char>>, c: Seq<ObservedText>, r: OrderRecord)
    requires
        order_ok(t, c, r),
    ensures
        read_under(r.order_id, t, c, "委托编号"@, false),
        read_under(r.submitted_at, t, c, "委托时间"@, false),
        read_under(r.side, t, c, "买卖方向"@, false),
        read_under(r.order_type, t, c, "委托类型"@, false),
        read_under(r.price, t, c, "委托价格"@, true),
        read_under(r.quantity, t, c, "委托数量"@, true),
        read_under(r.filled_quantity, t, c, "成交数量"@, true),
        read_under(r.remaining_quantity, t, c, "剩余数量"@, true),
        read_under(r.status, t, c, "委托状态"@, false),
        read_under(r.cancelable, t, c, "可撤"@, false),
{
    lemma_read_under_first_alias(r.order_id, t, c, seq!["委托编号"@, "申请编号"@, "合同编号"@, "委托序号"@], false);
    lemma_read_under_first_alias(r.submitted_at, t, c, seq!["委托时间"@, "申报时间"@], false);
    lemma_read_under_first_alias(r.side, t, c, seq!["买卖方向"@, "买卖标志"@, "操作"@], false);
    lemma_read_under_first_alias(r.order_type, t, c, seq!["委托类型"@, "报价方式"@], false);
    lemma_read_under_first_alias(r.price, t, c, seq!["委托价格"@, "委托价"@], true);
    lemma_read_under_first_alias(r.quantity, t, c, seq!["委托数量"@, "申报数量"@], true);
    lemma_read_under_first_alias(r.filled_quantity, t, c, seq!["成交数量"@, "已成交"@], true);
    lemma_read_under_first_alias(r.remaining_quantity, t, c, seq!["剩余数量"@, "未成交"@], true);
    lemma_read_under_first_alias(r.status, t, c, seq!["委托状态"@, "状态"@], false);
    lemma_read_under_first_alias(r.cancelable, t, c, seq!["可撤"@, "可撤单"@, "撤单标志"@], false);
}


/// The funds fields read from a column of their own hold the cell under it:
/// available funds under 可用资金, withdrawable funds under 可取资金.
pub proof fn law_funds_fields_read_their_columns(t: Seq<Seq<char>>, c: Seq<ObservedText>, r: FundsRecord)
    requires
        funds_ok(t, c, r),
    ensures
        read_under(r.available_funds, t, c, "可用资金"@, true),
        read_under(r.withdrawable_funds, t, c, "可取资金"@, true),
{
    lemma_read_under_first_alias(r.available_funds, t, c, seq!["可用资金"@], true);
    lemma_read_under_first_alias(r.withdrawable_funds, t, c, seq!["可取资金"@, "可取余额"@], true);
}

/// The identifying fields of an execution record hold the cells under
/// their columns: the execution number under 成交编号, the time under
/// 成交时间, the order number under 委托编号.
pub proof fn law_execution_fields_read_their_columns(t: Seq<Seq<char>>, c: Seq<ObservedText>, r: ExecutionRecord)
    requires
        execution_ok(t, c, r),
    ensures
        read_under(r.execution_id, t, c, "成交编号"@, false),
        read_under(r.executed_at, t, c, "成交时间"@, false),
        read_under(r.order_id, t, c, "委托编号"@, false),
{
    lemma_read_under_first_alias(r.execution_id, t, c, seq!["成交编号"@, "成交序号"@], false);
    lemma_read_under_first_alias(r.executed_at, t, c, seq!["成交时间"@, "成交日期"@], false);
    lemma_read_under_first_alias(r.order_id, t, c, seq!["委托编号"@, "申请编号"@, "合同编号"@], false);
}

} // verus!
