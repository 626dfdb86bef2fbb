//! Guards around the live order and cancellation dialogs: which orders may
//! be submitted, and what a dialog must show before it is pressed.
use vstd::prelude::*;

use super::order_validation::{order_cents, order_value_cents};
use super::stage_order::{OrderSide, StageOrderRequest};
use crate::text::{all_digits, contains, contains_str, decimal, push_owned, u64_to_string};

verus! {

/// The most a live test order may be worth, in cents.
pub const LIVE_ORDER_LIMIT_CENTS: i128 = 50000;

/// A live submission is limited to buy orders worth at most 500 RMB.
pub fn check_live_submission(request: &StageOrderRequest) -> (r: Result<(), String>)
    ensures
        request.side != OrderSide::Buy ==> (r matches Err(e) && e@
            == "live submission testing currently supports buy orders only"@),
        request.side == OrderSide::Buy ==> match order_value_cents(*request) {
            Err(m) => r matches Err(e) && e@ == m,
            Ok(v) => if v > 50000 {
                r matches Err(e) && e@ == "live submission test exceeds the 500 RMB hard limit"@
            } else {
                r is Ok
            },
        },
{
    if request.side != OrderSide::Buy {
        return Err(String::from_str("live submission testing currently supports buy orders only"));
    }
    let cents = order_cents(request)?;
    if cents > LIVE_ORDER_LIMIT_CENTS {
        return Err(String::from_str("live submission test exceeds the 500 RMB hard limit"));
    }
    Ok(())
}

/// Confirming a live dialog is limited the same way.
pub fn check_live_confirmation(request: &StageOrderRequest) -> (r: Result<(), String>)
    ensures
        request.side != OrderSide::Buy ==> (r matches Err(e) && e@
            == "live confirmation is limited to buy orders at or below 500 RMB"@),
        request.side == OrderSide::Buy ==> match order_value_cents(*request) {
            Err(m) => r matches Err(e) && e@ == m,
            Ok(v) => if v > 50000 {
                r matches Err(e) && e@ == "live confirmation is limited to buy orders at or below 500 RMB"@
            } else {
                r is Ok
            },
        },
{
    if request.side != OrderSide::Buy {
        return Err(String::from_str("live confirmation is limited to buy orders at or below 500 RMB"));
    }
    let cents = order_cents(request)?;
    if cents > LIVE_ORDER_LIMIT_CENTS {
        return Err(String::from_str("live confirmation is limited to buy orders at or below 500 RMB"));
    }
    Ok(())
}

/// The lines an order's confirmation dialog must show: its title, then the
/// code, price and quantity (with `buy` first when `with_side`).
pub open spec fn dialog_lines(request: StageOrderRequest, with_side: bool) -> Seq<Seq<char>> {
    let head = if with_side {
        seq!["交易确认"@, "操作类别:   买入"@]
    } else {
        seq!["交易确认"@]
    };
    head + seq![
        "股票代码:   "@ + request.security_code@,
        "委托价格:   "@ + request.price@,
        "委托数量:   "@ + decimal(request.quantity as nat) + "股"@,
    ]
}

fn field_line(label: &str, value: &str) -> (s: String)
    ensures
        s@ == label@ + value@,
{
    let mut s = String::from_str(label);
    s.append(value);
    s
}

/// The lines an order's dialog must show.
pub fn order_dialog_lines(request: &StageOrderRequest, with_side: bool) -> (v: Vec<String>)
    ensures
        v.deep_view() == dialog_lines(*request, with_side),
{
    let mut v: Vec<String> = Vec::new();
    push_owned(&mut v, String::from_str("交易确认"));
    if with_side {
        push_owned(&mut v, String::from_str("操作类别:   买入"));
    }
    push_owned(&mut v, field_line("股票代码:   ", request.security_code.as_str()));
    push_owned(&mut v, field_line("委托价格:   ", request.price.as_str()));
    let q = u64_to_string(request.quantity);
    let mut line = field_line("委托数量:   ", q.as_str());
    line.append("股");
    push_owned(&mut v, line);
    proof {
        if with_side {
            assert(v.deep_view() =~= dialog_lines(*request, with_side));
        } else {
            assert(v.deep_view() =~= dialog_lines(*request, with_side));
        }
    }
    v
}

/// The first expected line that the dialog text lacks.
pub open spec fn first_missing(text: Seq<char>, expected: Seq<Seq<char>>) -> Option<Seq<char>>
    decreases expected.len(),
{
    if expected.len() == 0 {
        None
    } else if !contains(text, expected[0]) {
        Some(expected[0])
    } else {
        first_missing(text, expected.drop_first())
    }
}

pub fn find_missing_line(text: &str, expected: &Vec<String>) -> (r: Option<String>)
    ensures
        match r {
            Some(m) => first_missing(text@, expected.deep_view()) == Some(m@),
            None => first_missing(text@, expected.deep_view()) is None,
        },
{
    let ghost all = expected.deep_view();
    proof {
        assert(all.skip(0) =~= all);
    }
    let mut i: usize = 0;
    while i < expected.len()
        invariant
            i <= expected@.len(),
            all == expected.deep_view(),
            first_missing(text@, all) == first_missing(text@, all.skip(i as int)),
        decreases expected@.len() - i,
    {
        proof {
            assert(all[i as int] == expected@[i as int]@);
            assert(all.skip(i as int)[0] == all[i as int]);
            assert(all.skip(i as int).drop_first() =~= all.skip(i + 1));
        }
        if !contains_str(text, expected[i].as_str()) {
            return Some(expected[i].clone());
        }
        i = i + 1;
    }
    None
}

/// Checks an order confirmation dialog's text before its button is pressed.
pub fn check_order_dialog(text: &str, request: &StageOrderRequest) -> (r: Result<(), String>)
    ensures
        match first_missing(text@, dialog_lines(*request, true)) {
            Some(m) => r matches Err(e) && e@ == "order confirmation dialog does not match expected field: "@ + m,
            None => r is Ok,
        },
{
    let lines = order_dialog_lines(request, true);
    match find_missing_line(text, &lines) {
        Some(m) => {
            let mut e = String::from_str("order confirmation dialog does not match expected field: ");
            e.append(m.as_str());
            Err(e)
        },
        None => Ok(()),
    }
}

/// Checks an order dialog's text before it is cancelled for an abort.
pub fn check_abort_dialog(text: &str, request: &StageOrderRequest) -> (r: Result<(), String>)
    ensures
        match first_missing(text@, dialog_lines(*request, false)) {
            Some(m) => r matches Err(e) && e@ == "order dialog does not match abort request: "@ + m,
            None => r is Ok,
        },
{
    let lines = order_dialog_lines(request, false);
    match find_missing_line(text, &lines) {
        Some(m) => {
            let mut e = String::from_str("order dialog does not match abort request: ");
            e.append(m.as_str());
            Err(e)
        },
        None => Ok(()),
    }
}

/// A contract id is made of ASCII digits only.
pub fn check_contract_id(contract_id: &str) -> (r: Result<(), String>)
    ensures
        r is Ok <==> (contract_id@.len() > 0 && all_digits(contract_id@)),
        r matches Err(e) ==> e@ == "contract id must contain only ASCII digits"@,
{
    let chars = crate::text::chars_of(contract_id);
    if chars.len() == 0 || !crate::text::all_digits_in(chars.as_slice()) {
        return Err(String::from_str("contract id must contain only ASCII digits"));
    }
    Ok(())
}

/// A submission notice must say the order was submitted and name the
/// contract.
pub fn check_submission_notice(text: &str, contract_id: &str) -> (r: Result<(), String>)
    ensures
        r is Ok <==> (contains(text@, "委托已提交"@) && contains(text@, contract_id@)),
        r matches Err(e) ==> e@ == "submission result does not match contract id "@ + contract_id@,
{
    if !contains_str(text, "委托已提交") || !contains_str(text, contract_id) {
        let mut e = String::from_str("submission result does not match contract id ");
        e.append(contract_id);
        return Err(e);
    }
    Ok(())
}

/// A dialog is pressed only through exactly one matching button.
pub fn check_unique_button(count: usize, message: &str) -> (r: Result<(), String>)
    ensures
        r is Ok <==> count == 1,
        r matches Err(e) ==> e@ == message@,
{
    if count != 1 {
        return Err(String::from_str(message));
    }
    Ok(())
}

/// Whether an OCR text looks like a dialog prompt.
pub open spec fn prompt_text(t: Seq<char>) -> bool {
    contains(t, "确认"@) || contains(t, "确定"@) || contains(t, "取消"@) || contains(t, "委托"@)
        || contains(t, "成功"@) || contains(t, "失败"@) || contains(t, "提示"@)
}

pub fn is_prompt_text(text: &str) -> (b: bool)
    ensures
        b == prompt_text(text@),
{
    contains_str(text, "确认") || contains_str(text, "确定") || contains_str(text, "取消") || contains_str(
        text,
        "委托",
    ) || contains_str(text, "成功") || contains_str(text, "失败") || contains_str(text, "提示")
}

} // verus!
