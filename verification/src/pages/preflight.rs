//! Broker-side facts read before an order, and the decision they support.
use vstd::prelude::*;
use vstd::seq_lib::lemma_concat_associative;

use super::order_validation::{
    cents_text, format_cents, order_cents, order_check, order_value_cents, parse_cents,
    parse_decimal, validate_request,
};
use super::stage_order::{OrderSide, StageOrderRequest};
use super::types::{DataQuality, PanelKind, WorkspaceKind};
use crate::ratio::{fixed4_text, percent_text, percent_units};
use super::business::columns::{join_with_spaces, join_words};
use crate::text::{
    all_digits, all_digits_in, chars_of, contains, contains_str, msg_if, parse_u64, push_message,
    push_message_if, slice_range, split_words, str_eq, string_from_chars, trim, trim_string, u64_text, words,
};

verus! {

#[derive(Clone, Debug)]
pub struct TradePreflightRequest {
    pub order: Option<StageOrderRequest>,
    pub reference_quote: Option<ReferenceQuote>,
}

/// A quote for the same security from the backend service.
#[derive(Clone, Debug)]
pub struct ReferenceQuote {
    pub latest_price: String,
    pub source: String,
    pub captured_at: Option<String>,
}

#[derive(Clone, Debug)]
pub struct SecurityIdentity {
    pub code: String,
    pub name: String,
}

#[derive(Clone, Debug)]
pub struct BrokerFormState {
    pub price: Option<String>,
    pub quantity: Option<u64>,
    pub control_count: usize,
    pub security_code_editable: bool,
}

#[derive(Clone, Debug)]
pub struct BrokerQuote {
    pub latest_price: Option<String>,
    pub pre_close: Option<String>,
    pub up_limit: Option<String>,
    pub down_limit: Option<String>,
    pub buy_ceiling: Option<String>,
    pub sell_floor: Option<String>,
    pub bid_price_1: Option<String>,
    pub ask_price_1: Option<String>,
    pub trade_status: Option<String>,
    pub captured_at: String,
    pub source: String,
}

#[derive(Clone, Debug)]
pub struct BrokerTradeConstraints {
    pub available_funds: Option<String>,
    pub max_buy_quantity: Option<u64>,
    pub max_sell_quantity: Option<u64>,
}

#[derive(Clone, Debug)]
pub struct QuoteComparison {
    pub reference_source: String,
    pub reference_price: String,
    pub broker_price: Option<String>,
    pub absolute_delta: Option<String>,
    pub percentage_delta: Option<String>,
    pub status: String,
}

#[derive(Clone, Copy, Debug, PartialEq, Eq, Structural)]
pub enum PreflightDecision {
    ObservedOnly,
    Ready,
    NeedsReview,
    Rejected,
}

#[derive(Clone, Debug)]
pub struct TradePreflightResult {
    pub captured_at: String,
    pub workspace: WorkspaceKind,
    pub panel: PanelKind,
    pub security: Option<SecurityIdentity>,
    pub form: BrokerFormState,
    pub broker_quote: BrokerQuote,
    pub constraints: BrokerTradeConstraints,
    pub reference_comparison: Option<QuoteComparison>,
    pub decision: PreflightDecision,
    pub quality: DataQuality,
    pub warnings: Vec<String>,
}

/// Cents of an optional price text, when it parses.
pub open spec fn opt_cents(v: Option<String>) -> Option<int> {
    match v {
        Some(s) => match parse_cents(s@) {
            Ok(c) => Some(c),
            Err(_) => None,
        },
        None => None,
    }
}

/// Whether an optional field is missing, or, for a numeric field, not a price.
pub open spec fn field_lacking(v: Option<String>, numeric: bool) -> bool {
    match v {
        None => true,
        Some(s) => numeric && parse_cents(s@) is Err,
    }
}

/// Review caused by the reference comparison: its warnings.
pub open spec fn comparison_warnings(c: Option<QuoteComparison>) -> Seq<Seq<char>> {
    match c {
        Some(v) => if v.status@ == "matched"@ {
            seq![]
        } else if v.status@ == "invalid_reference"@ {
            seq!["backend reference quote is invalid"@]
        } else {
            seq!["backend reference quote differs from the broker quote"@]
        },
        None => seq!["backend reference quote is unavailable"@],
    }
}

pub open spec fn form_incomplete(form: BrokerFormState) -> bool {
    form.control_count < 2 || form.price is None || form.quantity is None
}


/// Warnings about broker quote fields that are missing or invalid.
pub open spec fn quote_field_warnings(q: BrokerQuote) -> Seq<Seq<char>> {
    msg_if(field_lacking(q.latest_price, true), "broker latest price is unavailable or invalid"@)
        + msg_if(field_lacking(q.up_limit, true), "broker up-limit is unavailable or invalid"@)
        + msg_if(field_lacking(q.down_limit, true), "broker down-limit is unavailable or invalid"@)
        + msg_if(field_lacking(q.trade_status, false), "broker trade status is unavailable"@)
}

pub open spec fn quote_fields_lacking(q: BrokerQuote) -> bool {
    field_lacking(q.latest_price, true) || field_lacking(q.up_limit, true) || field_lacking(
        q.down_limit,
        true,
    ) || field_lacking(q.trade_status, false)
}

/// A broker trade status that names a halt or a closed session.
pub open spec fn halted_status(s: Seq<char>) -> bool {
    contains(s, "停牌"@) || contains(s, "休市"@) || contains(s, "非交易"@) || contains(s, "不可交易"@)
        || contains(s, "暂停"@)
}

/// Outcome of the side-specific limits: a rejection message, or whether a
/// limit could not be checked.
pub open spec fn limit_outcome(o: StageOrderRequest, c: BrokerTradeConstraints, value: int) -> Result<bool, Seq<char>> {
    if o.side == OrderSide::Buy {
        let funds = opt_cents(c.available_funds);
        if funds is Some && value > funds->0 {
            Err("order value exceeds broker available funds"@)
        } else if c.max_buy_quantity is Some && o.quantity > c.max_buy_quantity->0 {
            Err("order quantity exceeds broker maximum buy quantity"@)
        } else {
            Ok(funds is None || c.max_buy_quantity is None)
        }
    } else {
        if c.max_sell_quantity is Some && o.quantity > c.max_sell_quantity->0 {
            Err("order quantity exceeds broker maximum sell quantity"@)
        } else {
            Ok(c.max_sell_quantity is None)
        }
    }
}

pub open spec fn expected_workspace(side: OrderSide) -> WorkspaceKind {
    if side == OrderSide::Buy {
        WorkspaceKind::BuyOrder
    } else {
        WorkspaceKind::SellOrder
    }
}

/// The preflight decision for an intended order and the warnings it adds.
pub open spec fn preflight_outcome(
    order: Option<StageOrderRequest>,
    workspace: WorkspaceKind,
    security: Option<SecurityIdentity>,
    form: BrokerFormState,
    quote: BrokerQuote,
    constraints: BrokerTradeConstraints,
    comparison: Option<QuoteComparison>,
) -> (PreflightDecision, Seq<Seq<char>>) {
    match order {
        None => (PreflightDecision::ObservedOnly, seq![]),
        Some(o) => match order_check(o) {
            Err(e) => (PreflightDecision::Rejected, seq![e]),
            Ok(_) => {
                let p = parse_cents(o.price@)->Ok_0;
                if workspace != expected_workspace(o.side) {
                    (
                        PreflightDecision::Rejected,
                        seq!["current workspace does not match the requested order side"@],
                    )
                } else if security is None || security->0.code@ != o.security_code@ {
                    (
                        PreflightDecision::Rejected,
                        seq!["current broker security does not match the requested order"@],
                    )
                } else if opt_cents(quote.down_limit) is Some && p < opt_cents(quote.down_limit)->0 {
                    (
                        PreflightDecision::Rejected,
                        seq!["requested price is below the broker down-limit"@],
                    )
                } else if opt_cents(quote.up_limit) is Some && p > opt_cents(quote.up_limit)->0 {
                    (
                        PreflightDecision::Rejected,
                        seq!["requested price is above the broker up-limit"@],
                    )
                } else {
                    let soft = comparison_warnings(comparison) + msg_if(
                        form_incomplete(form),
                        "broker trade form fields are incomplete"@,
                    ) + quote_field_warnings(quote);
                    let review = !(comparison is Some && comparison->0.status@ == "matched"@)
                        || form_incomplete(form) || quote_fields_lacking(quote);
                    if quote.trade_status is Some && halted_status(quote.trade_status->0@) {
                        (
                            PreflightDecision::Rejected,
                            soft.push("broker trade status does not permit trading"@),
                        )
                    } else {
                        match limit_outcome(o, constraints, order_value_cents(o)->Ok_0) {
                            Err(m) => (PreflightDecision::Rejected, soft.push(m)),
                            Ok(unchecked) => if review || unchecked {
                                (PreflightDecision::NeedsReview, soft)
                            } else {
                                (PreflightDecision::Ready, soft)
                            },
                        }
                    }
                }
            },
        },
    }
}

/// The broker's side limits bind the preflight decision: an order over a
/// broker maximum quantity (sell or buy), or a buy worth more than the
/// available funds, is always rejected; once the order is otherwise fit to
/// trade (valid, in the right workspace for the right security, within the
/// price limits, not halted) the rejection names the limit it broke, and an
/// order that is not fit to trade is always rejected. A
/// `Ready` order was checked against every limit of its side, present and
/// respected.
pub proof fn law_preflight_respects_broker_limits(
    o: StageOrderRequest,
    workspace: WorkspaceKind,
    security: Option<SecurityIdentity>,
    form: BrokerFormState,
    quote: BrokerQuote,
    c: BrokerTradeConstraints,
    comparison: Option<QuoteComparison>,
)
    ensures
        ({
            let out = preflight_outcome(Some(o), workspace, security, form, quote, c, comparison);
            let value = parse_cents(o.price@)->Ok_0 * o.quantity;
            let price = parse_cents(o.price@)->Ok_0;
            let fit = order_check(o) is Ok && workspace == expected_workspace(o.side) && (security
                matches Some(sec) && sec.code@ == o.security_code@) && !(opt_cents(quote.down_limit)
                matches Some(d) && price < d) && !(opt_cents(quote.up_limit) matches Some(u) && price
                > u) && !(quote.trade_status matches Some(t) && halted_status(t@));
            &&& (o.side == OrderSide::Sell && (c.max_sell_quantity matches Some(m) && o.quantity > m))
                ==> out.0 == PreflightDecision::Rejected && (fit ==> out.1.last()
                == "order quantity exceeds broker maximum sell quantity"@)
            &&& (o.side == OrderSide::Buy && (c.max_buy_quantity matches Some(m) && o.quantity > m))
                ==> out.0 == PreflightDecision::Rejected
            &&& (o.side == OrderSide::Buy && (opt_cents(c.available_funds) matches Some(f) && value > f))
                ==> out.0 == PreflightDecision::Rejected && (fit ==> out.1.last()
                == "order value exceeds broker available funds"@)
            &&& !fit ==> out.0 == PreflightDecision::Rejected
            &&& out.0 == PreflightDecision::Ready ==> fit && if o.side == OrderSide::Sell {
                (c.max_sell_quantity matches Some(m) && o.quantity <= m)
            } else {
                (c.max_buy_quantity matches Some(m) && o.quantity <= m) && (opt_cents(c.available_funds)
                    matches Some(f) && value <= f)
            }
        }),
{
    if order_check(o) is Ok {
        assert(order_value_cents(o) == Ok::<int, Seq<char>>(parse_cents(o.price@)->Ok_0 * o.quantity));
    }
}

/// Cents of an optional price text.
fn optional_cents(v: &Option<String>) -> (r: Option<i128>)
    ensures
        match r {
            Some(c) => opt_cents(*v) == Some(c as int),
            None => opt_cents(*v) is None,
        },
{
    match v {
        Some(s) => match parse_decimal(s.as_str()) {
            Ok(c) => Some(c),
            Err(_) => None,
        },
        None => None,
    }
}

fn is_lacking(v: &Option<String>, numeric: bool) -> (r: bool)
    ensures
        r == field_lacking(*v, numeric),
{
    match v {
        None => true,
        Some(s) => numeric && parse_decimal(s.as_str()).is_err(),
    }
}

fn status_is_halted(s: &str) -> (r: bool)
    ensures
        r == halted_status(s@),
{
    contains_str(s, "停牌") || contains_str(s, "休市") || contains_str(s, "非交易") || contains_str(s, "不可交易")
        || contains_str(s, "暂停")
}

/// An optional borrowed value, taken by value.
pub open spec fn deref_opt<T>(o: Option<&T>) -> Option<T> {
    match o {
        Some(v) => Some(*v),
        None => None,
    }
}

/// Appends the warning for the reference comparison and tells whether it
/// calls for review.
fn comparison_review(comparison: Option<&QuoteComparison>, warnings: &mut Vec<String>) -> (review: bool)
    ensures
        final(warnings).deep_view() == old(warnings).deep_view() + comparison_warnings(deref_opt(comparison)),
        review == !(comparison is Some && comparison->0.status@ == "matched"@),
{
    let ghost w0 = warnings.deep_view();
    match comparison {
        Some(value) => {
            if str_eq(value.status.as_str(), "matched") {
                assert(warnings.deep_view() =~= w0 + seq![]);
                false
            } else if str_eq(value.status.as_str(), "invalid_reference") {
                push_message(warnings, "backend reference quote is invalid");
                true
            } else {
                push_message(warnings, "backend reference quote differs from the broker quote");
                true
            }
        },
        None => {
            push_message(warnings, "backend reference quote is unavailable");
            true
        },
    }
}

/// Appends `message` when the field is missing or, for a numeric field, not a
/// price; tells whether it was.
fn flag_field(v: &Option<String>, numeric: bool, message: &str, warnings: &mut Vec<String>) -> (lacking: bool)
    ensures
        lacking == field_lacking(*v, numeric),
        final(warnings).deep_view() == old(warnings).deep_view() + msg_if(lacking, message@),
{
    let ghost w0 = warnings.deep_view();
    let lacking = is_lacking(v, numeric);
    if lacking {
        push_message(warnings, message);
    } else {
        assert(warnings.deep_view() =~= w0 + seq![]);
    }
    lacking
}

/// Appends the warnings for soft facts (reference comparison, form, quote
/// fields) and tells whether they call for review.
fn review_soft_facts(
    comparison: Option<&QuoteComparison>,
    form: &BrokerFormState,
    quote: &BrokerQuote,
    warnings: &mut Vec<String>,
) -> (review: bool)
    ensures
        final(warnings).deep_view() == old(warnings).deep_view() + (comparison_warnings(deref_opt(comparison))
            + msg_if(form_incomplete(*form), "broker trade form fields are incomplete"@)
            + quote_field_warnings(*quote)),
        review == (!(comparison is Some && comparison->0.status@ == "matched"@) || form_incomplete(*form)
            || quote_fields_lacking(*quote)),
{
    let ghost w0 = warnings.deep_view();
    let r0 = comparison_review(comparison, warnings);
    let ghost w1 = warnings.deep_view();
    let incomplete = form.control_count < 2 || form.price.is_none() || form.quantity.is_none();
    if incomplete {
        push_message(warnings, "broker trade form fields are incomplete");
    } else {
        assert(warnings.deep_view() =~= w1 + seq![]);
    }
    let ghost w2 = warnings.deep_view();
    let r1 = flag_field(&quote.latest_price, true, "broker latest price is unavailable or invalid", warnings);
    let ghost w3 = warnings.deep_view();
    let r2 = flag_field(&quote.up_limit, true, "broker up-limit is unavailable or invalid", warnings);
    let ghost w4 = warnings.deep_view();
    let r3 = flag_field(&quote.down_limit, true, "broker down-limit is unavailable or invalid", warnings);
    let ghost w5 = warnings.deep_view();
    let r4 = flag_field(&quote.trade_status, false, "broker trade status is unavailable", warnings);
    proof {
        let a = comparison_warnings(deref_opt(comparison));
        let b = msg_if(form_incomplete(*form), "broker trade form fields are incomplete"@);
        let c1 = msg_if(r1, "broker latest price is unavailable or invalid"@);
        let c2 = msg_if(r2, "broker up-limit is unavailable or invalid"@);
        let c3 = msg_if(r3, "broker down-limit is unavailable or invalid"@);
        let c4 = msg_if(r4, "broker trade status is unavailable"@);
        assert(quote_field_warnings(*quote) == c1 + c2 + c3 + c4);
        lemma_concat_associative(w0, a, b);
        lemma_concat_associative(w0 + (a + b), c1, c2);
        lemma_concat_associative(w0 + (a + b), c1 + c2, c3);
        lemma_concat_associative(w0 + (a + b), c1 + c2 + c3, c4);
        lemma_concat_associative(w0, a + b, c1 + c2 + c3 + c4);
    }
    r0 || incomplete || r1 || r2 || r3 || r4
}

/// Checks the broker's funds and quantity limits for the order side: a
/// rejection message, or whether some limit was unavailable.
fn side_limits(order: &StageOrderRequest, constraints: &BrokerTradeConstraints, value: i128) -> (r: Result<bool, String>)
    ensures
        match r {
            Ok(u) => limit_outcome(*order, *constraints, value as int) == Ok::<bool, Seq<char>>(u),
            Err(m) => limit_outcome(*order, *constraints, value as int) == Err::<bool, Seq<char>>(m@),
        },
{
    match order.side {
        OrderSide::Buy => {
            let funds = optional_cents(&constraints.available_funds);
            match funds {
                Some(f) => {
                    if value > f {
                        return Err(String::from_str("order value exceeds broker available funds"));
                    }
                },
                None => {},
            }
            match constraints.max_buy_quantity {
                Some(maximum) => {
                    if order.quantity > maximum {
                        return Err(String::from_str("order quantity exceeds broker maximum buy quantity"));
                    }
                },
                None => {},
            }
            Ok(funds.is_none() || constraints.max_buy_quantity.is_none())
        },
        OrderSide::Sell => {
            match constraints.max_sell_quantity {
                Some(maximum) => {
                    if order.quantity > maximum {
                        return Err(String::from_str("order quantity exceeds broker maximum sell quantity"));
                    }
                },
                None => {},
            }
            Ok(constraints.max_sell_quantity.is_none())
        },
    }
}

/// Appends `message` and yields a rejection.
pub fn rejected(warnings: &mut Vec<String>, message: &str) -> (r: PreflightDecision)
    ensures
        r == PreflightDecision::Rejected,
        final(warnings).deep_view() == old(warnings).deep_view().push(message@),
{
    push_message(warnings, message);
    PreflightDecision::Rejected
}

/// Decides whether an intended order may go ahead: with no order the broker
/// state is only observed; an invalid order, a workspace or security that does
/// not match it, a price outside the broker limits, a halted security or a
/// broken broker limit rejects it; missing or differing facts ask for review.
pub fn evaluate_order(
    order: Option<&StageOrderRequest>,
    workspace: WorkspaceKind,
    security: Option<&SecurityIdentity>,
    form: &BrokerFormState,
    quote: &BrokerQuote,
    constraints: &BrokerTradeConstraints,
    comparison: Option<&QuoteComparison>,
    warnings: &mut Vec<String>,
) -> (r: Result<PreflightDecision, String>)
    ensures
        ({
            let out = preflight_outcome(
                match order {
                    Some(o) => Some(*o),
                    None => None,
                },
                workspace,
                match security {
                    Some(s) => Some(*s),
                    None => None,
                },
                *form,
                *quote,
                *constraints,
                match comparison {
                    Some(c) => Some(*c),
                    None => None,
                },
            );
            &&& r == Ok::<PreflightDecision, String>(out.0)
            &&& final(warnings).deep_view() == old(warnings).deep_view() + out.1
        }),
{
    let ghost w0 = warnings.deep_view();
    let order = match order {
        None => {
            proof {
                assert(warnings.deep_view() =~= w0 + seq![]);
            }
            return Ok(PreflightDecision::ObservedOnly);
        },
        Some(o) => o,
    };
    match validate_request(order) {
        Err(e) => {
            let ghost ev = e@;
            crate::text::push_owned(warnings, e);
            proof {
                assert(warnings.deep_view() =~= w0 + seq![ev]);
            }
            return Ok(PreflightDecision::Rejected);
        },
        Ok(()) => {},
    }
    let expected = match order.side {
        OrderSide::Buy => WorkspaceKind::BuyOrder,
        OrderSide::Sell => WorkspaceKind::SellOrder,
    };
    if workspace != expected {
        push_message(warnings, "current workspace does not match the requested order side");
        proof {
            assert(warnings.deep_view() =~= w0 + seq![
                "current workspace does not match the requested order side"@]);
        }
        return Ok(PreflightDecision::Rejected);
    }
    let security_matches = match security {
        Some(s) => str_eq(s.code.as_str(), order.security_code.as_str()),
        None => false,
    };
    if !security_matches {
        push_message(warnings, "current broker security does not match the requested order");
        proof {
            assert(warnings.deep_view() =~= w0 + seq![
                "current broker security does not match the requested order"@]);
        }
        return Ok(PreflightDecision::Rejected);
    }
    let requested_price = match parse_decimal(order.price.as_str()) {
        Ok(p) => p,
        Err(e) => {
            return Err(e);
        },
    };
    if let Some(limit) = optional_cents(&quote.down_limit) {
        if requested_price < limit {
            push_message(warnings, "requested price is below the broker down-limit");
            proof {
                assert(warnings.deep_view() =~= w0 + seq![
                    "requested price is below the broker down-limit"@]);
            }
            return Ok(PreflightDecision::Rejected);
        }
    }
    if let Some(limit) = optional_cents(&quote.up_limit) {
        if requested_price > limit {
            push_message(warnings, "requested price is above the broker up-limit");
            proof {
                assert(warnings.deep_view() =~= w0 + seq![
                    "requested price is above the broker up-limit"@]);
            }
            return Ok(PreflightDecision::Rejected);
        }
    }
    let needs_review = review_soft_facts(comparison, form, quote, warnings);
    let halted = match &quote.trade_status {
        Some(s) => status_is_halted(s.as_str()),
        None => false,
    };
    if halted {
        return Ok(rejected(warnings, "broker trade status does not permit trading"));
    }
    let value = match order_cents(order) {
        Ok(v) => v,
        Err(e) => {
            return Err(e);
        },
    };
    let unchecked = match side_limits(order, constraints, value) {
        Err(m) => {
            let ghost mv = m@;
            crate::text::push_owned(warnings, m);
            return Ok(PreflightDecision::Rejected);
        },
        Ok(u) => u,
    };
    let needs_review = needs_review || unchecked;
    if needs_review {
        Ok(PreflightDecision::NeedsReview)
    } else {
        Ok(PreflightDecision::Ready)
    }
}

/// The characters of an optional text.
pub open spec fn opt_text(o: Option<String>) -> Option<Seq<char>> {
    match o {
        Some(s) => Some(s@),
        None => None,
    }
}

/// The characters of an optional borrowed text.
pub open spec fn opt_str(o: Option<&str>) -> Option<Seq<char>> {
    match o {
        Some(s) => Some(s@),
        None => None,
    }
}

/// Distance between two amounts of cents.
pub open spec fn cents_distance(a: int, b: int) -> int {
    if a >= b {
        a - b
    } else {
        b - a
    }
}

/// The price gap in four-decimal money text, such as `0.0400`.
pub open spec fn delta_text(delta: int) -> Seq<char> {
    cents_text(delta) + seq!['0', '0']
}

/// Absolute gap, percentage gap and status of a broker price against a valid
/// reference price (both in cents). Prices within two cents match.
pub open spec fn price_gap(reference: int, broker: Option<int>) -> (Option<Seq<char>>, Option<Seq<char>>, Seq<char>) {
    match broker {
        None => (None, None, "unavailable"@),
        Some(b) => {
            let delta = cents_distance(b, reference);
            if reference != 0 {
                (
                    Some(delta_text(delta)),
                    Some(fixed4_text(percent_units(delta as nat, reference as nat))),
                    if delta <= 2 {
                        "matched"@
                    } else {
                        "different"@
                    },
                )
            } else {
                (Some(delta_text(delta)), None, "different"@)
            }
        },
    }
}

/// The security a header line of the order form names: its first word is a
/// five- or six-digit code and the rest, joined by single spaces, its name,
/// which must not be empty.
pub open spec fn security_line(text: Seq<char>) -> Option<(Seq<char>, Seq<char>)> {
    let ws = words(text);
    if ws.len() > 0 && (ws[0].len() == 5 || ws[0].len() == 6) && all_digits(ws[0]) && join_words(
        ws.drop_first(),
    ).len() > 0 {
        Some((ws[0], join_words(ws.drop_first())))
    } else {
        None
    }
}

pub fn security_identity(text: &str) -> (r: Option<SecurityIdentity>)
    ensures
        match security_line(text@) {
            Some((code, name)) => r matches Some(s) && s.code@ == code && s.name@ == name,
            None => r is None,
        },
{
    let chars = chars_of(text);
    let ws = split_words(chars.as_slice());
    if ws.len() == 0 {
        return None;
    }
    let code = &ws[0];
    proof {
        assert(ws.deep_view()[0] == code@);
    }
    if !(code.len() == 5 || code.len() == 6) || !all_digits_in(code.as_slice()) {
        return None;
    }
    let mut rest: Vec<Vec<char>> = Vec::new();
    let mut i: usize = 1;
    while i < ws.len()
        invariant
            1 <= i <= ws@.len(),
            rest.deep_view() == ws.deep_view().subrange(1, i as int),
        decreases ws@.len() - i,
    {
        let w = slice_range(&ws[i], 0, ws[i].len());
        proof {
            assert(w@ =~= ws@[i as int]@);
            assert(ws.deep_view()[i as int] == ws@[i as int]@);
            assert(ws.deep_view().subrange(1, i + 1) =~= ws.deep_view().subrange(1, i as int).push(w@));
        }
        rest.push(w);
        i = i + 1;
    }
    proof {
        assert(ws.deep_view().subrange(1, ws@.len() as int) =~= ws.deep_view().drop_first());
        assert(ws.deep_view()[0] == code@);
    }
    let name = join_with_spaces(&rest);
    if name.len() == 0 {
        return None;
    }
    Some(
        SecurityIdentity {
            code: string_from_chars(code.as_slice()),
            name: string_from_chars(name.as_slice()),
        },
    )
}

/// Among the header lines read where the form shows its security, the one
/// security they name, when exactly one of them names one.
pub fn selected_security(lines: &Vec<String>) -> (r: Option<SecurityIdentity>)
    ensures
        match r {
            Some(s) => exists|i: int|
                0 <= i < lines@.len() && #[trigger] security_line(lines@[i]@) == Some((s.code@, s.name@))
                    && forall|j: int| 0 <= j < lines@.len() && j != i ==> (#[trigger] security_line(lines@[j]@)) is None,
            None => forall|i: int|
                0 <= i < lines@.len() && (#[trigger] security_line(lines@[i]@)) is Some ==> exists|j: int|
                    0 <= j < lines@.len() && j != i && (#[trigger] security_line(lines@[j]@)) is Some,
        },
{
    let mut found: Option<(usize, SecurityIdentity)> = None;
    let mut i: usize = 0;
    while i < lines.len()
        invariant
            i <= lines@.len(),
            match found {
                Some((f, s)) => f < i && security_line(lines@[f as int]@) == Some((s.code@, s.name@))
                    && forall|j: int| 0 <= j < i && j != f ==> (#[trigger] security_line(lines@[j]@)) is None,
                None => forall|j: int| 0 <= j < i ==> (#[trigger] security_line(lines@[j]@)) is None,
            },
        decreases lines@.len() - i,
    {
        match security_identity(lines[i].as_str()) {
            Some(s) => {
                match found {
                    Some((f, _)) => {
                        proof {
                            assert forall|k: int|
                                0 <= k < lines@.len() && (#[trigger] security_line(lines@[k]@)) is Some implies exists|j: int|
                                0 <= j < lines@.len() && j != k && (#[trigger] security_line(lines@[j]@)) is Some by {
                                if k == f as int {
                                    assert(security_line(lines@[i as int]@) is Some);
                                } else {
                                    assert(security_line(lines@[f as int]@) is Some);
                                }
                            }
                        }
                        return None;
                    },
                    None => {
                        found = Some((i, s));
                    },
                }
            },
            None => {},
        }
        i = i + 1;
    }
    match found {
        Some((f, s)) => {
            proof {
                assert(security_line(lines@[f as int]@) == Some((s.code@, s.name@)));
            }
            Some(s)
        },
        None => None,
    }
}

/// A quantity read next to its label: the text as `u64` reads it, or else a
/// price in whole units (cents that are a multiple of a hundred); a whole
/// amount beyond `u64` wraps as the cast does.
pub open spec fn whole_units(value: Seq<char>) -> Option<int> {
    match u64_text(value) {
        Some(n) => Some(n as int),
        None => match parse_cents(value) {
            Ok(c) => if c % 100 == 0 {
                Some(((c / 100) as u64) as int)
            } else {
                None
            },
            Err(_) => None,
        },
    }
}

pub fn integer_value(value: &str) -> (r: Option<u64>)
    ensures
        match r {
            Some(n) => whole_units(value@) == Some(n as int),
            None => whole_units(value@) is None,
        },
{
    match parse_u64(value) {
        Some(n) => Some(n),
        None => match parse_decimal(value) {
            Ok(c) => {
                if c % 100 == 0 {
                    Some((c / 100) as u64)
                } else {
                    None
                }
            },
            Err(_) => None,
        },
    }
}

/// A text read next to a label, trimmed, unless it is one of the labels.
pub fn label_value(text: &str, labels: &[&str]) -> (r: Option<String>)
    ensures
        match r {
            Some(v) => v@ == trim(text@) && forall|i: int| 0 <= i < labels@.len() ==> labels@[i]@ != trim(text@),
            None => exists|i: int| 0 <= i < labels@.len() && labels@[i]@ == trim(text@),
        },
{
    let value = trim_string(text);
    let mut i: usize = 0;
    while i < labels.len()
        invariant
            i <= labels@.len(),
            value@ == trim(text@),
            forall|j: int| 0 <= j < i ==> labels@[j]@ != trim(text@),
        decreases labels@.len() - i,
    {
        if str_eq(value.as_str(), labels[i]) {
            return None;
        }
        i = i + 1;
    }
    Some(value)
}

/// Compares the broker's latest price with the backend reference quote.
pub fn compare_quote(reference: &ReferenceQuote, broker_price: Option<&str>) -> (c: QuoteComparison)
    ensures
        c.reference_source@ == reference.source@,
        c.reference_price@ == reference.latest_price@,
        opt_text(c.broker_price) == opt_str(broker_price),
        match parse_cents(reference.latest_price@) {
            Err(_) => c.absolute_delta is None && c.percentage_delta is None && c.status@
                == "invalid_reference"@,
            Ok(r) => {
                let gap = price_gap(
                    r,
                    match broker_price {
                        Some(b) => match parse_cents(b@) {
                            Ok(v) => Some(v),
                            Err(_) => None,
                        },
                        None => None,
                    },
                );
                &&& opt_text(c.absolute_delta) == gap.0
                &&& opt_text(c.percentage_delta) == gap.1
                &&& c.status@ == gap.2
            },
        },
{
    let broker_text: Option<String> = match broker_price {
        Some(b) => Some(String::from_str(b)),
        None => None,
    };
    let source = reference.source.clone();
    let price = reference.latest_price.clone();
    let reference_value = match parse_decimal(reference.latest_price.as_str()) {
        Ok(v) => v,
        Err(_) => {
            return QuoteComparison {
                reference_source: source,
                reference_price: price,
                broker_price: broker_text,
                absolute_delta: None,
                percentage_delta: None,
                status: String::from_str("invalid_reference"),
            };
        },
    };
    let broker_value = match broker_price {
        Some(b) => match parse_decimal(b) {
            Ok(v) => Some(v),
            Err(_) => None,
        },
        None => None,
    };
    let (absolute_delta, percentage_delta, status) = match broker_value {
        None => (None, None, String::from_str("unavailable")),
        Some(value) => {
            proof {
                assert(value >= 0 && reference_value >= 0);
            }
            let delta: i128 = if value >= reference_value {
                value - reference_value
            } else {
                reference_value - value
            };
            let mut absolute = format_cents(delta);
            absolute.append("00");
            proof {
                reveal_strlit("00");
            }
            if reference_value != 0 {
                let percentage = percent_text(delta as u128, reference_value as u128);
                let status = if delta <= 2 {
                    String::from_str("matched")
                } else {
                    String::from_str("different")
                };
                (Some(absolute), Some(percentage), status)
            } else {
                (Some(absolute), None, String::from_str("different"))
            }
        },
    };
    QuoteComparison {
        reference_source: source,
        reference_price: price,
        broker_price: broker_text,
        absolute_delta,
        percentage_delta,
        status,
    }
}

/// Which of the thirteen broker preflight facts were read.
pub open spec fn facts_read(
    security: Option<SecurityIdentity>,
    quote: BrokerQuote,
    constraints: BrokerTradeConstraints,
) -> Seq<bool> {
    seq![
        security is Some,
        quote.latest_price is Some,
        quote.pre_close is Some,
        quote.up_limit is Some,
        quote.down_limit is Some,
        quote.buy_ceiling is Some,
        quote.sell_floor is Some,
        quote.bid_price_1 is Some,
        quote.ask_price_1 is Some,
        quote.trade_status is Some,
        constraints.available_funds is Some,
        constraints.max_buy_quantity is Some,
        constraints.max_sell_quantity is Some,
    ]
}

/// How many flags hold.
pub open spec fn count_true(flags: Seq<bool>) -> nat
    decreases flags.len(),
{
    if flags.len() == 0 {
        0
    } else {
        count_true(flags.drop_last()) + (if flags.last() { 1nat } else { 0nat })
    }
}

proof fn lemma_count_true_bound(flags: Seq<bool>)
    ensures
        count_true(flags) <= flags.len(),
        count_true(flags) == flags.len() <==> forall|i: int| 0 <= i < flags.len() ==> #[trigger] flags[i],
    decreases flags.len(),
{
    if flags.len() > 0 {
        lemma_count_true_bound(flags.drop_last());
        if count_true(flags) == flags.len() {
            assert forall|i: int| 0 <= i < flags.len() implies #[trigger] flags[i] by {
                if i < flags.len() - 1 {
                    assert(flags.drop_last()[i] == flags[i]);
                }
            }
        }
        if forall|i: int| 0 <= i < flags.len() ==> #[trigger] flags[i] {
            assert forall|i: int| 0 <= i < flags.drop_last().len() implies #[trigger] flags.drop_last()[i] by {
                assert(flags[i]);
            }
        }
    }
}

/// Counts the flags that hold.
fn count_flags(flags: &[bool]) -> (n: usize)
    ensures
        n == count_true(flags@),
        n <= flags@.len(),
{
    let mut n: usize = 0;
    let mut i: usize = 0;
    while i < flags.len()
        invariant
            i <= flags@.len(),
            n == count_true(flags@.take(i as int)),
            n <= i,
        decreases flags@.len() - i,
    {
        proof {
            assert(flags@.take(i + 1).drop_last() =~= flags@.take(i as int));
        }
        if flags[i] {
            n = n + 1;
        }
        i = i + 1;
    }
    proof {
        assert(flags@.take(flags@.len() as int) =~= flags@);
    }
    n
}

/// Quality of the preflight read: exact when every fact was read, partial
/// (with a warning) when some were, unavailable when none were.
pub fn quality(
    security: &Option<SecurityIdentity>,
    quote: &BrokerQuote,
    constraints: &BrokerTradeConstraints,
    warnings: &mut Vec<String>,
) -> (q: DataQuality)
    ensures
        ({
            let n = count_true(facts_read(*security, *quote, *constraints));
            &&& q == (if n == 13 {
                DataQuality::Exact
            } else if n > 0 {
                DataQuality::Partial
            } else {
                DataQuality::Unavailable
            })
            &&& final(warnings).deep_view() == old(warnings).deep_view() + msg_if(
                0 < n < 13,
                "one or more broker preflight fields were unavailable"@,
            )
        }),
{
    let flags: [bool; 13] = [
        security.is_some(),
        quote.latest_price.is_some(),
        quote.pre_close.is_some(),
        quote.up_limit.is_some(),
        quote.down_limit.is_some(),
        quote.buy_ceiling.is_some(),
        quote.sell_floor.is_some(),
        quote.bid_price_1.is_some(),
        quote.ask_price_1.is_some(),
        quote.trade_status.is_some(),
        constraints.available_funds.is_some(),
        constraints.max_buy_quantity.is_some(),
        constraints.max_sell_quantity.is_some(),
    ];
    proof {
        assert(flags@ =~= facts_read(*security, *quote, *constraints));
    }
    let n = count_flags(&flags);
    let partial = 0 < n && n < 13;
    push_message_if(warnings, partial, "one or more broker preflight fields were unavailable");
    if n == 13 {
        DataQuality::Exact
    } else if n > 0 {
        DataQuality::Partial
    } else {
        DataQuality::Unavailable
    }
}

/// A preflight read is exact exactly when all thirteen facts were read, and
/// unavailable exactly when none was.
pub proof fn law_quality_counts_facts(
    security: Option<SecurityIdentity>,
    quote: BrokerQuote,
    constraints: BrokerTradeConstraints,
)
    ensures
        count_true(facts_read(security, quote, constraints)) == 13 <==> (security is Some
            && quote.latest_price is Some && quote.pre_close is Some && quote.up_limit is Some
            && quote.down_limit is Some && quote.buy_ceiling is Some && quote.sell_floor is Some
            && quote.bid_price_1 is Some && quote.ask_price_1 is Some && quote.trade_status is Some
            && constraints.available_funds is Some && constraints.max_buy_quantity is Some
            && constraints.max_sell_quantity is Some),
        count_true(facts_read(security, quote, constraints)) <= 13,
{
    let f = facts_read(security, quote, constraints);
    lemma_count_true_bound(f);
    if forall|i: int| 0 <= i < f.len() ==> #[trigger] f[i] {
        assert(f[0] && f[1] && f[2] && f[3] && f[4] && f[5] && f[6] && f[7] && f[8] && f[9] && f[10]
            && f[11] && f[12]);
    }
}

} // verus!
