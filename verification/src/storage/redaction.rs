//! What the store keeps of a live operation's payload, how the payload is
//! read back from it, and the payload's fingerprint.
use vstd::prelude::*;

use super::{kind_name, LiveOperationKind};
use crate::pages::cancel_order::CancellationTarget;
use crate::pages::stage_order::{OrderSide, StageOrderRequest};
use crate::text::{decimal, lemma_decimal_reads_back, str_eq, u64_to_string};
use vstd::utf8::encode_utf8;

verus! {

/// The fields of a stored order summary as they are read back; a field that
/// is absent, or not of its type, reads as `None`.
#[derive(Clone, Debug)]
pub struct OrderSummary {
    pub security_code: Option<String>,
    pub side: Option<String>,
    pub price: Option<String>,
    pub quantity: Option<u64>,
}

/// The fields of a stored cancellation summary as they are read back.
#[derive(Clone, Debug)]
pub struct CancellationSummary {
    pub contract_id: Option<String>,
    pub security_code: Option<String>,
    pub security_name: Option<String>,
    pub side: Option<String>,
    pub price: Option<String>,
    pub quantity: Option<u64>,
}

#[derive(Clone, Debug)]
pub enum LivePayload {
    Order(StageOrderRequest),
    Cancellation(CancellationTarget),
}

/// The lower-case name of an order side.
pub open spec fn side_name(side: OrderSide) -> Seq<char> {
    match side {
        OrderSide::Buy => "buy"@,
        OrderSide::Sell => "sell"@,
    }
}

pub fn side_str(side: OrderSide) -> (s: &'static str)
    ensures
        s@ == side_name(side),
{
    match side {
        OrderSide::Buy => "buy",
        OrderSide::Sell => "sell",
    }
}

/// The summary kept of an order: its code, lower-case side, price and
/// quantity, and nothing else.
pub fn redacted_order_summary(order: &StageOrderRequest) -> (s: OrderSummary)
    ensures
        s.security_code == Some(order.security_code),
        s.side matches Some(v) && v@ == side_name(order.side),
        s.price == Some(order.price),
        s.quantity == Some(order.quantity),
{
    OrderSummary {
        security_code: Some(order.security_code.clone()),
        side: Some(String::from_str(side_str(order.side))),
        price: Some(order.price.clone()),
        quantity: Some(order.quantity),
    }
}

/// The summary kept of a cancellation: every field of the target.
pub fn redacted_cancellation_summary(target: &CancellationTarget) -> (s: CancellationSummary)
    ensures
        s.contract_id == Some(target.contract_id),
        s.security_code == Some(target.security_code),
        s.security_name == Some(target.security_name),
        s.side == Some(target.side),
        s.price == Some(target.price),
        s.quantity == Some(target.quantity),
{
    CancellationSummary {
        contract_id: Some(target.contract_id.clone()),
        security_code: Some(target.security_code.clone()),
        security_name: Some(target.security_name.clone()),
        side: Some(target.side.clone()),
        price: Some(target.price.clone()),
        quantity: Some(target.quantity),
    }
}

/// The side named in a summary, if it names one.
pub open spec fn side_named(s: Seq<char>) -> Option<OrderSide> {
    if s == "buy"@ {
        Some(OrderSide::Buy)
    } else if s == "sell"@ {
        Some(OrderSide::Sell)
    } else {
        None
    }
}

/// Why an order summary cannot be read back, if it cannot: the first
/// missing field, or a side that is neither `buy` nor `sell`.
pub open spec fn order_summary_error(summary: OrderSummary) -> Option<Seq<char>> {
    if summary.security_code is None {
        Some("missing security_code"@)
    } else if summary.side is None {
        Some("missing side"@)
    } else if side_named(summary.side->0@) is None {
        Some("unknown side "@ + summary.side->0@)
    } else if summary.price is None {
        Some("missing price"@)
    } else if summary.quantity is None {
        Some("missing quantity"@)
    } else {
        None
    }
}

/// Why a cancellation summary cannot be read back, if it cannot: the first
/// missing field.
pub open spec fn cancellation_summary_error(summary: CancellationSummary) -> Option<Seq<char>> {
    if summary.contract_id is None {
        Some("missing contract_id"@)
    } else if summary.security_code is None {
        Some("missing security_code"@)
    } else if summary.security_name is None {
        Some("missing security_name"@)
    } else if summary.side is None {
        Some("missing side"@)
    } else if summary.price is None {
        Some("missing price"@)
    } else if summary.quantity is None {
        Some("missing quantity"@)
    } else {
        None
    }
}

/// Reads an order back from its stored summary. The first missing field, or
/// a side that is neither `buy` nor `sell`, is reported.
pub fn reconstruct_order(summary: &OrderSummary) -> (r: Result<StageOrderRequest, String>)
    ensures
        match order_summary_error(*summary) {
            None => r is Ok,
            Some(m) => r matches Err(e) && e@ == m,
        },
        match r {
            Ok(o) => summary.security_code == Some(o.security_code) && (summary.side matches Some(s)
                && side_named(s@) == Some(o.side)) && summary.price == Some(o.price)
                && summary.quantity == Some(o.quantity),
            Err(e) => if summary.security_code is None {
                e@ == "missing security_code"@
            } else if summary.side is None {
                e@ == "missing side"@
            } else if side_named(summary.side->0@) is None {
                e@ == "unknown side "@ + summary.side->0@
            } else if summary.price is None {
                e@ == "missing price"@
            } else {
                summary.quantity is None && e@ == "missing quantity"@
            },
        },
{
    let security_code = match &summary.security_code {
        Some(v) => v.clone(),
        None => {
            return Err(String::from_str("missing security_code"));
        },
    };
    let side = match &summary.side {
        Some(v) => {
            if str_eq(v.as_str(), "buy") {
                OrderSide::Buy
            } else if str_eq(v.as_str(), "sell") {
                OrderSide::Sell
            } else {
                let mut e = String::from_str("unknown side ");
                e.append(v.as_str());
                return Err(e);
            }
        },
        None => {
            return Err(String::from_str("missing side"));
        },
    };
    let price = match &summary.price {
        Some(v) => v.clone(),
        None => {
            return Err(String::from_str("missing price"));
        },
    };
    let quantity = match summary.quantity {
        Some(v) => v,
        None => {
            return Err(String::from_str("missing quantity"));
        },
    };
    Ok(StageOrderRequest { security_code, side, price, quantity })
}

/// Reads a cancellation target back from its stored summary; the first
/// missing field is reported.
pub fn reconstruct_cancellation(summary: &CancellationSummary) -> (r: Result<CancellationTarget, String>)
    ensures
        match cancellation_summary_error(*summary) {
            None => r is Ok,
            Some(m) => r matches Err(e) && e@ == m,
        },
        match r {
            Ok(t) => summary.contract_id == Some(t.contract_id) && summary.security_code == Some(
                t.security_code,
            ) && summary.security_name == Some(t.security_name) && summary.side == Some(t.side)
                && summary.price == Some(t.price) && summary.quantity == Some(t.quantity),
            Err(e) => if summary.contract_id is None {
                e@ == "missing contract_id"@
            } else if summary.security_code is None {
                e@ == "missing security_code"@
            } else if summary.security_name is None {
                e@ == "missing security_name"@
            } else if summary.side is None {
                e@ == "missing side"@
            } else if summary.price is None {
                e@ == "missing price"@
            } else {
                summary.quantity is None && e@ == "missing quantity"@
            },
        },
{
    let contract_id = match &summary.contract_id {
        Some(v) => v.clone(),
        None => {
            return Err(String::from_str("missing contract_id"));
        },
    };
    let security_code = match &summary.security_code {
        Some(v) => v.clone(),
        None => {
            return Err(String::from_str("missing security_code"));
        },
    };
    let security_name = match &summary.security_name {
        Some(v) => v.clone(),
        None => {
            return Err(String::from_str("missing security_name"));
        },
    };
    let side = match &summary.side {
        Some(v) => v.clone(),
        None => {
            return Err(String::from_str("missing side"));
        },
    };
    let price = match &summary.price {
        Some(v) => v.clone(),
        None => {
            return Err(String::from_str("missing price"));
        },
    };
    let quantity = match summary.quantity {
        Some(v) => v,
        None => {
            return Err(String::from_str("missing quantity"));
        },
    };
    Ok(CancellationTarget { contract_id, security_code, security_name, side, price, quantity })
}

/// An order read back from the summary kept of it is the same order.
pub proof fn law_order_summary_round_trip(order: StageOrderRequest, summary: OrderSummary)
    requires
        summary.security_code == Some(order.security_code),
        summary.side matches Some(v) && v@ == side_name(order.side),
        summary.price == Some(order.price),
        summary.quantity == Some(order.quantity),
    ensures
        summary.side matches Some(v) && side_named(v@) == Some(order.side),
        forall|o: StageOrderRequest|
            #![trigger o.security_code, o.side]
            (summary.security_code == Some(o.security_code) && (summary.side matches Some(s) && side_named(s@)
                == Some(o.side)) && summary.price == Some(o.price) && summary.quantity == Some(
                o.quantity,
            )) ==> o == order,
{
    reveal_strlit("buy");
    reveal_strlit("sell");
    assert("buy"@.len() == 3 && "sell"@.len() == 4);
    let v = summary.side->0;
    assert(side_named(v@) == Some(order.side));
}

/// A cancellation target read back from the summary kept of it is the same
/// target.
pub proof fn law_cancellation_summary_round_trip(target: CancellationTarget, summary: CancellationSummary)
    requires
        summary.contract_id == Some(target.contract_id),
        summary.security_code == Some(target.security_code),
        summary.security_name == Some(target.security_name),
        summary.side == Some(target.side),
        summary.price == Some(target.price),
        summary.quantity == Some(target.quantity),
    ensures
        forall|t: CancellationTarget|
            #![trigger t.contract_id, t.quantity]
            (summary.contract_id == Some(t.contract_id) && summary.security_code == Some(t.security_code)
                && summary.security_name == Some(t.security_name) && summary.side == Some(t.side)
                && summary.price == Some(t.price) && summary.quantity == Some(t.quantity)) ==> t
                == target,
{
}

/// A lower-case hex digit.
pub open spec fn lower_hex_digit(n: nat) -> char {
    if n < 10 {
        (('0' as u32) + n) as char
    } else {
        (('a' as u32) + n - 10) as char
    }
}

/// How `serde_json` writes one character inside a string literal: a quote,
/// a backslash and the control characters below U+0020 are escaped (the
/// usual short forms for backspace, tab, line feed, form feed and carriage
/// return, `\u00xx` with lower-case hex for the others); any other
/// character is written as it is.
pub open spec fn json_escaped_char(c: char) -> Seq<char> {
    let u = c as u32;
    if c == '"' {
        seq!['\\', '"']
    } else if c == '\\' {
        seq!['\\', '\\']
    } else if u == 0x08 {
        seq!['\\', 'b']
    } else if u == 0x09 {
        seq!['\\', 't']
    } else if u == 0x0A {
        seq!['\\', 'n']
    } else if u == 0x0C {
        seq!['\\', 'f']
    } else if u == 0x0D {
        seq!['\\', 'r']
    } else if u < 0x20 {
        seq!['\\', 'u', '0', '0', lower_hex_digit((u / 16) as nat), lower_hex_digit((u % 16) as nat)]
    } else {
        seq![c]
    }
}

/// The escaped characters of `s`, in order.
pub open spec fn json_escaped(s: Seq<char>) -> Seq<char>
    decreases s.len(),
{
    if s.len() == 0 {
        seq![]
    } else {
        json_escaped(s.drop_last()) + json_escaped_char(s.last())
    }
}

/// `s` as a JSON string literal as `serde_json::to_string` writes it: in
/// quotes, with each character escaped as `json_escaped_char` says.
/// Serializing a string never fails.
#[verifier::opaque]
pub open spec fn json_quoted(s: Seq<char>) -> Option<Seq<char>> {
    Some(seq!['"'] + json_escaped(s) + seq!['"'])
}

#[verifier::external_type_specification]
#[verifier::external_body]
pub struct ExJsonError(serde_json::Error);

/// Writes `s` as a JSON string literal with `serde_json::to_string`: the
/// literal is `json_quoted(s)` (serde_json's escape table for strings).
/// Serializing a `&str` writes into a `Vec<u8>`, which cannot fail, so the
/// result is always `Ok`.
#[verifier::external_body]
fn json_quote(s: &str) -> (r: Result<String, serde_json::Error>)
    ensures
        r is Ok,
        match r {
            Ok(t) => json_quoted(s@) == Some(t@),
            Err(_) => true,
        },
{
    serde_json::to_string(s)
}

/// The message of a serde_json error (its `Display` text).
#[verifier::external_body]
fn json_error_text(e: &serde_json::Error) -> (t: String) {
    e.to_string()
}

/// The JSON text of an order as a `(kind, order)` pair serializes it.
pub open spec fn order_json(o: StageOrderRequest) -> Option<Seq<char>> {
    match (json_quoted(o.security_code@), json_quoted(o.price@)) {
        (Some(code), Some(price)) => Some(
            "{\"security_code\":"@ + code + ",\"side\":\""@ + side_name(o.side) + "\",\"price\":"@
                + price + ",\"quantity\":"@ + decimal(o.quantity as nat) + "}"@,
        ),
        _ => None,
    }
}

/// The JSON text of a cancellation target.
pub open spec fn cancellation_json(t: CancellationTarget) -> Option<Seq<char>> {
    match (
        json_quoted(t.contract_id@),
        json_quoted(t.security_code@),
        json_quoted(t.security_name@),
        json_quoted(t.side@),
        json_quoted(t.price@),
    ) {
        (Some(a), Some(b), Some(c), Some(d), Some(e)) => Some(
            "{\"contract_id\":"@ + a + ",\"security_code\":"@ + b + ",\"security_name\":"@ + c
                + ",\"side\":"@ + d + ",\"price\":"@ + e + ",\"quantity\":"@ + decimal(
                t.quantity as nat,
            ) + "}"@,
        ),
        _ => None,
    }
}

/// The JSON text that the fingerprint digests: the kind's name and the
/// payload, as a two-element array.
pub open spec fn fingerprint_json(kind: LiveOperationKind, payload: LivePayload) -> Option<Seq<char>> {
    let body = match payload {
        LivePayload::Order(o) => order_json(o),
        LivePayload::Cancellation(t) => cancellation_json(t),
    };
    match body {
        Some(b) => Some("[\""@ + kind_name(kind) + "\","@ + b + "]"@),
        None => None,
    }
}

/// The text that a fingerprint digests starts with the operation's kind, so
/// operations of different kinds never digest the same text, whatever their
/// payloads.
pub proof fn law_fingerprint_text_binds_kind(
    k1: LiveOperationKind,
    p1: LivePayload,
    k2: LiveOperationKind,
    p2: LivePayload,
)
    requires
        k1 != k2,
        fingerprint_json(k1, p1) is Some,
        fingerprint_json(k2, p2) is Some,
    ensures
        fingerprint_json(k1, p1) != fingerprint_json(k2, p2),
{
    reveal_strlit("[\"");
    reveal_strlit("submit_order");
    reveal_strlit("cancel_order");
    let t1 = fingerprint_json(k1, p1)->0;
    let t2 = fingerprint_json(k2, p2)->0;
    assert(t1[2] == kind_name(k1)[0]);
    assert(t2[2] == kind_name(k2)[0]);
}

/// SHA-256 digest of `data`.
pub uninterp spec fn sha256(data: Seq<u8>) -> Seq<u8>;

/// Digests `data` with `sha2::Sha256::digest`: the digest is the name
/// `sha256` applied to the data, and has the 32 bytes of SHA-256's output
/// size.
#[verifier::external_body]
fn sha256_digest(data: &[u8]) -> (d: Vec<u8>)
    ensures
        d@ == sha256(data@),
        d@.len() == 32,
{
    <sha2::Sha256 as sha2::Digest>::digest(data).to_vec()
}

/// A lower-case hexadecimal digit.
pub open spec fn hex_digit(v: nat) -> char {
    if v < 10 {
        (('0' as nat) + v) as char
    } else {
        (('a' as nat) + v - 10) as char
    }
}

/// Bytes as lower-case hexadecimal text, two digits per byte.
pub open spec fn hex_text(bytes: Seq<u8>) -> Seq<char>
    decreases bytes.len(),
{
    if bytes.len() == 0 {
        seq![]
    } else {
        hex_text(bytes.drop_last()) + seq![
            hex_digit((bytes.last() / 16) as nat),
            hex_digit((bytes.last() % 16) as nat),
        ]
    }
}

fn hex_char(v: u8) -> (c: char)
    requires
        v < 16,
    ensures
        c == hex_digit(v as nat),
{
    if v < 10 {
        ((48u8 + v) as char)
    } else {
        ((87u8 + v) as char)
    }
}

/// Lower-case hexadecimal text of `bytes`.
pub fn to_hex(bytes: &[u8]) -> (s: String)
    ensures
        s@ == hex_text(bytes@),
        s@.len() == 2 * bytes@.len(),
{
    let mut chars: Vec<char> = Vec::new();
    let mut i: usize = 0;
    while i < bytes.len()
        invariant
            i <= bytes@.len(),
            chars@ == hex_text(bytes@.take(i as int)),
            chars@.len() == 2 * i,
        decreases bytes@.len() - i,
    {
        let b = bytes[i];
        chars.push(hex_char(b / 16));
        chars.push(hex_char(b % 16));
        proof {
            assert(bytes@.take(i + 1).drop_last() =~= bytes@.take(i as int));
            assert(bytes@.take(i + 1).last() == b);
            assert(chars@ =~= hex_text(bytes@.take(i + 1)));
        }
        i = i + 1;
    }
    proof {
        assert(bytes@.take(bytes@.len() as int) =~= bytes@);
    }
    crate::text::string_from_chars(chars.as_slice())
}

/// Appends `prefix` and `value` as a JSON string literal.
fn push_quoted(out: &mut String, prefix: &str, value: &str) -> (r: Result<(), String>)
    ensures
        match r {
            Ok(_) => json_quoted(value@) is Some && final(out)@ == old(out)@ + prefix@ + json_quoted(value@)->0,
            Err(_) => false,
        },
{
    match json_quote(value) {
        Ok(q) => {
            out.append(prefix);
            out.append(q.as_str());
            Ok(())
        },
        Err(e) => Err(json_error_text(&e)),
    }
}

fn order_json_text(o: &StageOrderRequest) -> (r: Result<String, String>)
    ensures
        match r {
            Ok(s) => order_json(*o) == Some(s@),
            Err(_) => false,
        },
{
    let mut out = String::new();
    push_quoted(&mut out, "{\"security_code\":", o.security_code.as_str())?;
    out.append(",\"side\":\"");
    out.append(side_str(o.side));
    push_quoted(&mut out, "\",\"price\":", o.price.as_str())?;
    out.append(",\"quantity\":");
    let q = u64_to_string(o.quantity);
    out.append(q.as_str());
    out.append("}");
    proof {
        assert(out@ =~= order_json(*o)->0);
    }
    Ok(out)
}

fn cancellation_json_text(t: &CancellationTarget) -> (r: Result<String, String>)
    ensures
        match r {
            Ok(s) => cancellation_json(*t) == Some(s@),
            Err(_) => false,
        },
{
    let mut out = String::new();
    push_quoted(&mut out, "{\"contract_id\":", t.contract_id.as_str())?;
    push_quoted(&mut out, ",\"security_code\":", t.security_code.as_str())?;
    push_quoted(&mut out, ",\"security_name\":", t.security_name.as_str())?;
    push_quoted(&mut out, ",\"side\":", t.side.as_str())?;
    push_quoted(&mut out, ",\"price\":", t.price.as_str())?;
    out.append(",\"quantity\":");
    let q = u64_to_string(t.quantity);
    out.append(q.as_str());
    out.append("}");
    proof {
        assert(out@ =~= cancellation_json(*t)->0);
    }
    Ok(out)
}

/// The fingerprint that binds a confirmation to the prepared payload: the
/// lower-case hex SHA-256 of the UTF-8 JSON of `(kind, payload)`.
pub fn fingerprint(kind: LiveOperationKind, payload: &LivePayload) -> (r: Result<String, String>)
    ensures
        r matches Ok(f) && fingerprint_json(kind, *payload) matches Some(j) && f@ == hex_text(
            sha256(encode_utf8(j)),
        ) && f@.len() == 64,
{
    let body = match payload {
        LivePayload::Order(o) => order_json_text(o)?,
        LivePayload::Cancellation(t) => cancellation_json_text(t)?,
    };
    let mut text = String::from_str("[\"");
    text.append(super::kind_to_str(kind));
    text.append("\",");
    text.append(body.as_str());
    text.append("]");
    proof {
        assert(text@ =~= fingerprint_json(kind, *payload)->0);
    }
    let digest = sha256_digest(text.as_str().as_bytes());
    Ok(to_hex(digest.as_slice()))
}


proof fn lemma_hex_digit_injective(n: nat, m: nat)
    requires
        n < 16,
        m < 16,
        lower_hex_digit(n) == lower_hex_digit(m),
    ensures
        n == m,
{
    let x = lower_hex_digit(n) as u32;
    let y = lower_hex_digit(m) as u32;
    assert(x == y);
}

/// An escaped character starts with a backslash or is the character
/// itself, never a quote.
proof fn lemma_escaped_char_shape(c: char)
    ensures
        json_escaped_char(c).len() > 0,
        json_escaped_char(c)[0] != '"',
        json_escaped_char(c)[0] != '\\' ==> json_escaped_char(c) == seq![c],
{
}

/// Escaped characters form a prefix code: an escaped character followed by
/// more text determines both the character and the rest.
proof fn lemma_escaped_char_prefix(c: char, d: char, s: Seq<char>, t: Seq<char>)
    requires
        json_escaped_char(c) + s == json_escaped_char(d) + t,
    ensures
        c == d,
        s == t,
{
    let ec = json_escaped_char(c);
    let ed = json_escaped_char(d);
    let e = ec + s;
    assert(e[0] == ec[0]);
    assert((ed + t)[0] == ed[0]);
    if ec.len() == 1 {
        assert(ed[0] == c);
        assert(ed[0] != '\\');
        assert(ed.len() == 1);
    } else {
        assert(e[1] == ec[1]);
        assert((ed + t)[1] == ed[1]);
        assert(ed[0] == '\\');
        if ec[1] == 'u' {
            assert(ed[1] == 'u');
            assert(e[4] == ec[4] && (ed + t)[4] == ed[4]);
            assert(e[5] == ec[5] && (ed + t)[5] == ed[5]);
            let u = c as u32;
            let v = d as u32;
            lemma_hex_digit_injective((u / 16) as nat, (v / 16) as nat);
            lemma_hex_digit_injective((u % 16) as nat, (v % 16) as nat);
            assert(u == v);
        }
    }
    assert(ec == ed);
    assert(s =~= e.subrange(ec.len() as int, e.len() as int));
    assert(t =~= (ed + t).subrange(ed.len() as int, (ed + t).len() as int));
}


proof fn lemma_escaped_concat(a: Seq<char>, b: Seq<char>)
    ensures
        json_escaped(a + b) == json_escaped(a) + json_escaped(b),
    decreases b.len(),
{
    if b.len() == 0 {
        assert(a + b =~= a);
        assert(json_escaped(a) + json_escaped(b) =~= json_escaped(a));
    } else {
        let b1 = b.drop_last();
        lemma_escaped_concat(a, b1);
        assert((a + b).drop_last() =~= a + b1);
        assert((a + b).last() == b.last());
        assert(json_escaped(a) + json_escaped(b1) + json_escaped_char(b.last()) =~= json_escaped(a) + (
        json_escaped(b1) + json_escaped_char(b.last())));
    }
}

/// Escaping reads from the front: the first character's escape, then the
/// rest escaped.
proof fn lemma_escaped_front(s: Seq<char>)
    requires
        s.len() > 0,
    ensures
        json_escaped(s) == json_escaped_char(s[0]) + json_escaped(s.drop_first()),
{
    lemma_escaped_concat(seq![s[0]], s.drop_first());
    assert(seq![s[0]] + s.drop_first() =~= s);
    assert(seq![s[0]].drop_last() =~= Seq::<char>::empty());
    assert(json_escaped(Seq::<char>::empty()) =~= Seq::<char>::empty());
    assert(json_escaped(seq![s[0]]) =~= json_escaped_char(s[0]));
}

/// Escaped text ends at the first unescaped quote: escaped text, a quote and
/// more text determine both the text and the rest.
proof fn lemma_escaped_then_quote(a: Seq<char>, b: Seq<char>, x: Seq<char>, y: Seq<char>)
    requires
        json_escaped(a) + seq!['"'] + x == json_escaped(b) + seq!['"'] + y,
    ensures
        a == b,
        x == y,
    decreases a.len() + b.len(),
{
    let q = seq!['"'];
    if a.len() == 0 {
        assert(json_escaped(a) =~= Seq::<char>::empty());
        assert(json_escaped(a) + q + x =~= q + x);
        if b.len() > 0 {
            lemma_escaped_front(b);
            lemma_escaped_char_shape(b[0]);
            assert((json_escaped(b) + q + y)[0] == json_escaped_char(b[0])[0]);
            assert(false);
        }
        assert(json_escaped(b) =~= Seq::<char>::empty());
        assert(json_escaped(b) + q + y =~= q + y);
        assert(x =~= (q + x).drop_first());
        assert(y =~= (q + y).drop_first());
    } else if b.len() == 0 {
        assert(json_escaped(b) =~= Seq::<char>::empty());
        assert(json_escaped(b) + q + y =~= q + y);
        lemma_escaped_front(a);
        lemma_escaped_char_shape(a[0]);
        assert((json_escaped(a) + q + x)[0] == json_escaped_char(a[0])[0]);
        assert(false);
    } else {
        lemma_escaped_front(a);
        lemma_escaped_front(b);
        let a1 = a.drop_first();
        let b1 = b.drop_first();
        assert(json_escaped(a) + q + x =~= json_escaped_char(a[0]) + (json_escaped(a1) + q + x));
        assert(json_escaped(b) + q + y =~= json_escaped_char(b[0]) + (json_escaped(b1) + q + y));
        lemma_escaped_char_prefix(a[0], b[0], json_escaped(a1) + q + x, json_escaped(b1) + q + y);
        lemma_escaped_then_quote(a1, b1, x, y);
        assert(a =~= seq![a[0]] + a1);
        assert(b =~= seq![b[0]] + b1);
    }
}

/// A JSON string literal followed by more text determines both the string
/// and the rest.
proof fn lemma_quoted_prefix(a: Seq<char>, b: Seq<char>, x: Seq<char>, y: Seq<char>)
    requires
        json_quoted(a)->0 + x == json_quoted(b)->0 + y,
    ensures
        a == b,
        x == y,
{
    reveal(json_quoted);
    let q = seq!['"'];
    assert(json_quoted(a)->0 + x =~= q + (json_escaped(a) + q + x));
    assert(json_quoted(b)->0 + y =~= q + (json_escaped(b) + q + y));
    assert(json_escaped(a) + q + x =~= (json_quoted(a)->0 + x).drop_first());
    assert(json_escaped(b) + q + y =~= (json_quoted(b)->0 + y).drop_first());
    lemma_escaped_then_quote(a, b, x, y);
}


proof fn lemma_cancel_front(p: Seq<char>, x: Seq<char>, y: Seq<char>)
    requires
        p + x == p + y,
    ensures
        x == y,
{
    assert(x =~= (p + x).subrange(p.len() as int, (p + x).len() as int));
    assert(y =~= (p + y).subrange(p.len() as int, (p + y).len() as int));
}

proof fn lemma_cancel_back(x: Seq<char>, y: Seq<char>, p: Seq<char>)
    requires
        x + p == y + p,
    ensures
        x == y,
{
    assert(x =~= (x + p).subrange(0, x.len() as int));
    assert(y =~= (y + p).subrange(0, y.len() as int));
}

proof fn lemma_decimal_injective(n: nat, m: nat)
    requires
        decimal(n) == decimal(m),
    ensures
        n == m,
{
    lemma_decimal_reads_back(n);
    lemma_decimal_reads_back(m);
}

/// The text of a cancellation target grouped from the right.
spec fn cancellation_nested(t: CancellationTarget) -> Seq<char> {
    "{\"contract_id\":"@ + (json_quoted(t.contract_id@)->0 + (",\"security_code\":"@ + (json_quoted(
        t.security_code@,
    )->0 + (",\"security_name\":"@ + (json_quoted(t.security_name@)->0 + (",\"side\":"@ + (
    json_quoted(t.side@)->0 + (",\"price\":"@ + (json_quoted(t.price@)->0 + (",\"quantity\":"@ + (
    decimal(t.quantity as nat) + "}"@)))))))))))
}

#[verifier::rlimit(50)]
proof fn lemma_cancellation_nested(t: CancellationTarget)
    ensures
        cancellation_json(t) == Some(cancellation_nested(t)),
{
    reveal(json_quoted);
    assert(cancellation_json(t)->0 =~= cancellation_nested(t));
}

/// The JSON text of a cancellation target holds every field: two targets
/// with the same text agree on contract id, code, name, side, price and
/// quantity.
pub proof fn law_cancellation_json_binds_every_field(t1: CancellationTarget, t2: CancellationTarget)
    requires
        cancellation_json(t1) is Some,
        cancellation_json(t1) == cancellation_json(t2),
    ensures
        t1.contract_id@ == t2.contract_id@,
        t1.security_code@ == t2.security_code@,
        t1.security_name@ == t2.security_name@,
        t1.side@ == t2.side@,
        t1.price@ == t2.price@,
        t1.quantity == t2.quantity,
{
    lemma_cancellation_nested(t1);
    lemma_cancellation_nested(t2);
    let l6 = ",\"quantity\":"@;
    let close = "}"@;
    let d1 = decimal(t1.quantity as nat);
    let d2 = decimal(t2.quantity as nat);
    let r1_6 = l6 + (d1 + close);
    let r2_6 = l6 + (d2 + close);
    let r1_5 = ",\"price\":"@ + (json_quoted(t1.price@)->0 + r1_6);
    let r2_5 = ",\"price\":"@ + (json_quoted(t2.price@)->0 + r2_6);
    let r1_4 = ",\"side\":"@ + (json_quoted(t1.side@)->0 + r1_5);
    let r2_4 = ",\"side\":"@ + (json_quoted(t2.side@)->0 + r2_5);
    let r1_3 = ",\"security_name\":"@ + (json_quoted(t1.security_name@)->0 + r1_4);
    let r2_3 = ",\"security_name\":"@ + (json_quoted(t2.security_name@)->0 + r2_4);
    let r1_2 = ",\"security_code\":"@ + (json_quoted(t1.security_code@)->0 + r1_3);
    let r2_2 = ",\"security_code\":"@ + (json_quoted(t2.security_code@)->0 + r2_3);
    lemma_cancel_front("{\"contract_id\":"@, json_quoted(t1.contract_id@)->0 + r1_2, json_quoted(t2.contract_id@)->0 + r2_2);
    lemma_quoted_prefix(t1.contract_id@, t2.contract_id@, r1_2, r2_2);
    lemma_cancel_front(",\"security_code\":"@, json_quoted(t1.security_code@)->0 + r1_3, json_quoted(t2.security_code@)->0 + r2_3);
    lemma_quoted_prefix(t1.security_code@, t2.security_code@, r1_3, r2_3);
    lemma_cancel_front(",\"security_name\":"@, json_quoted(t1.security_name@)->0 + r1_4, json_quoted(t2.security_name@)->0 + r2_4);
    lemma_quoted_prefix(t1.security_name@, t2.security_name@, r1_4, r2_4);
    lemma_cancel_front(",\"side\":"@, json_quoted(t1.side@)->0 + r1_5, json_quoted(t2.side@)->0 + r2_5);
    lemma_quoted_prefix(t1.side@, t2.side@, r1_5, r2_5);
    lemma_cancel_front(",\"price\":"@, json_quoted(t1.price@)->0 + r1_6, json_quoted(t2.price@)->0 + r2_6);
    lemma_quoted_prefix(t1.price@, t2.price@, r1_6, r2_6);
    lemma_cancel_front(l6, d1 + close, d2 + close);
    lemma_cancel_back(d1, d2, close);
    lemma_decimal_injective(t1.quantity as nat, t2.quantity as nat);
}


/// The text of an order grouped from the right.
spec fn order_nested(o: StageOrderRequest) -> Seq<char> {
    "{\"security_code\":"@ + (json_quoted(o.security_code@)->0 + (",\"side\":\""@ + (side_name(o.side)
        + ("\",\"price\":"@ + (json_quoted(o.price@)->0 + (",\"quantity\":"@ + (decimal(
        o.quantity as nat,
    ) + "}"@)))))))
}

#[verifier::rlimit(50)]
proof fn lemma_order_nested(o: StageOrderRequest)
    ensures
        order_json(o) == Some(order_nested(o)),
{
    reveal(json_quoted);
    assert(order_json(o)->0 =~= order_nested(o));
}

/// The JSON text of an order holds every field: two orders with the same
/// text agree on code, side, price and quantity.
pub proof fn law_order_json_binds_every_field(o1: StageOrderRequest, o2: StageOrderRequest)
    requires
        order_json(o1) is Some,
        order_json(o1) == order_json(o2),
    ensures
        o1.security_code@ == o2.security_code@,
        o1.side == o2.side,
        o1.price@ == o2.price@,
        o1.quantity == o2.quantity,
{
    lemma_order_nested(o1);
    lemma_order_nested(o2);
    reveal_strlit("buy");
    reveal_strlit("sell");
    let close = "}"@;
    let d1 = decimal(o1.quantity as nat);
    let d2 = decimal(o2.quantity as nat);
    let r1_4 = ",\"quantity\":"@ + (d1 + close);
    let r2_4 = ",\"quantity\":"@ + (d2 + close);
    let r1_3 = "\",\"price\":"@ + (json_quoted(o1.price@)->0 + r1_4);
    let r2_3 = "\",\"price\":"@ + (json_quoted(o2.price@)->0 + r2_4);
    let r1_2 = ",\"side\":\""@ + (side_name(o1.side) + r1_3);
    let r2_2 = ",\"side\":\""@ + (side_name(o2.side) + r2_3);
    lemma_cancel_front("{\"security_code\":"@, json_quoted(o1.security_code@)->0 + r1_2, json_quoted(o2.security_code@)->0 + r2_2);
    lemma_quoted_prefix(o1.security_code@, o2.security_code@, r1_2, r2_2);
    lemma_cancel_front(",\"side\":\""@, side_name(o1.side) + r1_3, side_name(o2.side) + r2_3);
    assert((side_name(o1.side) + r1_3)[0] == side_name(o1.side)[0]);
    assert((side_name(o2.side) + r2_3)[0] == side_name(o2.side)[0]);
    assert(o1.side == o2.side);
    lemma_cancel_front(side_name(o1.side), r1_3, r2_3);
    lemma_cancel_front("\",\"price\":"@, json_quoted(o1.price@)->0 + r1_4, json_quoted(o2.price@)->0 + r2_4);
    lemma_quoted_prefix(o1.price@, o2.price@, r1_4, r2_4);
    lemma_cancel_front(",\"quantity\":"@, d1 + close, d2 + close);
    lemma_cancel_back(d1, d2, close);
    lemma_decimal_injective(o1.quantity as nat, o2.quantity as nat);
}

/// The text that a fingerprint digests binds the whole payload: two
/// payloads of one kind that digest the same text are the same order, or
/// the same cancellation target, field for field.
pub proof fn law_fingerprint_text_binds_payload(k: LiveOperationKind, p1: LivePayload, p2: LivePayload)
    requires
        fingerprint_json(k, p1) is Some,
        fingerprint_json(k, p1) == fingerprint_json(k, p2),
    ensures
        match (p1, p2) {
            (LivePayload::Order(a), LivePayload::Order(b)) => a.security_code@ == b.security_code@
                && a.side == b.side && a.price@ == b.price@ && a.quantity == b.quantity,
            (LivePayload::Cancellation(a), LivePayload::Cancellation(b)) => a.contract_id@
                == b.contract_id@ && a.security_code@ == b.security_code@ && a.security_name@
                == b.security_name@ && a.side@ == b.side@ && a.price@ == b.price@ && a.quantity
                == b.quantity,
            _ => false,
        },
{
    let b1 = match p1 {
        LivePayload::Order(o) => order_json(o),
        LivePayload::Cancellation(t) => cancellation_json(t),
    }->0;
    let b2 = match p2 {
        LivePayload::Order(o) => order_json(o),
        LivePayload::Cancellation(t) => cancellation_json(t),
    }->0;
    let head = "[\""@ + kind_name(k) + "\","@;
    assert(fingerprint_json(k, p1)->0 =~= head + b1 + "]"@);
    assert(fingerprint_json(k, p2)->0 =~= head + b2 + "]"@);
    lemma_cancel_back(head + b1, head + b2, "]"@);
    lemma_cancel_front(head, b1, b2);
    reveal_strlit("{\"security_code\":");
    reveal_strlit("{\"contract_id\":");
    match (p1, p2) {
        (LivePayload::Order(a), LivePayload::Order(b)) => {
            law_order_json_binds_every_field(a, b);
        },
        (LivePayload::Cancellation(a), LivePayload::Cancellation(b)) => {
            law_cancellation_json_binds_every_field(a, b);
        },
        (LivePayload::Order(a), LivePayload::Cancellation(b)) => {
            lemma_order_nested(a);
            lemma_cancellation_nested(b);
            assert(b1[2] == "{\"security_code\":"@[2]);
            assert(b2[2] == "{\"contract_id\":"@[2]);
        },
        (LivePayload::Cancellation(a), LivePayload::Order(b)) => {
            lemma_order_nested(b);
            lemma_cancellation_nested(a);
            assert(b2[2] == "{\"security_code\":"@[2]);
            assert(b1[2] == "{\"contract_id\":"@[2]);
        },
    }
}

} // verus!
