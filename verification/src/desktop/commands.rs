//! Arguments of the desktop shell's commands, and the reports they give.
use vstd::prelude::*;

use super::validation::{parse_url, url_facts};
use crate::storage::{
    kind_named, parse_kind, parse_state, state_named, LiveOperationKind, LiveOperationState,
};
use crate::text::{decimal, str_eq, trim, trim_string, u64_to_string};

verus! {

/// The page size of a history listing: 20 by default, held within 1..=100.
pub fn history_limit(limit: Option<usize>) -> (r: usize)
    ensures
        r == match limit {
            None => 20,
            Some(v) => if v < 1 {
                1
            } else if v > 100 {
                100
            } else {
                v as int
            },
        },
{
    let v = match limit {
        Some(v) => v,
        None => 20,
    };
    if v < 1 {
        1
    } else if v > 100 {
        100
    } else {
        v
    }
}

/// A kind filter: an unknown kind means no filter.
pub fn kind_filter(kind: Option<&str>) -> (r: Option<LiveOperationKind>)
    ensures
        r == match kind {
            Some(k) => kind_named(k@),
            None => None,
        },
{
    match kind {
        Some(k) => match parse_kind(k) {
            Ok(v) => Some(v),
            Err(_) => None,
        },
        None => None,
    }
}

/// A state filter: an unknown state means no filter.
pub fn state_filter(state: Option<&str>) -> (r: Option<LiveOperationState>)
    ensures
        r == match state {
            Some(s) => state_named(s@),
            None => None,
        },
{
    match state {
        Some(s) => match parse_state(s) {
            Ok(v) => Some(v),
            Err(_) => None,
        },
        None => None,
    }
}

/// An operation id filter, trimmed; blank means none.
pub fn operation_filter(operation_id: Option<&str>) -> (r: Option<String>)
    ensures
        match operation_id {
            Some(v) if trim(v@).len() > 0 => r matches Some(t) && t@ == trim(v@),
            _ => r is None,
        },
{
    match operation_id {
        Some(v) => {
            let t = trim_string(v);
            if t.as_str().unicode_len() > 0 {
                Some(t)
            } else {
                None
            }
        },
        None => None,
    }
}

/// The URL to probe for a connection test: trimmed, not blank, parseable and
/// http or https.
pub fn url_test_target(url: &str) -> (r: Result<String, String>)
    ensures
        ({
            let t = trim(url@);
            if t.len() == 0 {
                r matches Err(e) && e@ == "URL is empty"@
            } else {
                match url_facts(t) {
                    Err(m) => r matches Err(e) && e@ == "invalid URL: "@ + m,
                    Ok((scheme, _)) => if scheme == "http"@ || scheme == "https"@ {
                        r matches Ok(v) && v@ == t
                    } else {
                        r matches Err(e) && e@ == "URL must be http or https"@
                    },
                }
            }
        }),
{
    let trimmed = trim_string(url);
    if trimmed.as_str().unicode_len() == 0 {
        return Err(String::from_str("URL is empty"));
    }
    match parse_url(trimmed.as_str()) {
        Err(m) => {
            let mut e = String::from_str("invalid URL: ");
            e.append(m.as_str());
            Err(e)
        },
        Ok((scheme, _)) => {
            if str_eq(scheme.as_str(), "http") || str_eq(scheme.as_str(), "https") {
                Ok(trimmed)
            } else {
                Err(String::from_str("URL must be http or https"))
            }
        },
    }
}

#[derive(Clone, Debug)]
pub struct TestConnectionResult {
    pub ok: bool,
    pub status: Option<u16>,
    pub message: String,
    pub latency_ms: Option<u64>,
}

/// The report for a probe that got an HTTP answer: success and redirection
/// statuses (200 to 399) count as reachable.
pub fn answered_report(status: u16, latency_ms: u64) -> (r: TestConnectionResult)
    ensures
        r.ok == (200 <= status <= 399),
        r.status == Some(status),
        r.latency_ms == Some(latency_ms),
        r.message@ == (if 200 <= status <= 399 {
            "reachable (HTTP "@ + decimal(status as nat) + ")"@
        } else {
            "returned HTTP "@ + decimal(status as nat)
        }),
{
    let ok = 200 <= status && status <= 399;
    let code = u64_to_string(status as u64);
    let message = if ok {
        let mut m = String::from_str("reachable (HTTP ");
        m.append(code.as_str());
        m.append(")");
        m
    } else {
        let mut m = String::from_str("returned HTTP ");
        m.append(code.as_str());
        m
    };
    TestConnectionResult { ok, status: Some(status), message, latency_ms: Some(latency_ms) }
}

/// The report for a probe that got no answer.
pub fn failed_report(error: &str, latency_ms: u64) -> (r: TestConnectionResult)
    ensures
        !r.ok,
        r.status is None,
        r.latency_ms == Some(latency_ms),
        r.message@ == "connection failed: "@ + error@,
{
    let mut message = String::from_str("connection failed: ");
    message.append(error);
    TestConnectionResult { ok: false, status: None, message, latency_ms: Some(latency_ms) }
}

/// The operation id to resolve, trimmed; it is required.
pub fn stale_operation_id(operation_id: &str) -> (r: Result<String, String>)
    ensures
        if trim(operation_id@).len() > 0 {
            r matches Ok(v) && v@ == trim(operation_id@)
        } else {
            r matches Err(e) && e@ == "operation_id is required"@
        },
{
    let t = trim_string(operation_id);
    if t.as_str().unicode_len() > 0 {
        Ok(t)
    } else {
        Err(String::from_str("operation_id is required"))
    }
}

/// The lower-case variant name of a state, as shown in resolution reports.
pub open spec fn state_report_name(state: LiveOperationState) -> Seq<char> {
    match state {
        LiveOperationState::ConfirmationOpened => "confirmationopened"@,
        LiveOperationState::Confirming => "confirming"@,
        LiveOperationState::Confirmed => "confirmed"@,
        LiveOperationState::Unknown => "unknown"@,
        LiveOperationState::Expired => "expired"@,
        LiveOperationState::Aborted => "aborted"@,
    }
}

pub fn state_report_str(state: LiveOperationState) -> (s: &'static str)
    ensures
        s@ == state_report_name(state),
{
    match state {
        LiveOperationState::ConfirmationOpened => "confirmationopened",
        LiveOperationState::Confirming => "confirming",
        LiveOperationState::Confirmed => "confirmed",
        LiveOperationState::Unknown => "unknown",
        LiveOperationState::Expired => "expired",
        LiveOperationState::Aborted => "aborted",
    }
}

} // verus!
