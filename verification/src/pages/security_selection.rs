//! Security codes and the selected-security label of the trade form.
use vstd::prelude::*;

use super::business::normalize::security_code_text;
use crate::text::{all_digits, chars_of, split_words, str_eq, trim, trim_string, words};

verus! {

/// A security code must be five or six ASCII digits.
pub fn validate_security_code(code: &str) -> (r: Result<(), String>)
    ensures
        r is Ok <==> security_code_text(code@),
        r matches Err(e) ==> e@ == "security code must contain exactly 5 or 6 ASCII digits"@,
{
    let chars = chars_of(code);
    if !super::business::normalize::is_security_code(chars.as_slice()) {
        return Err(String::from_str("security code must contain exactly 5 or 6 ASCII digits"));
    }
    Ok(())
}

/// A selected-security label: a security code, then at least one more word
/// (the name).
pub open spec fn security_label(text: Seq<char>) -> bool {
    words(text).len() >= 2 && security_code_text(words(text)[0])
}

/// The label text, trimmed, when an OCR text is a selected-security label.
pub fn security_label_text(text: &str) -> (r: Option<String>)
    ensures
        match r {
            Some(t) => security_label(text@) && t@ == trim(text@),
            None => !security_label(text@),
        },
{
    let chars = chars_of(text);
    let ws = split_words(chars.as_slice());
    if ws.len() < 2 {
        return None;
    }
    proof {
        assert(ws.deep_view()[0] == ws@[0]@);
    }
    if !super::business::normalize::is_security_code(ws[0].as_slice()) {
        return None;
    }
    Some(trim_string(text))
}

/// Whether a selected-security label names the requested code.
pub open spec fn label_names_code(label: Seq<char>, code: Seq<char>) -> bool {
    words(label).len() > 0 && words(label)[0] == code
}

pub fn label_matches_code(label: &str, code: &str) -> (b: bool)
    ensures
        b == label_names_code(label@, code@),
{
    let chars = chars_of(label);
    let ws = split_words(chars.as_slice());
    if ws.len() == 0 {
        return false;
    }
    proof {
        assert(ws.deep_view()[0] == ws@[0]@);
    }
    let c = chars_of(code);
    crate::text::seq_eq(ws[0].as_slice(), c.as_slice())
}

/// The one label among candidates, if there is exactly one.
pub fn unique_label(labels: Vec<String>) -> (r: Option<String>)
    ensures
        labels@.len() == 1 <==> r is Some,
        r matches Some(l) ==> l == labels@[0],
{
    if labels.len() == 1 {
        let mut labels = labels;
        labels.pop()
    } else {
        None
    }
}

/// The label that the trade form shows for the requested code, if the form
/// shows exactly one label and it names the code.
pub fn selected_security_text(labels: Vec<String>, security_code: &str) -> (r: Option<String>)
    ensures
        match r {
            Some(l) => labels@.len() == 1 && l == labels@[0] && label_names_code(l@, security_code@),
            None => labels@.len() != 1 || !label_names_code(labels@[0]@, security_code@),
        },
{
    match unique_label(labels) {
        Some(l) => {
            if label_matches_code(l.as_str(), security_code) {
                Some(l)
            } else {
                None
            }
        },
        None => None,
    }
}

/// A label clicked to reselect a security must hold a six-digit code and a
/// name.
pub fn check_selected_label(label: &str) -> (r: Result<(), String>)
    ensures
        words(label@).len() == 0 ==> (r matches Err(e) && e@ == "selected security label is empty"@),
        words(label@).len() > 0 ==> (r is Ok <==> (words(label@)[0].len() == 6 && all_digits(
            words(label@)[0],
        ) && words(label@).len() >= 2)),
        words(label@).len() > 0 && r is Err ==> (r matches Err(e) && e@
            == "selected security label must contain a six-digit code and name"@),
{
    let chars = chars_of(label);
    let ws = split_words(chars.as_slice());
    if ws.len() == 0 {
        return Err(String::from_str("selected security label is empty"));
    }
    proof {
        assert(ws.deep_view()[0] == ws@[0]@);
    }
    if ws[0].len() != 6 || !crate::text::all_digits_in(ws[0].as_slice()) || ws.len() < 2 {
        return Err(String::from_str("selected security label must contain a six-digit code and name"));
    }
    Ok(())
}

} // verus!
