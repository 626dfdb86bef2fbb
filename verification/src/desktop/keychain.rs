//! Where the bearer token comes from, without ever showing it.
use vstd::prelude::*;

use crate::desktop::validation::{byte_len, has_char};
use crate::text::{trim, trim_string};
use vstd::utf8::encode_utf8;

verus! {

/// Whether a token is configured and where it comes from (`env`,
/// `keychain` or `none`); the token itself is not part of it.
#[derive(Clone, Debug)]
pub struct TokenStatus {
    pub configured: bool,
    pub source: String,
}

/// The token from the environment variable's value, trimmed, when it is not
/// blank.
pub fn env_token(env: Option<&str>) -> (r: Option<String>)
    ensures
        match env {
            Some(v) if trim(v@).len() > 0 => r matches Some(t) && t@ == trim(v@),
            _ => r is None,
        },
{
    match env {
        Some(v) => {
            let t = trim_string(v);
            if t.as_str().unicode_len() > 0 {
                Some(t)
            } else {
                None
            }
        },
        None => None,
    }
}

/// Whether the environment provides a token.
pub fn env_token_present(env: Option<&str>) -> (b: bool)
    ensures
        b == (env matches Some(v) && trim(v@).len() > 0),
{
    env_token(env).is_some()
}

/// The effective token and its source: the environment's first; otherwise
/// the keychain's (read only in that case), when it is not blank; otherwise
/// none. A keychain failure counts as none.
pub fn resolve_token(env: Option<&str>, keychain: Result<Option<String>, String>) -> (r: (Option<String>, String))
    ensures
        match env {
            Some(v) if trim(v@).len() > 0 => (r.0 matches Some(t) && t@ == trim(v@)) && r.1@ == "env"@,
            _ => match keychain {
                Ok(Some(t)) if trim(t@).len() > 0 => r.0 == Some(t) && r.1@ == "keychain"@,
                _ => r.0 is None && r.1@ == "none"@,
            },
        },
{
    match env_token(env) {
        Some(t) => {
            return (Some(t), String::from_str("env"));
        },
        None => {},
    }
    match keychain {
        Ok(Some(t)) => {
            let blank = trim_string(t.as_str()).as_str().unicode_len() == 0;
            if blank {
                (None, String::from_str("none"))
            } else {
                (Some(t), String::from_str("keychain"))
            }
        },
        _ => (None, String::from_str("none")),
    }
}

/// Whether a token is configured, and from where.
pub fn token_status(env: Option<&str>, keychain: Result<Option<String>, String>) -> (s: TokenStatus)
    ensures
        match env {
            Some(v) if trim(v@).len() > 0 => s.configured && s.source@ == "env"@,
            _ => match keychain {
                Ok(Some(t)) if trim(t@).len() > 0 => s.configured && s.source@ == "keychain"@,
                _ => !s.configured && s.source@ == "none"@,
            },
        },
{
    let (token, source) = resolve_token(env, keychain);
    TokenStatus { configured: token.is_some(), source }
}

/// The token held in the keychain entry, trimmed; a blank entry holds none.
pub fn stored_token(password: &str) -> (r: Option<String>)
    ensures
        if trim(password@).len() > 0 {
            r matches Some(t) && t@ == trim(password@)
        } else {
            r is None
        },
{
    let t = trim_string(password);
    if t.as_str().unicode_len() > 0 {
        Some(t)
    } else {
        None
    }
}

/// A token accepted for saving: trimmed, not blank, at most 4096 bytes and
/// on one line.
pub fn validate_token(token: &str) -> (r: Result<String, String>)
    ensures
        ({
            let t = trim(token@);
            if t.len() == 0 {
                r matches Err(e) && e@ == "token is empty"@
            } else if encode_utf8(t).len() > 4096 {
                r matches Err(e) && e@ == "token too long"@
            } else if t.contains('\n') || t.contains('\r') {
                r matches Err(e) && e@ == "token contains invalid characters"@
            } else {
                r matches Ok(v) && v@ == t
            }
        }),
{
    let trimmed = trim_string(token);
    if trimmed.as_str().unicode_len() == 0 {
        return Err(String::from_str("token is empty"));
    }
    if byte_len(trimmed.as_str()) > 4096 {
        return Err(String::from_str("token too long"));
    }
    if has_char(trimmed.as_str(), '\n') || has_char(trimmed.as_str(), '\r') {
        return Err(String::from_str("token contains invalid characters"));
    }
    Ok(trimmed)
}

} // verus!
