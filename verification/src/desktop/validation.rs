//! Checks on the settings an operator can change.
use vstd::prelude::*;

use crate::config::{
    bind_allowed, bind_error, mode_alias, mode_error, mode_name, normalize_path, normalized_path, spec_is_loopback,
    validate_bind_for_mode, NetworkMode, SocketAddress,
};
use crate::text::{ascii_lower, contains, str_eq, trim, trim_string};
use vstd::utf8::encode_utf8;

verus! {

/// A text result as its views.
pub open spec fn text_result(r: Result<String, String>) -> Result<Seq<char>, Seq<char>> {
    match r {
        Ok(v) => Ok(v@),
        Err(e) => Err(e@),
    }
}

/// What the MCP path check makes of a path.
pub open spec fn mcp_path_check(path: Seq<char>) -> Result<Seq<char>, Seq<char>> {
    let n = normalized_path(trim(path));
    if trim(path).len() == 0 {
        Err("MCP path is required"@)
    } else if encode_utf8(n).len() > 128 {
        Err("MCP path too long"@)
    } else if n.contains(' ') || n.contains('\\') {
        Err("MCP path contains invalid characters"@)
    } else {
        Ok(n)
    }
}

/// What the bundle identifier check makes of an identifier.
pub open spec fn bundle_check(id: Seq<char>) -> Result<Seq<char>, Seq<char>> {
    let t = trim(id);
    if t.len() == 0 {
        Err("bundle identifier is required"@)
    } else if encode_utf8(t).len() > 256 {
        Err("bundle identifier too long"@)
    } else if exists|i: int| 0 <= i < t.len() && !bundle_char(#[trigger] t[i]) {
        Err("bundle identifier contains invalid characters"@)
    } else if !t.contains('.') {
        Err("bundle identifier should contain a dot"@)
    } else {
        Ok(t)
    }
}

/// What the process name check makes of a name.
pub open spec fn process_check(name: Seq<char>) -> Result<Seq<char>, Seq<char>> {
    let t = trim(name);
    if t.len() == 0 {
        Err("process name is required"@)
    } else if encode_utf8(t).len() > 256 {
        Err("process name too long"@)
    } else {
        Ok(t)
    }
}

/// What the traversal depth check makes of a depth.
pub open spec fn depth_check(v: nat) -> Result<nat, Seq<char>> {
    if 1 <= v <= 12 {
        Ok(v)
    } else {
        Err("max depth must be between 1 and 12"@)
    }
}

/// What the traversal limit check makes of a node count.
pub open spec fn nodes_check(v: nat) -> Result<nat, Seq<char>> {
    if 1 <= v <= 2000 {
        Ok(v)
    } else {
        Err("max nodes must be between 1 and 2000"@)
    }
}

/// What the stock service URL check makes of a URL.
pub open spec fn url_check(url: Option<Seq<char>>) -> Result<Option<Seq<char>>, Seq<char>> {
    match url {
        None => Ok(None),
        Some(raw) => {
            let t = trim(raw);
            if t.len() == 0 {
                Ok(None)
            } else if encode_utf8(t).len() > 2048 {
                Err("stock service URL too long"@)
            } else {
                match url_facts(t) {
                    Err(m) => Err("invalid URL: "@ + m),
                    Ok((scheme, host)) => if !(scheme == "http"@ || scheme == "https"@) {
                        Err("stock service URL must be http or https"@)
                    } else if !host {
                        Err("stock service URL must have a host"@)
                    } else {
                        Ok(Some(t))
                    },
                }
            }
        },
    }
}

/// What the network mode check makes of a mode name: its canonical name.
pub open spec fn mode_check(raw: Seq<char>) -> Result<Seq<char>, Seq<char>> {
    match mode_alias(ascii_lower(trim(raw))) {
        Some(m) => Ok(mode_name(m)),
        None => Err(mode_error(raw)),
    }
}

/// What the listening address check makes of an address for a mode name.
pub open spec fn bind_check(
    addr: Seq<char>,
    parsed: Option<SocketAddress>,
    shown: Seq<char>,
    network_mode: Seq<char>,
) -> Result<SocketAddress, Seq<char>> {
    let mode = mode_alias(ascii_lower(trim(network_mode)));
    if trim(addr).len() == 0 {
        Err("bind address is required"@)
    } else if parsed is None {
        Err("bind address must be a socket address like 127.0.0.1:5190"@)
    } else if mode is None {
        Err(mode_error(network_mode))
    } else if !bind_allowed(parsed->0, mode->0) {
        Err(bind_error(parsed->0, shown, mode->0))
    } else {
        Ok(parsed->0)
    }
}

/// Checks a loopback listening address. `parsed` is `addr`, trimmed, as
/// parsed by `SocketAddr`.
pub fn validate_bind_addr(addr: &str, parsed: Option<SocketAddress>) -> (r: Result<SocketAddress, String>)
    ensures
        match r {
            Ok(a) => trim(addr@).len() > 0 && parsed == Some(a) && spec_is_loopback(a.ip),
            Err(e) => if trim(addr@).len() == 0 {
                e@ == "bind address is required"@
            } else if parsed is None {
                e@ == "bind address must be a socket address like 127.0.0.1:5190"@
            } else {
                !spec_is_loopback(parsed->0.ip) && e@ == "bind address must be loopback (127.0.0.1 or ::1)"@
            },
        },
{
    let trimmed = trim_string(addr);
    if trimmed.as_str().unicode_len() == 0 {
        return Err(String::from_str("bind address is required"));
    }
    let a = match parsed {
        Some(a) => a,
        None => {
            return Err(String::from_str("bind address must be a socket address like 127.0.0.1:5190"));
        },
    };
    if !a.ip.is_loopback() {
        return Err(String::from_str("bind address must be loopback (127.0.0.1 or ::1)"));
    }
    Ok(a)
}

/// The MCP path accepted from an operator: required, normalized, at most 128
/// bytes, without spaces or backslashes.
pub fn validate_mcp_path(path: &str) -> (r: Result<String, String>)
    ensures
        text_result(r) == mcp_path_check(path@),
        ({
            let n = normalized_path(trim(path@));
            match r {
                Ok(p) => trim(path@).len() > 0 && p@ == n && encode_utf8(n).len() <= 128 && !n.contains(' ')
                    && !n.contains('\\'),
                Err(e) => if trim(path@).len() == 0 {
                    e@ == "MCP path is required"@
                } else if encode_utf8(n).len() > 128 {
                    e@ == "MCP path too long"@
                } else {
                    (n.contains(' ') || n.contains('\\')) && e@ == "MCP path contains invalid characters"@
                },
            }
        }),
{
    let trimmed = trim_string(path);
    if trimmed.as_str().unicode_len() == 0 {
        return Err(String::from_str("MCP path is required"));
    }
    let normalized = normalize_path(trimmed.as_str());
    if byte_len(normalized.as_str()) > 128 {
        return Err(String::from_str("MCP path too long"));
    }
    if has_char(normalized.as_str(), ' ') || has_char(normalized.as_str(), '\\') {
        return Err(String::from_str("MCP path contains invalid characters"));
    }
    Ok(normalized)
}

/// The length of `s` in UTF-8 bytes.
pub fn byte_len(s: &str) -> (n: usize)
    ensures
        n == encode_utf8(s@).len(),
{
    s.as_bytes().len()
}

/// Whether `c` occurs in `s`.
pub fn has_char(s: &str, c: char) -> (b: bool)
    ensures
        b == s@.contains(c),
{
    let v = crate::text::chars_of(s);
    let mut i: usize = 0;
    while i < v.len()
        invariant
            i <= v@.len(),
            v@ == s@,
            forall|k: int| 0 <= k < i ==> v@[k] != c,
        decreases v@.len() - i,
    {
        if v[i] == c {
            return true;
        }
        i = i + 1;
    }
    false
}

/// What `url::Url::parse` makes of a text: its scheme and whether it has a
/// host, or the parse error's message.
pub uninterp spec fn url_facts(input: Seq<char>) -> Result<(Seq<char>, bool), Seq<char>>;

/// Parses `input` with `url::Url::parse` and reads the result's `scheme()`
/// and whether `host_str()` is present, or the `ParseError`'s display text:
/// all of it is the name `url_facts` applied to the input.
#[verifier::external_body]
pub(crate) fn parse_url(input: &str) -> (r: Result<(String, bool), String>)
    ensures
        match r {
            Ok((scheme, host)) => url_facts(input@) == Ok::<(Seq<char>, bool), Seq<char>>((scheme@, host)),
            Err(e) => url_facts(input@) == Err::<(Seq<char>, bool), Seq<char>>(e@),
        },
{
    match url::Url::parse(input) {
        Ok(u) => Ok((u.scheme().to_string(), u.host_str().is_some())),
        Err(e) => Err(e.to_string()),
    }
}

/// What a parsed URL is checked for, given its scheme and host presence.
pub fn check_url_facts(trimmed: &str, facts: Result<(String, bool), String>) -> (r: Result<Option<String>, String>)
    ensures
        match facts {
            Err(m) => r matches Err(e) && e@ == "invalid URL: "@ + m@,
            Ok((scheme, host)) => if !(scheme@ == "http"@ || scheme@ == "https"@) {
                r matches Err(e) && e@ == "stock service URL must be http or https"@
            } else if !host {
                r matches Err(e) && e@ == "stock service URL must have a host"@
            } else {
                r matches Ok(Some(u)) && u@ == trimmed@
            },
        },
{
    match facts {
        Err(m) => {
            let mut e = String::from_str("invalid URL: ");
            e.append(m.as_str());
            Err(e)
        },
        Ok((scheme, host)) => {
            if !(str_eq(scheme.as_str(), "http") || str_eq(scheme.as_str(), "https")) {
                return Err(String::from_str("stock service URL must be http or https"));
            }
            if !host {
                return Err(String::from_str("stock service URL must have a host"));
            }
            Ok(Some(String::from_str(trimmed)))
        },
    }
}

/// The stock service URL accepted from an operator: blank means none; it
/// must be at most 2048 bytes, parse, use http or https and name a host.
pub fn validate_stock_service_url(url: &Option<String>) -> (r: Result<Option<String>, String>)
    ensures
        url_check(
            match url {
                Some(u) => Some(u@),
                None => None,
            },
        ) == match r {
            Ok(Some(u)) => Ok::<Option<Seq<char>>, Seq<char>>(Some(u@)),
            Ok(None) => Ok(None),
            Err(e) => Err(e@),
        },
        match url {
            None => r matches Ok(None),
            Some(raw) => {
                let t = trim(raw@);
                if t.len() == 0 {
                    r matches Ok(None)
                } else if encode_utf8(t).len() > 2048 {
                    r matches Err(e) && e@ == "stock service URL too long"@
                } else {
                    match url_facts(t) {
                        Err(m) => r matches Err(e) && e@ == "invalid URL: "@ + m,
                        Ok((scheme, host)) => if !(scheme == "http"@ || scheme == "https"@) {
                            r matches Err(e) && e@ == "stock service URL must be http or https"@
                        } else if !host {
                            r matches Err(e) && e@ == "stock service URL must have a host"@
                        } else {
                            r matches Ok(Some(u)) && u@ == t
                        },
                    }
                }
            },
        },
{
    let raw = match url {
        Some(raw) => raw,
        None => {
            return Ok(None);
        },
    };
    let trimmed = trim_string(raw.as_str());
    if trimmed.as_str().unicode_len() == 0 {
        return Ok(None);
    }
    if byte_len(trimmed.as_str()) > 2048 {
        return Err(String::from_str("stock service URL too long"));
    }
    let facts = parse_url(trimmed.as_str());
    check_url_facts(trimmed.as_str(), facts)
}

/// Whether `char::is_alphanumeric` holds of `c`.
pub uninterp spec fn unicode_alphanumeric(c: char) -> bool;

/// Tests `c` with `char::is_alphanumeric` (Unicode `Alphabetic` or
/// `Numeric`): the answer is the name `unicode_alphanumeric` applied to it.
/// Among ASCII characters exactly the letters and digits have one of those
/// properties.
#[verifier::external_body]
fn is_alphanumeric(c: char) -> (b: bool)
    ensures
        b == unicode_alphanumeric(c),
        (c as u32) < 128 ==> (b <==> (('a' <= c && c <= 'z') || ('A' <= c && c <= 'Z') || ('0' <= c
            && c <= '9'))),
{
    c.is_alphanumeric()
}

/// A character allowed in a bundle identifier.
pub open spec fn bundle_char(c: char) -> bool {
    unicode_alphanumeric(c) || c == '.' || c == '-' || c == '_'
}

/// Whether `c` may stand in a bundle identifier; among ASCII characters
/// exactly the letters, the digits, `.`, `-` and `_` may.
pub fn is_bundle_char(c: char) -> (b: bool)
    ensures
        b == bundle_char(c),
        (c as u32) < 128 ==> (b <==> (('a' <= c && c <= 'z') || ('A' <= c && c <= 'Z') || ('0' <= c
            && c <= '9') || c == '.' || c == '-' || c == '_')),
{
    is_alphanumeric(c) || c == '.' || c == '-' || c == '_'
}

/// The bundle identifier accepted from an operator: required, at most 256
/// bytes, made of letters, digits, `.`, `-` and `_`, with at least one dot.
pub fn validate_bundle_id(id: &str) -> (r: Result<String, String>)
    ensures
        text_result(r) == bundle_check(id@),
        ({
            let t = trim(id@);
            match r {
                Ok(v) => v@ == t && t.len() > 0 && encode_utf8(t).len() <= 256 && (forall|i: int|
                    0 <= i < t.len() ==> bundle_char(#[trigger] t[i])) && t.contains('.'),
                Err(e) => if t.len() == 0 {
                    e@ == "bundle identifier is required"@
                } else if encode_utf8(t).len() > 256 {
                    e@ == "bundle identifier too long"@
                } else if exists|i: int| 0 <= i < t.len() && !bundle_char(#[trigger] t[i]) {
                    e@ == "bundle identifier contains invalid characters"@
                } else {
                    !t.contains('.') && e@ == "bundle identifier should contain a dot"@
                },
            }
        }),
{
    let trimmed = trim_string(id);
    if trimmed.as_str().unicode_len() == 0 {
        return Err(String::from_str("bundle identifier is required"));
    }
    if byte_len(trimmed.as_str()) > 256 {
        return Err(String::from_str("bundle identifier too long"));
    }
    let v = crate::text::chars_of(trimmed.as_str());
    let mut i: usize = 0;
    while i < v.len()
        invariant
            i <= v@.len(),
            v@ == trimmed@,
            trimmed@ == trim(id@),
            trim(id@).len() > 0,
            encode_utf8(trim(id@)).len() <= 256,
            forall|k: int| 0 <= k < i ==> bundle_char(#[trigger] v@[k]),
        decreases v@.len() - i,
    {
        let c = v[i];
        if !is_bundle_char(c) {
            proof {
                assert(!bundle_char(trimmed@[i as int]));
            }
            return Err(String::from_str("bundle identifier contains invalid characters"));
        }
        i = i + 1;
    }
    if !has_char(trimmed.as_str(), '.') {
        return Err(String::from_str("bundle identifier should contain a dot"));
    }
    Ok(trimmed)
}

/// The broker process name accepted from an operator: required and at most
/// 256 bytes.
pub fn validate_process_name(name: &str) -> (r: Result<String, String>)
    ensures
        text_result(r) == process_check(name@),
        ({
            let t = trim(name@);
            match r {
                Ok(v) => v@ == t && t.len() > 0 && encode_utf8(t).len() <= 256,
                Err(e) => if t.len() == 0 {
                    e@ == "process name is required"@
                } else {
                    encode_utf8(t).len() > 256 && e@ == "process name too long"@
                },
            }
        }),
{
    let trimmed = trim_string(name);
    if trimmed.as_str().unicode_len() == 0 {
        return Err(String::from_str("process name is required"));
    }
    if byte_len(trimmed.as_str()) > 256 {
        return Err(String::from_str("process name too long"));
    }
    Ok(trimmed)
}

pub fn validate_max_depth(v: usize) -> (r: Result<usize, String>)
    ensures
        match depth_check(v as nat) {
            Ok(d) => r matches Ok(x) && x == d,
            Err(m) => r matches Err(e) && e@ == m,
        },
        match r {
            Ok(d) => d == v && 1 <= v <= 12,
            Err(e) => !(1 <= v <= 12) && e@ == "max depth must be between 1 and 12"@,
        },
{
    if !(1 <= v && v <= 12) {
        return Err(String::from_str("max depth must be between 1 and 12"));
    }
    Ok(v)
}

pub fn validate_max_nodes(v: usize) -> (r: Result<usize, String>)
    ensures
        match nodes_check(v as nat) {
            Ok(d) => r matches Ok(x) && x == d,
            Err(m) => r matches Err(e) && e@ == m,
        },
        match r {
            Ok(d) => d == v && 1 <= v <= 2000,
            Err(e) => !(1 <= v <= 2000) && e@ == "max nodes must be between 1 and 2000"@,
        },
{
    if !(1 <= v && v <= 2000) {
        return Err(String::from_str("max nodes must be between 1 and 2000"));
    }
    Ok(v)
}

/// The canonical name of the network mode an operator chose.
pub fn validate_network_mode(raw: &str) -> (r: Result<String, String>)
    ensures
        text_result(r) == mode_check(raw@),
{
    let mode = NetworkMode::parse(raw)?;
    Ok(String::from_str(mode.as_str()))
}

/// A listening address checked against the chosen network mode. `parsed` is
/// `addr`, trimmed, as parsed by `SocketAddr`, and `shown` its display text.
pub fn validate_bind_addr_for_mode(
    addr: &str,
    parsed: Option<SocketAddress>,
    shown: &str,
    network_mode: &str,
) -> (r: Result<SocketAddress, String>)
    ensures
        match bind_check(addr@, parsed, shown@, network_mode@) {
            Ok(a) => r == Ok::<SocketAddress, String>(a),
            Err(m) => r matches Err(e) && e@ == m,
        },
        ({
            let mode = mode_alias(ascii_lower(trim(network_mode@)));
            if trim(addr@).len() == 0 {
                r matches Err(e) && e@ == "bind address is required"@
            } else if parsed is None {
                r matches Err(e) && e@ == "bind address must be a socket address like 127.0.0.1:5190"@
            } else if mode is None {
                r matches Err(e) && e@ == mode_error(network_mode@)
            } else if !bind_allowed(parsed->0, mode->0) {
                r matches Err(e) && e@ == bind_error(parsed->0, shown@, mode->0)
            } else {
                r == Ok::<SocketAddress, String>(parsed->0)
            }
        }),
{
    let trimmed = trim_string(addr);
    if trimmed.as_str().unicode_len() == 0 {
        return Err(String::from_str("bind address is required"));
    }
    let a = match parsed {
        Some(a) => a,
        None => {
            return Err(String::from_str("bind address must be a socket address like 127.0.0.1:5190"));
        },
    };
    let mode = NetworkMode::parse(network_mode)?;
    validate_bind_for_mode(a, shown, mode)?;
    Ok(a)
}

} // verus!
