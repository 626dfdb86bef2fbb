//! Service configuration: network exposure modes, socket addresses and the
//! checks on where the service may listen.
use vstd::prelude::*;

use crate::text::{
    ascii_lower, chars_of, parse_usize, str_eq, strip_char, strip_char_string, to_ascii_lower, trim,
    is_ws, trim_end, trim_start, trim_string, usize_text,
};

verus! {

#[derive(Clone, Copy, Debug, PartialEq, Eq, Structural)]
pub enum NetworkMode {
    Loopback,
    PrivateOverlay,
}

/// The canonical name of a mode.
pub open spec fn mode_name(mode: NetworkMode) -> Seq<char> {
    match mode {
        NetworkMode::Loopback => "loopback"@,
        NetworkMode::PrivateOverlay => "private-overlay"@,
    }
}

/// The mode that a (trimmed, lower-cased) name or alias denotes.
pub open spec fn mode_alias(v: Seq<char>) -> Option<NetworkMode> {
    if v == "loopback"@ || v == "loopback-only"@ || v == "loopback_only"@ {
        Some(NetworkMode::Loopback)
    } else if v == "private"@ || v == "private-overlay"@ || v == "private_overlay"@ || v
        == "overlay"@ || v == "tailscale"@ || v == "wireguard"@ {
        Some(NetworkMode::PrivateOverlay)
    } else {
        None
    }
}

/// Why a mode name was refused.
pub open spec fn mode_error(raw: Seq<char>) -> Seq<char> {
    if trim(raw).len() == 0 {
        "network mode is required"@
    } else {
        "unknown network mode '"@ + trim(raw) + "'; expected 'loopback' or 'private-overlay'"@
    }
}

impl NetworkMode {
    pub fn as_str(&self) -> (s: &'static str)
        ensures
            s@ == mode_name(*self),
    {
        match self {
            NetworkMode::Loopback => "loopback",
            NetworkMode::PrivateOverlay => "private-overlay",
        }
    }

    /// Reads a mode name, ignoring surrounding whitespace and ASCII case.
    pub fn parse(raw: &str) -> (r: Result<NetworkMode, String>)
        ensures
            match mode_alias(ascii_lower(trim(raw@))) {
                Some(m) => r == Ok::<NetworkMode, String>(m),
                None => r matches Err(e) && e@ == mode_error(raw@),
            },
    {
        let trimmed = trim_string(raw);
        let v = to_ascii_lower(trimmed.as_str());
        let s = v.as_str();
        if str_eq(s, "loopback") || str_eq(s, "loopback-only") || str_eq(s, "loopback_only") {
            Ok(NetworkMode::Loopback)
        } else if str_eq(s, "private") || str_eq(s, "private-overlay") || str_eq(s, "private_overlay")
            || str_eq(s, "overlay") || str_eq(s, "tailscale") || str_eq(s, "wireguard") {
            Ok(NetworkMode::PrivateOverlay)
        } else if s.unicode_len() == 0 {
            proof {
                assert(trimmed@.len() == 0);
            }
            Err(String::from_str("network mode is required"))
        } else {
            proof {
                assert(trimmed@.len() > 0);
            }
            let mut e = String::from_str("unknown network mode '");
            e.append(trimmed.as_str());
            e.append("'; expected 'loopback' or 'private-overlay'");
            Err(e)
        }
    }
}

impl Default for NetworkMode {
    fn default() -> (m: NetworkMode)
        ensures
            m == NetworkMode::Loopback,
    {
        NetworkMode::Loopback
    }
}

/// A mode's name reads back as the same mode.
pub proof fn law_mode_name_round_trip(mode: NetworkMode)
    ensures
        mode_alias(ascii_lower(trim(mode_name(mode)))) == Some(mode),
{
    reveal_strlit("loopback");
    reveal_strlit("loopback-only");
    reveal_strlit("loopback_only");
    reveal_strlit("private");
    reveal_strlit("private-overlay");
    reveal_strlit("private_overlay");
    reveal_strlit("overlay");
    reveal_strlit("tailscale");
    reveal_strlit("wireguard");
    let n = mode_name(mode);
    assert(n.len() > 0 && !is_ws(n[0]) && !is_ws(n.last()));
    assert(trim_start(n) == n);
    assert(trim_end(n) == n);
    assert(ascii_lower(n) =~= n);
    assert(ascii_lower(trim(n)) == n);
}

/// An IP address.
#[derive(Clone, Copy, Debug, PartialEq, Eq, Structural)]
pub enum IpAddress {
    V4(u8, u8, u8, u8),
    V6(u16, u16, u16, u16, u16, u16, u16, u16),
}

/// A socket address: IP address and port.
#[derive(Clone, Copy, Debug, PartialEq, Eq, Structural)]
pub struct SocketAddress {
    pub ip: IpAddress,
    pub port: u16,
}

/// 127.0.0.0/8 or ::1.
pub open spec fn spec_is_loopback(ip: IpAddress) -> bool {
    match ip {
        IpAddress::V4(a, _, _, _) => a == 127,
        IpAddress::V6(a, b, c, d, e, f, g, h) => a == 0 && b == 0 && c == 0 && d == 0 && e == 0 && f
            == 0 && g == 0 && h == 1,
    }
}

/// 0.0.0.0 or ::.
pub open spec fn spec_is_unspecified(ip: IpAddress) -> bool {
    match ip {
        IpAddress::V4(a, b, c, d) => a == 0 && b == 0 && c == 0 && d == 0,
        IpAddress::V6(a, b, c, d, e, f, g, h) => a == 0 && b == 0 && c == 0 && d == 0 && e == 0 && f
            == 0 && g == 0 && h == 0,
    }
}

/// 100.64.0.0/10, the shared address space of carrier-grade NAT.
pub open spec fn spec_is_cgnat(a: u8, b: u8) -> bool {
    a == 100 && 64 <= b <= 127
}

/// Private network addresses: RFC 1918 (10/8, 172.16/12, 192.168/16),
/// IPv4 link-local (169.254/16), CGNAT (100.64/10), IPv6 unique local
/// (fc00::/7) and IPv6 unicast link-local (fe80::/10).
pub open spec fn spec_is_private(ip: IpAddress) -> bool {
    match ip {
        IpAddress::V4(a, b, _, _) => a == 10 || (a == 172 && 16 <= b <= 31) || (a == 192 && b == 168)
            || (a == 169 && b == 254) || spec_is_cgnat(a, b),
        IpAddress::V6(a, _, _, _, _, _, _, _) => !spec_is_loopback(ip) && !spec_is_unspecified(ip) && (
        (0xfc00 <= a <= 0xfdff) || (0xfe80 <= a <= 0xfebf)),
    }
}

impl IpAddress {
    pub fn is_loopback(&self) -> (b: bool)
        ensures
            b == spec_is_loopback(*self),
    {
        match *self {
            IpAddress::V4(a, _, _, _) => a == 127,
            IpAddress::V6(a, b, c, d, e, f, g, h) => a == 0 && b == 0 && c == 0 && d == 0 && e == 0
                && f == 0 && g == 0 && h == 1,
        }
    }

    pub fn is_unspecified(&self) -> (b: bool)
        ensures
            b == spec_is_unspecified(*self),
    {
        match *self {
            IpAddress::V4(a, b, c, d) => a == 0 && b == 0 && c == 0 && d == 0,
            IpAddress::V6(a, b, c, d, e, f, g, h) => a == 0 && b == 0 && c == 0 && d == 0 && e == 0
                && f == 0 && g == 0 && h == 0,
        }
    }
}

pub fn is_cgnat(a: u8, b: u8) -> (r: bool)
    ensures
        r == spec_is_cgnat(a, b),
{
    a == 100 && 64 <= b && b <= 127
}

pub fn is_private_ip(ip: IpAddress) -> (r: bool)
    ensures
        r == spec_is_private(ip),
{
    match ip {
        IpAddress::V4(a, b, _, _) => {
            if a == 10 || (a == 172 && 16 <= b && b <= 31) || (a == 192 && b == 168) || (a == 169 && b
                == 254) {
                return true;
            }
            is_cgnat(a, b)
        },
        IpAddress::V6(a, _, _, _, _, _, _, _) => {
            if ip.is_loopback() || ip.is_unspecified() {
                return false;
            }
            (0xfc00 <= a && a <= 0xfdff) || (0xfe80 <= a && a <= 0xfebf)
        },
    }
}

/// Whether the service may listen on an address in a mode: never on an
/// unspecified address, always on loopback, and otherwise only on a private
/// address in private-overlay mode.
pub open spec fn bind_allowed(addr: SocketAddress, mode: NetworkMode) -> bool {
    !spec_is_unspecified(addr.ip) && (spec_is_loopback(addr.ip) || (mode
        == NetworkMode::PrivateOverlay && spec_is_private(addr.ip)))
}

/// Why an address was refused in a mode.
pub open spec fn bind_error(addr: SocketAddress, shown: Seq<char>, mode: NetworkMode) -> Seq<char> {
    if spec_is_unspecified(addr.ip) {
        "bind address "@ + shown + " is unspecified (0.0.0.0 or ::); public exposure is not allowed"@
    } else if mode == NetworkMode::Loopback {
        "bind address "@ + shown
            + " is not loopback; loopback-only mode requires 127.0.0.1 or ::1. Set STOCK_OPERATOR_NETWORK_MODE=private-overlay for private network use"@
    } else {
        "bind address "@ + shown
            + " is not a private network address; private-overlay mode permits only loopback or private addresses (RFC1918 10/8,172.16/12,192.168/16, CGNAT 100.64/10, ULA fc00::/7, link-local). Public addresses are rejected"@
    }
}

/// Checks an address to listen on against the network mode; `shown` is how
/// the address is written (`SocketAddr`'s display), used in the messages.
pub fn validate_bind_for_mode(addr: SocketAddress, shown: &str, mode: NetworkMode) -> (r: Result<(), String>)
    ensures
        r is Ok <==> bind_allowed(addr, mode),
        r matches Err(e) ==> e@ == bind_error(addr, shown@, mode),
{
    let ip = addr.ip;
    if ip.is_unspecified() {
        let mut e = String::from_str("bind address ");
        e.append(shown);
        e.append(" is unspecified (0.0.0.0 or ::); public exposure is not allowed");
        return Err(e);
    }
    if ip.is_loopback() {
        return Ok(());
    }
    match mode {
        NetworkMode::Loopback => {
            let mut e = String::from_str("bind address ");
            e.append(shown);
            e.append(
                " is not loopback; loopback-only mode requires 127.0.0.1 or ::1. Set STOCK_OPERATOR_NETWORK_MODE=private-overlay for private network use",
            );
            Err(e)
        },
        NetworkMode::PrivateOverlay => {
            if is_private_ip(ip) {
                Ok(())
            } else {
                let mut e = String::from_str("bind address ");
                e.append(shown);
                e.append(
                    " is not a private network address; private-overlay mode permits only loopback or private addresses (RFC1918 10/8,172.16/12,192.168/16, CGNAT 100.64/10, ULA fc00::/7, link-local). Public addresses are rejected",
                );
                Err(e)
            }
        },
    }
}

/// A public (non-private, non-loopback) address is never allowed, whatever
/// the mode; loopback-only mode allows loopback addresses only.
pub proof fn law_no_public_exposure(addr: SocketAddress, mode: NetworkMode)
    ensures
        bind_allowed(addr, mode) ==> spec_is_loopback(addr.ip) || spec_is_private(addr.ip),
        bind_allowed(addr, NetworkMode::Loopback) <==> spec_is_loopback(addr.ip),
        bind_allowed(addr, NetworkMode::Loopback) ==> bind_allowed(addr, NetworkMode::PrivateOverlay),
{
}

/// A path as the service serves it: one leading `/`, no trailing `/`; blank
/// or `/` alone is the root.
pub open spec fn normalized_path(value: Seq<char>) -> Seq<char> {
    let t = trim(value);
    if t.len() == 0 || t == "/"@ {
        "/"@
    } else {
        "/"@ + strip_char(t, '/')
    }
}

pub fn normalize_path(value: &str) -> (r: String)
    ensures
        r@ == normalized_path(value@),
{
    let t = trim_string(value);
    if t.as_str().unicode_len() == 0 || str_eq(t.as_str(), "/") {
        return String::from_str("/");
    }
    let mut r = String::from_str("/");
    let inner = strip_char_string(t.as_str(), '/');
    r.append(inner.as_str());
    r
}

/// A numeric setting read from text (as `str::parse::<usize>`), its default
/// when absent or unreadable, then held within `[min, max]`.
pub open spec fn bounded_value(raw: Option<Seq<char>>, default: nat, min: nat, max: nat) -> nat {
    let v = match raw {
        Some(s) => match usize_text(s) {
            Some(n) => n,
            None => default,
        },
        None => default,
    };
    if v < min {
        min
    } else if v > max {
        max
    } else {
        v
    }
}

pub fn bounded_setting(raw: Option<&str>, default: usize, min: usize, max: usize) -> (r: usize)
    requires
        min <= max,
    ensures
        r == bounded_value(
            match raw {
                Some(s) => Some(s@),
                None => None,
            },
            default as nat,
            min as nat,
            max as nat,
        ),
{
    let v = match raw {
        Some(s) => match parse_usize(s) {
            Some(n) => n,
            None => default,
        },
        None => default,
    };
    if v < min {
        min
    } else if v > max {
        max
    } else {
        v
    }
}

/// The mode a name reads as, or why it is refused.
pub open spec fn mode_reading(raw: Seq<char>) -> Result<NetworkMode, Seq<char>> {
    match mode_alias(ascii_lower(trim(raw))) {
        Some(m) => Ok(m),
        None => Err(mode_error(raw)),
    }
}

/// A text that is not blank.
pub open spec fn given(v: Option<Seq<char>>) -> Option<Seq<char>> {
    match v {
        Some(s) if trim(s).len() > 0 => Some(s),
        _ => None,
    }
}

/// The network mode to run with: the environment's when it names one, else
/// the stored setting's, else loopback. A name that is given is read as it
/// stands: an unknown one is an error, not a fall-back.
pub open spec fn chosen_mode(env: Option<Seq<char>>, stored: Option<Seq<char>>) -> Result<NetworkMode, Seq<char>> {
    match given(env) {
        Some(e) => mode_reading(e),
        None => match given(stored) {
            Some(s) => mode_reading(s),
            None => Ok(NetworkMode::Loopback),
        },
    }
}

pub open spec fn opt_view(v: Option<&str>) -> Option<Seq<char>> {
    match v {
        Some(s) => Some(s@),
        None => None,
    }
}

pub fn resolve_network_mode(env: Option<&str>, stored: Option<&str>) -> (r: Result<NetworkMode, String>)
    ensures
        match chosen_mode(opt_view(env), opt_view(stored)) {
            Ok(m) => r == Ok::<NetworkMode, String>(m),
            Err(e) => r matches Err(x) && x@ == e,
        },
{
    let pick = match env {
        Some(e) if trim_string(e).as_str().unicode_len() > 0 => Some(e),
        _ => match stored {
            Some(s) if trim_string(s).as_str().unicode_len() > 0 => Some(s),
            _ => None,
        },
    };
    match pick {
        Some(raw) => NetworkMode::parse(raw),
        None => Ok(NetworkMode::Loopback),
    }
}

/// `base` joined with `rest` as a path: a separator is added unless `base`
/// already ends with one.
pub open spec fn joined(base: Seq<char>, rest: Seq<char>) -> Seq<char> {
    if base.len() > 0 && base.last() == '/' {
        base + rest
    } else {
        base + "/"@ + rest
    }
}

/// Where the operator's database lives: the override when it is not blank
/// (trimmed), else under the home directory's application support folder,
/// else under the XDG data directory, else in the working directory.
pub open spec fn database_location(overridden: Option<Seq<char>>, home: Option<Seq<char>>, xdg: Option<Seq<char>>) -> Seq<char> {
    match given(overridden) {
        Some(o) => trim(o),
        None => match given(home) {
            Some(h) => joined(h, "Library/Application Support/Stock Operator/operator.sqlite3"@),
            None => match given(xdg) {
                Some(x) => joined(x, "stock-operator/operator.sqlite3"@),
                None => "operator.sqlite3"@,
            },
        },
    }
}

fn join_path(base: &str, rest: &str) -> (r: String)
    ensures
        r@ == joined(base@, rest@),
{
    let chars = chars_of(base);
    let mut r = String::from_str(base);
    if !(chars.len() > 0 && chars[chars.len() - 1] == '/') {
        r.append("/");
    }
    r.append(rest);
    proof {
        reveal_strlit("/");
    }
    r
}

pub fn database_path(overridden: Option<&str>, home: Option<&str>, xdg: Option<&str>) -> (r: String)
    ensures
        r@ == database_location(opt_view(overridden), opt_view(home), opt_view(xdg)),
{
    match overridden {
        Some(o) => {
            let t = trim_string(o);
            if t.as_str().unicode_len() > 0 {
                return t;
            }
        },
        None => {},
    }
    match home {
        Some(h) => {
            if trim_string(h).as_str().unicode_len() > 0 {
                return join_path(h, "Library/Application Support/Stock Operator/operator.sqlite3");
            }
        },
        None => {},
    }
    match xdg {
        Some(x) => {
            if trim_string(x).as_str().unicode_len() > 0 {
                return join_path(x, "stock-operator/operator.sqlite3");
            }
        },
        None => {},
    }
    String::from_str("operator.sqlite3")
}

/// The address the service listens on when none is configured.
pub const DEFAULT_BIND_ADDR: &'static str = "127.0.0.1:5190";

pub const DEFAULT_MAX_DEPTH: usize = 6;

pub const DEFAULT_MAX_NODES: usize = 300;

/// The running service's configuration. `bind_addr` is the listening address
/// as written by `SocketAddr`'s display.
#[derive(Clone, Debug)]
pub struct OperatorConfig {
    pub bind_addr: String,
    pub mcp_path: String,
    pub auth_token: Option<String>,
    pub target_bundle_id: String,
    pub target_process_name: String,
    pub max_depth: usize,
    pub max_nodes: usize,
    pub network_mode: NetworkMode,
}

/// The raw environment values the configuration is read from; `bind_addr`
/// is the address to listen on (the environment's or the default) as parsed
/// by `SocketAddr`, with its display text.
pub struct EnvValues {
    pub bind_addr: Option<(SocketAddress, String)>,
    pub auth_token: Option<String>,
    pub mcp_path: Option<String>,
    pub target_bundle_id: Option<String>,
    pub target_process_name: Option<String>,
    pub max_depth: Option<String>,
    pub max_nodes: Option<String>,
}

impl OperatorConfig {
    /// The configuration from environment values: the address must parse and
    /// be loopback; a blank token counts as none; the path is normalized and
    /// the traversal limits held within range.
    pub fn from_env_values(env: EnvValues) -> (r: Result<OperatorConfig, String>)
        ensures
            match env.bind_addr {
                None => r matches Err(e) && e@ == "STOCK_OPERATOR_BIND_ADDR must be a socket address"@,
                Some((addr, shown)) => if !spec_is_loopback(addr.ip) {
                    r matches Err(e) && e@
                        == "stock-operator only binds to loopback; use a 127.0.0.1 or ::1 address"@
                } else {
                    r matches Ok(c) && c.bind_addr == shown && c.auth_token == (match env.auth_token {
                        Some(t) if trim(t@).len() > 0 => Some(t),
                        _ => None,
                    }) && c.mcp_path@ == normalized_path(match env.mcp_path {
                        Some(p) => p@,
                        None => "/mcp"@,
                    }) && c.target_bundle_id@ == (match env.target_bundle_id {
                        Some(b) => b@,
                        None => "com.citics.mac.tdx"@,
                    }) && c.target_process_name@ == (match env.target_process_name {
                        Some(p) => p@,
                        None => "中信证券网上交易"@,
                    }) && c.max_depth == bounded_value(
                        match env.max_depth {
                            Some(s) => Some(s@),
                            None => None,
                        },
                        6,
                        1,
                        12,
                    ) && c.max_nodes == bounded_value(
                        match env.max_nodes {
                            Some(s) => Some(s@),
                            None => None,
                        },
                        300,
                        1,
                        2000,
                    ) && c.network_mode == NetworkMode::Loopback
                },
            },
    {
        let (addr, shown) = match env.bind_addr {
            Some(pair) => pair,
            None => {
                return Err(String::from_str("STOCK_OPERATOR_BIND_ADDR must be a socket address"));
            },
        };
        if !addr.ip.is_loopback() {
            return Err(
                String::from_str("stock-operator only binds to loopback; use a 127.0.0.1 or ::1 address"),
            );
        }
        let auth_token = match env.auth_token {
            Some(t) => {
                let blank = trim_string(t.as_str()).as_str().unicode_len() == 0;
                if blank {
                    None
                } else {
                    Some(t)
                }
            },
            None => None,
        };
        let mcp_path = match &env.mcp_path {
            Some(p) => normalize_path(p.as_str()),
            None => normalize_path("/mcp"),
        };
        let target_bundle_id = match env.target_bundle_id {
            Some(b) => b,
            None => String::from_str("com.citics.mac.tdx"),
        };
        let target_process_name = match env.target_process_name {
            Some(p) => p,
            None => String::from_str("中信证券网上交易"),
        };
        let max_depth = match &env.max_depth {
            Some(s) => bounded_setting(Some(s.as_str()), DEFAULT_MAX_DEPTH, 1, 12),
            None => bounded_setting(None, DEFAULT_MAX_DEPTH, 1, 12),
        };
        let max_nodes = match &env.max_nodes {
            Some(s) => bounded_setting(Some(s.as_str()), DEFAULT_MAX_NODES, 1, 2000),
            None => bounded_setting(None, DEFAULT_MAX_NODES, 1, 2000),
        };
        Ok(OperatorConfig {
            bind_addr: shown,
            mcp_path,
            auth_token,
            target_bundle_id,
            target_process_name,
            max_depth,
            max_nodes,
            network_mode: NetworkMode::Loopback,
        })
    }

    /// The MCP endpoint URL.
    pub fn endpoint(&self) -> (s: String)
        ensures
            s@ == "http://"@ + self.bind_addr@ + self.mcp_path@,
    {
        let mut s = String::from_str("http://");
        s.append(self.bind_addr.as_str());
        s.append(self.mcp_path.as_str());
        s
    }
}

} // verus!
