//! Settings as the desktop shell shows and saves them.
use vstd::prelude::*;

use vstd::seq_lib::lemma_concat_associative;

use super::validation::{
    bind_check, bundle_check, depth_check, mcp_path_check, mode_check, nodes_check, process_check,
    url_check, validate_bind_addr_for_mode, validate_bundle_id, validate_max_depth,
    validate_max_nodes, validate_mcp_path, validate_network_mode, validate_process_name,
    validate_stock_service_url,
};
use crate::config::{law_mode_name_round_trip, mode_alias, mode_name, spec_is_loopback, SocketAddress};
use crate::text::{
    ascii_lower, decimal, lemma_decimal_reads_back, lemma_trim_idempotent, lemma_trim_of_trimmed,
    contains, msg_if, parse_usize, push_message_if, str_eq, trim, trim_string, u64_to_string,
    usize_text,
};

verus! {

pub const SETTING_INSTANCE_ID: &'static str = "operator_instance_id";

pub const SETTING_STOCK_SERVICE_URL: &'static str = "stock_main_service_url";

pub const SETTING_BIND_ADDR: &'static str = "bind_addr";

pub const SETTING_MCP_PATH: &'static str = "mcp_path";

pub const SETTING_TARGET_BUNDLE_ID: &'static str = "target_bundle_id";

pub const SETTING_TARGET_PROCESS_NAME: &'static str = "target_process_name";

pub const SETTING_MAX_DEPTH: &'static str = "max_depth";

pub const SETTING_MAX_NODES: &'static str = "max_nodes";

pub const SETTING_NETWORK_MODE: &'static str = "network_mode";

/// The settings an operator sees.
#[derive(Clone, Debug)]
pub struct PublicSettings {
    pub stock_service_url: Option<String>,
    pub bind_addr: String,
    pub mcp_path: String,
    pub target_bundle_id: String,
    pub target_process_name: String,
    pub max_depth: usize,
    pub max_nodes: usize,
    pub instance_id: String,
    pub network_mode: String,
}

#[derive(Clone, Debug)]
pub struct SaveSettingsRequest {
    pub stock_service_url: Option<String>,
    pub bind_addr: String,
    pub mcp_path: String,
    pub target_bundle_id: String,
    pub target_process_name: String,
    pub max_depth: usize,
    pub max_nodes: usize,
    pub network_mode: String,
    pub private_overlay_ack: bool,
}

#[derive(Clone, Debug)]
pub struct SaveSettingsResponse {
    pub settings: PublicSettings,
    pub restart_required: bool,
    pub restart_reasons: Vec<String>,
    pub message: String,
}

/// The stored setting values, as read (absent keys are `None`).
#[derive(Clone, Debug)]
pub struct StoredSettings {
    pub stock_service_url: Option<String>,
    pub bind_addr: Option<String>,
    pub mcp_path: Option<String>,
    pub target_bundle_id: Option<String>,
    pub target_process_name: Option<String>,
    pub max_depth: Option<String>,
    pub max_nodes: Option<String>,
    pub instance_id: Option<String>,
    pub network_mode: Option<String>,
}

/// A stored text setting, trimmed, when it is not blank.
pub open spec fn filled(v: Option<String>) -> Option<Seq<char>> {
    match v {
        Some(s) if trim(s@).len() > 0 => Some(trim(s@)),
        _ => None,
    }
}

/// A stored text setting, trimmed, or `default` when absent or blank.
pub open spec fn filled_or(v: Option<String>, default: Seq<char>) -> Seq<char> {
    match filled(v) {
        Some(t) => t,
        None => default,
    }
}

/// A stored count setting, trimmed and read as `usize`, or `default`.
pub open spec fn count_or(v: Option<String>, default: nat) -> nat {
    match v {
        Some(s) => match usize_text(trim(s@)) {
            Some(n) => n,
            None => default,
        },
        None => default,
    }
}

/// The stored network mode in canonical form; blank, absent or unknown
/// values are loopback.
pub open spec fn stored_mode(v: Option<String>) -> Seq<char> {
    match mode_alias(ascii_lower(trim(filled_or(v, "loopback"@)))) {
        Some(m) => mode_name(m),
        None => "loopback"@,
    }
}

fn text_or(v: &Option<String>, default: &str) -> (r: String)
    ensures
        r@ == filled_or(*v, default@),
{
    match v {
        Some(s) => {
            let t = trim_string(s.as_str());
            if t.as_str().unicode_len() > 0 {
                t
            } else {
                String::from_str(default)
            }
        },
        None => String::from_str(default),
    }
}

fn count_setting(v: &Option<String>, default: usize) -> (r: usize)
    ensures
        r == count_or(*v, default as nat),
{
    match v {
        Some(s) => {
            let t = trim_string(s.as_str());
            match parse_usize(t.as_str()) {
                Some(n) => n,
                None => default,
            }
        },
        None => default,
    }
}

/// The settings shown to an operator, from the stored values: blank values
/// fall back to the defaults, unreadable counts too, and an unknown network
/// mode reads as loopback.
pub fn load_public_settings(stored: &StoredSettings) -> (p: PublicSettings)
    ensures
        match filled(stored.stock_service_url) {
            Some(u) => p.stock_service_url matches Some(v) && v@ == u,
            None => p.stock_service_url is None,
        },
        p.bind_addr@ == filled_or(stored.bind_addr, "127.0.0.1:5190"@),
        p.mcp_path@ == filled_or(stored.mcp_path, "/mcp"@),
        p.target_bundle_id@ == filled_or(stored.target_bundle_id, "com.citics.mac.tdx"@),
        p.target_process_name@ == filled_or(stored.target_process_name, "中信证券网上交易"@),
        p.max_depth == count_or(stored.max_depth, 6),
        p.max_nodes == count_or(stored.max_nodes, 300),
        p.instance_id@ == filled_or(stored.instance_id, "unknown"@),
        p.network_mode@ == stored_mode(stored.network_mode),
{
    let stock_service_url = match &stored.stock_service_url {
        Some(s) => {
            let t = trim_string(s.as_str());
            if t.as_str().unicode_len() > 0 {
                Some(t)
            } else {
                None
            }
        },
        None => None,
    };
    let mode_text = text_or(&stored.network_mode, "loopback");
    let network_mode = match validate_network_mode(mode_text.as_str()) {
        Ok(m) => m,
        Err(_) => String::from_str("loopback"),
    };
    PublicSettings {
        stock_service_url,
        bind_addr: text_or(&stored.bind_addr, "127.0.0.1:5190"),
        mcp_path: text_or(&stored.mcp_path, "/mcp"),
        target_bundle_id: text_or(&stored.target_bundle_id, "com.citics.mac.tdx"),
        target_process_name: text_or(&stored.target_process_name, "中信证券网上交易"),
        max_depth: count_setting(&stored.max_depth, 6),
        max_nodes: count_setting(&stored.max_nodes, 300),
        instance_id: text_or(&stored.instance_id, "unknown"),
        network_mode,
    }
}

/// Settings that passed every check, ready to be stored. `bind_shown` is
/// the listening address as `SocketAddr`'s display writes it.
#[derive(Clone, Debug)]
pub struct ValidatedSettings {
    pub bind_addr: SocketAddress,
    pub bind_shown: String,
    pub mcp_path: String,
    pub bundle_id: String,
    pub process_name: String,
    pub max_depth: usize,
    pub max_nodes: usize,
    pub network_mode: String,
    pub stock_url: Option<String>,
}

/// `field: message`.
pub open spec fn field_error(field: Seq<char>, message: Seq<char>) -> Seq<char> {
    field + ": "@ + message
}

fn prefixed(field: &str, message: String) -> (e: String)
    ensures
        e@ == field_error(field@, message@),
{
    let mut e = String::from_str(field);
    e.append(": ");
    e.append(message.as_str());
    e
}

pub open spec fn ack_message() -> Seq<char> {
    "private-overlay mode requires explicit acknowledgement that bearer auth and private/encrypted transport are required; check the safety box"@
}

/// A text option as its view.
pub open spec fn opt_seq(o: Option<String>) -> Option<Seq<char>> {
    match o {
        Some(v) => Some(v@),
        None => None,
    }
}

/// What checking a save request yields: the listening address, MCP path,
/// bundle identifier, process name, traversal limits, canonical network
/// mode and stock service URL; or the first failure, prefixed with its
/// field. The checks run in that order, the mode first, and a listening
/// address off loopback needs the private overlay mode and its
/// acknowledgement.
pub open spec fn settings_check(request: SaveSettingsRequest, parsed: Option<SocketAddress>, shown: Seq<char>) -> Result<
    (SocketAddress, Seq<char>, Seq<char>, Seq<char>, nat, nat, Seq<char>, Option<Seq<char>>),
    Seq<char>,
> {
    match mode_check(request.network_mode@) {
        Err(e) => Err(field_error("network_mode"@, e)),
        Ok(mode) => if mode == "private-overlay"@ && !request.private_overlay_ack {
            Err(ack_message())
        } else {
            match bind_check(request.bind_addr@, parsed, shown, mode) {
                Err(e) => Err(field_error("bind_addr"@, e)),
                Ok(a) => if !spec_is_loopback(a.ip) && mode != "private-overlay"@ {
                    Err("non-loopback bind requires network_mode 'private-overlay' with acknowledgement"@)
                } else if !spec_is_loopback(a.ip) && !request.private_overlay_ack {
                    Err("non-loopback bind requires private_overlay_ack=true"@)
                } else {
                    match mcp_path_check(request.mcp_path@) {
                        Err(e) => Err(field_error("mcp_path"@, e)),
                        Ok(mcp) => match bundle_check(request.target_bundle_id@) {
                            Err(e) => Err(field_error("target_bundle_id"@, e)),
                            Ok(bundle) => match process_check(request.target_process_name@) {
                                Err(e) => Err(field_error("target_process_name"@, e)),
                                Ok(process) => match depth_check(request.max_depth as nat) {
                                    Err(e) => Err(field_error("max_depth"@, e)),
                                    Ok(depth) => match nodes_check(request.max_nodes as nat) {
                                        Err(e) => Err(field_error("max_nodes"@, e)),
                                        Ok(nodes) => match url_check(opt_seq(request.stock_service_url)) {
                                            Err(e) => Err(field_error("stock_service_url"@, e)),
                                            Ok(url) => Ok((a, mcp, bundle, process, depth, nodes, mode, url)),
                                        },
                                    },
                                },
                            },
                        },
                    }
                }
            }
        },
    }
}

/// Checks a save request (see `settings_check`). `parsed_bind` is the
/// request's address, trimmed, as parsed by `SocketAddr`, and `bind_shown`
/// its display text.
pub fn validate_settings_request(
    request: &SaveSettingsRequest,
    parsed_bind: Option<SocketAddress>,
    bind_shown: &str,
) -> (r: Result<ValidatedSettings, String>)
    ensures
        match settings_check(*request, parsed_bind, bind_shown@) {
            Ok((a, mcp, bundle, process, depth, nodes, mode, url)) => r matches Ok(v) && v.bind_addr == a
                && v.bind_shown@ == bind_shown@ && v.mcp_path@ == mcp && v.bundle_id@ == bundle
                && v.process_name@ == process && v.max_depth == depth && v.max_nodes == nodes
                && v.network_mode@ == mode && opt_seq(v.stock_url) == url,
            Err(e) => r matches Err(x) && x@ == e,
        },
        r matches Ok(v) ==> spec_is_loopback(v.bind_addr.ip) || (request.private_overlay_ack
            && v.network_mode@ == "private-overlay"@),
{
    let network_mode = match validate_network_mode(request.network_mode.as_str()) {
        Ok(m) => m,
        Err(e) => {
            return Err(prefixed("network_mode", e));
        },
    };
    let private_overlay = str_eq(network_mode.as_str(), "private-overlay");
    if private_overlay && !request.private_overlay_ack {
        return Err(
            String::from_str(
                "private-overlay mode requires explicit acknowledgement that bearer auth and private/encrypted transport are required; check the safety box",
            ),
        );
    }
    let bind_addr = match validate_bind_addr_for_mode(
        request.bind_addr.as_str(),
        parsed_bind,
        bind_shown,
        network_mode.as_str(),
    ) {
        Ok(a) => a,
        Err(e) => {
            return Err(prefixed("bind_addr", e));
        },
    };
    if !bind_addr.ip.is_loopback() && !private_overlay {
        return Err(
            String::from_str(
                "non-loopback bind requires network_mode 'private-overlay' with acknowledgement",
            ),
        );
    }
    if !bind_addr.ip.is_loopback() && !request.private_overlay_ack {
        return Err(String::from_str("non-loopback bind requires private_overlay_ack=true"));
    }
    let mcp_path = match validate_mcp_path(request.mcp_path.as_str()) {
        Ok(v) => v,
        Err(e) => {
            return Err(prefixed("mcp_path", e));
        },
    };
    let bundle_id = match validate_bundle_id(request.target_bundle_id.as_str()) {
        Ok(v) => v,
        Err(e) => {
            return Err(prefixed("target_bundle_id", e));
        },
    };
    let process_name = match validate_process_name(request.target_process_name.as_str()) {
        Ok(v) => v,
        Err(e) => {
            return Err(prefixed("target_process_name", e));
        },
    };
    let max_depth = match validate_max_depth(request.max_depth) {
        Ok(v) => v,
        Err(e) => {
            return Err(prefixed("max_depth", e));
        },
    };
    let max_nodes = match validate_max_nodes(request.max_nodes) {
        Ok(v) => v,
        Err(e) => {
            return Err(prefixed("max_nodes", e));
        },
    };
    let stock_url = match validate_stock_service_url(&request.stock_service_url) {
        Ok(v) => v,
        Err(e) => {
            return Err(prefixed("stock_service_url", e));
        },
    };
    Ok(ValidatedSettings {
        bind_addr,
        bind_shown: String::from_str(bind_shown),
        mcp_path,
        bundle_id,
        process_name,
        max_depth,
        max_nodes,
        network_mode,
        stock_url,
    })
}

/// One stored setting: its key and value, or `None` to remove the key.
pub struct SettingWrite {
    pub key: &'static str,
    pub value: Option<String>,
}

/// What saving validated settings writes, in order: listening address, MCP
/// path, bundle identifier, process name, traversal limits and network mode,
/// then the stock service URL (removed when there is none).
pub fn settings_writes(v: &ValidatedSettings) -> (w: Vec<SettingWrite>)
    ensures
        w@.len() == 8,
        w@[0].key@ == "bind_addr"@ && (w@[0].value matches Some(x) && x@ == v.bind_shown@),
        w@[1].key@ == "mcp_path"@ && (w@[1].value matches Some(x) && x@ == v.mcp_path@),
        w@[2].key@ == "target_bundle_id"@ && (w@[2].value matches Some(x) && x@ == v.bundle_id@),
        w@[3].key@ == "target_process_name"@ && (w@[3].value matches Some(x) && x@ == v.process_name@),
        w@[4].key@ == "max_depth"@ && (w@[4].value matches Some(x) && x@ == decimal(v.max_depth as nat)),
        w@[5].key@ == "max_nodes"@ && (w@[5].value matches Some(x) && x@ == decimal(v.max_nodes as nat)),
        w@[6].key@ == "network_mode"@ && (w@[6].value matches Some(x) && x@ == v.network_mode@),
        w@[7].key@ == "stock_main_service_url"@ && match v.stock_url {
            Some(u) => w@[7].value matches Some(x) && x@ == u@,
            None => w@[7].value is None,
        },
        write_views(w@) == validated_writes(*v),
{
    let mut w: Vec<SettingWrite> = Vec::new();
    w.push(SettingWrite { key: "bind_addr", value: Some(v.bind_shown.clone()) });
    w.push(SettingWrite { key: "mcp_path", value: Some(v.mcp_path.clone()) });
    w.push(SettingWrite { key: "target_bundle_id", value: Some(v.bundle_id.clone()) });
    w.push(SettingWrite { key: "target_process_name", value: Some(v.process_name.clone()) });
    w.push(SettingWrite { key: "max_depth", value: Some(u64_to_string(v.max_depth as u64)) });
    w.push(SettingWrite { key: "max_nodes", value: Some(u64_to_string(v.max_nodes as u64)) });
    w.push(SettingWrite { key: "network_mode", value: Some(v.network_mode.clone()) });
    let url = match &v.stock_url {
        Some(u) => Some(u.clone()),
        None => None,
    };
    w.push(SettingWrite { key: "stock_main_service_url", value: url });
    proof {
        reveal_strlit("bind_addr");
        reveal_strlit("mcp_path");
        reveal_strlit("target_bundle_id");
        reveal_strlit("target_process_name");
        reveal_strlit("max_depth");
        reveal_strlit("max_nodes");
        reveal_strlit("network_mode");
        reveal_strlit("stock_main_service_url");
        assert(write_views(w@) =~= validated_writes(*v));
    }
    w
}

/// The key and value texts of setting writes.
pub open spec fn write_views(w: Seq<SettingWrite>) -> Seq<(Seq<char>, Option<Seq<char>>)> {
    Seq::new(w.len(), |i: int| (w[i].key@, opt_seq(w[i].value)))
}

/// The writes that saving validated settings makes, as texts.
pub open spec fn validated_writes(v: ValidatedSettings) -> Seq<(Seq<char>, Option<Seq<char>>)> {
    seq![
        ("bind_addr"@, Some(v.bind_shown@)),
        ("mcp_path"@, Some(v.mcp_path@)),
        ("target_bundle_id"@, Some(v.bundle_id@)),
        ("target_process_name"@, Some(v.process_name@)),
        ("max_depth"@, Some(decimal(v.max_depth as nat))),
        ("max_nodes"@, Some(decimal(v.max_nodes as nat))),
        ("network_mode"@, Some(v.network_mode@)),
        ("stock_main_service_url"@, opt_seq(v.stock_url)),
    ]
}

/// The settings table after one transaction of writes: a value sets its
/// key, `None` removes it.
pub open spec fn apply_writes(
    table: Map<Seq<char>, Seq<char>>,
    w: Seq<(Seq<char>, Option<Seq<char>>)>,
) -> Map<Seq<char>, Seq<char>>
    decreases w.len(),
{
    if w.len() == 0 {
        table
    } else {
        let before = apply_writes(table, w.drop_last());
        match w.last().1 {
            Some(value) => before.insert(w.last().0, value),
            None => before.remove(w.last().0),
        }
    }
}

/// The keys that saving settings writes.
pub open spec fn saved_key(k: Seq<char>) -> bool {
    ||| k == "bind_addr"@
    ||| k == "mcp_path"@
    ||| k == "target_bundle_id"@
    ||| k == "target_process_name"@
    ||| k == "max_depth"@
    ||| k == "max_nodes"@
    ||| k == "network_mode"@
    ||| k == "stock_main_service_url"@
}

/// No key that saving settings writes names a token.
proof fn lemma_saved_keys_hold_no_token(k: Seq<char>)
    requires
        saved_key(k),
    ensures
        !contains(k, "token"@),
{
    reveal_strlit("token");
    reveal_strlit("bind_addr");
    reveal_strlit("mcp_path");
    reveal_strlit("target_bundle_id");
    reveal_strlit("target_process_name");
    reveal_strlit("max_depth");
    reveal_strlit("max_nodes");
    reveal_strlit("network_mode");
    reveal_strlit("stock_main_service_url");
    if contains(k, "token"@) {
        let i = choose|i: int| 0 <= i <= k.len() - "token"@.len() && #[trigger] k.subrange(i, i + "token"@.len()) == "token"@;
        assert(k.subrange(i, i + 5)[0] == k[i]);
        assert(k.subrange(i, i + 5)[1] == k[i + 1]);
        assert(k.subrange(i, i + 5)[2] == k[i + 2]);
        assert(k[i] == 't' && k[i + 1] == 'o' && k[i + 2] == 'k');
        assert(0 <= i <= 17);
        if i == 0 {} else if i == 1 {} else if i == 2 {} else if i == 3 {} else if i == 4 {}
        else if i == 5 {} else if i == 6 {} else if i == 7 {} else if i == 8 {} else if i == 9 {}
        else if i == 10 {} else if i == 11 {} else if i == 12 {} else if i == 13 {}
        else if i == 14 {} else if i == 15 {} else if i == 16 {} else {}
    }
}

/// One write applied to a settings table.
pub open spec fn apply_write(table: Map<Seq<char>, Seq<char>>, write: (Seq<char>, Option<Seq<char>>)) -> Map<Seq<char>, Seq<char>> {
    match write.1 {
        Some(value) => table.insert(write.0, value),
        None => table.remove(write.0),
    }
}

/// The keys that saving settings writes are distinct.
proof fn lemma_saved_keys_distinct()
    ensures
        "bind_addr"@ != "mcp_path"@,
        "bind_addr"@ != "target_bundle_id"@,
        "bind_addr"@ != "target_process_name"@,
        "bind_addr"@ != "max_depth"@,
        "bind_addr"@ != "max_nodes"@,
        "bind_addr"@ != "network_mode"@,
        "bind_addr"@ != "stock_main_service_url"@,
        "mcp_path"@ != "target_bundle_id"@,
        "mcp_path"@ != "target_process_name"@,
        "mcp_path"@ != "max_depth"@,
        "mcp_path"@ != "max_nodes"@,
        "mcp_path"@ != "network_mode"@,
        "mcp_path"@ != "stock_main_service_url"@,
        "target_bundle_id"@ != "target_process_name"@,
        "target_bundle_id"@ != "max_depth"@,
        "target_bundle_id"@ != "max_nodes"@,
        "target_bundle_id"@ != "network_mode"@,
        "target_bundle_id"@ != "stock_main_service_url"@,
        "target_process_name"@ != "max_depth"@,
        "target_process_name"@ != "max_nodes"@,
        "target_process_name"@ != "network_mode"@,
        "target_process_name"@ != "stock_main_service_url"@,
        "max_depth"@ != "max_nodes"@,
        "max_depth"@ != "network_mode"@,
        "max_depth"@ != "stock_main_service_url"@,
        "max_nodes"@ != "network_mode"@,
        "max_nodes"@ != "stock_main_service_url"@,
        "network_mode"@ != "stock_main_service_url"@,
{
    reveal_strlit("bind_addr");
    reveal_strlit("mcp_path");
    reveal_strlit("target_bundle_id");
    reveal_strlit("target_process_name");
    reveal_strlit("max_depth");
    reveal_strlit("max_nodes");
    reveal_strlit("network_mode");
    reveal_strlit("stock_main_service_url");
    assert("bind_addr"@.len() != "mcp_path"@.len());
    assert("bind_addr"@.len() != "target_bundle_id"@.len());
    assert("bind_addr"@.len() != "target_process_name"@.len());
    assert("bind_addr"@[0] != "max_depth"@[0]);
    assert("bind_addr"@[0] != "max_nodes"@[0]);
    assert("bind_addr"@.len() != "network_mode"@.len());
    assert("bind_addr"@.len() != "stock_main_service_url"@.len());
    assert("mcp_path"@.len() != "target_bundle_id"@.len());
    assert("mcp_path"@.len() != "target_process_name"@.len());
    assert("mcp_path"@.len() != "max_depth"@.len());
    assert("mcp_path"@.len() != "max_nodes"@.len());
    assert("mcp_path"@.len() != "network_mode"@.len());
    assert("mcp_path"@.len() != "stock_main_service_url"@.len());
    assert("target_bundle_id"@.len() != "target_process_name"@.len());
    assert("target_bundle_id"@.len() != "max_depth"@.len());
    assert("target_bundle_id"@.len() != "max_nodes"@.len());
    assert("target_bundle_id"@.len() != "network_mode"@.len());
    assert("target_bundle_id"@.len() != "stock_main_service_url"@.len());
    assert("target_process_name"@.len() != "max_depth"@.len());
    assert("target_process_name"@.len() != "max_nodes"@.len());
    assert("target_process_name"@.len() != "network_mode"@.len());
    assert("target_process_name"@.len() != "stock_main_service_url"@.len());
    assert("max_depth"@[4] != "max_nodes"@[4]);
    assert("max_depth"@.len() != "network_mode"@.len());
    assert("max_depth"@.len() != "stock_main_service_url"@.len());
    assert("max_nodes"@.len() != "network_mode"@.len());
    assert("max_nodes"@.len() != "stock_main_service_url"@.len());
    assert("network_mode"@.len() != "stock_main_service_url"@.len());
}

/// A write to another key keeps what a key holds.
proof fn lemma_write_other(table: Map<Seq<char>, Seq<char>>, write: (Seq<char>, Option<Seq<char>>), k: Seq<char>)
    requires
        write.0 != k,
    ensures
        apply_write(table, write).contains_key(k) == table.contains_key(k),
        table.contains_key(k) ==> apply_write(table, write)[k] == table[k],
{
}

proof fn lemma_write_keeps(table: Map<Seq<char>, Seq<char>>, write: (Seq<char>, Option<Seq<char>>), k: Seq<char>, value: Seq<char>)
    requires
        write.0 != k,
        table.contains_key(k) && table[k] == value,
    ensures
        apply_write(table, write).contains_key(k) && apply_write(table, write)[k] == value,
{
}

/// Saving validated settings is one transaction that leaves the settings
/// table in a known state: each saved key holds its validated value, the
/// stock service URL is present exactly when one was given, and every other
/// key, among them any that names a token, is as it was. (Settings that
/// fail validation yield no `ValidatedSettings`, so nothing is written.)
#[verifier::rlimit(50)]
pub proof fn law_settings_save_transaction(v: ValidatedSettings, table: Map<Seq<char>, Seq<char>>)
    ensures
        ({
            let after = apply_writes(table, validated_writes(v));
            &&& after.contains_key("bind_addr"@) && after["bind_addr"@] == v.bind_shown@
            &&& after.contains_key("mcp_path"@) && after["mcp_path"@] == v.mcp_path@
            &&& after.contains_key("target_bundle_id"@) && after["target_bundle_id"@] == v.bundle_id@
            &&& after.contains_key("target_process_name"@) && after["target_process_name"@]
                == v.process_name@
            &&& after.contains_key("max_depth"@) && after["max_depth"@] == decimal(v.max_depth as nat)
            &&& after.contains_key("max_nodes"@) && after["max_nodes"@] == decimal(v.max_nodes as nat)
            &&& after.contains_key("network_mode"@) && after["network_mode"@] == v.network_mode@
            &&& (after.contains_key("stock_main_service_url"@) <==> v.stock_url is Some)
            &&& v.stock_url matches Some(u) ==> after["stock_main_service_url"@] == u@
            &&& forall|k: Seq<char>| !saved_key(k) ==> (#[trigger] after.contains_key(k)
                == table.contains_key(k) && (table.contains_key(k) ==> after[k] == table[k]))
            &&& forall|k: Seq<char>| #[trigger] contains(k, "token"@) ==> (after.contains_key(k)
                == table.contains_key(k) && (table.contains_key(k) ==> after[k] == table[k]))
        }),
{
    reveal_strlit("bind_addr");
    reveal_strlit("mcp_path");
    reveal_strlit("target_bundle_id");
    reveal_strlit("target_process_name");
    reveal_strlit("max_depth");
    reveal_strlit("max_nodes");
    reveal_strlit("network_mode");
    reveal_strlit("stock_main_service_url");
    let w = validated_writes(v);
    lemma_saved_keys_distinct();
    assert(w.take(0) =~= Seq::<(Seq<char>, Option<Seq<char>>)>::empty());
    assert(apply_writes(table, w.take(0)) == table);
    assert(w.take(1).drop_last() =~= w.take(0));
    assert(w.take(1).last() == w[0]);
    assert(w.take(2).drop_last() =~= w.take(1));
    assert(w.take(3).drop_last() =~= w.take(2));
    assert(w.take(4).drop_last() =~= w.take(3));
    assert(w.take(5).drop_last() =~= w.take(4));
    assert(w.take(6).drop_last() =~= w.take(5));
    assert(w.take(7).drop_last() =~= w.take(6));
    assert(w.take(8).drop_last() =~= w.take(7));
    assert(w.take(8) =~= w);
    assert(w[0] == ("bind_addr"@, Some(v.bind_shown@)));
    assert(w[1] == ("mcp_path"@, Some(v.mcp_path@)));
    assert(w[2] == ("target_bundle_id"@, Some(v.bundle_id@)));
    assert(w[3] == ("target_process_name"@, Some(v.process_name@)));
    assert(w[4] == ("max_depth"@, Some(decimal(v.max_depth as nat))));
    assert(w[5] == ("max_nodes"@, Some(decimal(v.max_nodes as nat))));
    assert(w[6] == ("network_mode"@, Some(v.network_mode@)));
    assert(w[7] == ("stock_main_service_url"@, opt_seq(v.stock_url)));
    let m1 = apply_write(table, w[0]);
    let m2 = apply_write(m1, w[1]);
    let m3 = apply_write(m2, w[2]);
    let m4 = apply_write(m3, w[3]);
    let m5 = apply_write(m4, w[4]);
    let m6 = apply_write(m5, w[5]);
    let m7 = apply_write(m6, w[6]);
    let after = apply_write(m7, w[7]);
    assert(apply_writes(table, w.take(1)) == m1);
    assert(apply_writes(table, w.take(2)) == m2);
    assert(apply_writes(table, w.take(3)) == m3);
    assert(apply_writes(table, w.take(4)) == m4);
    assert(apply_writes(table, w.take(5)) == m5);
    assert(apply_writes(table, w.take(6)) == m6);
    assert(apply_writes(table, w.take(7)) == m7);
    assert(apply_writes(table, w) == after);

    lemma_write_keeps(m1, w[1], "bind_addr"@, v.bind_shown@);
    lemma_write_keeps(m2, w[2], "bind_addr"@, v.bind_shown@);
    lemma_write_keeps(m3, w[3], "bind_addr"@, v.bind_shown@);
    lemma_write_keeps(m4, w[4], "bind_addr"@, v.bind_shown@);
    lemma_write_keeps(m5, w[5], "bind_addr"@, v.bind_shown@);
    lemma_write_keeps(m6, w[6], "bind_addr"@, v.bind_shown@);
    lemma_write_keeps(m7, w[7], "bind_addr"@, v.bind_shown@);
    lemma_write_keeps(m2, w[2], "mcp_path"@, v.mcp_path@);
    lemma_write_keeps(m3, w[3], "mcp_path"@, v.mcp_path@);
    lemma_write_keeps(m4, w[4], "mcp_path"@, v.mcp_path@);
    lemma_write_keeps(m5, w[5], "mcp_path"@, v.mcp_path@);
    lemma_write_keeps(m6, w[6], "mcp_path"@, v.mcp_path@);
    lemma_write_keeps(m7, w[7], "mcp_path"@, v.mcp_path@);
    lemma_write_keeps(m3, w[3], "target_bundle_id"@, v.bundle_id@);
    lemma_write_keeps(m4, w[4], "target_bundle_id"@, v.bundle_id@);
    lemma_write_keeps(m5, w[5], "target_bundle_id"@, v.bundle_id@);
    lemma_write_keeps(m6, w[6], "target_bundle_id"@, v.bundle_id@);
    lemma_write_keeps(m7, w[7], "target_bundle_id"@, v.bundle_id@);
    lemma_write_keeps(m4, w[4], "target_process_name"@, v.process_name@);
    lemma_write_keeps(m5, w[5], "target_process_name"@, v.process_name@);
    lemma_write_keeps(m6, w[6], "target_process_name"@, v.process_name@);
    lemma_write_keeps(m7, w[7], "target_process_name"@, v.process_name@);
    lemma_write_keeps(m5, w[5], "max_depth"@, decimal(v.max_depth as nat));
    lemma_write_keeps(m6, w[6], "max_depth"@, decimal(v.max_depth as nat));
    lemma_write_keeps(m7, w[7], "max_depth"@, decimal(v.max_depth as nat));
    lemma_write_keeps(m6, w[6], "max_nodes"@, decimal(v.max_nodes as nat));
    lemma_write_keeps(m7, w[7], "max_nodes"@, decimal(v.max_nodes as nat));
    lemma_write_keeps(m7, w[7], "network_mode"@, v.network_mode@);
    assert forall|k: Seq<char>| !saved_key(k) implies (#[trigger] after.contains_key(k)
        == table.contains_key(k) && (table.contains_key(k) ==> after[k] == table[k])) by {
        lemma_write_other(table, w[0], k);
        lemma_write_other(m1, w[1], k);
        lemma_write_other(m2, w[2], k);
        lemma_write_other(m3, w[3], k);
        lemma_write_other(m4, w[4], k);
        lemma_write_other(m5, w[5], k);
        lemma_write_other(m6, w[6], k);
        lemma_write_other(m7, w[7], k);
    }
    assert forall|k: Seq<char>| #[trigger] contains(k, "token"@) implies !saved_key(k) by {
        if saved_key(k) {
            lemma_saved_keys_hold_no_token(k);
        }
    }
}

/// The settings the service is running with.
#[derive(Clone, Debug)]
pub struct RunningSettings {
    pub bind_addr: String,
    pub mcp_path: String,
    pub target_bundle_id: String,
    pub target_process_name: String,
    pub max_depth: usize,
    pub max_nodes: usize,
    pub network_mode: String,
}

/// Reasons to restart, one per changed setting, in a fixed order.
pub open spec fn restart_reasons_of(
    bind: bool,
    mcp: bool,
    bundle: bool,
    process: bool,
    depth: bool,
    nodes: bool,
    mode: bool,
) -> Seq<Seq<char>> {
    msg_if(bind, "bind address requires restart"@) + msg_if(mcp, "MCP path requires restart"@)
        + msg_if(bundle, "broker bundle identifier requires restart"@) + msg_if(
        process,
        "broker process name requires restart"@,
    ) + msg_if(depth, "traversal depth requires restart"@) + msg_if(
        nodes,
        "traversal limit requires restart"@,
    ) + msg_if(mode, "network mode requires restart"@)
}

/// A restart is asked for exactly when some setting changed: there is no
/// reason when nothing changed, and one reason per changed setting.
pub proof fn law_restart_iff_changed(
    bind: bool,
    mcp: bool,
    bundle: bool,
    process: bool,
    depth: bool,
    nodes: bool,
    mode: bool,
)
    ensures
        restart_reasons_of(bind, mcp, bundle, process, depth, nodes, mode).len() == (bind as int) + (mcp as int)
            + (bundle as int) + (process as int) + (depth as int) + (nodes as int) + (mode as int),
        restart_reasons_of(bind, mcp, bundle, process, depth, nodes, mode).len() == 0 <==> !(bind || mcp
            || bundle || process || depth || nodes || mode),
{
}

/// Collects the restart reasons for the given changes.
pub fn collect_restart_reasons(
    bind: bool,
    mcp: bool,
    bundle: bool,
    process: bool,
    depth: bool,
    nodes: bool,
    mode: bool,
) -> (r: Vec<String>)
    ensures
        r.deep_view() == restart_reasons_of(bind, mcp, bundle, process, depth, nodes, mode),
{
    let mut r: Vec<String> = Vec::new();
    let ghost w0 = r.deep_view();
    push_message_if(&mut r, bind, "bind address requires restart");
    let ghost w1 = r.deep_view();
    push_message_if(&mut r, mcp, "MCP path requires restart");
    let ghost w2 = r.deep_view();
    push_message_if(&mut r, bundle, "broker bundle identifier requires restart");
    let ghost w3 = r.deep_view();
    push_message_if(&mut r, process, "broker process name requires restart");
    let ghost w4 = r.deep_view();
    push_message_if(&mut r, depth, "traversal depth requires restart");
    let ghost w5 = r.deep_view();
    push_message_if(&mut r, nodes, "traversal limit requires restart");
    let ghost w6 = r.deep_view();
    push_message_if(&mut r, mode, "network mode requires restart");
    proof {
        assert(w0 =~= seq![]);
        assert(w1 =~= msg_if(bind, "bind address requires restart"@));
    }
    r
}

/// Restart reasons for saved settings against the running ones.
pub fn restart_reasons(saved: &ValidatedSettings, running: &RunningSettings) -> (r: Vec<String>)
    ensures
        r.deep_view() == restart_reasons_of(
            saved.bind_shown@ != running.bind_addr@,
            saved.mcp_path@ != running.mcp_path@,
            saved.bundle_id@ != running.target_bundle_id@,
            saved.process_name@ != running.target_process_name@,
            saved.max_depth != running.max_depth,
            saved.max_nodes != running.max_nodes,
            saved.network_mode@ != running.network_mode@,
        ),
{
    collect_restart_reasons(
        !str_eq(saved.bind_shown.as_str(), running.bind_addr.as_str()),
        !str_eq(saved.mcp_path.as_str(), running.mcp_path.as_str()),
        !str_eq(saved.bundle_id.as_str(), running.target_bundle_id.as_str()),
        !str_eq(saved.process_name.as_str(), running.target_process_name.as_str()),
        saved.max_depth != running.max_depth,
        saved.max_nodes != running.max_nodes,
        !str_eq(saved.network_mode.as_str(), running.network_mode.as_str()),
    )
}

/// The answer to a save: restart is required exactly when there is a
/// reason, and the message says so.
pub fn save_response(settings: PublicSettings, reasons: Vec<String>) -> (r: SaveSettingsResponse)
    ensures
        r.settings == settings,
        r.restart_reasons == reasons,
        r.restart_required == (reasons@.len() > 0),
        r.message@ == (if reasons@.len() > 0 {
            "settings saved; restart required for some changes"@
        } else {
            "settings saved"@
        }),
{
    let restart_required = reasons.len() > 0;
    let message = if restart_required {
        String::from_str("settings saved; restart required for some changes")
    } else {
        String::from_str("settings saved")
    };
    SaveSettingsResponse { settings, restart_required, restart_reasons: reasons, message }
}

/// A saved setting reads back as saved: once the values that a valid save
/// writes are in the store, loading the settings gives each of them back.
/// Loading trims what it reads, so this holds for a listening address and
/// an MCP path without whitespace at either end (the other texts are
/// trimmed when checked).
pub proof fn law_saved_settings_read_back(
    request: SaveSettingsRequest,
    parsed: Option<SocketAddress>,
    shown: Seq<char>,
    stored: StoredSettings,
)
    requires
        settings_check(request, parsed, shown) is Ok,
        trim(shown) == shown,
        trim(settings_check(request, parsed, shown)->Ok_0.1) == settings_check(request, parsed, shown)->Ok_0.1,
        ({
            let (a, mcp, bundle, process, depth, nodes, mode, url) = settings_check(request, parsed, shown)->Ok_0;
            &&& opt_seq(stored.bind_addr) == Some(shown)
            &&& opt_seq(stored.mcp_path) == Some(mcp)
            &&& opt_seq(stored.target_bundle_id) == Some(bundle)
            &&& opt_seq(stored.target_process_name) == Some(process)
            &&& opt_seq(stored.max_depth) == Some(decimal(depth))
            &&& opt_seq(stored.max_nodes) == Some(decimal(nodes))
            &&& opt_seq(stored.network_mode) == Some(mode)
            &&& opt_seq(stored.stock_service_url) == url
        }),
    ensures
        ({
            let (a, mcp, bundle, process, depth, nodes, mode, url) = settings_check(request, parsed, shown)->Ok_0;
            &&& shown.len() > 0 ==> filled_or(stored.bind_addr, "127.0.0.1:5190"@) == shown
            &&& filled_or(stored.mcp_path, "/mcp"@) == mcp
            &&& filled_or(stored.target_bundle_id, "com.citics.mac.tdx"@) == bundle
            &&& filled_or(stored.target_process_name, "中信证券网上交易"@) == process
            &&& count_or(stored.max_depth, 6) == depth
            &&& count_or(stored.max_nodes, 300) == nodes
            &&& stored_mode(stored.network_mode) == mode
            &&& filled(stored.stock_service_url) == url
        }),
{
    let (a, mcp, bundle, process, depth, nodes, mode, url) = settings_check(request, parsed, shown)->Ok_0;
    lemma_trim_idempotent(request.target_bundle_id@);
    lemma_trim_idempotent(request.target_process_name@);
    lemma_decimal_reads_back(depth);
    lemma_decimal_reads_back(nodes);
    let m = mode_alias(ascii_lower(trim(request.network_mode@)))->0;
    law_mode_name_round_trip(m);
    assert(mode == mode_name(m));
    reveal_strlit("loopback");
    reveal_strlit("private-overlay");
    lemma_trim_of_trimmed(mode);
    assert(mcp.len() > 0) by {
        reveal_strlit("/");
    }
    match request.stock_service_url {
        Some(raw) => {
            lemma_trim_idempotent(raw@);
        },
        None => {},
    }
}

/// The key and value texts of a list of setting writes.
pub open spec fn pair_views(s: Seq<(&'static str, String)>) -> Seq<(Seq<char>, Seq<char>)> {
    Seq::new(s.len(), |i: int| (s[i].0@, s[i].1@))
}

/// One seeding write when the setting is absent.
pub open spec fn seed_entry(absent: bool, key: Seq<char>, value: Seq<char>) -> Seq<(Seq<char>, Seq<char>)> {
    if absent {
        seq![(key, value)]
    } else {
        seq![]
    }
}

/// What seeding the store from the running configuration writes: each
/// setting that is absent gets the configured value; the stock service URL
/// only when it is given (not blank, trimmed) and absent.
pub open spec fn seed_plan(
    stored: StoredSettings,
    stock_service_url: Option<Seq<char>>,
    bind_addr: Seq<char>,
    mcp_path: Seq<char>,
    bundle_id: Seq<char>,
    process_name: Seq<char>,
    max_depth: nat,
    max_nodes: nat,
) -> Seq<(Seq<char>, Seq<char>)> {
    seed_entry(stored.bind_addr is None, "bind_addr"@, bind_addr) + seed_entry(
        stored.mcp_path is None,
        "mcp_path"@,
        mcp_path,
    ) + seed_entry(stored.target_bundle_id is None, "target_bundle_id"@, bundle_id) + seed_entry(
        stored.target_process_name is None,
        "target_process_name"@,
        process_name,
    ) + seed_entry(stored.max_depth is None, "max_depth"@, decimal(max_depth)) + seed_entry(
        stored.max_nodes is None,
        "max_nodes"@,
        decimal(max_nodes),
    ) + match stock_service_url {
        Some(u) => seed_entry(
            trim(u).len() > 0 && stored.stock_service_url is None,
            "stock_main_service_url"@,
            trim(u),
        ),
        None => seq![],
    }
}

fn push_seed(w: &mut Vec<(&'static str, String)>, absent: bool, key: &'static str, value: String)
    ensures
        pair_views(final(w)@) == pair_views(old(w)@) + seed_entry(absent, key@, value@),
{
    let ghost before = old(w)@;
    if absent {
        w.push((key, value));
    }
    proof {
        assert(pair_views(w@) =~= pair_views(before) + seed_entry(absent, key@, value@));
    }
}

/// The settings to write when the store is seeded from the running
/// configuration, in order.
pub fn seed_writes(
    stored: &StoredSettings,
    stock_service_url: Option<&str>,
    bind_addr: &str,
    mcp_path: &str,
    bundle_id: &str,
    process_name: &str,
    max_depth: usize,
    max_nodes: usize,
) -> (w: Vec<(&'static str, String)>)
    ensures
        pair_views(w@) == seed_plan(
            *stored,
            match stock_service_url {
                Some(u) => Some(u@),
                None => None,
            },
            bind_addr@,
            mcp_path@,
            bundle_id@,
            process_name@,
            max_depth as nat,
            max_nodes as nat,
        ),
{
    let mut w: Vec<(&'static str, String)> = Vec::new();
    proof {
        assert(pair_views(w@) =~= Seq::<(Seq<char>, Seq<char>)>::empty());
    }
    push_seed(&mut w, stored.bind_addr.is_none(), "bind_addr", String::from_str(bind_addr));
    push_seed(&mut w, stored.mcp_path.is_none(), "mcp_path", String::from_str(mcp_path));
    push_seed(&mut w, stored.target_bundle_id.is_none(), "target_bundle_id", String::from_str(bundle_id));
    push_seed(
        &mut w,
        stored.target_process_name.is_none(),
        "target_process_name",
        String::from_str(process_name),
    );
    push_seed(&mut w, stored.max_depth.is_none(), "max_depth", u64_to_string(max_depth as u64));
    push_seed(&mut w, stored.max_nodes.is_none(), "max_nodes", u64_to_string(max_nodes as u64));
    match stock_service_url {
        Some(u) => {
            let t = trim_string(u);
            let absent = t.as_str().unicode_len() > 0 && stored.stock_service_url.is_none();
            push_seed(&mut w, absent, "stock_main_service_url", t);
        },
        None => {},
    }
    proof {
        reveal_strlit("bind_addr");
        reveal_strlit("mcp_path");
        reveal_strlit("target_bundle_id");
        reveal_strlit("target_process_name");
        reveal_strlit("max_depth");
        reveal_strlit("max_nodes");
        reveal_strlit("stock_main_service_url");
    }
    w
}

} // verus!
