//! Runtime status of the desktop shell.
use vstd::prelude::*;

use super::settings::{collect_restart_reasons, filled, restart_reasons_of, StoredSettings};
use crate::config::{mode_name, OperatorConfig};
use crate::text::{parse_usize, str_eq, trim_string, usize_text};

verus! {

/// A stored value, or the running one when it is absent.
pub open spec fn stored_or(v: Option<String>, running: Seq<char>) -> Seq<char> {
    match v {
        Some(s) => s@,
        None => running,
    }
}

/// A stored count read as `usize`, or the running one when absent or
/// unreadable.
pub open spec fn stored_count_or(v: Option<String>, running: nat) -> nat {
    match v {
        Some(s) => match usize_text(s@) {
            Some(n) => n,
            None => running,
        },
        None => running,
    }
}

/// Whether the stored settings differ from the running configuration, and
/// the reason for each difference. Stored values are compared as stored
/// (counts read as numbers; the network mode trimmed, blank meaning the
/// running mode); a setting that could not be read counts as unchanged.
pub fn check_restart_required(stored: &StoredSettings, running: &OperatorConfig) -> (r: (bool, Vec<String>))
    ensures
        ({
            let mode = match filled(stored.network_mode) {
                Some(m) => m,
                None => mode_name(running.network_mode),
            };
            r.1.deep_view() == restart_reasons_of(
                stored_or(stored.bind_addr, running.bind_addr@) != running.bind_addr@,
                stored_or(stored.mcp_path, running.mcp_path@) != running.mcp_path@,
                stored_or(stored.target_bundle_id, running.target_bundle_id@)
                    != running.target_bundle_id@,
                stored_or(stored.target_process_name, running.target_process_name@)
                    != running.target_process_name@,
                stored_count_or(stored.max_depth, running.max_depth as nat) != running.max_depth,
                stored_count_or(stored.max_nodes, running.max_nodes as nat) != running.max_nodes,
                mode != mode_name(running.network_mode),
            )
        }),
        r.0 == (r.1@.len() > 0),
{
    let bind = match &stored.bind_addr {
        Some(v) => !str_eq(v.as_str(), running.bind_addr.as_str()),
        None => false,
    };
    let mcp = match &stored.mcp_path {
        Some(v) => !str_eq(v.as_str(), running.mcp_path.as_str()),
        None => false,
    };
    let bundle = match &stored.target_bundle_id {
        Some(v) => !str_eq(v.as_str(), running.target_bundle_id.as_str()),
        None => false,
    };
    let process = match &stored.target_process_name {
        Some(v) => !str_eq(v.as_str(), running.target_process_name.as_str()),
        None => false,
    };
    let depth = match &stored.max_depth {
        Some(v) => match parse_usize(v.as_str()) {
            Some(n) => n != running.max_depth,
            None => false,
        },
        None => false,
    };
    let nodes = match &stored.max_nodes {
        Some(v) => match parse_usize(v.as_str()) {
            Some(n) => n != running.max_nodes,
            None => false,
        },
        None => false,
    };
    let mode = match &stored.network_mode {
        Some(v) => {
            let t = trim_string(v.as_str());
            if t.as_str().unicode_len() > 0 {
                !str_eq(t.as_str(), running.network_mode.as_str())
            } else {
                false
            }
        },
        None => false,
    };
    let reasons = collect_restart_reasons(bind, mcp, bundle, process, depth, nodes, mode);
    (reasons.len() > 0, reasons)
}

} // verus!
