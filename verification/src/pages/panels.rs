//! Whether a panel read may use the table the window shows, and the
//! warnings that explain when it may not.
use vstd::prelude::*;

use super::ocr_navigation::panel_debug_str;
use super::ocr_table::panel_debug_name;
use super::types::PanelKind;
use crate::text::push_owned;

verus! {

/// The window shows another panel than the one asked for.
pub open spec fn other_panel(detected: PanelKind, requested: PanelKind) -> bool {
    detected != PanelKind::Unknown && detected != requested
}

pub open spec fn mismatch_text(detected: PanelKind, requested: PanelKind) -> Seq<char> {
    "current panel is "@ + panel_debug_name(detected) + ", not the requested "@ + panel_debug_name(requested)
}

fn mismatch_message(detected: PanelKind, requested: PanelKind) -> (s: String)
    ensures
        s@ == mismatch_text(detected, requested),
{
    let mut s = String::from_str("current panel is ");
    s.append(panel_debug_str(detected));
    s.append(", not the requested ");
    s.append(panel_debug_str(requested));
    s
}

/// Whether an Accessibility panel read uses the table found with the
/// panel's headers, and its warnings: a table on another panel is not used,
/// and a missing table is reported.
pub fn panel_table_verdict(detected: PanelKind, requested: PanelKind, table_found: bool) -> (r: (bool, Vec<String>))
    ensures
        r.0 == (!other_panel(detected, requested) && table_found),
        r.1.deep_view() == (if other_panel(detected, requested) {
            seq![mismatch_text(detected, requested)]
        } else if !table_found {
            seq![panel_debug_name(requested) + " table was not exposed by the current window"@]
        } else {
            seq![]
        }),
{
    let mut warnings: Vec<String> = Vec::new();
    proof {
        assert(warnings.deep_view() =~= Seq::<Seq<char>>::empty());
    }
    if detected != PanelKind::Unknown && detected != requested {
        push_owned(&mut warnings, mismatch_message(detected, requested));
        return (false, warnings);
    }
    if !table_found {
        let mut w = String::from_str(panel_debug_str(requested));
        w.append(" table was not exposed by the current window");
        push_owned(&mut warnings, w);
        return (false, warnings);
    }
    (true, warnings)
}

/// Reports a table that was used but exposed no rows, naming it.
pub fn note_empty_table(warnings: &mut Vec<String>, table_used: bool, row_count: usize, name: &str)
    ensures
        final(warnings).deep_view() == (if table_used && row_count == 0 {
            old(warnings).deep_view().push(name@ + " table exposed no rows"@)
        } else {
            old(warnings).deep_view()
        }),
{
    if table_used && row_count == 0 {
        let mut w = String::from_str(name);
        w.append(" table exposed no rows");
        push_owned(warnings, w);
    }
}

/// Why an OCR panel read stops before reading the table, if it does: no
/// window, another panel, or no table with the panel's headers.
pub fn ocr_panel_refusal(
    window_available: bool,
    detected: PanelKind,
    requested: PanelKind,
    table_found: bool,
    panel_name: &str,
) -> (r: Option<String>)
    ensures
        match r {
            Some(w) => if !window_available {
                w@ == "target window is unavailable"@
            } else if other_panel(detected, requested) {
                w@ == mismatch_text(detected, requested)
            } else {
                !table_found && w@ == panel_name@ + " table signature was not exposed by the current window"@
            },
            None => window_available && !other_panel(detected, requested) && table_found,
        },
{
    if !window_available {
        return Some(String::from_str("target window is unavailable"));
    }
    if detected != PanelKind::Unknown && detected != requested {
        return Some(mismatch_message(detected, requested));
    }
    if !table_found {
        let mut w = String::from_str(panel_name);
        w.append(" table signature was not exposed by the current window");
        return Some(w);
    }
    None
}

/// What a funds read reports when its table is missing, if it is.
pub fn funds_table_refusal(window_available: bool, table_found: bool) -> (r: Option<String>)
    ensures
        match r {
            Some(w) => if !window_available {
                w@ == "target window is unavailable"@
            } else {
                !table_found && w@ == "funds table was not exposed by the current window"@
            },
            None => window_available && table_found,
        },
{
    if !window_available {
        return Some(String::from_str("target window is unavailable"));
    }
    if !table_found {
        return Some(String::from_str("funds table was not exposed by the current window"));
    }
    None
}

} // verus!
