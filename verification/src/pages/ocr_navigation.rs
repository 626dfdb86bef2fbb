//! Choosing which OCR label to click to reach a panel.
use vstd::prelude::*;

use super::navigation::{target_labels, target_panel, NavigationTarget};
use super::ocr_table::panel_debug_name;
use super::types::PanelKind;
use crate::text::{str_eq, trim, trim_string};

verus! {

/// The first target (positions, orders, executions, funds) that has
/// `label` among its labels.
pub open spec fn target_of_label(label: Seq<char>) -> Option<NavigationTarget> {
    if target_labels(NavigationTarget::Positions).contains(label) {
        Some(NavigationTarget::Positions)
    } else if target_labels(NavigationTarget::Orders).contains(label) {
        Some(NavigationTarget::Orders)
    } else if target_labels(NavigationTarget::Executions).contains(label) {
        Some(NavigationTarget::Executions)
    } else if target_labels(NavigationTarget::Funds).contains(label) {
        Some(NavigationTarget::Funds)
    } else {
        None
    }
}

/// The target that an OCR text (trimmed) is a label of.
pub fn target_for_label(text: &str) -> (r: Option<NavigationTarget>)
    ensures
        r == target_of_label(trim(text@)),
{
    let t = trim_string(text);
    let s = t.as_str();
    proof {
        assert(target_labels(NavigationTarget::Positions) =~= seq!["持仓"@]);
        assert(target_labels(NavigationTarget::Orders) =~= seq!["当日委托"@, "委托"@]);
        assert(target_labels(NavigationTarget::Executions) =~= seq!["当日成交"@, "成交"@]);
        assert(target_labels(NavigationTarget::Funds) =~= seq!["资金明细"@]);
    }
    if str_eq(s, "持仓") {
        proof {
            assert(target_labels(NavigationTarget::Positions)[0] == s@);
        }
        Some(NavigationTarget::Positions)
    } else if str_eq(s, "当日委托") || str_eq(s, "委托") {
        proof {
            assert(target_labels(NavigationTarget::Orders)[0] == "当日委托"@);
            assert(target_labels(NavigationTarget::Orders)[1] == "委托"@);
        }
        Some(NavigationTarget::Orders)
    } else if str_eq(s, "当日成交") || str_eq(s, "成交") {
        proof {
            assert(target_labels(NavigationTarget::Executions)[0] == "当日成交"@);
            assert(target_labels(NavigationTarget::Executions)[1] == "成交"@);
        }
        Some(NavigationTarget::Executions)
    } else if str_eq(s, "资金明细") {
        proof {
            assert(target_labels(NavigationTarget::Funds)[0] == s@);
        }
        Some(NavigationTarget::Funds)
    } else {
        None
    }
}

/// A label leads to a target exactly when it is one of that target's own
/// labels: the targets' labels are disjoint, so each label maps back to the
/// target it belongs to and to no other.
pub proof fn law_label_leads_to_its_target(label: Seq<char>, t: NavigationTarget)
    ensures
        target_of_label(label) == Some(t) <==> target_labels(t).contains(label),
{
    reveal_strlit("持仓");
    reveal_strlit("当日委托");
    reveal_strlit("委托");
    reveal_strlit("当日成交");
    reveal_strlit("成交");
    reveal_strlit("资金明细");
    let p = target_labels(NavigationTarget::Positions);
    let o = target_labels(NavigationTarget::Orders);
    let e = target_labels(NavigationTarget::Executions);
    let f = target_labels(NavigationTarget::Funds);
    assert("持仓"@[0] != "当日委托"@[0] && "持仓"@[0] != "委托"@[0] && "持仓"@[0] != "当日成交"@[0]
        && "持仓"@[0] != "成交"@[0] && "持仓"@[0] != "资金明细"@[0]);
    assert("当日委托"@.len() != "当日成交"@.len() || "当日委托"@[2] != "当日成交"@[2]);
    assert("当日委托"@.len() != "成交"@.len());
    assert("委托"@[0] != "当日成交"@[0] && "委托"@[0] != "成交"@[0] && "委托"@.len() != "资金明细"@.len());
    assert("当日委托"@[0] != "资金明细"@[0] && "当日成交"@[0] != "资金明细"@[0]);
    assert("成交"@.len() != "资金明细"@.len());
    if p.contains(label) {
        let i = choose|i: int| 0 <= i < p.len() && p[i] == label;
        assert(label == "持仓"@);
    }
    if o.contains(label) {
        let i = choose|i: int| 0 <= i < o.len() && o[i] == label;
        assert(label == "当日委托"@ || label == "委托"@);
    }
    if e.contains(label) {
        let i = choose|i: int| 0 <= i < e.len() && e[i] == label;
        assert(label == "当日成交"@ || label == "成交"@);
    }
    if f.contains(label) {
        let i = choose|i: int| 0 <= i < f.len() && f[i] == label;
        assert(label == "资金明细"@);
    }
}

/// A navigation label found by OCR: its target and the row it lies on (its
/// vertical centre in hundredths of the window height, rounded).
#[derive(Clone, Copy, Debug)]
pub struct LabelCandidate {
    pub target: NavigationTarget,
    pub row: i64,
}

/// A row of labels that names at least two different targets: the
/// navigation bar.
pub open spec fn row_qualifies(c: Seq<LabelCandidate>, row: i64) -> bool {
    exists|i: int, j: int|
        0 <= i < c.len() && 0 <= j < c.len() && (#[trigger] c[i]).row == row && (#[trigger] c[j]).row
            == row && c[i].target != c[j].target
}

/// `row` is the only row that qualifies as the navigation bar.
pub open spec fn sole_bar(c: Seq<LabelCandidate>, row: i64) -> bool {
    row_qualifies(c, row) && forall|i: int| 0 <= i < c.len() && row_qualifies(c, (#[trigger] c[i]).row) ==> c[i].row == row
}

/// The label at `idx` is the one to click for `target`: it lies on the sole
/// navigation bar and is the only label there for that target.
pub open spec fn chosen_label(c: Seq<LabelCandidate>, target: NavigationTarget, idx: int) -> bool {
    &&& 0 <= idx < c.len()
    &&& sole_bar(c, c[idx].row)
    &&& c[idx].target == target
    &&& forall|j: int| 0 <= j < c.len() && j != idx && (#[trigger] c[j]).row == c[idx].row ==> c[j].target != target
}

fn qualifies(c: &Vec<LabelCandidate>, row: i64) -> (b: bool)
    ensures
        b == row_qualifies(c@, row),
{
    let mut i: usize = 0;
    while i < c.len()
        invariant
            i <= c@.len(),
            forall|a: int, b: int|
                0 <= a < i && 0 <= b < c@.len() && (#[trigger] c@[a]).row == row && (#[trigger] c@[b]).row
                    == row ==> c@[a].target == c@[b].target,
        decreases c@.len() - i,
    {
        if c[i].row == row {
            let mut j: usize = 0;
            while j < c.len()
                invariant
                    j <= c@.len(),
                    i < c@.len(),
                    c@[i as int].row == row,
                    forall|a: int, b: int|
                        0 <= a < i && 0 <= b < c@.len() && (#[trigger] c@[a]).row == row && (#[trigger] c@[b]).row
                            == row ==> c@[a].target == c@[b].target,
                    forall|b: int| 0 <= b < j && (#[trigger] c@[b]).row == row ==> c@[i as int].target == c@[b].target,
                decreases c@.len() - j,
            {
                if c[j].row == row && c[j].target != c[i].target {
                    proof {
                        assert(c@[i as int].row == row && c@[j as int].row == row);
                    }
                    return true;
                }
                j = j + 1;
            }
        }
        i = i + 1;
    }
    false
}

fn first_bar_label(c: &Vec<LabelCandidate>) -> (r: Option<usize>)
    ensures
        match r {
            Some(q) => q < c@.len() && row_qualifies(c@, c@[q as int].row),
            None => forall|k: int| 0 <= k < c@.len() ==> !row_qualifies(c@, (#[trigger] c@[k]).row),
        },
{
    let mut q: usize = 0;
    while q < c.len()
        invariant
            q <= c@.len(),
            forall|k: int| 0 <= k < q ==> !row_qualifies(c@, (#[trigger] c@[k]).row),
        decreases c@.len() - q,
    {
        if qualifies(c, c[q].row) {
            return Some(q);
        }
        q = q + 1;
    }
    None
}

/// Picks the label to click for `target` among the OCR labels, if exactly
/// one row of labels is the navigation bar and it holds exactly one label
/// for the target.
pub fn choose_label(c: &Vec<LabelCandidate>, target: NavigationTarget) -> (r: Option<usize>)
    ensures
        match r {
            Some(i) => chosen_label(c@, target, i as int),
            None => forall|i: int| !chosen_label(c@, target, i),
        },
{
    let q = match first_bar_label(c) {
        Some(q) => q,
        None => {
            return None;
        },
    };
    let key = c[q].row;
    let mut i: usize = 0;
    while i < c.len()
        invariant
            i <= c@.len(),
            q < c@.len(),
            key == c@[q as int].row,
            row_qualifies(c@, key),
            forall|k: int| 0 <= k < i && row_qualifies(c@, (#[trigger] c@[k]).row) ==> c@[k].row == key,
        decreases c@.len() - i,
    {
        if c[i].row != key && qualifies(c, c[i].row) {
            proof {
                assert forall|x: int| !chosen_label(c@, target, x) by {
                    if chosen_label(c@, target, x) {
                        assert(row_qualifies(c@, c@[q as int].row));
                        assert(row_qualifies(c@, c@[i as int].row));
                    }
                }
            }
            return None;
        }
        i = i + 1;
    }
    assert(sole_bar(c@, key));
    let mut found: Option<usize> = None;
    let mut m: usize = 0;
    while m < c.len()
        invariant
            m <= c@.len(),
            sole_bar(c@, key),
            match found {
                Some(f) => f < m && c@[f as int].row == key && c@[f as int].target == target && forall|j: int|
                    0 <= j < m && j != f && (#[trigger] c@[j]).row == key ==> c@[j].target != target,
                None => forall|j: int| 0 <= j < m && (#[trigger] c@[j]).row == key ==> c@[j].target != target,
            },
        decreases c@.len() - m,
    {
        if c[m].row == key && c[m].target == target {
            match found {
                Some(f) => {
                    proof {
                        assert forall|x: int| !chosen_label(c@, target, x) by {
                            if chosen_label(c@, target, x) {
                                assert(c@[x].row == key) by {
                                    assert(row_qualifies(c@, c@[x].row));
                                }
                                if x != f as int {
                                    assert(c@[f as int].row == c@[x].row);
                                } else {
                                    assert(c@[m as int].row == c@[x].row);
                                }
                            }
                        }
                    }
                    return None;
                },
                None => {
                    found = Some(m);
                },
            }
        }
        m = m + 1;
    }
    match found {
        Some(f) => Some(f),
        None => {
            proof {
                assert forall|x: int| !chosen_label(c@, target, x) by {
                    if chosen_label(c@, target, x) {
                        assert(row_qualifies(c@, c@[x].row));
                        assert(c@[x].row == key);
                    }
                }
            }
            None
        },
    }
}

/// Whether navigation reached the target's panel, and the warning that
/// says so.
pub fn navigation_outcome(target: NavigationTarget, after: PanelKind) -> (r: (bool, String))
    ensures
        r.0 == (after == target_panel(target)),
        r.1@ == (if r.0 {
            "navigation used OCR label matching"@
        } else {
            "OCR navigation did not reach "@ + panel_debug_name(target_panel(target))
        }),
{
    let panel = target.panel();
    if after == panel {
        (true, String::from_str("navigation used OCR label matching"))
    } else {
        let mut w = String::from_str("OCR navigation did not reach ");
        w.append(panel_debug_str(panel));
        (false, w)
    }
}

pub fn panel_debug_str(panel: PanelKind) -> (s: &'static str)
    ensures
        s@ == panel_debug_name(panel),
{
    match panel {
        PanelKind::Unknown => "Unknown",
        PanelKind::Positions => "Positions",
        PanelKind::Orders => "Orders",
        PanelKind::Executions => "Executions",
        PanelKind::Cancellations => "Cancellations",
        PanelKind::Funds => "Funds",
    }
}

} // verus!
