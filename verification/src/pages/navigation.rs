//! Read-only panels that the operator can navigate to.
use vstd::prelude::*;

use super::types::PanelKind;

verus! {

#[derive(Clone, Copy, Debug, PartialEq, Eq, Structural)]
pub enum NavigationTarget {
    Positions,
    Orders,
    Executions,
    Funds,
}

/// The panel that a target shows.
pub open spec fn target_panel(target: NavigationTarget) -> PanelKind {
    match target {
        NavigationTarget::Positions => PanelKind::Positions,
        NavigationTarget::Orders => PanelKind::Orders,
        NavigationTarget::Executions => PanelKind::Executions,
        NavigationTarget::Funds => PanelKind::Funds,
    }
}

/// The labels of the controls that lead to a target, preferred first.
pub open spec fn target_labels(target: NavigationTarget) -> Seq<Seq<char>> {
    match target {
        NavigationTarget::Positions => seq!["持仓"@],
        NavigationTarget::Orders => seq!["当日委托"@, "委托"@],
        NavigationTarget::Executions => seq!["当日成交"@, "成交"@],
        NavigationTarget::Funds => seq!["资金明细"@],
    }
}

impl NavigationTarget {
    pub fn panel(self) -> (p: PanelKind)
        ensures
            p == target_panel(self),
    {
        match self {
            NavigationTarget::Positions => PanelKind::Positions,
            NavigationTarget::Orders => PanelKind::Orders,
            NavigationTarget::Executions => PanelKind::Executions,
            NavigationTarget::Funds => PanelKind::Funds,
        }
    }

    pub fn labels(self) -> (l: Vec<&'static str>)
        ensures
            l@.len() == target_labels(self).len(),
            forall|i: int| 0 <= i < l@.len() ==> (#[trigger] l@[i])@ == target_labels(self)[i],
    {
        match self {
            NavigationTarget::Positions => vec!["持仓"],
            NavigationTarget::Orders => vec!["当日委托", "委托"],
            NavigationTarget::Executions => vec!["当日成交", "成交"],
            NavigationTarget::Funds => vec!["资金明细"],
        }
    }
}

/// Every navigation target, in order.
pub fn all_targets() -> (v: Vec<NavigationTarget>)
    ensures
        v@ == seq![
            NavigationTarget::Positions,
            NavigationTarget::Orders,
            NavigationTarget::Executions,
            NavigationTarget::Funds,
        ],
{
    vec![
        NavigationTarget::Positions,
        NavigationTarget::Orders,
        NavigationTarget::Executions,
        NavigationTarget::Funds,
    ]
}

} // verus!
