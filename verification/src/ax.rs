//! Decisions of the Accessibility inspector: what its status reports, and
//! how a bounded walk of the element tree spends its budget.
use vstd::prelude::*;

use crate::text::{push_message, str_eq};

verus! {

/// The notes of an Accessibility status, in order.
pub open spec fn status_notes_of(api_enabled: bool, trusted: bool, target_found: bool) -> Seq<Seq<char>> {
    crate::text::msg_if(!api_enabled, "macOS Accessibility API is disabled"@) + crate::text::msg_if(
        !trusted,
        "grant Accessibility permission to the stock-operator process in System Settings"@,
    ) + crate::text::msg_if(
        !target_found,
        "target process was not found with the configured process name and bundle ID"@,
    )
}

pub fn status_notes(api_enabled: bool, trusted: bool, target_found: bool) -> (r: Vec<String>)
    ensures
        r.deep_view() == status_notes_of(api_enabled, trusted, target_found),
{
    let mut notes: Vec<String> = Vec::new();
    let ghost n0 = notes.deep_view();
    if !api_enabled {
        push_message(&mut notes, "macOS Accessibility API is disabled");
    }
    let ghost n1 = notes.deep_view();
    if !trusted {
        push_message(&mut notes, "grant Accessibility permission to the stock-operator process in System Settings");
    }
    let ghost n2 = notes.deep_view();
    if !target_found {
        push_message(&mut notes, "target process was not found with the configured process name and bundle ID");
    }
    proof {
        assert(n0 =~= Seq::<Seq<char>>::empty());
        assert(n1 =~= crate::text::msg_if(!api_enabled, "macOS Accessibility API is disabled"@));
        assert(n2 =~= n1 + crate::text::msg_if(
            !trusted,
            "grant Accessibility permission to the stock-operator process in System Settings"@,
        ));
        assert(notes.deep_view() =~= status_notes_of(api_enabled, trusted, target_found));
    }
    notes
}

/// The budget of a bounded walk of the element tree: no more than
/// `max_nodes` elements are visited and none deeper than `max_depth`;
/// `truncated` records that something was left out.
#[derive(Clone, Copy, Debug)]
pub struct WalkState {
    pub max_depth: usize,
    pub max_nodes: usize,
    pub node_count: usize,
    pub truncated: bool,
}

impl WalkState {
    /// The budget holds: the count never passes the limit.
    pub open spec fn within_budget(self) -> bool {
        self.node_count <= self.max_nodes
    }

    pub fn new(max_depth: usize, max_nodes: usize) -> (s: WalkState)
        ensures
            s.within_budget(),
            s == (WalkState { max_depth, max_nodes, node_count: 0, truncated: false }),
    {
        WalkState { max_depth, max_nodes, node_count: 0, truncated: false }
    }

    /// Counts one more visited element, or refuses when the budget is spent
    /// (which leaves the walk truncated).
    pub fn enter(&mut self) -> (r: Result<(), String>)
        requires
            old(self).within_budget(),
        ensures
            final(self).within_budget(),
            final(self).max_depth == old(self).max_depth,
            final(self).max_nodes == old(self).max_nodes,
            old(self).node_count < old(self).max_nodes ==> r is Ok && final(self).node_count == old(
                self,
            ).node_count + 1 && final(self).truncated == old(self).truncated,
            old(self).node_count >= old(self).max_nodes ==> (r matches Err(e) && e@
                == "Accessibility tree walk reached its node limit"@) && final(self).node_count == old(
                self,
            ).node_count && final(self).truncated,
    {
        if self.node_count >= self.max_nodes {
            self.truncated = true;
            return Err(String::from_str("Accessibility tree walk reached its node limit"));
        }
        self.node_count = self.node_count + 1;
        Ok(())
    }

    /// Whether the children of an element at `depth` are walked.
    pub fn descends(&self, depth: usize) -> (b: bool)
        ensures
            b == (depth < self.max_depth),
    {
        depth < self.max_depth
    }

    /// Before the next child: whether the budget stops the walk of the
    /// children, having taken `taken` of `total`; stopping early truncates.
    pub fn stop_children(&mut self, taken: usize, total: usize) -> (stop: bool)
        ensures
            stop == (old(self).node_count >= old(self).max_nodes),
            final(self).node_count == old(self).node_count,
            final(self).max_nodes == old(self).max_nodes,
            final(self).max_depth == old(self).max_depth,
            final(self).truncated == (old(self).truncated || (stop && taken < total)),
    {
        if self.node_count >= self.max_nodes {
            if taken < total {
                self.truncated = true;
            }
            return true;
        }
        false
    }

    /// An element below the depth limit whose children are skipped truncates
    /// the walk when it has any.
    pub fn skip_children(&mut self, has_children: bool)
        ensures
            final(self).node_count == old(self).node_count,
            final(self).max_nodes == old(self).max_nodes,
            final(self).max_depth == old(self).max_depth,
            final(self).truncated == (old(self).truncated || has_children),
    {
        if has_children {
            self.truncated = true;
        }
    }
}

/// The value of a secure text field is never read.
pub fn value_readable(role: Option<&str>) -> (b: bool)
    ensures
        b == !(role matches Some(r) && r@ == "AXSecureTextField"@),
{
    match role {
        Some(r) => !str_eq(r, "AXSecureTextField"),
        None => true,
    }
}

} // verus!
