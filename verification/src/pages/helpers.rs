//! What the broker window's visible texts and table headers say about the
//! page it shows.
use vstd::prelude::*;

use super::types::{PanelKind, WorkspaceKind};
use crate::order::{insert_sorted, strictly_sorted};
use crate::text::{contains, contains_str, push_owned, str_eq, trim, trim_bounds, chars_of};

verus! {

/// The workspace that the window's visible text names.
pub open spec fn workspace_of(text: Seq<char>) -> WorkspaceKind {
    if contains(text, "卖出下单"@) {
        WorkspaceKind::SellOrder
    } else if contains(text, "买入下单"@) {
        WorkspaceKind::BuyOrder
    } else {
        WorkspaceKind::Unknown
    }
}

/// The workspace, from all visible text joined by spaces.
pub fn detect_workspace(text: &str) -> (w: WorkspaceKind)
    ensures
        w == workspace_of(text@),
{
    if contains_str(text, "卖出下单") {
        WorkspaceKind::SellOrder
    } else if contains_str(text, "买入下单") {
        WorkspaceKind::BuyOrder
    } else {
        WorkspaceKind::Unknown
    }
}

/// Keywords as plain values.
pub open spec fn keyword_views(keywords: Seq<&str>) -> Seq<Seq<char>> {
    keywords.map_values(|k: &str| k@)
}

/// How many keywords occur in some header.
pub open spec fn keyword_hits(headers: Seq<Seq<char>>, keywords: Seq<Seq<char>>) -> nat
    decreases keywords.len(),
{
    if keywords.len() == 0 {
        0
    } else {
        keyword_hits(headers, keywords.drop_last()) + (if exists|j: int|
            0 <= j < headers.len() && contains(#[trigger] headers[j], keywords.last()) {
            1nat
        } else {
            0nat
        })
    }
}

fn any_header_contains(headers: &Vec<String>, keyword: &str) -> (b: bool)
    ensures
        b == exists|j: int| 0 <= j < headers.deep_view().len() && contains(#[trigger] headers.deep_view()[j], keyword@),
{
    let mut j: usize = 0;
    while j < headers.len()
        invariant
            j <= headers@.len(),
            forall|k: int| 0 <= k < j ==> !contains(#[trigger] headers.deep_view()[k], keyword@),
        decreases headers@.len() - j,
    {
        proof {
            assert(headers.deep_view()[j as int] == headers@[j as int]@);
        }
        if contains_str(headers[j].as_str(), keyword) {
            return true;
        }
        j = j + 1;
    }
    false
}

/// Whether a table's headers hold at least `minimum` of the keywords.
pub fn headers_match(headers: &Vec<String>, keywords: &[&str], minimum: usize) -> (b: bool)
    ensures
        b == (keyword_hits(headers.deep_view(), keyword_views(keywords@)) >= minimum),
{
    let ghost kw = keyword_views(keywords@);
    let mut hits: usize = 0;
    let mut i: usize = 0;
    while i < keywords.len()
        invariant
            i <= keywords@.len(),
            kw == keyword_views(keywords@),
            hits == keyword_hits(headers.deep_view(), kw.take(i as int)),
            hits <= i,
        decreases keywords@.len() - i,
    {
        proof {
            assert(kw.take(i + 1).drop_last() =~= kw.take(i as int));
            assert(kw.take(i + 1).last() == keywords@[i as int]@);
        }
        if any_header_contains(headers, keywords[i]) {
            hits = hits + 1;
        }
        i = i + 1;
    }
    proof {
        assert(kw.take(keywords@.len() as int) =~= kw);
    }
    hits >= minimum
}

pub open spec fn orders_keywords() -> Seq<Seq<char>> {
    seq!["委托编号"@, "委托状态"@, "委托价格"@]
}

pub open spec fn executions_keywords() -> Seq<Seq<char>> {
    seq!["成交编号"@, "成交价格"@, "成交数量"@]
}

pub open spec fn funds_keywords() -> Seq<Seq<char>> {
    seq!["可用资金"@, "冻结资金"@, "总资产"@]
}

pub open spec fn positions_keywords() -> Seq<Seq<char>> {
    seq!["证券代码"@, "证券名称"@, "昨日余额"@, "参考持股"@, "可用股份"@, "成本价"@]
}

/// Whether some table has at least `minimum` of the keywords in its headers.
pub open spec fn some_table_matches(tables: Seq<Seq<Seq<char>>>, keywords: Seq<Seq<char>>, minimum: nat) -> bool {
    exists|t: int| 0 <= t < tables.len() && keyword_hits(#[trigger] tables[t], keywords) >= minimum
}

/// The panel shown, from the visible text and the headers of each table:
/// the cancellation selector first, then the tables by their headers, then
/// the panel names in the text.
pub open spec fn panel_of(text: Seq<char>, tables: Seq<Seq<Seq<char>>>) -> PanelKind {
    if contains(text, "全选中"@) && contains(text, "全不选"@) {
        PanelKind::Cancellations
    } else if some_table_matches(tables, orders_keywords(), 2) {
        PanelKind::Orders
    } else if some_table_matches(tables, executions_keywords(), 2) {
        PanelKind::Executions
    } else if some_table_matches(tables, funds_keywords(), 2) {
        PanelKind::Funds
    } else if some_table_matches(tables, positions_keywords(), 4) {
        PanelKind::Positions
    } else if contains(text, "当日成交"@) {
        PanelKind::Executions
    } else if contains(text, "当日委托"@) {
        PanelKind::Orders
    } else if contains(text, "资金明细"@) {
        PanelKind::Funds
    } else {
        PanelKind::Unknown
    }
}

/// Headers of each table, as plain values.
pub open spec fn table_views(tables: Seq<Vec<String>>) -> Seq<Seq<Seq<char>>> {
    tables.map_values(|t: Vec<String>| t.deep_view())
}

fn any_table_matches(tables: &Vec<Vec<String>>, keywords: &[&str], minimum: usize) -> (b: bool)
    ensures
        b == some_table_matches(table_views(tables@), keyword_views(keywords@), minimum as nat),
{
    let mut t: usize = 0;
    while t < tables.len()
        invariant
            t <= tables@.len(),
            forall|k: int|
                0 <= k < t ==> keyword_hits(#[trigger] table_views(tables@)[k], keyword_views(keywords@))
                    < minimum,
        decreases tables@.len() - t,
    {
        if headers_match(&tables[t], keywords, minimum) {
            proof {
                assert(table_views(tables@)[t as int] == tables@[t as int].deep_view());
            }
            return true;
        }
        proof {
            assert(table_views(tables@)[t as int] == tables@[t as int].deep_view());
        }
        t = t + 1;
    }
    false
}

pub fn detect_panel(text: &str, tables: &Vec<Vec<String>>) -> (p: PanelKind)
    ensures
        p == panel_of(text@, table_views(tables@)),
{
    if contains_str(text, "全选中") && contains_str(text, "全不选") {
        return PanelKind::Cancellations;
    }
    let orders: [&str; 3] = ["委托编号", "委托状态", "委托价格"];
    let executions: [&str; 3] = ["成交编号", "成交价格", "成交数量"];
    let funds: [&str; 3] = ["可用资金", "冻结资金", "总资产"];
    let positions: [&str; 6] = ["证券代码", "证券名称", "昨日余额", "参考持股", "可用股份", "成本价"];
    proof {
        assert(keyword_views(orders@) =~= orders_keywords());
        assert(keyword_views(executions@) =~= executions_keywords());
        assert(keyword_views(funds@) =~= funds_keywords());
        assert(keyword_views(positions@) =~= positions_keywords());
    }
    if any_table_matches(tables, &orders, 2) {
        return PanelKind::Orders;
    }
    if any_table_matches(tables, &executions, 2) {
        return PanelKind::Executions;
    }
    if any_table_matches(tables, &funds, 2) {
        return PanelKind::Funds;
    }
    if any_table_matches(tables, &positions, 4) {
        return PanelKind::Positions;
    }
    if contains_str(text, "当日成交") {
        PanelKind::Executions
    } else if contains_str(text, "当日委托") {
        PanelKind::Orders
    } else if contains_str(text, "资金明细") {
        PanelKind::Funds
    } else {
        PanelKind::Unknown
    }
}

/// The non-blank values among the texts read from the window, in order.
pub open spec fn nonblank(values: Seq<Seq<char>>) -> Seq<Seq<char>>
    decreases values.len(),
{
    if values.len() == 0 {
        seq![]
    } else if trim(values.last()).len() > 0 {
        nonblank(values.drop_last()).push(values.last())
    } else {
        nonblank(values.drop_last())
    }
}

pub fn visible_text(values: &Vec<String>) -> (r: Vec<String>)
    ensures
        r.deep_view() == nonblank(values.deep_view()),
{
    let mut out: Vec<String> = Vec::new();
    let mut i: usize = 0;
    while i < values.len()
        invariant
            i <= values@.len(),
            out.deep_view() == nonblank(values.deep_view().take(i as int)),
        decreases values@.len() - i,
    {
        proof {
            assert(values.deep_view().take(i + 1).drop_last() =~= values.deep_view().take(i as int));
            assert(values.deep_view().take(i + 1).last() == values@[i as int]@);
        }
        let chars = chars_of(values[i].as_str());
        let (a, b) = trim_bounds(chars.as_slice());
        if a < b {
            push_owned(&mut out, values[i].clone());
        }
        i = i + 1;
    }
    proof {
        assert(values.deep_view().take(values@.len() as int) =~= values.deep_view());
    }
    out
}

/// A visible text that tells which page is open: on an order workspace the
/// texts that name an order form or read `全部`, on the positions panel the
/// texts about securities.
pub open spec fn evidence_wanted(value: Seq<char>, workspace: WorkspaceKind, panel: PanelKind) -> bool {
    ((workspace == WorkspaceKind::BuyOrder || workspace == WorkspaceKind::SellOrder) && (contains(
        value,
        "下单"@,
    ) || value == "全部"@)) || (panel == PanelKind::Positions && contains(value, "证券"@))
}

/// The evidence for the detected page among the texts read from the window:
/// the visible texts it wants, each once, in string order.
pub fn page_evidence(texts: &Vec<String>, workspace: WorkspaceKind, panel: PanelKind) -> (r: Vec<String>)
    ensures
        strictly_sorted(r.deep_view()),
        forall|x: Seq<char>| #[trigger] r.deep_view().contains(x) <==> (nonblank(texts.deep_view()).contains(
            x,
        ) && evidence_wanted(x, workspace, panel)),
{
    let visible = visible_text(texts);
    let ghost seen = visible.deep_view();
    let mut out: Vec<String> = Vec::new();
    let order_workspace = workspace == WorkspaceKind::BuyOrder || workspace == WorkspaceKind::SellOrder;
    let positions = panel == PanelKind::Positions;
    let mut i: usize = 0;
    while i < visible.len()
        invariant
            i <= visible@.len(),
            seen == visible.deep_view(),
            order_workspace == (workspace == WorkspaceKind::BuyOrder || workspace == WorkspaceKind::SellOrder),
            positions == (panel == PanelKind::Positions),
            strictly_sorted(out.deep_view()),
            forall|x: Seq<char>| #[trigger] out.deep_view().contains(x) <==> (seen.take(i as int).contains(x)
                && evidence_wanted(x, workspace, panel)),
        decreases visible@.len() - i,
    {
        let value = &visible[i];
        proof {
            assert(seen[i as int] == value@);
        }
        let wanted = (order_workspace && (contains_str(value.as_str(), "下单") || str_eq(value.as_str(), "全部")))
            || (positions && contains_str(value.as_str(), "证券"));
        let ghost before = out.deep_view();
        if wanted {
            insert_sorted(&mut out, value.clone());
        }
        proof {
            assert(seen.take(i + 1) =~= seen.take(i as int).push(value@));
            assert forall|x: Seq<char>| #[trigger] out.deep_view().contains(x) <==> (seen.take(i + 1).contains(x)
                && evidence_wanted(x, workspace, panel)) by {
                if seen.take(i + 1).contains(x) && x != value@ {
                    let j = choose|j: int| 0 <= j < i + 1 && #[trigger] seen.take(i + 1)[j] == x;
                    assert(seen.take(i as int)[j] == x);
                }
                if seen.take(i as int).contains(x) {
                    let j = choose|j: int| 0 <= j < i && #[trigger] seen.take(i as int)[j] == x;
                    assert(seen.take(i + 1)[j] == x);
                }
                if x == value@ {
                    assert(seen.take(i + 1)[i as int] == x);
                }
            }
        }
        i = i + 1;
    }
    proof {
        assert(seen.take(visible@.len() as int) =~= seen);
    }
    out
}

/// Roles of controls an operator can act on.
pub open spec fn interactive_role(role: Seq<char>) -> bool {
    role == "AXButton"@ || role == "AXTextField"@ || role == "AXComboBox"@ || role == "AXPopUpButton"@
        || role == "AXMenuButton"@ || role == "AXRadioButton"@ || role == "AXCheckBox"@
}

pub fn is_interactive(role: Option<&str>) -> (b: bool)
    ensures
        b == (role matches Some(r) && interactive_role(r@)),
{
    match role {
        Some(r) => str_eq(r, "AXButton") || str_eq(r, "AXTextField") || str_eq(r, "AXComboBox") || str_eq(
            r,
            "AXPopUpButton",
        ) || str_eq(r, "AXMenuButton") || str_eq(r, "AXRadioButton") || str_eq(r, "AXCheckBox"),
        None => false,
    }
}

/// Attributes that link to other elements rather than describe one.
pub open spec fn structural(attribute: Seq<char>) -> bool {
    attribute == "AXChildren"@ || attribute == "AXParent"@ || attribute == "AXWindow"@ || attribute
        == "AXTopLevelUIElement"@ || attribute == "AXTitleUIElement"@ || attribute == "AXFocusedUIElement"@
        || attribute == "AXSelectedChildren"@ || attribute == "AXVisibleChildren"@ || attribute == "AXRows"@
        || attribute == "AXColumns"@
}

pub fn structural_attribute(attribute: &str) -> (b: bool)
    ensures
        b == structural(attribute@),
{
    str_eq(attribute, "AXChildren") || str_eq(attribute, "AXParent") || str_eq(attribute, "AXWindow")
        || str_eq(attribute, "AXTopLevelUIElement") || str_eq(attribute, "AXTitleUIElement") || str_eq(
        attribute,
        "AXFocusedUIElement",
    ) || str_eq(attribute, "AXSelectedChildren") || str_eq(attribute, "AXVisibleChildren") || str_eq(
        attribute,
        "AXRows",
    ) || str_eq(attribute, "AXColumns")
}

/// Column titles whose cells hold account identifiers and are never read.
pub open spec fn sensitive_title(title: Seq<char>) -> bool {
    title == "股东代码"@ || title == "托管单元"@ || title == "资金账号"@
}

pub fn is_sensitive_title(title: Option<&str>) -> (b: bool)
    ensures
        b == (title matches Some(t) && sensitive_title(t@)),
{
    match title {
        Some(t) => str_eq(t, "股东代码") || str_eq(t, "托管单元") || str_eq(t, "资金账号"),
        None => false,
    }
}

} // verus!
