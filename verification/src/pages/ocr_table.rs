//! Tables read by OCR over the Accessibility cell layout: which rows are
//! kept, and the warnings that go with them.
use vstd::prelude::*;

use super::types::{
    copy_texts, table_quality, table_quality_of, DataQuality, DataSource, ObservedText, PanelKind, TableColumn,
    TableRow,
};
use crate::text::{decimal, push_message, push_owned, u64_to_string};

verus! {

pub struct OcrTableResult {
    pub columns: Vec<TableColumn>,
    pub rows: Vec<TableRow>,
    pub quality: DataQuality,
    pub warnings: Vec<String>,
}

pub open spec fn ocr_notice() -> Seq<char> {
    "values are read from Vision OCR and matched to Accessibility cell geometry; verify before use"@
}

pub open spec fn geometry_notice() -> Seq<char> {
    "target window geometry is unavailable; OCR cell matching was skipped"@
}

pub open spec fn alignment_notice() -> Seq<char> {
    "OCR captured window geometry does not match the AX window; cell mapping may be invalid"@
}

/// The warnings every OCR table starts with.
pub fn base_warnings(geometry_unavailable: bool) -> (w: Vec<String>)
    ensures
        w.deep_view() == (if geometry_unavailable {
            seq![ocr_notice(), geometry_notice()]
        } else {
            seq![ocr_notice()]
        }),
{
    let mut warnings: Vec<String> = Vec::new();
    push_message(
        &mut warnings,
        "values are read from Vision OCR and matched to Accessibility cell geometry; verify before use",
    );
    if geometry_unavailable {
        push_message(&mut warnings, "target window geometry is unavailable; OCR cell matching was skipped");
    }
    proof {
        assert(seq![ocr_notice()] =~= Seq::<Seq<char>>::empty().push(ocr_notice()));
    }
    warnings
}

/// The name of a panel as its variant is spelled.
pub open spec fn panel_debug_name(panel: PanelKind) -> Seq<char> {
    match panel {
        PanelKind::Unknown => "Unknown"@,
        PanelKind::Positions => "Positions"@,
        PanelKind::Orders => "Orders"@,
        PanelKind::Executions => "Executions"@,
        PanelKind::Cancellations => "Cancellations"@,
        PanelKind::Funds => "Funds"@,
    }
}

/// The warning for a table that exposed no rows.
pub open spec fn no_rows_text(panel: PanelKind) -> Seq<char> {
    match panel {
        PanelKind::Positions => "positions table exposed no rows"@,
        PanelKind::Orders => "orders table exposed no rows"@,
        PanelKind::Executions => "executions table exposed no rows"@,
        PanelKind::Funds => "funds table exposed no rows"@,
        _ => panel_debug_name(panel) + " table exposed no OCR-readable rows"@,
    }
}

pub fn no_rows_warning(panel: PanelKind) -> (s: String)
    ensures
        s@ == no_rows_text(panel),
{
    match panel {
        PanelKind::Positions => String::from_str("positions table exposed no rows"),
        PanelKind::Orders => String::from_str("orders table exposed no rows"),
        PanelKind::Executions => String::from_str("executions table exposed no rows"),
        PanelKind::Funds => String::from_str("funds table exposed no rows"),
        PanelKind::Unknown => {
            let mut s = String::from_str("Unknown");
            s.append(" table exposed no OCR-readable rows");
            s
        },
        PanelKind::Cancellations => {
            let mut s = String::from_str("Cancellations");
            s.append(" table exposed no OCR-readable rows");
            s
        },
    }
}

/// The warning for observations that overlapped more than one cell.
pub open spec fn ambiguity_text(count: nat) -> Seq<char> {
    decimal(count) + " OCR observation(s) overlapped multiple table cells and may contain merged columns"@
}

pub fn ambiguity_warning(count: u64) -> (s: String)
    ensures
        s@ == ambiguity_text(count as nat),
{
    let mut s = u64_to_string(count);
    s.append(" OCR observation(s) overlapped multiple table cells and may contain merged columns");
    s
}

/// The values of each candidate row.
pub open spec fn row_views(rows: Seq<Vec<ObservedText>>) -> Seq<Seq<ObservedText>> {
    rows.map_values(|r: Vec<ObservedText>| r@)
}

/// Whether some value of a row was read by OCR.
pub open spec fn has_ocr_value(cells: Seq<ObservedText>) -> bool {
    exists|j: int| 0 <= j < cells.len() && (#[trigger] cells[j]).source == DataSource::Ocr
}

/// The candidate rows that hold at least one OCR value, in order.
pub open spec fn ocr_rows(candidates: Seq<Seq<ObservedText>>) -> Seq<Seq<ObservedText>>
    decreases candidates.len(),
{
    if candidates.len() == 0 {
        seq![]
    } else {
        let rest = ocr_rows(candidates.drop_last());
        if has_ocr_value(candidates.last()) {
            rest.push(candidates.last())
        } else {
            rest
        }
    }
}

fn row_has_ocr(cells: &Vec<ObservedText>) -> (b: bool)
    ensures
        b == has_ocr_value(cells@),
{
    let mut i: usize = 0;
    while i < cells.len()
        invariant
            i <= cells@.len(),
            forall|k: int| 0 <= k < i ==> (#[trigger] cells@[k]).source != DataSource::Ocr,
        decreases cells@.len() - i,
    {
        if cells[i].source == DataSource::Ocr {
            return true;
        }
        i = i + 1;
    }
    false
}

/// Warnings of an OCR table read, in order.
pub open spec fn table_warnings(
    geometry_unavailable: bool,
    misaligned: bool,
    kept: nat,
    ambiguous: nat,
    panel: PanelKind,
) -> Seq<Seq<char>> {
    let base = if geometry_unavailable {
        seq![ocr_notice(), geometry_notice()]
    } else {
        seq![ocr_notice()]
    };
    let a = if misaligned {
        base.push(alignment_notice())
    } else {
        base
    };
    let c = if kept == 0 {
        a.push(no_rows_text(panel))
    } else {
        a
    };
    if ambiguous > 0 {
        c.push(ambiguity_text(ambiguous))
    } else {
        c
    }
}

/// Builds the result of an OCR table read from the values matched to each
/// Accessibility row: rows without any OCR value are dropped, the others are
/// numbered in order, and the quality and warnings follow from them.
/// `misaligned` tells that the OCR capture and the AX window disagree, and
/// `ambiguous` counts observations that overlapped several cells.
pub fn assemble_table(
    columns: Vec<TableColumn>,
    candidates: Vec<Vec<ObservedText>>,
    geometry_unavailable: bool,
    misaligned: bool,
    ambiguous: u64,
    panel: PanelKind,
) -> (r: OcrTableResult)
    ensures
        r.columns == columns,
        r.rows@.len() == ocr_rows(row_views(candidates@)).len(),
        forall|i: int|
            0 <= i < r.rows@.len() ==> (#[trigger] r.rows@[i]).ordinal == i && r.rows@[i].cells@
                == ocr_rows(row_views(candidates@))[i],
        r.quality == table_quality_of(r.rows@),
        r.warnings.deep_view() == table_warnings(
            geometry_unavailable,
            misaligned,
            ocr_rows(row_views(candidates@)).len(),
            ambiguous as nat,
            panel,
        ),
{
    let mut warnings = base_warnings(geometry_unavailable);
    if misaligned {
        push_message(
            &mut warnings,
            "OCR captured window geometry does not match the AX window; cell mapping may be invalid",
        );
    }
    let mut rows: Vec<TableRow> = Vec::new();
    let n = candidates.len();
    let mut i: usize = 0;
    while i < n
        invariant
            i <= n,
            n == candidates@.len(),
            rows@.len() == ocr_rows(row_views(candidates@).take(i as int)).len(),
            forall|k: int|
                0 <= k < rows@.len() ==> (#[trigger] rows@[k]).ordinal == k && rows@[k].cells@
                    == ocr_rows(row_views(candidates@).take(i as int))[k],
        decreases n - i,
    {
        let cells = &candidates[i];
        proof {
            assert(row_views(candidates@).take(i + 1).drop_last() =~= row_views(candidates@).take(
                i as int,
            ));
            assert(row_views(candidates@).take(i + 1).last() == cells@);
        }
        if row_has_ocr(cells) {
            let ordinal = rows.len();
            rows.push(TableRow { ordinal, cells: copy_texts(cells) });
        }
        i = i + 1;
    }
    proof {
        assert(row_views(candidates@).take(n as int) =~= row_views(candidates@));
    }
    if rows.len() == 0 {
        push_owned(&mut warnings, no_rows_warning(panel));
    }
    if ambiguous > 0 {
        push_owned(&mut warnings, ambiguity_warning(ambiguous));
    }
    let quality = table_quality(&rows);
    OcrTableResult { columns, rows, quality, warnings }
}

} // verus!
