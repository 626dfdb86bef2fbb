//! Observed values and the quality lattice they carry.
use vstd::prelude::*;

use crate::text::{chars_of, trim, trim_bounds};

verus! {

#[derive(Clone, Copy, Debug, PartialEq, Eq, Structural)]
pub enum WorkspaceKind {
    Unknown,
    BuyOrder,
    SellOrder,
}

#[derive(Clone, Copy, Debug, PartialEq, Eq, Structural)]
pub enum PanelKind {
    Unknown,
    Positions,
    Orders,
    Executions,
    Cancellations,
    Funds,
}

#[derive(Clone, Copy, Debug, PartialEq, Eq, Structural)]
pub enum DataQuality {
    Exact,
    Partial,
    Unavailable,
}

#[derive(Clone, Copy, Debug, PartialEq, Eq, Structural)]
pub enum DataSource {
    Accessibility,
    Ocr,
    Inferred,
    Unavailable,
}

/// Rank of a quality: lower is better.
pub open spec fn quality_rank(q: DataQuality) -> int {
    match q {
        DataQuality::Exact => 0,
        DataQuality::Partial => 1,
        DataQuality::Unavailable => 2,
    }
}

impl DataQuality {
    /// The worse of two qualities.
    pub fn min(self, other: DataQuality) -> (r: DataQuality)
        ensures
            quality_rank(r) == if quality_rank(self) >= quality_rank(other) {
                quality_rank(self)
            } else {
                quality_rank(other)
            },
    {
        match (self, other) {
            (DataQuality::Unavailable, _) | (_, DataQuality::Unavailable) => DataQuality::Unavailable,
            (DataQuality::Partial, _) | (_, DataQuality::Partial) => DataQuality::Partial,
            (DataQuality::Exact, DataQuality::Exact) => DataQuality::Exact,
        }
    }
}

pub proof fn lemma_rank_injective(a: DataQuality, b: DataQuality)
    ensures
        quality_rank(a) == quality_rank(b) ==> a == b,
{
}

/// The worse of two qualities is commutative and never better than either
/// argument.
pub proof fn law_quality_min(a: DataQuality, b: DataQuality, c: DataQuality)
    ensures
        quality_rank(spec_worse(a, b)) >= quality_rank(a),
        quality_rank(spec_worse(a, b)) >= quality_rank(b),
        spec_worse(a, b) == spec_worse(b, a),
        spec_worse(spec_worse(a, b), c) == spec_worse(a, spec_worse(b, c)),
        spec_worse(a, DataQuality::Exact) == a,
{
}

/// The worse of two qualities.
pub open spec fn spec_worse(a: DataQuality, b: DataQuality) -> DataQuality {
    if quality_rank(a) >= quality_rank(b) {
        a
    } else {
        b
    }
}

/// A value read from the broker window, with how it was obtained.
#[derive(Clone, Debug)]
pub struct ObservedText {
    pub value: Option<String>,
    pub quality: DataQuality,
    pub source: DataSource,
}

pub open spec fn opt_view(o: Option<String>) -> Option<Seq<char>> {
    match o {
        Some(s) => Some(s@),
        None => None,
    }
}

pub open spec fn is_redacted_text(v: Seq<char>) -> bool {
    v == "[REDACTED]"@ || v == "[REDACTED_NUMERIC]"@
}

impl ObservedText {
    pub fn unavailable() -> (r: ObservedText)
        ensures
            r.value is None,
            r.quality == DataQuality::Unavailable,
            r.source == DataSource::Unavailable,
    {
        ObservedText { value: None, quality: DataQuality::Unavailable, source: DataSource::Unavailable }
    }

    /// An Accessibility value; blank values count as unavailable.
    pub fn from_value(value: Option<String>) -> (r: ObservedText)
        ensures
            match value {
                Some(v) if trim(v@).len() > 0 => r.value == Some(v) && r.quality
                    == DataQuality::Exact && r.source == DataSource::Accessibility,
                _ => r.value is None && r.quality == DataQuality::Unavailable && r.source
                    == DataSource::Unavailable,
            },
    {
        match value {
            Some(v) => {
                let chars = chars_of(v.as_str());
                let (a, b) = trim_bounds(chars.as_slice());
                if a < b {
                    ObservedText { value: Some(v), quality: DataQuality::Exact, source: DataSource::Accessibility }
                } else {
                    ObservedText::unavailable()
                }
            },
            None => ObservedText::unavailable(),
        }
    }

    /// An OCR value; it is exact only when recognition was confident and the
    /// text is not a redaction marker.
    pub fn from_ocr(value: String, high_confidence: bool) -> (r: ObservedText)
        ensures
            r.value == Some(value),
            r.source == DataSource::Ocr,
            r.quality == if high_confidence && !is_redacted_text(value@) {
                DataQuality::Exact
            } else {
                DataQuality::Partial
            },
    {
        let redacted = value_is_redacted(value.as_str());
        let quality = if redacted {
            DataQuality::Partial
        } else if high_confidence {
            DataQuality::Exact
        } else {
            DataQuality::Partial
        };
        ObservedText { value: Some(value), quality, source: DataSource::Ocr }
    }

    /// An equal copy of the value.
    pub fn copied(&self) -> (r: ObservedText)
        ensures
            r == *self,
    {
        let value = match &self.value {
            Some(v) => Some(v.clone()),
            None => None,
        };
        ObservedText { value, quality: self.quality, source: self.source }
    }

    /// The marker that stands for a sensitive cell.
    pub fn redacted() -> (r: ObservedText)
        ensures
            r.value matches Some(v) && v@ == "[REDACTED]"@,
            r.quality == DataQuality::Partial,
            r.source == DataSource::Ocr,
    {
        ObservedText {
            value: Some(String::from_str("[REDACTED]")),
            quality: DataQuality::Partial,
            source: DataSource::Ocr,
        }
    }
}

/// An equal copy of a list of values.
pub fn copy_texts(values: &Vec<ObservedText>) -> (r: Vec<ObservedText>)
    ensures
        r@ == values@,
{
    let mut out: Vec<ObservedText> = Vec::new();
    let mut i: usize = 0;
    while i < values.len()
        invariant
            i <= values@.len(),
            out@ == values@.take(i as int),
        decreases values@.len() - i,
    {
        out.push(values[i].copied());
        proof {
            assert(out@ =~= values@.take(i + 1));
        }
        i = i + 1;
    }
    proof {
        assert(values@.take(values@.len() as int) =~= values@);
    }
    out
}

/// Whether a value is one of the redaction markers.
pub fn value_is_redacted(value: &str) -> (r: bool)
    ensures
        r == is_redacted_text(value@),
{
    crate::text::str_eq(value, "[REDACTED]") || crate::text::str_eq(value, "[REDACTED_NUMERIC]")
}

/// A page read together with how it was read.
#[derive(Clone, Debug)]
pub struct PageSnapshot<T> {
    pub workspace: WorkspaceKind,
    pub panel: PanelKind,
    pub observed_at: String,
    pub quality: DataQuality,
    pub source: DataSource,
    pub warnings: Vec<String>,
    pub data: T,
}

/// A snapshot read through Accessibility.
pub fn snapshot<T>(
    workspace: WorkspaceKind,
    panel: PanelKind,
    data: T,
    quality: DataQuality,
    warnings: Vec<String>,
    observed_at: String,
) -> (r: PageSnapshot<T>)
    ensures
        r == (PageSnapshot { workspace, panel, observed_at, quality, source: DataSource::Accessibility, warnings, data }),
{
    PageSnapshot { workspace, panel, observed_at, quality, source: DataSource::Accessibility, warnings, data }
}

/// A snapshot of a page that could not be read.
pub fn empty_snapshot<T>(
    workspace: WorkspaceKind,
    panel: PanelKind,
    data: T,
    warnings: Vec<String>,
    observed_at: String,
) -> (r: PageSnapshot<T>)
    ensures
        r == (PageSnapshot {
            workspace,
            panel,
            observed_at,
            quality: DataQuality::Unavailable,
            source: DataSource::Unavailable,
            warnings,
            data,
        }),
{
    PageSnapshot {
        workspace,
        panel,
        observed_at,
        quality: DataQuality::Unavailable,
        source: DataSource::Unavailable,
        warnings,
        data,
    }
}

/// A snapshot with an explicit source.
pub fn snapshot_with_source<T>(
    workspace: WorkspaceKind,
    panel: PanelKind,
    data: T,
    quality: DataQuality,
    source: DataSource,
    warnings: Vec<String>,
    observed_at: String,
) -> (r: PageSnapshot<T>)
    ensures
        r == (PageSnapshot { workspace, panel, observed_at, quality, source, warnings, data }),
{
    PageSnapshot { workspace, panel, observed_at, quality, source, warnings, data }
}

#[derive(Clone, Debug)]
pub struct ViewDescriptor {
    pub workspace: WorkspaceKind,
    pub panel: PanelKind,
    pub evidence: Vec<String>,
    pub warnings: Vec<String>,
}

/// One table column header.
#[derive(Clone, Debug)]
pub struct TableColumn {
    pub ordinal: usize,
    pub identifier: Option<String>,
    pub title: ObservedText,
}

#[derive(Clone, Debug)]
pub struct TableRow {
    pub ordinal: usize,
    pub cells: Vec<ObservedText>,
}

#[derive(Clone, Debug)]
pub struct PositionsSnapshot {
    pub columns: Vec<TableColumn>,
    pub rows: Vec<TableRow>,
    pub row_count: usize,
}

#[derive(Clone, Debug)]
pub struct OrdersSnapshot {
    pub columns: Vec<TableColumn>,
    pub rows: Vec<TableRow>,
    pub row_count: usize,
}

#[derive(Clone, Debug)]
pub struct ExecutionsSnapshot {
    pub columns: Vec<TableColumn>,
    pub rows: Vec<TableRow>,
    pub row_count: usize,
}

#[derive(Clone, Debug)]
pub struct FundsSnapshot {
    pub columns: Vec<TableColumn>,
    pub rows: Vec<TableRow>,
    pub row_count: usize,
}

/// Whether some cell of some row has the given quality.
pub open spec fn rows_have(rows: Seq<TableRow>, q: DataQuality) -> bool {
    exists|i: int, j: int|
        0 <= i < rows.len() && 0 <= j < rows[i].cells@.len() && (#[trigger] rows[i].cells@[j]).quality
            == q
}

/// Quality of a table: unavailable without rows or without any exact cell,
/// partial when some cell is unavailable, exact otherwise.
pub open spec fn table_quality_of(rows: Seq<TableRow>) -> DataQuality {
    if rows.len() == 0 || !rows_have(rows, DataQuality::Exact) {
        DataQuality::Unavailable
    } else if rows_have(rows, DataQuality::Unavailable) {
        DataQuality::Partial
    } else {
        DataQuality::Exact
    }
}

pub fn table_quality(rows: &Vec<TableRow>) -> (r: DataQuality)
    ensures
        r == table_quality_of(rows@),
{
    if rows.len() == 0 {
        return DataQuality::Unavailable;
    }
    let mut has_exact = false;
    let mut has_unavailable = false;
    let n = rows.len();
    let mut i: usize = 0;
    while i < n
        invariant
            i <= n,
            n == rows@.len(),
            has_exact == exists|a: int, b: int|
                0 <= a < i && 0 <= b < rows@[a].cells@.len() && (#[trigger] rows@[a].cells@[b]).quality
                    == DataQuality::Exact,
            has_unavailable == exists|a: int, b: int|
                0 <= a < i && 0 <= b < rows@[a].cells@.len() && (#[trigger] rows@[a].cells@[b]).quality
                    == DataQuality::Unavailable,
        decreases n - i,
    {
        let cells = &rows[i].cells;
        let m = cells.len();
        let mut j: usize = 0;
        let ghost e0 = has_exact;
        let ghost u0 = has_unavailable;
        while j < m
            invariant
                j <= m,
                i < n,
                n == rows@.len(),
                m == rows@[i as int].cells@.len(),
                cells == rows@[i as int].cells,
                has_exact == (e0 || exists|b: int|
                    0 <= b < j && (#[trigger] rows@[i as int].cells@[b]).quality == DataQuality::Exact),
                has_unavailable == (u0 || exists|b: int|
                    0 <= b < j && (#[trigger] rows@[i as int].cells@[b]).quality
                        == DataQuality::Unavailable),
            decreases m - j,
        {
            let q = cells[j].quality;
            if q == DataQuality::Exact {
                has_exact = true;
            }
            if q == DataQuality::Unavailable {
                has_unavailable = true;
            }
            j = j + 1;
        }
        proof {
            if has_exact && !e0 {
                let b = choose|b: int| 0 <= b < j && (#[trigger] rows@[i as int].cells@[b]).quality == DataQuality::Exact;
                assert(rows@[i as int].cells@[b].quality == DataQuality::Exact);
            }
            if has_unavailable && !u0 {
                let b = choose|b: int| 0 <= b < j && (#[trigger] rows@[i as int].cells@[b]).quality == DataQuality::Unavailable;
                assert(rows@[i as int].cells@[b].quality == DataQuality::Unavailable);
            }
        }
        i = i + 1;
    }
    if !has_exact {
        DataQuality::Unavailable
    } else if has_unavailable {
        DataQuality::Partial
    } else {
        DataQuality::Exact
    }
}

/// Quality of a list of values: unavailable when empty, exact when every
/// value is exact, partial otherwise.
pub fn quality_of_texts(values: &Vec<ObservedText>) -> (r: DataQuality)
    ensures
        r == if values@.len() == 0 {
            DataQuality::Unavailable
        } else if forall|i: int| 0 <= i < values@.len() ==> (#[trigger] values@[i]).quality == DataQuality::Exact {
            DataQuality::Exact
        } else {
            DataQuality::Partial
        },
{
    if values.len() == 0 {
        return DataQuality::Unavailable;
    }
    let n = values.len();
    let mut i: usize = 0;
    while i < n
        invariant
            i <= n,
            n == values@.len(),
            forall|k: int| 0 <= k < i ==> (#[trigger] values@[k]).quality == DataQuality::Exact,
        decreases n - i,
    {
        if values[i].quality != DataQuality::Exact {
            return DataQuality::Partial;
        }
        i = i + 1;
    }
    DataQuality::Exact
}

} // verus!
