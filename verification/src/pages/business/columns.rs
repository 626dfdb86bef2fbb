//! Finding a record's fields among a table's columns.
use vstd::prelude::*;

use super::normalize::{normalize_number, normalized_number, numeric_pair_of, security_code_text,
    is_security_code, split_numeric_pair};
use super::types::{inferred_model, model, opt_chars, unavailable_model, FieldModel, StructuredField};
use crate::pages::types::{DataQuality, DataSource, ObservedText, TableColumn, TableRow};
use crate::text::{chars_of, contains, contains_str, seq_eq, split_words, str_eq, string_from_chars,
    trim, trim_string, words};

verus! {

/// The title of a column, empty when it could not be read.
pub open spec fn title_of(c: TableColumn) -> Seq<char> {
    match c.title.value {
        Some(v) => v@,
        None => seq![],
    }
}

pub open spec fn titles_of(columns: Seq<TableColumn>) -> Seq<Seq<char>> {
    columns.map_values(|c: TableColumn| title_of(c))
}

pub open spec fn alias_views(aliases: Seq<&str>) -> Seq<Seq<char>> {
    aliases.map_values(|a: &str| a@)
}

/// The first title equal to `alias`.
pub open spec fn position_of(titles: Seq<Seq<char>>, alias: Seq<char>) -> Option<int>
    decreases titles.len(),
{
    if titles.len() == 0 {
        None
    } else if titles[0] == alias {
        Some(0)
    } else {
        match position_of(titles.drop_first(), alias) {
            Some(i) => Some(i + 1),
            None => None,
        }
    }
}

/// The first non-empty title that contains `alias`.
pub open spec fn position_containing(titles: Seq<Seq<char>>, alias: Seq<char>) -> Option<int>
    decreases titles.len(),
{
    if titles.len() == 0 {
        None
    } else if titles[0].len() > 0 && contains(titles[0], alias) {
        Some(0)
    } else {
        match position_containing(titles.drop_first(), alias) {
            Some(i) => Some(i + 1),
            None => None,
        }
    }
}

/// The column for the first alias that some title equals.
pub open spec fn exact_index(titles: Seq<Seq<char>>, aliases: Seq<Seq<char>>) -> Option<int>
    decreases aliases.len(),
{
    if aliases.len() == 0 {
        None
    } else {
        match position_of(titles, aliases[0]) {
            Some(i) => Some(i),
            None => exact_index(titles, aliases.drop_first()),
        }
    }
}

/// The column for the first alias that some title contains.
pub open spec fn containing_index(titles: Seq<Seq<char>>, aliases: Seq<Seq<char>>) -> Option<int>
    decreases aliases.len(),
{
    if aliases.len() == 0 {
        None
    } else {
        match position_containing(titles, aliases[0]) {
            Some(i) => Some(i),
            None => containing_index(titles, aliases.drop_first()),
        }
    }
}

/// The column that a field with these aliases is read from: an exact title
/// match first, else a title that contains an alias.
pub open spec fn column_index(titles: Seq<Seq<char>>, aliases: Seq<Seq<char>>) -> Option<int> {
    match exact_index(titles, aliases) {
        Some(i) => Some(i),
        None => containing_index(titles, aliases),
    }
}

/// The cell of a row under the column for these aliases.
pub open spec fn observed_at(titles: Seq<Seq<char>>, cells: Seq<ObservedText>, aliases: Seq<Seq<char>>) -> Option<ObservedText> {
    match column_index(titles, aliases) {
        Some(i) => if 0 <= i < cells.len() {
            Some(cells[i])
        } else {
            None
        },
        None => None,
    }
}

/// A cell read as a field: numeric fields are normalized as numbers, text
/// fields trimmed; a value that does not normalize lowers the quality to
/// partial.
pub open spec fn normalized_model(o: ObservedText, numeric: bool) -> FieldModel {
    match o.value {
        None => unavailable_model(),
        Some(raw) => {
            let n = if numeric {
                normalized_number(raw@)
            } else {
                Some(trim(raw@))
            };
            (Some(raw@), n, if n is Some {
                o.quality
            } else {
                DataQuality::Partial
            }, o.source)
        },
    }
}

/// The field for these aliases in a row.
pub open spec fn field_model(
    titles: Seq<Seq<char>>,
    cells: Seq<ObservedText>,
    aliases: Seq<Seq<char>>,
    numeric: bool,
) -> FieldModel {
    match observed_at(titles, cells, aliases) {
        Some(o) => normalized_model(o, numeric),
        None => unavailable_model(),
    }
}

/// The first of two numbers merged in a cell.
pub open spec fn merged_first(raw: Seq<char>) -> Seq<char> {
    let (a, _) = numeric_pair_of(raw)->0;
    a
}

/// The second of two numbers merged in a cell.
pub open spec fn merged_second(raw: Seq<char>) -> Seq<char> {
    let (_, b) = numeric_pair_of(raw)->0;
    b
}

/// Two adjacent numeric fields, one of which may hold both numbers when the
/// OCR merged the columns; a recovered number is inferred, and a merged cell
/// is used only if it agrees with the other field's own value.
pub open spec fn pair_model(left: FieldModel, right: FieldModel) -> (FieldModel, FieldModel) {
    if left.1 is Some && right.1 is Some {
        (left, right)
    } else if left.0 is Some && numeric_pair_of(left.0->0) is Some && (right.1 is None || right.1->0
        == merged_second(left.0->0)) {
        let (ml, mr) = numeric_pair_of(left.0->0)->0;
        (inferred_model(ml), if right.1 is Some {
            right
        } else {
            inferred_model(mr)
        })
    } else if right.0 is Some && numeric_pair_of(right.0->0) is Some && (left.1 is None || left.1->0
        == merged_first(right.0->0)) {
        let (ml, mr) = numeric_pair_of(right.0->0)->0;
        (if left.1 is Some {
            left
        } else {
            inferred_model(ml)
        }, inferred_model(mr))
    } else {
        (left, right)
    }
}

/// Words joined by single spaces.
pub open spec fn join_words(ws: Seq<Seq<char>>) -> Seq<char>
    decreases ws.len(),
{
    if ws.len() == 0 {
        seq![]
    } else if ws.len() == 1 {
        ws[0]
    } else {
        join_words(ws.drop_last()) + seq![' '] + ws.last()
    }
}

/// The first word that is a security code.
pub open spec fn first_code(parts: Seq<Seq<char>>) -> Option<int>
    decreases parts.len(),
{
    if parts.len() == 0 {
        None
    } else if security_code_text(parts[0]) {
        Some(0)
    } else {
        match first_code(parts.drop_first()) {
            Some(i) => Some(i + 1),
            None => None,
        }
    }
}

pub open spec fn unparseable_model(o: ObservedText) -> FieldModel {
    (opt_chars(o.value), None, DataQuality::Partial, o.source)
}

/// A name field with a leading copy of the security code removed.
pub open spec fn clean_name_model(field: FieldModel, code: Seq<char>) -> FieldModel {
    match field.1 {
        None => field,
        Some(n) => {
            let ws = words(n);
            if ws.len() == 0 || ws[0] != code {
                field
            } else if join_words(ws.drop_first()).len() == 0 {
                field
            } else {
                inferred_model(join_words(ws.drop_first()))
            }
        },
    }
}

/// Splits a cell that holds a security code and possibly the name.
pub open spec fn split_model(o: ObservedText, fallback: FieldModel, inferred_code: bool) -> (FieldModel, FieldModel) {
    let parts = words(o.value->0@);
    match first_code(parts) {
        None => (unparseable_model(o), fallback),
        Some(ci) => {
            let code = parts[ci];
            let code_field = if inferred_code {
                inferred_model(code)
            } else {
                (Some(code), Some(code), o.quality, o.source)
            };
            if fallback.0 is Some {
                (code_field, clean_name_model(fallback, code))
            } else if join_words(parts.remove(ci)).len() == 0 {
                (code_field, fallback)
            } else {
                (code_field, inferred_model(join_words(parts.remove(ci))))
            }
        },
    }
}

pub open spec fn code_aliases() -> Seq<Seq<char>> {
    seq!["证券代码"@]
}

pub open spec fn name_aliases() -> Seq<Seq<char>> {
    seq!["证券名称"@]
}

/// The security code and name of a row: from the code column, or from a
/// name column that holds the code too.
pub open spec fn security_model(titles: Seq<Seq<char>>, cells: Seq<ObservedText>) -> (FieldModel, FieldModel) {
    let code = observed_at(titles, cells, code_aliases());
    let name = field_model(titles, cells, name_aliases(), false);
    let name_obs = observed_at(titles, cells, name_aliases());
    if code is Some && code->0.value is Some {
        split_model(code->0, name, false)
    } else if name_obs is Some && name_obs->0.value is Some && first_code(words(name_obs->0.value->0@))
        is Some {
        split_model(name_obs->0, unavailable_model(), true)
    } else {
        (unavailable_model(), name)
    }
}

/// A row's field layout: the column titles.
pub struct ColumnMap {
    pub titles: Vec<String>,
}

fn copy_field(f: &StructuredField) -> (r: StructuredField)
    ensures
        model(r) == model(*f),
{
    StructuredField {
        raw: match &f.raw {
            Some(v) => Some(v.clone()),
            None => None,
        },
        normalized: match &f.normalized {
            Some(v) => Some(v.clone()),
            None => None,
        },
        quality: f.quality,
        source: f.source,
    }
}

/// Reads a cell as a field.
pub fn normalize_field(observed: &ObservedText, numeric: bool) -> (f: StructuredField)
    ensures
        model(f) == normalized_model(*observed, numeric),
{
    let raw = match &observed.value {
        Some(v) => v.clone(),
        None => {
            return StructuredField::unavailable();
        },
    };
    let normalized = if numeric {
        normalize_number(raw.as_str())
    } else {
        Some(trim_string(raw.as_str()))
    };
    let quality = if normalized.is_some() {
        observed.quality
    } else {
        DataQuality::Partial
    };
    StructuredField { raw: Some(raw), normalized, quality, source: observed.source }
}

fn unparseable_field(observed: &ObservedText) -> (f: StructuredField)
    ensures
        model(f) == unparseable_model(*observed),
{
    StructuredField {
        raw: match &observed.value {
            Some(v) => Some(v.clone()),
            None => None,
        },
        normalized: None,
        quality: DataQuality::Partial,
        source: observed.source,
    }
}

proof fn lemma_position_of(titles: Seq<Seq<char>>, alias: Seq<char>, i: int)
    requires
        0 <= i <= titles.len(),
        forall|k: int| 0 <= k < i ==> titles[k] != alias,
    ensures
        i < titles.len() && titles[i] == alias ==> position_of(titles, alias) == Some(i),
        i == titles.len() ==> position_of(titles, alias) is None,
    decreases i,
{
    if i > 0 {
        lemma_position_of(titles.drop_first(), alias, i - 1);
    } else if titles.len() > 0 {
    }
}

proof fn lemma_position_containing(titles: Seq<Seq<char>>, alias: Seq<char>, i: int)
    requires
        0 <= i <= titles.len(),
        forall|k: int| 0 <= k < i ==> !(titles[k].len() > 0 && contains(titles[k], alias)),
    ensures
        i < titles.len() && titles[i].len() > 0 && contains(titles[i], alias) ==> position_containing(
            titles,
            alias,
        ) == Some(i),
        i == titles.len() ==> position_containing(titles, alias) is None,
    decreases i,
{
    if i > 0 {
        lemma_position_containing(titles.drop_first(), alias, i - 1);
    }
}

impl ColumnMap {
    pub open spec fn view_titles(&self) -> Seq<Seq<char>> {
        self.titles.deep_view()
    }

    pub fn new(columns: &[TableColumn]) -> (m: ColumnMap)
        ensures
            m.view_titles() == titles_of(columns@),
    {
        let mut titles: Vec<String> = Vec::new();
        let mut i: usize = 0;
        while i < columns.len()
            invariant
                i <= columns@.len(),
                titles.deep_view() == titles_of(columns@.take(i as int)),
            decreases columns@.len() - i,
        {
            let t = match &columns[i].title.value {
                Some(v) => v.clone(),
                None => String::new(),
            };
            let ghost tv = t@;
            crate::text::push_owned(&mut titles, t);
            proof {
                assert(tv == title_of(columns@[i as int]));
                assert(titles_of(columns@.take(i + 1)) =~= titles_of(columns@.take(i as int)).push(tv));
            }
            i = i + 1;
        }
        proof {
            assert(columns@.take(columns@.len() as int) =~= columns@);
        }
        ColumnMap { titles }
    }

    fn find_exact(&self, alias: &str) -> (r: Option<usize>)
        ensures
            match r {
                Some(i) => position_of(self.view_titles(), alias@) == Some(i as int),
                None => position_of(self.view_titles(), alias@) is None,
            },
    {
        let mut i: usize = 0;
        while i < self.titles.len()
            invariant
                i <= self.titles@.len(),
                forall|k: int| 0 <= k < i ==> self.view_titles()[k] != alias@,
            decreases self.titles@.len() - i,
        {
            if str_eq(self.titles[i].as_str(), alias) {
                proof {
                    lemma_position_of(self.view_titles(), alias@, i as int);
                }
                return Some(i);
            }
            i = i + 1;
        }
        proof {
            lemma_position_of(self.view_titles(), alias@, i as int);
        }
        None
    }

    fn find_containing(&self, alias: &str) -> (r: Option<usize>)
        ensures
            match r {
                Some(i) => position_containing(self.view_titles(), alias@) == Some(i as int),
                None => position_containing(self.view_titles(), alias@) is None,
            },
    {
        let mut i: usize = 0;
        while i < self.titles.len()
            invariant
                i <= self.titles@.len(),
                forall|k: int|
                    0 <= k < i ==> !(self.view_titles()[k].len() > 0 && contains(self.view_titles()[k], alias@)),
            decreases self.titles@.len() - i,
        {
            let t = self.titles[i].as_str();
            if t.unicode_len() > 0 && contains_str(t, alias) {
                proof {
                    lemma_position_containing(self.view_titles(), alias@, i as int);
                }
                return Some(i);
            }
            i = i + 1;
        }
        proof {
            lemma_position_containing(self.view_titles(), alias@, i as int);
        }
        None
    }

    /// The column for these aliases.
    pub fn index(&self, aliases: &[&str]) -> (r: Option<usize>)
        ensures
            match r {
                Some(i) => column_index(self.view_titles(), alias_views(aliases@)) == Some(i as int),
                None => column_index(self.view_titles(), alias_views(aliases@)) is None,
            },
    {
        let ghost av = alias_views(aliases@);
        proof {
            assert(av.skip(0) =~= av);
        }
        let mut a: usize = 0;
        while a < aliases.len()
            invariant
                a <= aliases@.len(),
                av == alias_views(aliases@),
                exact_index(self.view_titles(), av) == exact_index(self.view_titles(), av.skip(a as int)),
            decreases aliases@.len() - a,
        {
            proof {
                assert(av.skip(a as int)[0] == aliases@[a as int]@);
                assert(av.skip(a as int).drop_first() =~= av.skip(a + 1));
            }
            match self.find_exact(aliases[a]) {
                Some(i) => {
                    return Some(i);
                },
                None => {},
            }
            a = a + 1;
        }
        let mut b: usize = 0;
        while b < aliases.len()
            invariant
                b <= aliases@.len(),
                av == alias_views(aliases@),
                exact_index(self.view_titles(), av) is None,
                containing_index(self.view_titles(), av) == containing_index(
                    self.view_titles(),
                    av.skip(b as int),
                ),
            decreases aliases@.len() - b,
        {
            proof {
                assert(av.skip(b as int)[0] == aliases@[b as int]@);
                assert(av.skip(b as int).drop_first() =~= av.skip(b + 1));
            }
            match self.find_containing(aliases[b]) {
                Some(i) => {
                    return Some(i);
                },
                None => {},
            }
            b = b + 1;
        }
        None
    }

    /// The cell under the column for these aliases.
    pub fn observed<'a>(&self, row: &'a TableRow, aliases: &[&str]) -> (r: Option<&'a ObservedText>)
        ensures
            match r {
                Some(o) => observed_at(self.view_titles(), row.cells@, alias_views(aliases@)) == Some(*o),
                None => observed_at(self.view_titles(), row.cells@, alias_views(aliases@)) is None,
            },
    {
        match self.index(aliases) {
            Some(i) => {
                if i < row.cells.len() {
                    Some(&row.cells[i])
                } else {
                    None
                }
            },
            None => None,
        }
    }

    /// The field for these aliases in a row.
    pub fn field(&self, row: &TableRow, aliases: &[&str], numeric: bool) -> (f: StructuredField)
        ensures
            model(f) == field_model(self.view_titles(), row.cells@, alias_views(aliases@), numeric),
    {
        match self.observed(row, aliases) {
            Some(cell) => normalize_field(cell, numeric),
            None => StructuredField::unavailable(),
        }
    }

    /// Two adjacent numeric fields, recovering values the OCR merged into one
    /// cell.
    pub fn numeric_pair(&self, row: &TableRow, left_aliases: &[&str], right_aliases: &[&str]) -> (r: (
        StructuredField,
        StructuredField,
    ))
        ensures
            (model(r.0), model(r.1)) == pair_model(
                field_model(self.view_titles(), row.cells@, alias_views(left_aliases@), true),
                field_model(self.view_titles(), row.cells@, alias_views(right_aliases@), true),
            ),
    {
        let left = self.field(row, left_aliases, true);
        let right = self.field(row, right_aliases, true);
        numeric_pair_fields(left, right)
    }

    /// The security code and name of a row.
    pub fn security_fields(&self, row: &TableRow) -> (r: (StructuredField, StructuredField))
        ensures
            (model(r.0), model(r.1)) == security_model(self.view_titles(), row.cells@),
    {
        let code_labels: [&str; 1] = ["证券代码"];
        let name_labels: [&str; 1] = ["证券名称"];
        proof {
            assert(alias_views(code_labels@) =~= code_aliases());
            assert(alias_views(name_labels@) =~= name_aliases());
        }
        let code = self.observed(row, &code_labels);
        let name = self.field(row, &name_labels, false);
        match code {
            Some(c) => {
                if c.value.is_some() {
                    return split_security_observation(c, name, false);
                }
            },
            None => {},
        }
        match self.observed(row, &name_labels) {
            Some(n) => {
                match &n.value {
                    Some(v) => {
                        if contains_security_code(v.as_str()) {
                            return split_security_observation(n, StructuredField::unavailable(), true);
                        }
                    },
                    None => {},
                }
            },
            None => {},
        }
        (StructuredField::unavailable(), name)
    }
}

/// See `pair_model`.
pub fn numeric_pair_fields(left: StructuredField, right: StructuredField) -> (r: (StructuredField, StructuredField))
    ensures
        (model(r.0), model(r.1)) == pair_model(model(left), model(right)),
{
    if left.normalized.is_some() && right.normalized.is_some() {
        return (left, right);
    }
    match &left.raw {
        Some(raw) => match split_numeric_pair(raw.as_str()) {
            Some((ml, mr)) => {
                let agrees = match &right.normalized {
                    Some(v) => str_eq(v.as_str(), mr.as_str()),
                    None => true,
                };
                if agrees {
                    let r = if right.normalized.is_some() {
                        right
                    } else {
                        StructuredField::inferred(mr)
                    };
                    return (StructuredField::inferred(ml), r);
                }
            },
            None => {},
        },
        None => {},
    }
    match &right.raw {
        Some(raw) => match split_numeric_pair(raw.as_str()) {
            Some((ml, mr)) => {
                let agrees = match &left.normalized {
                    Some(v) => str_eq(v.as_str(), ml.as_str()),
                    None => true,
                };
                if agrees {
                    let l = if left.normalized.is_some() {
                        left
                    } else {
                        StructuredField::inferred(ml)
                    };
                    return (l, StructuredField::inferred(mr));
                }
            },
            None => {},
        },
        None => {},
    }
    (left, right)
}

/// Whether some word of a text is a security code.
pub fn contains_security_code(raw: &str) -> (b: bool)
    ensures
        b == (first_code(words(raw@)) is Some),
{
    let chars = chars_of(raw);
    let parts = split_words(chars.as_slice());
    match find_code(&parts) {
        Some(_) => true,
        None => false,
    }
}

proof fn lemma_first_code(parts: Seq<Seq<char>>, i: int)
    requires
        0 <= i <= parts.len(),
        forall|k: int| 0 <= k < i ==> !security_code_text(parts[k]),
    ensures
        i < parts.len() && security_code_text(parts[i]) ==> first_code(parts) == Some(i),
        i == parts.len() ==> first_code(parts) is None,
    decreases i,
{
    if i > 0 {
        lemma_first_code(parts.drop_first(), i - 1);
    }
}

fn find_code(parts: &Vec<Vec<char>>) -> (r: Option<usize>)
    ensures
        match r {
            Some(i) => first_code(parts.deep_view()) == Some(i as int) && i < parts@.len(),
            None => first_code(parts.deep_view()) is None,
        },
{
    let mut i: usize = 0;
    while i < parts.len()
        invariant
            i <= parts@.len(),
            forall|k: int| 0 <= k < i ==> !security_code_text(parts.deep_view()[k]),
        decreases parts@.len() - i,
    {
        proof {
            assert(parts.deep_view()[i as int] == parts@[i as int]@);
        }
        if is_security_code(parts[i].as_slice()) {
            proof {
                lemma_first_code(parts.deep_view(), i as int);
            }
            return Some(i);
        }
        i = i + 1;
    }
    proof {
        lemma_first_code(parts.deep_view(), i as int);
    }
    None
}

/// Joins words with single spaces.
pub fn join_with_spaces(ws: &Vec<Vec<char>>) -> (s: Vec<char>)
    ensures
        s@ == join_words(ws.deep_view()),
{
    let mut out: Vec<char> = Vec::new();
    let mut i: usize = 0;
    while i < ws.len()
        invariant
            i <= ws@.len(),
            out@ == join_words(ws.deep_view().take(i as int)),
        decreases ws@.len() - i,
    {
        let w = &ws[i];
        proof {
            assert(ws.deep_view().take(i + 1).drop_last() =~= ws.deep_view().take(i as int));
            assert(ws.deep_view().take(i + 1).last() == w@);
        }
        let ghost before = out@;
        if i > 0 {
            out.push(' ');
        }
        let mut k: usize = 0;
        let ghost mid = out@;
        while k < w.len()
            invariant
                k <= w@.len(),
                out@ == mid + w@.take(k as int),
            decreases w@.len() - k,
        {
            out.push(w[k]);
            proof {
                assert(out@ =~= mid + w@.take(k + 1));
            }
            k = k + 1;
        }
        proof {
            assert(w@.take(w@.len() as int) =~= w@);
            if i == 0 {
                assert(ws.deep_view().take(1).len() == 1);
                assert(out@ =~= w@);
            } else {
                assert(out@ =~= before + seq![' '] + w@);
            }
        }
        i = i + 1;
    }
    proof {
        assert(ws.deep_view().take(ws@.len() as int) =~= ws.deep_view());
    }
    out
}

/// The words of `parts` other than the one at `skip`.
fn without_index(parts: &Vec<Vec<char>>, skip: usize) -> (r: Vec<Vec<char>>)
    requires
        skip < parts@.len(),
    ensures
        r.deep_view() == parts.deep_view().remove(skip as int),
{
    let mut out: Vec<Vec<char>> = Vec::new();
    let mut i: usize = 0;
    while i < parts.len()
        invariant
            i <= parts@.len(),
            skip < parts@.len(),
            out.deep_view() == (if i <= skip {
                parts.deep_view().take(i as int)
            } else {
                parts.deep_view().take(i as int).remove(skip as int)
            }),
        decreases parts@.len() - i,
    {
        if i != skip {
            let ghost before = out.deep_view();
            let ghost before_vec = out@;
            let w = parts[i].clone();
            let ghost wv = w@;
            out.push(w);
            proof {
                assert(out.deep_view() =~= before.push(wv)) by {
                    assert forall|k: int| 0 <= k < out.deep_view().len() implies #[trigger] out.deep_view()[k]
                        == before.push(wv)[k] by {
                        if k < before.len() {
                            assert(out@[k] == before_vec[k]);
                        }
                    }
                }
                assert(parts.deep_view()[i as int] == parts@[i as int]@);
                if i < skip {
                    assert(out.deep_view() =~= parts.deep_view().take(i + 1));
                } else {
                    assert(out.deep_view() =~= parts.deep_view().take(i + 1).remove(skip as int));
                }
            }
        } else {
            proof {
                assert(out.deep_view() =~= parts.deep_view().take(i + 1).remove(skip as int));
            }
        }
        i = i + 1;
    }
    proof {
        assert(parts.deep_view().take(parts@.len() as int) =~= parts.deep_view());
    }
    out
}

/// A name field with a leading copy of the code removed.
pub fn clean_security_name(field: StructuredField, security_code: &[char]) -> (r: StructuredField)
    ensures
        model(r) == clean_name_model(model(field), security_code@),
{
    let ws = match &field.normalized {
        Some(n) => {
            let chars = chars_of(n.as_str());
            split_words(chars.as_slice())
        },
        None => {
            return field;
        },
    };
    if ws.len() == 0 {
        return field;
    }
    proof {
        assert(ws.deep_view()[0] == ws@[0]@);
    }
    if !seq_eq(ws[0].as_slice(), security_code) {
        return field;
    }
    let rest = without_index(&ws, 0);
    proof {
        assert(ws.deep_view().remove(0) =~= ws.deep_view().drop_first());
    }
    let name = join_with_spaces(&rest);
    if name.len() == 0 {
        field
    } else {
        StructuredField::inferred(string_from_chars(name.as_slice()))
    }
}

/// Splits a cell holding a security code (and maybe the name) into code and
/// name fields.
pub fn split_security_observation(
    observed: &ObservedText,
    fallback_name: StructuredField,
    inferred_code: bool,
) -> (r: (StructuredField, StructuredField))
    requires
        observed.value is Some,
    ensures
        (model(r.0), model(r.1)) == split_model(*observed, model(fallback_name), inferred_code),
{
    let raw = match &observed.value {
        Some(v) => v,
        None => {
            return (unparseable_field(observed), fallback_name);
        },
    };
    let chars = chars_of(raw.as_str());
    let parts = split_words(chars.as_slice());
    let ci = match find_code(&parts) {
        Some(i) => i,
        None => {
            return (unparseable_field(observed), fallback_name);
        },
    };
    proof {
        assert(parts.deep_view()[ci as int] == parts@[ci as int]@);
    }
    let code_text = string_from_chars(parts[ci].as_slice());
    let code_field = if inferred_code {
        StructuredField::inferred(code_text)
    } else {
        StructuredField {
            raw: Some(code_text.clone()),
            normalized: Some(code_text),
            quality: observed.quality,
            source: observed.source,
        }
    };
    if fallback_name.raw.is_some() {
        let name = clean_security_name(fallback_name, parts[ci].as_slice());
        return (code_field, name);
    }
    let rest = without_index(&parts, ci);
    let joined = join_with_spaces(&rest);
    if joined.len() == 0 {
        (code_field, fallback_name)
    } else {
        (code_field, StructuredField::inferred(string_from_chars(joined.as_slice())))
    }
}

} // verus!
