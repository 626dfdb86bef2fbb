//! Business records built from broker tables.
use vstd::prelude::*;

use crate::pages::types::{DataQuality, DataSource};

verus! {

/// A record field: the cell text it came from, its normalized value, and
/// how it was obtained.
#[derive(Clone, Debug)]
pub struct StructuredField {
    pub raw: Option<String>,
    pub normalized: Option<String>,
    pub quality: DataQuality,
    pub source: DataSource,
}

/// A field as plain values: raw text, normalized text, quality, source.
pub type FieldModel = (Option<Seq<char>>, Option<Seq<char>>, DataQuality, DataSource);

pub open spec fn opt_chars(o: Option<String>) -> Option<Seq<char>> {
    match o {
        Some(s) => Some(s@),
        None => None,
    }
}

/// The plain values of a field.
pub open spec fn model(f: StructuredField) -> FieldModel {
    (opt_chars(f.raw), opt_chars(f.normalized), f.quality, f.source)
}

pub open spec fn unavailable_model() -> FieldModel {
    (None, None, DataQuality::Unavailable, DataSource::Unavailable)
}

/// A value worked out from neighbouring text rather than read in place.
pub open spec fn inferred_model(v: Seq<char>) -> FieldModel {
    (Some(v), Some(v), DataQuality::Partial, DataSource::Inferred)
}

impl StructuredField {
    pub fn unavailable() -> (f: StructuredField)
        ensures
            model(f) == unavailable_model(),
    {
        StructuredField {
            raw: None,
            normalized: None,
            quality: DataQuality::Unavailable,
            source: DataSource::Unavailable,
        }
    }

    pub fn inferred(value: String) -> (f: StructuredField)
        ensures
            model(f) == inferred_model(value@),
    {
        StructuredField {
            raw: Some(value.clone()),
            normalized: Some(value),
            quality: DataQuality::Partial,
            source: DataSource::Inferred,
        }
    }
}

/// Records of one kind read from a table, the column titles that were
/// mapped, and the warnings raised.
#[derive(Clone, Debug)]
pub struct BusinessTable<T> {
    pub records: Vec<T>,
    pub row_count: usize,
    pub mapped_columns: Vec<String>,
    pub warnings: Vec<String>,
}

#[derive(Clone, Debug)]
pub struct PositionRecord {
    pub security_code: StructuredField,
    pub security_name: StructuredField,
    pub yesterday_balance: StructuredField,
    pub reference_holding: StructuredField,
    pub available_quantity: StructuredField,
    pub frozen_quantity: StructuredField,
    pub cost_price: StructuredField,
    pub current_price: StructuredField,
    pub current_cost: StructuredField,
    pub market_value: StructuredField,
    pub floating_pnl: StructuredField,
    pub pnl_ratio: StructuredField,
    pub today_buy_quantity: StructuredField,
    pub reference_pnl: StructuredField,
    pub share_balance: StructuredField,
    pub shareholder_account: StructuredField,
    pub custodian_unit: StructuredField,
    pub fund_account: StructuredField,
}

#[derive(Clone, Debug)]
pub struct OrderRecord {
    pub order_id: StructuredField,
    pub submitted_at: StructuredField,
    pub security_code: StructuredField,
    pub security_name: StructuredField,
    pub side: StructuredField,
    pub order_type: StructuredField,
    pub price: StructuredField,
    pub quantity: StructuredField,
    pub filled_quantity: StructuredField,
    pub remaining_quantity: StructuredField,
    pub status: StructuredField,
    pub cancelable: StructuredField,
}

#[derive(Clone, Debug)]
pub struct ExecutionRecord {
    pub execution_id: StructuredField,
    pub executed_at: StructuredField,
    pub order_id: StructuredField,
    pub security_code: StructuredField,
    pub security_name: StructuredField,
    pub side: StructuredField,
    pub price: StructuredField,
    pub quantity: StructuredField,
    pub amount: StructuredField,
}

#[derive(Clone, Debug)]
pub struct FundsRecord {
    pub total_assets: StructuredField,
    pub available_funds: StructuredField,
    pub frozen_funds: StructuredField,
    pub cash_balance: StructuredField,
    pub market_value: StructuredField,
    pub withdrawable_funds: StructuredField,
}

} // verus!
