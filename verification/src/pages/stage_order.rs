//! Orders to stage in the broker form.
use vstd::prelude::*;

use super::types::WorkspaceKind;

verus! {

#[derive(Clone, Copy, Debug, PartialEq, Eq, Structural)]
pub enum OrderSide {
    Buy,
    Sell,
}

/// An order as a caller asks for it: price is decimal text.
#[derive(Clone, Debug)]
pub struct StageOrderRequest {
    pub security_code: String,
    pub side: OrderSide,
    pub price: String,
    pub quantity: u64,
}

#[derive(Clone, Debug)]
pub struct StageOrderResult {
    pub status: String,
    pub request: StageOrderRequest,
    pub workspace: WorkspaceKind,
    pub order_value: String,
    pub verified_price: String,
    pub verified_quantity: String,
    pub warnings: Vec<String>,
}

} // verus!
