//! Open orders picked out for cancellation.
use vstd::prelude::*;

verus! {

/// An open order as the broker's cancellation list shows it.
#[derive(Clone, Debug)]
pub struct CancellationTarget {
    pub contract_id: String,
    pub security_code: String,
    pub security_name: String,
    pub side: String,
    pub price: String,
    pub quantity: u64,
}

} // verus!
