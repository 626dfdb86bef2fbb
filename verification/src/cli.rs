//! Command-line requests turned into service requests.
use vstd::prelude::*;

use crate::pages::preflight::{ReferenceQuote, TradePreflightRequest};
use crate::pages::stage_order::{OrderSide, StageOrderRequest};

verus! {

/// The options of a preflight inspection.
#[derive(Clone, Debug)]
pub struct PreflightArgs {
    pub security_code: Option<String>,
    pub side: Option<OrderSide>,
    pub price: Option<String>,
    pub quantity: Option<u64>,
    pub reference_price: Option<String>,
    pub reference_source: String,
    pub reference_captured_at: Option<String>,
}

impl PreflightArgs {
    /// The preflight request: an order only when all four order options are
    /// given (none at all means no order; some but not all is refused), and
    /// a reference quote when a reference price is given.
    pub fn into_request(self) -> (r: Result<TradePreflightRequest, String>)
        ensures
            ({
                let given = (self.security_code is Some, self.side is Some, self.price is Some, self.quantity is Some);
                if given == (false, false, false, false) {
                    r matches Ok(req) && req.order is None
                } else if given == (true, true, true, true) {
                    r matches Ok(req) && req.order == Some(StageOrderRequest {
                        security_code: self.security_code->0,
                        side: self.side->0,
                        price: self.price->0,
                        quantity: self.quantity->0,
                    })
                } else {
                    r matches Err(e) && e@ == "security-code, side, price, and quantity must be provided together"@
                }
            }),
            r matches Ok(req) ==> match self.reference_price {
                Some(p) => req.reference_quote == Some(ReferenceQuote {
                    latest_price: p,
                    source: self.reference_source,
                    captured_at: self.reference_captured_at,
                }),
                None => req.reference_quote is None,
            },
    {
        let all_absent = self.security_code.is_none() && self.side.is_none() && self.price.is_none()
            && self.quantity.is_none();
        let all_present = self.security_code.is_some() && self.side.is_some() && self.price.is_some()
            && self.quantity.is_some();
        let order = if all_absent {
            None
        } else if all_present {
            match (self.security_code, self.side, self.price, self.quantity) {
                (Some(security_code), Some(side), Some(price), Some(quantity)) => Some(
                    StageOrderRequest { security_code, side, price, quantity },
                ),
                _ => None,
            }
        } else {
            return Err(String::from_str("security-code, side, price, and quantity must be provided together"));
        };
        let reference_quote = match self.reference_price {
            Some(latest_price) => Some(
                ReferenceQuote {
                    latest_price,
                    source: self.reference_source,
                    captured_at: self.reference_captured_at,
                },
            ),
            None => None,
        };
        Ok(TradePreflightRequest { order, reference_quote })
    }
}

/// Commands that can change the broker UI run only with `--live`.
pub fn require_live(live: bool) -> (r: Result<(), String>)
    ensures
        r is Ok <==> live,
        r matches Err(e) ==> e@ == "this command can mutate the broker UI; add --live explicitly"@,
{
    if !live {
        return Err(String::from_str("this command can mutate the broker UI; add --live explicitly"));
    }
    Ok(())
}

/// A traversal limit from the command line, or the configured one, held
/// within `[min, max]`.
pub fn probe_limit(requested: Option<usize>, configured: usize, min: usize, max: usize) -> (r: usize)
    requires
        min <= max,
    ensures
        ({
            let v = match requested {
                Some(x) => x,
                None => configured,
            };
            r == (if v < min {
                min
            } else if v > max {
                max
            } else {
                v
            })
        }),
{
    let v = match requested {
        Some(x) => x,
        None => configured,
    };
    if v < min {
        min
    } else if v > max {
        max
    } else {
        v
    }
}

} // verus!
