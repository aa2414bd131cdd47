//! What the fee filter asks of whoever knows the exchange rate.

use vstd::prelude::*;
use crate::dispatch::Weight;
use crate::price_feed::CallOutcome;

verus! {

/// A source of the exchange rate between the native token and fiat money. The
/// rate is the fiat price of native token, given with the weight that reading
/// it took.
pub trait PriceProvider {
    /// The rate that the answer of the oracle's contract reports.
    spec fn spec_contract_price(&self, outcome: CallOutcome) -> Option<(u32, Weight)>;

    /// The rate that is at hand without asking anyone.
    spec fn spec_stored_price(&self) -> Option<(u32, Weight)>;

    /// Reads the rate from the answer to the call that asks the contract for
    /// the price; `None` where the answer holds no usable price.
    fn get_dock_usd_price(&self, outcome: CallOutcome) -> (r: Option<(u32, Weight)>)
        ensures
            r == self.spec_contract_price(outcome),
    ;

    /// The rate that is at hand; `None` where none is.
    fn optimized_get_dock_usd_price(&self) -> (r: Option<(u32, Weight)>)
        ensures
            r == self.spec_stored_price(),
    ;
}

} // verus!
