//! A small ledger to try the fee filter on: a fixed exchange rate, one funded
//! account, and the rule that keeps catalogue operations from bypassing the
//! filter.

use vstd::prelude::*;
use crate::balances::Balances;
use crate::common::PriceProvider;
use crate::dispatch::{
    saturating_add, spec_saturating_add, AccountId, Balance, DispatchError,
    DispatchErrorWithPostInfo, PostDispatchInfo, RawOrigin, RuntimeDbWeight, Weight,
};
use crate::fiat_filter::{catalogue, charge, execute, Call, Dispatch, Module};
use crate::price_feed::CallOutcome;

verus! {

/// The exchange rate of the ledger.
pub const RATE_DOCK_USD: u32 = 72;

/// The account that is funded at genesis.
pub const ALICE: AccountId = 100;

/// An account that holds nothing at genesis.
pub const BOB: AccountId = 200;

/// What `ALICE` holds at genesis.
pub const ALICE_ENDOWMENT: Balance = 100_000_000_000;

/// The ledger: reads and writes of its store cost nothing, and gas counts as
/// weight one for one.
#[derive(Clone, Copy, Debug, PartialEq, Eq, Structural)]
pub struct Test;

impl crate::price_feed::Config for Test {
    open spec fn spec_db_weight() -> RuntimeDbWeight {
        RuntimeDbWeight { read: 0, write: 0 }
    }

    fn db_weight() -> (w: RuntimeDbWeight) {
        RuntimeDbWeight { read: 0, write: 0 }
    }

    open spec fn spec_gas_to_weight(gas: u64) -> Weight {
        gas
    }

    fn gas_to_weight(gas: u64) -> (w: Weight) {
        gas
    }
}

impl crate::fiat_filter::Config for Test {
    type PriceProvider = TestPriceProvider;
}

/// The rule that admits an operation submitted directly, past the filter:
/// every operation but those of the catalogue.
pub struct BaseFilter;

impl BaseFilter {
    /// Whether the operation may be submitted directly: not where it is an
    /// operation on anchors, documents, identities, registries or attestations.
    pub open spec fn spec_filter(call: Call) -> bool {
        match call {
            Call::Anchor(_) => false,
            Call::Blob(_) => false,
            Call::Did(_) => false,
            Call::Revoke(_) => false,
            Call::Attest(_) => false,
            _ => true,
        }
    }

    /// Whether the operation may be submitted directly.
    pub fn filter(call: &Call) -> (r: bool)
        ensures
            r == Self::spec_filter(*call),
    {
        match call {
            Call::Anchor(_) => false,
            Call::Blob(_) => false,
            Call::Did(_) => false,
            Call::Revoke(_) => false,
            Call::Attest(_) => false,
            _ => true,
        }
    }
}

/// A price provider that always reports the rate `RATE_DOCK_USD`, at no
/// weight.
pub struct TestPriceProvider {}

impl PriceProvider for TestPriceProvider {
    open spec fn spec_contract_price(&self, outcome: CallOutcome) -> Option<(u32, Weight)> {
        Some((RATE_DOCK_USD, 0u64))
    }

    open spec fn spec_stored_price(&self) -> Option<(u32, Weight)> {
        Some((RATE_DOCK_USD, 0u64))
    }

    fn get_dock_usd_price(&self, outcome: CallOutcome) -> (r: Option<(u32, Weight)>) {
        Some((RATE_DOCK_USD, 0))
    }

    fn optimized_get_dock_usd_price(&self) -> (r: Option<(u32, Weight)>) {
        Some((RATE_DOCK_USD, 0))
    }
}

/// Handlers that accept every operation and keep count of what reached them.
#[derive(Clone, Copy, Debug, PartialEq, Eq, Structural)]
pub struct Handlers {
    /// How many operations were handled; the count stops at `u64::MAX`.
    pub handled: u64,
}

impl Dispatch for Handlers {
    open spec fn spec_dispatch(&self, origin: RawOrigin, call: Call) -> (
        Self,
        Result<(), DispatchError>,
    ) {
        (Handlers { handled: spec_saturating_add(self.handled, 1) }, Ok(()))
    }

    fn dispatch(&mut self, origin: RawOrigin, call: &Call) -> (r: Result<(), DispatchError>) {
        self.handled = saturating_add(self.handled, 1);
        Ok(())
    }
}

/// The fee filter of the ledger `Test`.
pub type FiatFilterModule = Module<Test>;

/// The filter at genesis: `ALICE` holds her endowment and nobody else holds
/// anything.
pub fn ext() -> (r: FiatFilterModule)
    ensures
        r.balances@ == Map::new(|who: AccountId| true, |who: AccountId| 0u64).insert(
            ALICE,
            ALICE_ENDOWMENT,
        ),
{
    let mut balances = Balances::new();
    balances.deposit_creating(ALICE, ALICE_ENDOWMENT);
    Module::new(TestPriceProvider {  }, balances)
}

/// Submits an operation signed by `ALICE` and measures what she paid for it:
/// what she held before less what she holds after.
pub fn measure_fees<D: Dispatch>(module: &mut FiatFilterModule, handlers: &mut D, call: &Call) -> (r:
    (Balance, Result<PostDispatchInfo, DispatchErrorWithPostInfo>))
    ensures
        (final(module).balances@, *final(handlers), r.1) == execute(
            old(module).balances@,
            *old(handlers),
            RawOrigin::Signed(ALICE),
            *call,
            Some((RATE_DOCK_USD, 0u64)),
        ),
        r.0 == old(module).balances@[ALICE] - final(module).balances@[ALICE],
        r.0 == charge(
            old(module).balances@,
            RawOrigin::Signed(ALICE),
            *call,
            Some((RATE_DOCK_USD, 0u64)),
        ).1.fee,
{
    let balance_pre = module.balances.free_balance(ALICE);
    let executed = module.execute_call(handlers, RawOrigin::Signed(ALICE), call);
    let balance_post = module.balances.free_balance(ALICE);
    let fees_paid = balance_pre - balance_post;
    (fees_paid, executed)
}

/// The operations that may not be submitted directly are those that the
/// filter charges for: what the rule keeps out, the catalogue prices, and what
/// the rule admits, the filter refuses as unexpected.
pub proof fn lemma_filter_blocks_the_catalogue(call: Call)
    ensures
        BaseFilter::spec_filter(call) <==> catalogue(call) is None,
{
}

} // verus!
