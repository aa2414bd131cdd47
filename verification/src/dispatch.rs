//! What the oracle and the fee filter share with the dispatch pipeline around
//! them: origins, weights, the fee waiver and the errors of a dispatch.

use vstd::prelude::*;

verus! {

/// A cost estimate for a piece of work.
pub type Weight = u64;

/// A block height.
pub type BlockNumber = u64;

/// An account of the ledger.
pub type AccountId = u64;

/// An amount of native token, in its smallest unit.
pub type Balance = u64;

/// The product of two amounts, capped at `u64::MAX`.
pub open spec fn spec_saturating_mul(a: u64, b: u64) -> u64 {
    if a * b <= u64::MAX {
        (a * b) as u64
    } else {
        u64::MAX
    }
}

/// The sum of two amounts, capped at `u64::MAX`.
pub open spec fn spec_saturating_add(a: u64, b: u64) -> u64 {
    if a + b <= u64::MAX {
        (a + b) as u64
    } else {
        u64::MAX
    }
}

/// Multiplies and caps the product at `u64::MAX`.
pub fn saturating_mul(a: u64, b: u64) -> (r: u64)
    ensures
        r == spec_saturating_mul(a, b),
{
    match a.checked_mul(b) {
        Some(p) => p,
        None => u64::MAX,
    }
}

/// Adds and caps the sum at `u64::MAX`.
pub fn saturating_add(a: u64, b: u64) -> (r: u64)
    ensures
        r == spec_saturating_add(a, b),
{
    match a.checked_add(b) {
        Some(p) => p,
        None => u64::MAX,
    }
}

/// The cost of one read and of one write of the ledger's store.
#[derive(Clone, Copy, Debug, PartialEq, Eq, Structural)]
pub struct RuntimeDbWeight {
    pub read: Weight,
    pub write: Weight,
}

impl RuntimeDbWeight {
    /// The cost of `r` reads, capped at `u64::MAX`.
    pub open spec fn spec_reads(self, r: Weight) -> Weight {
        spec_saturating_mul(self.read, r)
    }

    /// The cost of `w` writes, capped at `u64::MAX`.
    pub open spec fn spec_writes(self, w: Weight) -> Weight {
        spec_saturating_mul(self.write, w)
    }

    /// The cost of `r` reads.
    pub fn reads(self, r: Weight) -> (w: Weight)
        ensures
            w == self.spec_reads(r),
    {
        saturating_mul(self.read, r)
    }

    /// The cost of `w` writes.
    pub fn writes(self, w: Weight) -> (r: Weight)
        ensures
            r == self.spec_writes(w),
    {
        saturating_mul(self.write, w)
    }
}

/// Whether the generic fee logic still has to charge for an operation.
#[derive(Clone, Copy, Debug, PartialEq, Eq, Structural)]
pub enum Pays {
    /// The generic fee applies.
    Yes,
    /// The operation is already paid for, or free: the generic fee is waived.
    No,
}

/// Who submitted an operation.
#[derive(Clone, Copy, Debug, PartialEq, Eq, Structural)]
pub enum RawOrigin {
    /// The administrative origin.
    Root,
    /// An account that signed the submission.
    Signed(AccountId),
    /// Nobody: an unsigned submission.
    Unsigned,
}

/// The errors of the price oracle.
#[derive(Clone, Copy, Debug, PartialEq, Eq, Structural)]
pub enum PriceFeedError {
    ContractConfigNotFound,
    ContractCallFailed,
    ResponseParsingFailed,
    ResponseDoesNotHaveIntegerPrice,
    PriceIsZero,
}

/// The errors of the fee filter.
#[derive(Clone, Copy, Debug, PartialEq, Eq, Structural)]
pub enum FiatFilterError {
    /// The operation is not in the catalogue.
    UnexpectedCall,
    /// No exchange rate is at hand, so no fee can be computed.
    PriceUnavailable,
}

/// The errors of the balance ledger.
#[derive(Clone, Copy, Debug, PartialEq, Eq, Structural)]
pub enum BalancesError {
    VestingBalance,
    LiquidityRestrictions,
    Overflow,
    InsufficientBalance,
    ExistentialDeposit,
    KeepAlive,
}

/// Why a dispatch failed.
#[derive(Clone, Copy, Debug, PartialEq, Eq, Structural)]
pub enum DispatchError {
    /// The origin may not submit this operation.
    BadOrigin,
    PriceFeed(PriceFeedError),
    FiatFilter(FiatFilterError),
    Balances(BalancesError),
}

impl DispatchError {
    /// For an error of one of the components, its place in the component's
    /// list of errors and its name; `None` for a bad origin.
    pub open spec fn spec_module_error(self) -> Option<(u8, &'static str)> {
        match self {
            DispatchError::BadOrigin => None,
            DispatchError::PriceFeed(e) => Some(
                match e {
                    PriceFeedError::ContractConfigNotFound => (0u8, "ContractConfigNotFound"),
                    PriceFeedError::ContractCallFailed => (1u8, "ContractCallFailed"),
                    PriceFeedError::ResponseParsingFailed => (2u8, "ResponseParsingFailed"),
                    PriceFeedError::ResponseDoesNotHaveIntegerPrice => (
                        3u8,
                        "ResponseDoesNotHaveIntegerPrice",
                    ),
                    PriceFeedError::PriceIsZero => (4u8, "PriceIsZero"),
                },
            ),
            DispatchError::FiatFilter(e) => Some(
                match e {
                    FiatFilterError::UnexpectedCall => (0u8, "UnexpectedCall"),
                    FiatFilterError::PriceUnavailable => (1u8, "PriceUnavailable"),
                },
            ),
            DispatchError::Balances(e) => Some(
                match e {
                    BalancesError::VestingBalance => (0u8, "VestingBalance"),
                    BalancesError::LiquidityRestrictions => (1u8, "LiquidityRestrictions"),
                    BalancesError::Overflow => (2u8, "Overflow"),
                    BalancesError::InsufficientBalance => (3u8, "InsufficientBalance"),
                    BalancesError::ExistentialDeposit => (4u8, "ExistentialDeposit"),
                    BalancesError::KeepAlive => (5u8, "KeepAlive"),
                },
            ),
        }
    }

    /// For an error of one of the components, its place in the component's
    /// list of errors and its name; `None` for a bad origin.
    pub fn module_error(&self) -> (r: Option<(u8, &'static str)>)
        ensures
            r == self.spec_module_error(),
    {
        match *self {
            DispatchError::BadOrigin => None,
            DispatchError::PriceFeed(e) => Some(
                match e {
                    PriceFeedError::ContractConfigNotFound => (0u8, "ContractConfigNotFound"),
                    PriceFeedError::ContractCallFailed => (1u8, "ContractCallFailed"),
                    PriceFeedError::ResponseParsingFailed => (2u8, "ResponseParsingFailed"),
                    PriceFeedError::ResponseDoesNotHaveIntegerPrice => (
                        3u8,
                        "ResponseDoesNotHaveIntegerPrice",
                    ),
                    PriceFeedError::PriceIsZero => (4u8, "PriceIsZero"),
                },
            ),
            DispatchError::FiatFilter(e) => Some(
                match e {
                    FiatFilterError::UnexpectedCall => (0u8, "UnexpectedCall"),
                    FiatFilterError::PriceUnavailable => (1u8, "PriceUnavailable"),
                },
            ),
            DispatchError::Balances(e) => Some(
                match e {
                    BalancesError::VestingBalance => (0u8, "VestingBalance"),
                    BalancesError::LiquidityRestrictions => (1u8, "LiquidityRestrictions"),
                    BalancesError::Overflow => (2u8, "Overflow"),
                    BalancesError::InsufficientBalance => (3u8, "InsufficientBalance"),
                    BalancesError::ExistentialDeposit => (4u8, "ExistentialDeposit"),
                    BalancesError::KeepAlive => (5u8, "KeepAlive"),
                },
            ),
        }
    }
}

/// What a dispatch reports back to the pipeline.
#[derive(Clone, Copy, Debug, PartialEq, Eq, Structural)]
pub struct PostDispatchInfo {
    /// The weight that the operation used, where it is known.
    pub actual_weight: Option<Weight>,
    /// Whether the generic fee still applies.
    pub pays_fee: Pays,
}

/// A failed dispatch, with what is reported back to the pipeline.
#[derive(Clone, Copy, Debug, PartialEq, Eq, Structural)]
pub struct DispatchErrorWithPostInfo {
    pub post_info: PostDispatchInfo,
    pub error: DispatchError,
}

/// Accepts the administrative origin and no other.
pub fn ensure_root(origin: RawOrigin) -> (r: Result<(), DispatchError>)
    ensures
        r == if origin == RawOrigin::Root {
            Ok::<(), DispatchError>(())
        } else {
            Err(DispatchError::BadOrigin)
        },
{
    match origin {
        RawOrigin::Root => Ok(()),
        _ => Err(DispatchError::BadOrigin),
    }
}

/// Accepts a signed origin and hands out the account that signed.
pub fn ensure_signed(origin: RawOrigin) -> (r: Result<AccountId, DispatchError>)
    ensures
        r == match origin {
            RawOrigin::Signed(who) => Ok::<AccountId, DispatchError>(who),
            _ => Err(DispatchError::BadOrigin),
        },
{
    match origin {
        RawOrigin::Signed(who) => Ok(who),
        _ => Err(DispatchError::BadOrigin),
    }
}

} // verus!
