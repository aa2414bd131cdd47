//! The fee filter: it prices the operations of a fixed catalogue in fiat,
//! converts the price into native token at the current exchange rate, debits
//! the submitter, and waives the generic fee for what it has charged.

use vstd::prelude::*;
use crate::balances::Balances;
use crate::common::PriceProvider;
use crate::dispatch::{
    ensure_signed, saturating_add, saturating_mul, spec_saturating_add, spec_saturating_mul,
    AccountId, Balance, BalancesError, DispatchError, DispatchErrorWithPostInfo, FiatFilterError,
    Pays, PostDispatchInfo, RawOrigin, Weight,
};

verus! {

/// An amount of fiat money, in the unit of the price list.
pub type AmountUsd = u64;

/// The price of an operation on an identity: creating it, changing its key,
/// removing it.
pub const PRICE_DID_OP: AmountUsd = 100_000;

/// The price of anchoring, for each byte anchored.
pub const PRICE_ANCHOR_OP_PER_BYTE: AmountUsd = 2_000;

/// The price of storing a document, for each byte of its measured size.
pub const PRICE_BLOB_OP_PER_BYTE: AmountUsd = 2_000;

/// The price of creating or removing a revocation registry.
pub const PRICE_REVOKE_REGISTRY_OP: AmountUsd = 50_000;

/// The price of revoking or unrevoking, for each byte of the measured size.
pub const PRICE_REVOKE_REVOCATION_OP: AmountUsd = 1_000;

/// The price of an attestation, for each byte of its measured size.
pub const PRICE_ATTEST_OP_PER_BYTE: AmountUsd = 2_000;

/// The size of an identifier: of an identity, a document, a registry, a
/// revocation.
pub const ID_BYTE_SIZE: u64 = 32;

/// The part of a document's measured size that does not depend on its
/// content: its identifier and its author.
pub const BLOB_OVERHEAD_SIZE: u64 = 64;

/// The size of an attestation's priority.
pub const ATTEST_PRIORITY_SIZE: u64 = 8;

/// What an attestation without an IRI counts for in place of the IRI.
pub const ATTEST_EMPTY_IRI_SIZE: u64 = 1;

/// An identity.
pub type Did = [u8; 32];

/// An operation on identities.
#[derive(Clone, Debug)]
pub enum DidCall {
    New { did: Did },
    UpdateKey { did: Did },
    Remove { did: Did },
}

/// An operation on anchors.
#[derive(Clone, Debug)]
pub enum AnchorCall {
    Deploy { data: Vec<u8> },
}

/// An operation on documents.
#[derive(Clone, Debug)]
pub enum BlobCall {
    New { id: [u8; 32], blob: Vec<u8>, author: Did },
}

/// An operation on revocation registries.
#[derive(Clone, Debug)]
pub enum RevokeCall {
    NewRegistry { registry_id: [u8; 32], policy: Vec<Did>, add_only: bool },
    Revoke { registry_id: [u8; 32], revoke_ids: Vec<[u8; 32]> },
    UnRevoke { registry_id: [u8; 32], revoke_ids: Vec<[u8; 32]> },
    RemoveRegistry { registry_id: [u8; 32] },
}

/// An operation on attestations.
#[derive(Clone, Debug)]
pub enum AttestCall {
    SetClaim { attester: Did, priority: u64, iri: Option<Vec<u8>> },
}

/// An operation of the ledger's own bookkeeping.
#[derive(Clone, Debug)]
pub enum SystemCall {
    Remark { remark: Vec<u8> },
}

/// An operation on balances.
#[derive(Clone, Debug)]
pub enum BalancesCall {
    Transfer { dest: AccountId, value: Balance },
}

/// An operation that can be submitted to the ledger.
#[derive(Clone, Debug)]
pub enum Call {
    Did(DidCall),
    Anchor(AnchorCall),
    Blob(BlobCall),
    Revoke(RevokeCall),
    Attest(AttestCall),
    System(SystemCall),
    Balances(BalancesCall),
}

/// How the catalogue prices an operation.
#[derive(Clone, Copy, Debug, PartialEq, Eq, Structural)]
pub enum Pricing {
    /// One price, whatever the operation carries.
    Flat(AmountUsd),
    /// A price for each byte of the operation's measured size.
    PerByte { price: AmountUsd, size: u64 },
}

/// A length as a size in bytes, capped at `u64::MAX`.
pub open spec fn size_of_len(len: nat) -> u64 {
    if len <= u64::MAX {
        len as u64
    } else {
        u64::MAX
    }
}

/// The measured size of a batch of `n` identifiers for one registry: one
/// identifier for the registry and one for each of the batch.
pub open spec fn batch_size(n: nat) -> u64 {
    spec_saturating_add(ID_BYTE_SIZE, spec_saturating_mul(ID_BYTE_SIZE, size_of_len(n)))
}

/// The measured size of a document of `n` bytes.
pub open spec fn blob_size(n: nat) -> u64 {
    spec_saturating_add(BLOB_OVERHEAD_SIZE, size_of_len(n))
}

/// The measured size of an attestation: its priority and its IRI, where an
/// attestation without an IRI counts one byte.
pub open spec fn attestation_size(iri: Option<Vec<u8>>) -> u64 {
    spec_saturating_add(
        ATTEST_PRIORITY_SIZE,
        match iri {
            Some(bytes) => size_of_len(bytes@.len()),
            None => ATTEST_EMPTY_IRI_SIZE,
        },
    )
}

/// The catalogue: the pricing of each operation that the filter charges for,
/// and `None` for every operation that is not the filter's to charge.
pub open spec fn catalogue(call: Call) -> Option<Pricing> {
    match call {
        Call::Did(_) => Some(Pricing::Flat(PRICE_DID_OP)),
        Call::Anchor(AnchorCall::Deploy { data }) => Some(
            Pricing::PerByte { price: PRICE_ANCHOR_OP_PER_BYTE, size: size_of_len(data@.len()) },
        ),
        Call::Blob(BlobCall::New { id, blob, author }) => Some(
            Pricing::PerByte { price: PRICE_BLOB_OP_PER_BYTE, size: blob_size(blob@.len()) },
        ),
        Call::Revoke(RevokeCall::NewRegistry { .. }) => Some(
            Pricing::Flat(PRICE_REVOKE_REGISTRY_OP),
        ),
        Call::Revoke(RevokeCall::RemoveRegistry { .. }) => Some(
            Pricing::Flat(PRICE_REVOKE_REGISTRY_OP),
        ),
        Call::Revoke(RevokeCall::Revoke { registry_id, revoke_ids }) => Some(
            Pricing::PerByte {
                price: PRICE_REVOKE_REVOCATION_OP,
                size: batch_size(revoke_ids@.len()),
            },
        ),
        Call::Revoke(RevokeCall::UnRevoke { registry_id, revoke_ids }) => Some(
            Pricing::PerByte {
                price: PRICE_REVOKE_REVOCATION_OP,
                size: batch_size(revoke_ids@.len()),
            },
        ),
        Call::Attest(AttestCall::SetClaim { attester, priority, iri }) => Some(
            Pricing::PerByte { price: PRICE_ATTEST_OP_PER_BYTE, size: attestation_size(iri) },
        ),
        Call::System(_) => None,
        Call::Balances(_) => None,
    }
}

impl Pricing {
    /// The fiat cost under this pricing: the flat price, or the price per byte
    /// times the size, capped at `u64::MAX`.
    pub open spec fn spec_fiat_cost(self) -> AmountUsd {
        match self {
            Pricing::Flat(price) => price,
            Pricing::PerByte { price, size } => spec_saturating_mul(price, size),
        }
    }

    /// The fiat cost under this pricing.
    pub fn fiat_cost(self) -> (r: AmountUsd)
        ensures
            r == self.spec_fiat_cost(),
    {
        match self {
            Pricing::Flat(price) => price,
            Pricing::PerByte { price, size } => saturating_mul(price, size),
        }
    }
}

/// A length as a size in bytes.
fn len_to_size(len: usize) -> (r: u64)
    ensures
        r == size_of_len(len as nat),
{
    len as u64
}

/// Looks an operation up in the catalogue.
pub fn pricing_of(call: &Call) -> (r: Option<Pricing>)
    ensures
        r == catalogue(*call),
{
    match call {
        Call::Did(_) => Some(Pricing::Flat(PRICE_DID_OP)),
        Call::Anchor(AnchorCall::Deploy { data }) => Some(
            Pricing::PerByte { price: PRICE_ANCHOR_OP_PER_BYTE, size: len_to_size(data.len()) },
        ),
        Call::Blob(BlobCall::New { id: _, blob, author: _ }) => Some(
            Pricing::PerByte {
                price: PRICE_BLOB_OP_PER_BYTE,
                size: saturating_add(BLOB_OVERHEAD_SIZE, len_to_size(blob.len())),
            },
        ),
        Call::Revoke(RevokeCall::NewRegistry { .. }) => Some(
            Pricing::Flat(PRICE_REVOKE_REGISTRY_OP),
        ),
        Call::Revoke(RevokeCall::RemoveRegistry { .. }) => Some(
            Pricing::Flat(PRICE_REVOKE_REGISTRY_OP),
        ),
        Call::Revoke(RevokeCall::Revoke { registry_id: _, revoke_ids }) => Some(
            Pricing::PerByte {
                price: PRICE_REVOKE_REVOCATION_OP,
                size: saturating_add(
                    ID_BYTE_SIZE,
                    saturating_mul(ID_BYTE_SIZE, len_to_size(revoke_ids.len())),
                ),
            },
        ),
        Call::Revoke(RevokeCall::UnRevoke { registry_id: _, revoke_ids }) => Some(
            Pricing::PerByte {
                price: PRICE_REVOKE_REVOCATION_OP,
                size: saturating_add(
                    ID_BYTE_SIZE,
                    saturating_mul(ID_BYTE_SIZE, len_to_size(revoke_ids.len())),
                ),
            },
        ),
        Call::Attest(AttestCall::SetClaim { attester: _, priority: _, iri }) => {
            let iri_size: u64 = match iri {
                Some(bytes) => len_to_size(bytes.len()),
                None => ATTEST_EMPTY_IRI_SIZE,
            };
            Some(
                Pricing::PerByte {
                    price: PRICE_ATTEST_OP_PER_BYTE,
                    size: saturating_add(ATTEST_PRIORITY_SIZE, iri_size),
                },
            )
        },
        Call::System(_) => None,
        Call::Balances(_) => None,
    }
}

/// The rate at which fiat cost is converted, where a usable one is at hand: a
/// rate of zero converts nothing.
pub open spec fn usable_rate(stored: Option<(u32, Weight)>) -> Option<u32> {
    match stored {
        Some((rate, _)) => if rate > 0 {
            Some(rate)
        } else {
            None
        },
        None => None,
    }
}

/// The fee in native token for a fiat cost at a rate: the cost divided by the
/// rate, rounded down. Without a usable rate no fee can be computed.
pub open spec fn spec_fiat_to_dock(cost: AmountUsd, rate: Option<u32>) -> Result<
    Balance,
    DispatchError,
> {
    match rate {
        Some(r) => if r > 0 {
            Ok((cost / (r as u64)) as u64)
        } else {
            Err(DispatchError::FiatFilter(FiatFilterError::PriceUnavailable))
        },
        None => Err(DispatchError::FiatFilter(FiatFilterError::PriceUnavailable)),
    }
}

/// The fiat cost of an operation: what the catalogue prices it at. An
/// operation outside the catalogue is unexpected.
pub open spec fn call_fee_fiat(call: Call) -> Result<AmountUsd, DispatchError> {
    match catalogue(call) {
        Some(pricing) => Ok(pricing.spec_fiat_cost()),
        None => Err(DispatchError::FiatFilter(FiatFilterError::UnexpectedCall)),
    }
}

/// The fee in native token of an operation, given the rate that the price
/// provider has at hand.
pub open spec fn call_fee_dock(call: Call, stored: Option<(u32, Weight)>) -> Result<
    Balance,
    DispatchError,
> {
    match call_fee_fiat(call) {
        Ok(cost) => spec_fiat_to_dock(cost, usable_rate(stored)),
        Err(e) => Err(e),
    }
}

/// What is reported of an operation that the filter has charged for: the
/// generic fee is waived.
pub open spec fn charged() -> PostDispatchInfo {
    PostDispatchInfo { actual_weight: None, pays_fee: Pays::No }
}

/// What is reported of an operation that the filter refused for `error`: the
/// generic fee applies.
pub open spec fn rejected(error: DispatchError) -> DispatchErrorWithPostInfo {
    DispatchErrorWithPostInfo {
        post_info: PostDispatchInfo { actual_weight: None, pays_fee: Pays::Yes },
        error,
    }
}

/// What a submission was charged: the fee that was debited, and whether the
/// generic fee still applies to it.
#[derive(Clone, Copy, Debug, PartialEq, Eq, Structural)]
pub struct ChargeOutcome {
    /// The fee that was debited, in native token.
    pub fee: Balance,
    /// `Pays::No` where the fee was debited, `Pays::Yes` where nothing was.
    pub pays_fee: Pays,
}

/// What the filter makes of a submission: the balances afterwards, what was
/// charged, and whether the operation goes on to its handler. Only a signed
/// origin is served; the fee is debited from the signer, who must hold it; in
/// every other case nothing is charged and the balances stay as they were.
pub open spec fn charge(
    balances: Map<AccountId, Balance>,
    origin: RawOrigin,
    call: Call,
    stored: Option<(u32, Weight)>,
) -> (Map<AccountId, Balance>, ChargeOutcome, Result<(), DispatchError>) {
    let nothing = ChargeOutcome { fee: 0, pays_fee: Pays::Yes };
    match origin {
        RawOrigin::Signed(who) => match call_fee_dock(call, stored) {
            Ok(fee) => if balances[who] >= fee {
                (
                    balances.insert(who, (balances[who] - fee) as u64),
                    ChargeOutcome { fee, pays_fee: Pays::No },
                    Ok(()),
                )
            } else {
                (
                    balances,
                    nothing,
                    Err(DispatchError::Balances(BalancesError::InsufficientBalance)),
                )
            },
            Err(e) => (balances, nothing, Err(e)),
        },
        _ => (balances, nothing, Err(DispatchError::BadOrigin)),
    }
}

/// The handlers of the operations, behind the filter: the ledger logic that
/// an operation reaches once it is paid for.
pub trait Dispatch: Sized {
    /// What handling an operation makes of the handlers' state, and whether
    /// the operation succeeded.
    spec fn spec_dispatch(&self, origin: RawOrigin, call: Call) -> (Self, Result<(), DispatchError>);

    /// Handles an operation.
    fn dispatch(&mut self, origin: RawOrigin, call: &Call) -> (r: Result<(), DispatchError>)
        ensures
            (*final(self), r) == old(self).spec_dispatch(origin, *call),
    ;
}

/// What a submission through the filter comes to: the balances and the
/// handlers afterwards, and what is reported to the dispatch pipeline. The
/// operation reaches its handler if and only if its fee was debited; what the
/// handler makes of it is then reported with the generic fee waived. A
/// submission that the filter refuses changes nothing and leaves the generic
/// fee in place.
pub open spec fn execute<D: Dispatch>(
    balances: Map<AccountId, Balance>,
    handlers: D,
    origin: RawOrigin,
    call: Call,
    stored: Option<(u32, Weight)>,
) -> (Map<AccountId, Balance>, D, Result<PostDispatchInfo, DispatchErrorWithPostInfo>) {
    let (after, outcome, verdict) = charge(balances, origin, call, stored);
    let post_info = PostDispatchInfo { actual_weight: None, pays_fee: outcome.pays_fee };
    match verdict {
        Ok(()) => {
            let (handled, result) = handlers.spec_dispatch(origin, call);
            match result {
                Ok(()) => (after, handled, Ok(post_info)),
                Err(error) => (after, handled, Err(DispatchErrorWithPostInfo { post_info, error })),
            }
        },
        Err(error) => (after, handlers, Err(DispatchErrorWithPostInfo { post_info, error })),
    }
}

/// What the filter needs from the ledger that hosts it.
pub trait Config {
    /// Who knows the exchange rate.
    type PriceProvider: PriceProvider;
}

/// The fee filter of a ledger `T`, with the balances that it debits.
pub struct Module<T: Config> {
    pub price_provider: T::PriceProvider,
    pub balances: Balances,
}

/// Converts a fiat cost into native token at a rate.
pub fn fiat_to_dock(cost: AmountUsd, rate: Option<u32>) -> (r: Result<Balance, DispatchError>)
    ensures
        r == spec_fiat_to_dock(cost, rate),
{
    match rate {
        Some(r) => {
            if r > 0 {
                Ok(cost / (r as u64))
            } else {
                Err(DispatchError::FiatFilter(FiatFilterError::PriceUnavailable))
            }
        },
        None => Err(DispatchError::FiatFilter(FiatFilterError::PriceUnavailable)),
    }
}

impl<T: Config> Module<T> {
    /// A filter over a price provider and a ledger of balances.
    pub fn new(price_provider: T::PriceProvider, balances: Balances) -> (r: Self)
        ensures
            r.price_provider == price_provider,
            r.balances == balances,
    {
        Module { price_provider, balances }
    }

    /// The fiat cost of an operation.
    pub fn get_call_fee_fiat(call: &Call) -> (r: Result<AmountUsd, DispatchError>)
        ensures
            r == call_fee_fiat(*call),
    {
        match pricing_of(call) {
            Some(pricing) => Ok(pricing.fiat_cost()),
            None => Err(DispatchError::FiatFilter(FiatFilterError::UnexpectedCall)),
        }
    }

    /// The fee in native token that the operation would be charged if it were
    /// submitted now.
    pub fn get_call_fee_dock(&self, call: &Call) -> (r: Result<Balance, DispatchError>)
        ensures
            r == call_fee_dock(*call, self.price_provider.spec_stored_price()),
    {
        let cost = match Self::get_call_fee_fiat(call) {
            Ok(c) => c,
            Err(e) => {
                return Err(e);
            },
        };
        let rate = match self.price_provider.optimized_get_dock_usd_price() {
            Some((rate, _)) => if rate > 0 {
                Some(rate)
            } else {
                None
            },
            None => None,
        };
        fiat_to_dock(cost, rate)
    }

    /// Charges the submitter for an operation of the catalogue, and says what
    /// was charged and whether the operation goes on to its handler. Every
    /// refusal comes before the debit: on `Err` nothing has changed.
    pub fn charge_call(&mut self, origin: RawOrigin, call: &Call) -> (r: (
        ChargeOutcome,
        Result<(), DispatchError>,
    ))
        ensures
            (final(self).balances@, r.0, r.1) == charge(
                old(self).balances@,
                origin,
                *call,
                old(self).price_provider.spec_stored_price(),
            ),
            final(self).price_provider == old(self).price_provider,
    {
        let nothing = ChargeOutcome { fee: 0, pays_fee: Pays::Yes };
        let who = match ensure_signed(origin) {
            Ok(who) => who,
            Err(e) => {
                return (nothing, Err(e));
            },
        };
        let fee = match self.get_call_fee_dock(call) {
            Ok(fee) => fee,
            Err(e) => {
                return (nothing, Err(e));
            },
        };
        match self.balances.withdraw(who, fee) {
            Ok(()) => (ChargeOutcome { fee, pays_fee: Pays::No }, Ok(())),
            Err(e) => (nothing, Err(e)),
        }
    }

    /// Takes a submission in: charges the submitter and, once the fee is
    /// debited, hands the operation to its handler. On `Ok` the operation was
    /// handled and the generic fee is waived. On `Err` either the filter
    /// refused the submission, then nothing has changed and the generic fee
    /// applies, or the handler failed, then the fee stays debited and the
    /// generic fee is waived.
    pub fn execute_call<D: Dispatch>(&mut self, handlers: &mut D, origin: RawOrigin, call: &Call) -> (r:
        Result<PostDispatchInfo, DispatchErrorWithPostInfo>)
        ensures
            (final(self).balances@, *final(handlers), r) == execute(
                old(self).balances@,
                *old(handlers),
                origin,
                *call,
                old(self).price_provider.spec_stored_price(),
            ),
            final(self).price_provider == old(self).price_provider,
    {
        let (outcome, verdict) = self.charge_call(origin, call);
        let post_info = PostDispatchInfo { actual_weight: None, pays_fee: outcome.pays_fee };
        match verdict {
            Ok(()) => match handlers.dispatch(origin, call) {
                Ok(()) => Ok(post_info),
                Err(error) => Err(DispatchErrorWithPostInfo { post_info, error }),
            },
            Err(error) => Err(DispatchErrorWithPostInfo { post_info, error }),
        }
    }
}

/// A submission that no account signed, from the administrative origin or
/// from nobody, is refused as a bad origin, whatever the operation: nothing is
/// charged, no balance changes, and the operation reaches no handler.
pub proof fn lemma_unsigned_origin_is_never_charged<D: Dispatch>(
    balances: Map<AccountId, Balance>,
    handlers: D,
    origin: RawOrigin,
    call: Call,
    stored: Option<(u32, Weight)>,
)
    requires
        origin == RawOrigin::Root || origin == RawOrigin::Unsigned,
    ensures
        charge(balances, origin, call, stored) == (
            balances,
            ChargeOutcome { fee: 0, pays_fee: Pays::Yes },
            Err::<(), DispatchError>(DispatchError::BadOrigin),
        ),
        execute(balances, handlers, origin, call, stored) == (
            balances,
            handlers,
            Err::<PostDispatchInfo, DispatchErrorWithPostInfo>(rejected(DispatchError::BadOrigin)),
        ),
{
}

/// The filter either debits exactly the fee from the signer and waives the
/// generic fee, or debits nothing, reports a fee of zero and leaves the
/// generic fee in place. No other account's balance ever changes.
pub proof fn lemma_charge_is_all_or_nothing(
    balances: Map<AccountId, Balance>,
    origin: RawOrigin,
    call: Call,
    stored: Option<(u32, Weight)>,
)
    ensures
        ({
            let (after, outcome, verdict) = charge(balances, origin, call, stored);
            match verdict {
                Ok(()) => {
                    &&& outcome.pays_fee == Pays::No
                    &&& origin is Signed
                    &&& call_fee_dock(call, stored) == Ok::<Balance, DispatchError>(outcome.fee)
                    &&& after[origin->Signed_0] + outcome.fee == balances[origin->Signed_0]
                    &&& forall|other: AccountId|
                        other != origin->Signed_0 ==> after[other] == balances[other]
                },
                Err(_) => outcome.pays_fee == Pays::Yes && outcome.fee == 0 && after == balances,
            }
        }),
{
}

/// An operation reaches its handler if and only if it was charged for. What
/// is reported to the pipeline waives the generic fee exactly where the fee
/// was debited; where the filter refuses, its error is reported and the
/// handlers stay as they were.
pub proof fn lemma_forwarded_iff_charged<D: Dispatch>(
    balances: Map<AccountId, Balance>,
    handlers: D,
    origin: RawOrigin,
    call: Call,
    stored: Option<(u32, Weight)>,
)
    ensures
        ({
            let (after, outcome, verdict) = charge(balances, origin, call, stored);
            let (paid_after, handled, report) = execute(balances, handlers, origin, call, stored);
            let pays_fee = match report {
                Ok(info) => info.pays_fee,
                Err(e) => e.post_info.pays_fee,
            };
            &&& paid_after == after
            &&& pays_fee == outcome.pays_fee
            &&& verdict is Ok ==> handled == handlers.spec_dispatch(origin, call).0 && (report is Ok
                <==> handlers.spec_dispatch(origin, call).1 is Ok)
            &&& verdict matches Err(e) ==> handled == handlers && report == Err::<
                PostDispatchInfo,
                DispatchErrorWithPostInfo,
            >(rejected(e))
        }),
{
}

/// An operation outside the catalogue is refused as unexpected when an
/// account submits it: nothing is charged, the generic fee applies, and the
/// operation reaches no handler.
pub proof fn lemma_unexpected_call_is_not_charged<D: Dispatch>(
    balances: Map<AccountId, Balance>,
    handlers: D,
    who: AccountId,
    call: Call,
    stored: Option<(u32, Weight)>,
)
    requires
        catalogue(call) is None,
    ensures
        execute(balances, handlers, RawOrigin::Signed(who), call, stored) == (
            balances,
            handlers,
            Err::<PostDispatchInfo, DispatchErrorWithPostInfo>(
                rejected(DispatchError::FiatFilter(FiatFilterError::UnexpectedCall)),
            ),
        ),
{
}

/// An operation that is idempotent for its handler stays idempotent through
/// the filter. Where handling it a second time succeeds and changes nothing,
/// and the signer holds twice the fee, both submissions succeed with the same
/// report, each is charged the fee, and the handlers after the second
/// submission are as they were after the first.
pub proof fn lemma_resubmission_is_charged_again<D: Dispatch>(
    balances: Map<AccountId, Balance>,
    handlers: D,
    who: AccountId,
    call: Call,
    stored: Option<(u32, Weight)>,
)
    requires
        call_fee_dock(call, stored) is Ok,
        balances[who] >= 2 * call_fee_dock(call, stored)->Ok_0,
        handlers.spec_dispatch(RawOrigin::Signed(who), call).1 is Ok,
        handlers.spec_dispatch(RawOrigin::Signed(who), call).0.spec_dispatch(
            RawOrigin::Signed(who),
            call,
        ) == (handlers.spec_dispatch(RawOrigin::Signed(who), call).0, Ok::<(), DispatchError>(())),
    ensures
        ({
            let fee = call_fee_dock(call, stored)->Ok_0;
            let first = charge(balances, RawOrigin::Signed(who), call, stored);
            let second = charge(first.0, RawOrigin::Signed(who), call, stored);
            &&& first.1 == ChargeOutcome { fee, pays_fee: Pays::No }
            &&& second.1 == first.1
            &&& first.0[who] == balances[who] - fee
            &&& second.0[who] == balances[who] - 2 * fee
        }),
        ({
            let first = execute(balances, handlers, RawOrigin::Signed(who), call, stored);
            let second = execute(first.0, first.1, RawOrigin::Signed(who), call, stored);
            &&& first.2 == Ok::<PostDispatchInfo, DispatchErrorWithPostInfo>(charged())
            &&& second.2 == first.2
            &&& second.1 == first.1
        }),
{
}

/// The fee of an operation of the catalogue at a rate above zero is its fiat
/// cost divided by the rate, rounded down.
pub proof fn lemma_fee_is_cost_over_rate(call: Call, rate: u32, weight: Weight)
    requires
        catalogue(call) is Some,
        rate > 0,
    ensures
        call_fee_dock(call, Some((rate, weight))) == Ok::<Balance, DispatchError>(
            (catalogue(call)->Some_0.spec_fiat_cost() as int / rate as int) as u64,
        ),
        call_fee_dock(call, Some((rate, weight)))->Ok_0 * rate <= catalogue(
            call,
        )->Some_0.spec_fiat_cost(),
        catalogue(call)->Some_0.spec_fiat_cost() < (call_fee_dock(call, Some((rate, weight)))->Ok_0
            + 1) * rate,
{
    let cost = catalogue(call)->Some_0.spec_fiat_cost() as int;
    let r = rate as int;
    assert(cost == r * (cost / r) + cost % r) by {
        vstd::arithmetic::div_mod::lemma_fundamental_div_mod(cost, r);
    }
    assert(0 <= cost % r < r) by {
        vstd::arithmetic::div_mod::lemma_mod_bound(cost, r);
    }
    assert(0 <= cost / r <= cost) by (nonlinear_arith)
        requires
            cost >= 0,
            r > 0,
    ;
    assert((cost / r + 1) * r == r * (cost / r) + r) by (nonlinear_arith);
    assert((cost / r) * r == r * (cost / r)) by (nonlinear_arith);
}

/// Where the size is small enough for the product to fit, the cost per byte
/// is the price times the size: anchoring `n` bytes costs `n` times the price
/// of a byte, a document of `n` bytes costs the price of `64 + n` bytes, and a
/// batch of `n` revocations costs the price of `32 + 32 * n` bytes.
pub proof fn lemma_cost_per_byte(n: nat)
    requires
        n <= 0xffff_ffff,
    ensures
        (Pricing::PerByte {
            price: PRICE_ANCHOR_OP_PER_BYTE,
            size: size_of_len(n),
        }).spec_fiat_cost() == PRICE_ANCHOR_OP_PER_BYTE * n,
        (Pricing::PerByte { price: PRICE_BLOB_OP_PER_BYTE, size: blob_size(n) }).spec_fiat_cost()
            == PRICE_BLOB_OP_PER_BYTE * (64 + n),
        (Pricing::PerByte {
            price: PRICE_REVOKE_REVOCATION_OP,
            size: batch_size(n),
        }).spec_fiat_cost() == PRICE_REVOKE_REVOCATION_OP * (32 + 32 * n),
{
}

} // verus!
