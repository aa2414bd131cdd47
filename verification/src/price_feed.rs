//! The price oracle: it keeps the exchange rate that a contract reports,
//! decides when the kept rate is stale, and reads a fresh one out of the
//! contract's answer.

use vstd::prelude::*;
use crate::abi::{decode, decoded, pow2_32, Field, ParamKind, H160, U256};
use crate::common::PriceProvider;
use crate::dispatch::{
    ensure_root, saturating_add, spec_saturating_add, BlockNumber, DispatchError,
    DispatchErrorWithPostInfo, Pays, PostDispatchInfo, PriceFeedError, RawOrigin,
    RuntimeDbWeight, Weight,
};
use core::marker::PhantomData;

verus! {

/// The gas limit of the oracle's read-only call.
pub const GAS_LIMIT: u64 = 0xffff_ffff_ffff_ffff;

/// Where the price is read: the contract, the call that asks for the price, and
/// the types of the fields that the contract answers with.
#[derive(Debug, PartialEq, Eq)]
pub struct ContractConfig {
    /// Address of the contract.
    pub address: H160,
    /// The encoded call that asks the contract for the price.
    pub query_abi_encoded: Vec<u8>,
    /// The types of the fields of the contract's answer, in order.
    pub return_val_abi: Vec<ParamKind>,
}

/// A contract configuration as plain values.
pub struct ContractConfigView {
    pub address: Seq<u8>,
    pub query_abi_encoded: Seq<u8>,
    pub return_val_abi: Seq<ParamKind>,
}

impl View for ContractConfig {
    type V = ContractConfigView;

    open spec fn view(&self) -> ContractConfigView {
        ContractConfigView {
            address: self.address.bytes@,
            query_abi_encoded: self.query_abi_encoded@,
            return_val_abi: self.return_val_abi@,
        }
    }
}

impl Clone for ContractConfig {
    fn clone(&self) -> (r: Self)
        ensures
            r@ == self@,
    {
        let query = self.query_abi_encoded.clone();
        let schema = self.return_val_abi.clone();
        assert(query@ =~= self.query_abi_encoded@);
        assert(schema@ =~= self.return_val_abi@);
        ContractConfig { address: self.address, query_abi_encoded: query, return_val_abi: schema }
    }
}

impl Default for ContractConfig {
    /// The zero address, an empty query and an empty schema.
    fn default() -> (r: Self)
        ensures
            r@ == (ContractConfigView {
                address: Seq::new(20, |i: int| 0u8),
                query_abi_encoded: Seq::<u8>::empty(),
                return_val_abi: Seq::<ParamKind>::empty(),
            }),
    {
        ContractConfig {
            address: H160::zero(),
            query_abi_encoded: Vec::new(),
            return_val_abi: Vec::new(),
        }
    }
}

/// What the oracle announces.
#[derive(Debug, PartialEq, Eq)]
pub enum Event {
    ContractConfigSet(ContractConfig),
    PriceSet(u32),
    UpdateFrequencySet(u32),
}

/// An event as plain values.
pub enum EventView {
    ContractConfigSet(ContractConfigView),
    PriceSet(u32),
    UpdateFrequencySet(u32),
}

impl View for Event {
    type V = EventView;

    open spec fn view(&self) -> EventView {
        match *self {
            Event::ContractConfigSet(config) => EventView::ContractConfigSet(config@),
            Event::PriceSet(price) => EventView::PriceSet(price),
            Event::UpdateFrequencySet(freq) => EventView::UpdateFrequencySet(freq),
        }
    }
}

/// How a contract call ended.
#[derive(Clone, Copy, Debug, PartialEq, Eq, Structural)]
pub enum ExitReason {
    /// The call ran to its end.
    Succeed,
    /// The call hit an error of the machine.
    Error,
    /// The contract reverted.
    Revert,
    /// The machine gave up.
    Fatal,
}

impl ExitReason {
    /// Whether the call ran to its end.
    pub open spec fn spec_is_succeed(self) -> bool {
        self == ExitReason::Succeed
    }

    /// Whether the call ran to its end.
    pub fn is_succeed(&self) -> (r: bool)
        ensures
            r == self.spec_is_succeed(),
    {
        match *self {
            ExitReason::Succeed => true,
            _ => false,
        }
    }
}

/// What a contract call gave back.
#[derive(Debug, PartialEq, Eq)]
pub struct CallInfo {
    pub exit_reason: ExitReason,
    /// The bytes that the contract returned.
    pub value: Vec<u8>,
    pub used_gas: U256,
}

/// A read-only contract call that the oracle asks its host to make.
#[derive(Debug, PartialEq, Eq)]
pub struct CallRequest {
    pub source: H160,
    pub target: H160,
    pub input: Vec<u8>,
    pub value: U256,
    pub gas_limit: u64,
}

/// A call request as plain values.
pub struct CallRequestView {
    pub source: Seq<u8>,
    pub target: Seq<u8>,
    pub input: Seq<u8>,
    pub value: nat,
    pub gas_limit: u64,
}

impl View for CallRequest {
    type V = CallRequestView;

    open spec fn view(&self) -> CallRequestView {
        CallRequestView {
            source: self.source.bytes@,
            target: self.target.bytes@,
            input: self.input@,
            value: self.value.value(),
            gas_limit: self.gas_limit,
        }
    }
}

/// The oracle's call to the contract at `target` with the query `input`: sent
/// from the zero address, with no value and the highest gas limit.
pub open spec fn read_call(target: Seq<u8>, input: Seq<u8>) -> CallRequestView {
    CallRequestView {
        source: Seq::new(20, |i: int| 0u8),
        target,
        input,
        value: 0,
        gas_limit: GAS_LIMIT,
    }
}

/// What the oracle needs from the ledger that hosts it.
pub trait Config {
    /// The cost of a read and of a write of the store.
    spec fn spec_db_weight() -> RuntimeDbWeight;

    fn db_weight() -> (w: RuntimeDbWeight)
        ensures
            w == Self::spec_db_weight(),
    ;

    /// The weight that stands for an amount of gas.
    spec fn spec_gas_to_weight(gas: u64) -> Weight;

    fn gas_to_weight(gas: u64) -> (w: Weight)
        ensures
            w == Self::spec_gas_to_weight(gas),
    ;
}

/// The oracle's state as plain values.
pub struct ModuleView {
    pub contract_config: Option<ContractConfigView>,
    pub price: Option<u32>,
    pub last_price_update_at: Option<BlockNumber>,
    pub price_update_freq: Option<u32>,
    pub events: Seq<EventView>,
}

/// The kept price with the height at which it was read. A price of zero is
/// never kept.
struct CachedPrice {
    price: Option<u32>,
    updated_at: Option<BlockNumber>,
}

impl CachedPrice {
    #[verifier::type_invariant]
    spec fn never_zero(self) -> bool {
        self.price != Some(0u32)
    }
}

/// The price oracle of a ledger `T`.
pub struct Module<T: Config> {
    contract_config: Option<ContractConfig>,
    cached: CachedPrice,
    price_update_freq: Option<u32>,
    events: Vec<Event>,
    runtime: PhantomData<T>,
}

/// The views of a list of events, in order.
pub open spec fn event_views(events: Seq<Event>) -> Seq<EventView> {
    events.map_values(|e: Event| e@)
}

/// The frequency that counts: zero where none is set.
pub open spec fn effective_freq(freq: Option<u32>) -> u32 {
    match freq {
        Some(f) => f,
        None => 0,
    }
}

/// Whether a price last updated at `last` under frequency `freq` is stale at
/// height `now`: never under a frequency of zero, else from `last + freq` on.
pub open spec fn stale_at(freq: Option<u32>, last: Option<BlockNumber>, now: BlockNumber) -> bool {
    let since: BlockNumber = match last {
        Some(b) => b,
        None => 0,
    };
    effective_freq(freq) > 0 && now >= since + effective_freq(freq)
}

impl<T: Config> View for Module<T> {
    type V = ModuleView;

    closed spec fn view(&self) -> ModuleView {
        ModuleView {
            contract_config: match self.contract_config {
                Some(config) => Some(config@),
                None => None,
            },
            price: self.cached.price,
            last_price_update_at: self.cached.updated_at,
            price_update_freq: self.price_update_freq,
            events: event_views(self.events@),
        }
    }
}

impl ModuleView {
    /// The state keeps no price of zero.
    pub open spec fn wf(self) -> bool {
        self.price != Some(0u32)
    }

    /// Whether the kept price is stale at height `now`.
    pub open spec fn is_stale(self, now: BlockNumber) -> bool {
        stale_at(self.price_update_freq, self.last_price_update_at, now)
    }

    /// The state after a price was read at height `now`: the price and the
    /// height are kept, and the new price is announced.
    pub open spec fn with_price(self, price: u32, now: BlockNumber) -> ModuleView {
        ModuleView {
            price: Some(price),
            last_price_update_at: Some(now),
            events: self.events.push(EventView::PriceSet(price)),
            ..self
        }
    }

    /// The call that a refresh at height `now` needs: none while the price is
    /// fresh, and none without a configuration.
    pub open spec fn request_at(self, now: BlockNumber) -> Option<CallRequestView> {
        if self.is_stale(now) {
            self.request()
        } else {
            None
        }
    }

    /// The call that reads the price from the configured contract.
    pub open spec fn request(self) -> Option<CallRequestView> {
        match self.contract_config {
            Some(c) => Some(read_call(c.address, c.query_abi_encoded)),
            None => None,
        }
    }
}

/// The views of the call that is asked for, where one is.
pub open spec fn request_view(request: Option<CallRequest>) -> Option<CallRequestView> {
    match request {
        Some(r) => Some(r@),
        None => None,
    }
}

/// The answer to the oracle's call, where a call was made: what the transport
/// gave back, or its error.
pub type CallOutcome = Option<Result<CallInfo, DispatchError>>;

/// The price that a decoded answer holds: the second field, an integer, cut to
/// its low 32 bits. Nothing decoded or fewer than two fields is a parsing
/// failure; a second field that is no integer holds no integer price; a price
/// of zero is an error.
pub open spec fn price_of_fields(fields: Option<Seq<Field>>) -> Result<u32, DispatchError> {
    match fields {
        None => Err(DispatchError::PriceFeed(PriceFeedError::ResponseParsingFailed)),
        Some(fs) => if fs.len() < 2 {
            Err(DispatchError::PriceFeed(PriceFeedError::ResponseParsingFailed))
        } else {
            match fs[1].spec_into_integer() {
                None => Err(
                    DispatchError::PriceFeed(PriceFeedError::ResponseDoesNotHaveIntegerPrice),
                ),
                Some(v) => if v.value() % pow2_32() == 0 {
                    Err(DispatchError::PriceFeed(PriceFeedError::PriceIsZero))
                } else {
                    Ok((v.value() % pow2_32()) as u32)
                },
            }
        },
    }
}

/// The views of decoded fields, where there are any.
pub open spec fn fields_view(fields: Option<Vec<Field>>) -> Option<Seq<Field>> {
    match fields {
        Some(fs) => Some(fs@),
        None => None,
    }
}

/// The bytes and the gas of a call that was made and ran to its end.
pub open spec fn call_response(outcome: CallOutcome) -> Option<(Seq<u8>, U256)> {
    match outcome {
        Some(Ok(info)) => if info.exit_reason.spec_is_succeed() {
            Some((info.value@, info.used_gas))
        } else {
            None
        },
        _ => None,
    }
}

/// The price that the contract reports and the weight of reading it: one read
/// of the store and the weight of the gas that the call used. Without a
/// configuration, or without a call that ran to its end, the call has failed.
pub open spec fn price_from_contract<T: Config>(
    config: Option<ContractConfigView>,
    outcome: CallOutcome,
) -> Result<(u32, Weight), DispatchError> {
    match (config, call_response(outcome)) {
        (Some(c), Some((bytes, gas))) => match price_of_fields(decoded(c.return_val_abi, bytes)) {
            Ok(price) => Ok(
                (
                    price,
                    spec_saturating_add(
                        T::spec_db_weight().spec_reads(1),
                        T::spec_gas_to_weight(gas.spec_saturated_into_u64()),
                    ),
                ),
            ),
            Err(e) => Err(e),
        },
        _ => Err(DispatchError::PriceFeed(PriceFeedError::ContractCallFailed)),
    }
}

/// What reading the price at height `now` makes of a state, given the answer to
/// the call: the new state and the weight used, or the error, with the state
/// as it was.
pub open spec fn update_from_contract<T: Config>(
    state: ModuleView,
    now: BlockNumber,
    outcome: CallOutcome,
) -> (ModuleView, Result<Weight, DispatchError>) {
    match price_from_contract::<T>(state.contract_config, outcome) {
        Ok((price, weight)) => (
            state.with_price(price, now),
            Ok(spec_saturating_add(weight, T::spec_db_weight().spec_writes(2))),
        ),
        Err(e) => (state, Err(e)),
    }
}

/// The weight of the staleness check on a state.
pub open spec fn stale_check_weight<T: Config>(state: ModuleView) -> Weight {
    T::spec_db_weight().spec_reads(
        if effective_freq(state.price_update_freq) > 0 {
            2
        } else {
            1
        },
    )
}

/// What a refresh at height `now` makes of a state: nothing but the weight of
/// the check while the price is fresh; else the price is read from the
/// contract's answer.
pub open spec fn update_if_stale<T: Config>(
    state: ModuleView,
    now: BlockNumber,
    outcome: CallOutcome,
) -> (ModuleView, Result<Weight, DispatchError>) {
    if state.is_stale(now) {
        match update_from_contract::<T>(state, now, outcome) {
            (next, Ok(weight)) => (
                next,
                Ok(spec_saturating_add(stale_check_weight::<T>(state), weight)),
            ),
            (next, Err(e)) => (next, Err(e)),
        }
    } else {
        (state, Ok(stale_check_weight::<T>(state)))
    }
}

impl<T: Config> Default for Module<T> {
    /// The oracle before anything is set: no configuration, no price, no
    /// frequency.
    fn default() -> (r: Self)
        ensures
            r@ == (ModuleView {
                contract_config: None,
                price: None,
                last_price_update_at: None,
                price_update_freq: None,
                events: Seq::<EventView>::empty(),
            }),
            r@.wf(),
    {
        let r = Module {
            contract_config: None,
            cached: CachedPrice { price: None, updated_at: None },
            price_update_freq: None,
            events: Vec::new(),
            runtime: PhantomData,
        };
        assert(r@.events =~= Seq::<EventView>::empty());
        r
    }
}

impl<T: Config> Module<T> {
    /// The oracle at genesis: the configuration is set, no price is kept yet and
    /// no frequency is set.
    pub fn new(contract_config: ContractConfig) -> (r: Self)
        ensures
            r@ == (ModuleView {
                contract_config: Some(contract_config@),
                price: None,
                last_price_update_at: None,
                price_update_freq: None,
                events: Seq::<EventView>::empty(),
            }),
            r@.wf(),
    {
        let r = Module {
            contract_config: Some(contract_config),
            cached: CachedPrice { price: None, updated_at: None },
            price_update_freq: None,
            events: Vec::new(),
            runtime: PhantomData,
        };
        assert(r@.events =~= Seq::<EventView>::empty());
        r
    }

    /// The kept price, if there is one. It is never zero.
    pub fn price(&self) -> (r: Option<u32>)
        ensures
            r == self@.price,
            r != Some(0u32),
    {
        proof {
            use_type_invariant(&self.cached);
        }
        self.cached.price
    }

    /// The configuration, if one is set.
    pub fn contract_config(&self) -> (r: Option<&ContractConfig>)
        ensures
            match r {
                Some(c) => self@.contract_config == Some(c@),
                None => self@.contract_config is None,
            },
    {
        self.contract_config.as_ref()
    }

    /// What the oracle has announced so far, oldest first.
    pub fn events(&self) -> (r: &Vec<Event>)
        ensures
            event_views(r@) == self@.events,
    {
        &self.events
    }

    /// The height of the last update of the price, if there was one.
    pub fn last_price_update_at(&self) -> (r: Option<BlockNumber>)
        ensures
            r == self@.last_price_update_at,
    {
        self.cached.updated_at
    }

    /// The number of blocks after which the price is read anew, if it is set.
    pub fn price_update_freq(&self) -> (r: Option<u32>)
        ensures
            r == self@.price_update_freq,
    {
        self.price_update_freq
    }

    /// Whether the price is stale at height `current_block_no` and has to be
    /// read anew, and the weight of finding that out: one read where the
    /// frequency is zero or unset, two reads otherwise.
    pub fn is_price_stale(&self, current_block_no: BlockNumber) -> (r: (bool, Weight))
        ensures
            r.0 == self@.is_stale(current_block_no),
            r.1 == stale_check_weight::<T>(self@),
    {
        let freq: u32 = match self.price_update_freq {
            Some(f) => f,
            None => 0,
        };
        if freq > 0 {
            let last_update: BlockNumber = match self.cached.updated_at {
                Some(b) => b,
                None => 0,
            };
            let stale = current_block_no >= last_update && current_block_no - last_update
                >= freq as u64;
            (stale, T::db_weight().reads(2))
        } else {
            (false, T::db_weight().reads(1))
        }
    }
}

impl<T: Config> Module<T> {
    /// The read-only call that asks the contract at `contract_addr` what `input`
    /// describes. The source is the zero address, no value is sent, and the gas
    /// limit is the highest there is.
    pub fn evm_call_request(contract_addr: H160, input: Vec<u8>) -> (r: CallRequest)
        ensures
            r@ == read_call(contract_addr.bytes@, input@),
    {
        CallRequest {
            source: H160::zero(),
            target: contract_addr,
            input,
            value: U256::zero(),
            gas_limit: GAS_LIMIT,
        }
    }

    /// Reads the outcome of the contract call: the returned bytes and the gas
    /// used where the call was made and ran to its end, else a failed call.
    pub fn get_evm_call_response(outcome: Result<CallInfo, DispatchError>) -> (r: Result<
        (Vec<u8>, U256),
        DispatchError,
    >)
        ensures
            match outcome {
                Ok(info) => if info.exit_reason.spec_is_succeed() {
                    r == Ok::<(Vec<u8>, U256), DispatchError>((info.value, info.used_gas))
                } else {
                    r == Err::<(Vec<u8>, U256), DispatchError>(
                        DispatchError::PriceFeed(PriceFeedError::ContractCallFailed),
                    )
                },
                Err(_) => r == Err::<(Vec<u8>, U256), DispatchError>(
                    DispatchError::PriceFeed(PriceFeedError::ContractCallFailed),
                ),
            },
    {
        match outcome {
            Ok(info) => {
                if info.exit_reason.is_succeed() {
                    Ok((info.value, info.used_gas))
                } else {
                    Err(DispatchError::PriceFeed(PriceFeedError::ContractCallFailed))
                }
            },
            Err(_) => Err(DispatchError::PriceFeed(PriceFeedError::ContractCallFailed)),
        }
    }

    /// Reads the price out of decoded fields.
    pub fn price_of_decoded(fields: Option<Vec<Field>>) -> (r: Result<u32, DispatchError>)
        ensures
            r == price_of_fields(fields_view(fields)),
    {
        match fields {
            None => Err(DispatchError::PriceFeed(PriceFeedError::ResponseParsingFailed)),
            Some(fs) => {
                if fs.len() < 2 {
                    return Err(DispatchError::PriceFeed(PriceFeedError::ResponseParsingFailed));
                }
                match fs[1].into_integer() {
                    None => Err(
                        DispatchError::PriceFeed(PriceFeedError::ResponseDoesNotHaveIntegerPrice),
                    ),
                    Some(v) => {
                        let price: u32 = v.low_u32();
                        if price == 0 {
                            Err(DispatchError::PriceFeed(PriceFeedError::PriceIsZero))
                        } else {
                            Ok(price)
                        }
                    },
                }
            },
        }
    }

    /// Decodes the bytes that the contract returned, under the schema
    /// `return_val_abi`, to the price.
    pub fn decode_evm_response_to_price(return_val_abi: &[ParamKind], return_val: &[u8]) -> (r:
        Result<u32, DispatchError>)
        ensures
            r == price_of_fields(decoded(return_val_abi@, return_val@)),
    {
        Self::price_of_decoded(decode(return_val_abi, return_val))
    }
}

impl<T: Config> Module<T> {
    /// The call that reads the price from the configured contract; `None` where
    /// no configuration is set.
    pub fn contract_request(&self) -> (r: Option<CallRequest>)
        ensures
            request_view(r) == self@.request(),
    {
        match &self.contract_config {
            Some(config) => {
                let input = config.query_abi_encoded.clone();
                assert(input@ =~= config.query_abi_encoded@);
                Some(Self::evm_call_request(config.address, input))
            },
            None => None,
        }
    }

    /// The call that a refresh at height `current_block_no` needs: `None`
    /// while the price is fresh, and where no configuration is set.
    pub fn price_request(&self, current_block_no: BlockNumber) -> (r: Option<CallRequest>)
        ensures
            request_view(r) == self@.request_at(current_block_no),
    {
        let (stale, _) = self.is_price_stale(current_block_no);
        if stale {
            self.contract_request()
        } else {
            None
        }
    }

    /// Reads the price from the answer to the oracle's call, and says what
    /// weight reading it took. Nothing is kept.
    pub fn get_price_from_contract(&self, outcome: CallOutcome) -> (r: Result<
        (u32, Weight),
        DispatchError,
    >)
        ensures
            r == price_from_contract::<T>(self@.contract_config, outcome),
    {
        let config = match &self.contract_config {
            Some(c) => c,
            None => {
                return Err(DispatchError::PriceFeed(PriceFeedError::ContractCallFailed));
            },
        };
        let made = match outcome {
            Some(o) => o,
            None => {
                return Err(DispatchError::PriceFeed(PriceFeedError::ContractCallFailed));
            },
        };
        let (evm_resp, used_gas) = match Self::get_evm_call_response(made) {
            Ok(resp) => resp,
            Err(e) => {
                return Err(e);
            },
        };
        let price = match Self::decode_evm_response_to_price(
            config.return_val_abi.as_slice(),
            evm_resp.as_slice(),
        ) {
            Ok(p) => p,
            Err(e) => {
                return Err(e);
            },
        };
        Ok(
            (
                price,
                saturating_add(
                    T::db_weight().reads(1),
                    T::gas_to_weight(used_gas.saturated_into_u64()),
                ),
            ),
        )
    }

    /// Reads the price from the answer to the oracle's call and keeps it, with
    /// the height `current_block_no`. On an error nothing changes.
    pub fn update_price_from_contract(
        &mut self,
        current_block_no: BlockNumber,
        outcome: CallOutcome,
    ) -> (r: Result<Weight, DispatchError>)
        ensures
            (final(self)@, r) == update_from_contract::<T>(old(self)@, current_block_no, outcome),
            final(self)@.wf(),
    {
        let r = match self.get_price_from_contract(outcome) {
            Ok((price, weight)) => {
                self.cached = CachedPrice { price: Some(price), updated_at: Some(current_block_no) };
                self.events.push(Event::PriceSet(price));
                assert(self@.events =~= old(self)@.events.push(EventView::PriceSet(price)));
                Ok(saturating_add(weight, T::db_weight().writes(2)))
            },
            Err(e) => Err(e),
        };
        proof {
            use_type_invariant(&self.cached);
        }
        r
    }

    /// Refreshes the price at height `current_block_no` if it is stale.
    /// `outcome` is the answer to the call that `price_request` asked for at
    /// this height; it is not read while the price is fresh.
    pub fn update_price_if_stale(&mut self, current_block_no: BlockNumber, outcome: CallOutcome) -> (r:
        Result<Weight, DispatchError>)
        ensures
            (final(self)@, r) == update_if_stale::<T>(old(self)@, current_block_no, outcome),
            final(self)@.wf(),
    {
        proof {
            use_type_invariant(&self.cached);
        }
        let (stale, weight) = self.is_price_stale(current_block_no);
        if stale {
            match self.update_price_from_contract(current_block_no, outcome) {
                Ok(w) => Ok(saturating_add(weight, w)),
                Err(e) => Err(e),
            }
        } else {
            Ok(weight)
        }
    }
}

/// What the per-block hook makes of a state: a refresh, with the weight of
/// two reads in place of an error.
pub open spec fn initialize<T: Config>(
    state: ModuleView,
    now: BlockNumber,
    outcome: CallOutcome,
) -> (ModuleView, Weight) {
    match update_if_stale::<T>(state, now, outcome) {
        (next, Ok(weight)) => (next, weight),
        (next, Err(_)) => (next, T::spec_db_weight().spec_reads(2)),
    }
}

/// What is reported of an operation that is free of charge.
pub open spec fn waived() -> PostDispatchInfo {
    PostDispatchInfo { actual_weight: None, pays_fee: Pays::No }
}

/// What is reported of an operation that was refused for `error`: the generic
/// fee applies.
pub open spec fn refused(error: DispatchError) -> DispatchErrorWithPostInfo {
    DispatchErrorWithPostInfo {
        post_info: PostDispatchInfo { actual_weight: None, pays_fee: Pays::Yes },
        error,
    }
}

impl<T: Config> Module<T> {
    /// The hook that runs at the start of the block at height
    /// `current_block_no`: refreshes the price if it is stale. An error changes
    /// nothing and is answered with the weight of two reads.
    pub fn on_initialize(&mut self, current_block_no: BlockNumber, outcome: CallOutcome) -> (r:
        Weight)
        ensures
            (final(self)@, r) == initialize::<T>(old(self)@, current_block_no, outcome),
            final(self)@.wf(),
    {
        match self.update_price_if_stale(current_block_no, outcome) {
            Ok(weight) => weight,
            Err(_) => T::db_weight().reads(2),
        }
    }

    /// Sets the contract that the price is read from. Only the administrative
    /// origin may do so; the operation is free of charge and announces the new
    /// configuration. Any other origin is refused and nothing changes.
    pub fn set_contract_config(&mut self, origin: RawOrigin, config: ContractConfig) -> (r: Result<
        PostDispatchInfo,
        DispatchErrorWithPostInfo,
    >)
        ensures
            origin == RawOrigin::Root ==> r == Ok::<PostDispatchInfo, DispatchErrorWithPostInfo>(
                waived(),
            ) && final(self)@ == (ModuleView {
                contract_config: Some(config@),
                events: old(self)@.events.push(EventView::ContractConfigSet(config@)),
                ..old(self)@
            }),
            origin != RawOrigin::Root ==> r == Err::<PostDispatchInfo, DispatchErrorWithPostInfo>(
                refused(DispatchError::BadOrigin),
            ) && final(self)@ == old(self)@,
    {
        match ensure_root(origin) {
            Ok(()) => {},
            Err(e) => {
                return Err(
                    DispatchErrorWithPostInfo {
                        post_info: PostDispatchInfo { actual_weight: None, pays_fee: Pays::Yes },
                        error: e,
                    },
                );
            },
        }
        self.contract_config = Some(config.clone());
        self.events.push(Event::ContractConfigSet(config));
        assert(self@.events =~= old(self)@.events.push(EventView::ContractConfigSet(config@)));
        Ok(PostDispatchInfo { actual_weight: None, pays_fee: Pays::No })
    }

    /// Sets the number of blocks after which the price is read anew; zero
    /// switches the refresh off. Only the administrative origin may do so; the
    /// operation is free of charge and announces the new frequency. Any other
    /// origin is refused and nothing changes.
    pub fn set_update_frequency(&mut self, origin: RawOrigin, freq: u32) -> (r: Result<
        PostDispatchInfo,
        DispatchErrorWithPostInfo,
    >)
        ensures
            origin == RawOrigin::Root ==> r == Ok::<PostDispatchInfo, DispatchErrorWithPostInfo>(
                waived(),
            ) && final(self)@ == (ModuleView {
                price_update_freq: Some(freq),
                events: old(self)@.events.push(EventView::UpdateFrequencySet(freq)),
                ..old(self)@
            }),
            origin != RawOrigin::Root ==> r == Err::<PostDispatchInfo, DispatchErrorWithPostInfo>(
                refused(DispatchError::BadOrigin),
            ) && final(self)@ == old(self)@,
    {
        match ensure_root(origin) {
            Ok(()) => {},
            Err(e) => {
                return Err(
                    DispatchErrorWithPostInfo {
                        post_info: PostDispatchInfo { actual_weight: None, pays_fee: Pays::Yes },
                        error: e,
                    },
                );
            },
        }
        self.price_update_freq = Some(freq);
        self.events.push(Event::UpdateFrequencySet(freq));
        assert(self@.events =~= old(self)@.events.push(EventView::UpdateFrequencySet(freq)));
        Ok(PostDispatchInfo { actual_weight: None, pays_fee: Pays::No })
    }
}

/// A price that is stale at one height is stale at every later height, as long
/// as neither the frequency nor the height of the last update changes.
pub proof fn lemma_stale_is_monotonic(state: ModuleView, height: BlockNumber, later: BlockNumber)
    requires
        state.is_stale(height),
        later > height,
    ensures
        state.is_stale(later),
{
}

/// A refresh keeps the state free of a zero price, and where the contract
/// reports a price of zero, it fails and leaves the state as it was.
pub proof fn lemma_refresh_never_keeps_zero<T: Config>(
    state: ModuleView,
    now: BlockNumber,
    outcome: CallOutcome,
)
    requires
        state.wf(),
    ensures
        update_if_stale::<T>(state, now, outcome).0.wf(),
        initialize::<T>(state, now, outcome).0.wf(),
        update_if_stale::<T>(state, now, outcome).1 is Err ==> update_if_stale::<T>(
            state,
            now,
            outcome,
        ).0 == state,
        price_from_contract::<T>(state.contract_config, outcome) == Err::<
            (u32, Weight),
            DispatchError,
        >(DispatchError::PriceFeed(PriceFeedError::PriceIsZero)) ==> update_if_stale::<T>(
            state,
            now,
            outcome,
        ).0 == state && initialize::<T>(state, now, outcome).0 == state,
{
}

/// After a refresh at some height has ended without an error, the price is
/// fresh at that height: a second refresh there asks for no call, changes
/// nothing whatever it is handed, and costs the weight of the check alone.
pub proof fn lemma_second_refresh_is_idle<T: Config>(
    state: ModuleView,
    now: BlockNumber,
    first: CallOutcome,
    second: CallOutcome,
)
    requires
        update_if_stale::<T>(state, now, first).1 is Ok,
    ensures
        ({
            let refreshed = update_if_stale::<T>(state, now, first).0;
            &&& !refreshed.is_stale(now)
            &&& refreshed.request_at(now) is None
            &&& update_if_stale::<T>(refreshed, now, second) == (
                refreshed,
                Ok::<Weight, DispatchError>(stale_check_weight::<T>(refreshed)),
            )
        }),
{
}

impl<T: Config> PriceProvider for Module<T> {
    open spec fn spec_contract_price(&self, outcome: CallOutcome) -> Option<(u32, Weight)> {
        match price_from_contract::<T>(self@.contract_config, outcome) {
            Ok(priced) => Some(priced),
            Err(_) => None,
        }
    }

    open spec fn spec_stored_price(&self) -> Option<(u32, Weight)> {
        match self@.price {
            Some(p) => Some((p, T::spec_db_weight().spec_reads(1))),
            None => None,
        }
    }

    /// The price as the contract's answer reports it, with the weight of
    /// reading it.
    fn get_dock_usd_price(&self, outcome: CallOutcome) -> (r: Option<(u32, Weight)>) {
        match self.get_price_from_contract(outcome) {
            Ok(priced) => Some(priced),
            Err(_) => None,
        }
    }

    /// The kept price, with the weight of one read.
    fn optimized_get_dock_usd_price(&self) -> (r: Option<(u32, Weight)>) {
        match self.cached.price {
            Some(p) => Some((p, T::db_weight().reads(1))),
            None => None,
        }
    }
}

} // verus!
