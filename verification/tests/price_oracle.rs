use fiat_fees::abi::{ParamKind, H160, U256};
use fiat_fees::common::PriceProvider;
use fiat_fees::dispatch::{
    DispatchError, Pays, PriceFeedError, RawOrigin, RuntimeDbWeight, Weight,
};
use fiat_fees::mock::Test;
use fiat_fees::price_feed::{
    CallInfo, CallOutcome, Config, ContractConfig, Event, ExitReason, Module, GAS_LIMIT,
};

/// A ledger whose reads and writes have a weight, so that the weights show in the results.
struct Weighted;

impl Config for Weighted {
    fn spec_db_weight() -> RuntimeDbWeight {
        RuntimeDbWeight { read: 3, write: 7 }
    }

    fn db_weight() -> RuntimeDbWeight {
        RuntimeDbWeight { read: 3, write: 7 }
    }

    fn spec_gas_to_weight(gas: u64) -> Weight {
        gas.saturating_mul(2)
    }

    fn gas_to_weight(gas: u64) -> Weight {
        gas.saturating_mul(2)
    }
}

fn price_err(e: PriceFeedError) -> DispatchError {
    DispatchError::PriceFeed(e)
}

fn round_data_schema() -> Vec<ParamKind> {
    vec![
        ParamKind::Uint(80),
        ParamKind::Int(256),
        ParamKind::Uint(256),
        ParamKind::Uint(256),
        ParamKind::Uint(80),
    ]
}

fn oracle_config() -> ContractConfig {
    ContractConfig {
        address: H160 { bytes: [0x11; 20] },
        query_abi_encoded: vec![0xfe, 0xaf, 0x96, 0x8c],
        return_val_abi: round_data_schema(),
    }
}

fn word(value: u128) -> ethabi::Token {
    ethabi::Token::Uint(ethabi::ethereum_types::U256::from(value))
}

fn int_word(value: u128) -> ethabi::Token {
    ethabi::Token::Int(ethabi::ethereum_types::U256::from(value))
}

/// The answer of the price contract for the given price.
fn round_data(price: u128) -> Vec<u8> {
    ethabi::encode(&[word(5), int_word(price), word(1_600_000_000), word(1_600_000_001), word(5)])
}

fn answered(bytes: Vec<u8>, gas: u64) -> CallOutcome {
    Some(Ok(CallInfo {
        exit_reason: ExitReason::Succeed,
        value: bytes,
        used_gas: U256::from_u64(gas),
    }))
}

fn oracle<T: Config>(freq: u32) -> Module<T> {
    let mut module: Module<T> = Module::new(oracle_config());
    assert!(module.set_update_frequency(RawOrigin::Root, freq).is_ok());
    module
}

#[test]
fn price_is_never_stale_without_a_frequency() {
    let module: Module<Weighted> = Module::new(oracle_config());
    assert_eq!(module.price_update_freq(), None);
    assert_eq!(module.is_price_stale(0), (false, 3));
    assert_eq!(module.is_price_stale(u64::MAX), (false, 3));
    assert!(module.price_request(1_000).is_none());
}

#[test]
fn price_is_never_stale_at_frequency_zero() {
    let module: Module<Weighted> = oracle(0);
    assert_eq!(module.price_update_freq(), Some(0));
    assert_eq!(module.is_price_stale(0), (false, 3));
    assert_eq!(module.is_price_stale(u64::MAX), (false, 3));
}

#[test]
fn price_is_stale_from_the_boundary_block_on() {
    let mut module: Module<Weighted> = oracle(5);
    // never updated: the baseline is height 0
    assert_eq!(module.is_price_stale(4), (false, 6));
    assert_eq!(module.is_price_stale(5), (true, 6));

    assert!(module.update_price_if_stale(10, answered(round_data(72), 0)).is_ok());
    assert_eq!(module.last_price_update_at(), Some(10));
    assert_eq!(module.is_price_stale(14), (false, 6));
    assert_eq!(module.is_price_stale(15), (true, 6));
    assert_eq!(module.is_price_stale(16), (true, 6));
    assert_eq!(module.is_price_stale(u64::MAX), (true, 6));
}

#[test]
fn staleness_does_not_wrap_at_the_highest_block() {
    let mut module: Module<Test> = oracle(u32::MAX);
    assert!(module.update_price_if_stale(u64::MAX, answered(round_data(72), 0)).is_ok());
    assert_eq!(module.last_price_update_at(), Some(u64::MAX));
    assert_eq!(module.is_price_stale(u64::MAX).0, false);
    assert_eq!(module.is_price_stale(0).0, false);
}

#[test]
fn stale_stays_stale_at_later_heights() {
    let module: Module<Test> = oracle(7);
    let first = (0..100u64).find(|h| module.is_price_stale(*h).0).unwrap();
    assert_eq!(first, 7);
    for later in first..200 {
        assert!(module.is_price_stale(later).0);
    }
}

#[test]
fn refresh_asks_the_configured_contract() {
    let module: Module<Test> = oracle(1);
    let request = module.price_request(1).unwrap();
    assert_eq!(request.source.bytes, [0u8; 20]);
    assert_eq!(request.target.bytes, [0x11; 20]);
    assert_eq!(request.input, vec![0xfe, 0xaf, 0x96, 0x8c]);
    assert_eq!(request.value.limbs, [0, 0, 0, 0]);
    assert_eq!(request.gas_limit, GAS_LIMIT);
    assert_eq!(request.gas_limit, u64::MAX);
    assert!(module.price_request(0).is_none());

    let unset: Module<Test> = Module::default();
    assert!(unset.contract_request().is_none());
    assert!(unset.contract_config().is_none());
}

#[test]
fn refresh_keeps_the_price_and_the_height() {
    let mut module: Module<Weighted> = oracle(5);
    let weight = module.update_price_if_stale(12, answered(round_data(72), 1_000));
    // two reads for the check, one read and the gas for the call, two writes
    assert_eq!(weight, Ok(6 + (3 + 2_000) + 14));
    assert_eq!(module.price(), Some(72));
    assert_eq!(module.last_price_update_at(), Some(12));
    let events = module.events();
    assert_eq!(events.len(), 2);
    assert!(matches!(events[0], Event::UpdateFrequencySet(5)));
    assert!(matches!(events[1], Event::PriceSet(72)));
}

#[test]
fn refresh_weight_is_capped() {
    let mut module: Module<Weighted> = oracle(5);
    let weight = module.update_price_if_stale(12, answered(round_data(72), u64::MAX));
    assert_eq!(weight, Ok(u64::MAX));
    let huge = Some(Ok(CallInfo {
        exit_reason: ExitReason::Succeed,
        value: round_data(73),
        used_gas: U256 { limbs: [5, 0, 1, 0] },
    }));
    assert_eq!(module.get_price_from_contract(huge), Ok((73, u64::MAX)));
}

#[test]
fn second_refresh_at_the_same_height_is_idle() {
    let mut module: Module<Weighted> = oracle(5);
    assert!(module.price_request(9).is_some());
    assert!(module.update_price_if_stale(9, answered(round_data(72), 0)).is_ok());

    // no call is asked for, and an answer that is handed in anyway is not read
    assert!(module.price_request(9).is_none());
    assert_eq!(module.update_price_if_stale(9, answered(round_data(99), 0)), Ok(6));
    assert_eq!(module.update_price_if_stale(9, None), Ok(6));
    assert_eq!(module.price(), Some(72));
    assert_eq!(module.last_price_update_at(), Some(9));
    assert_eq!(module.events().len(), 2);
}

#[test]
fn decoded_zero_leaves_the_price_as_it_was() {
    let mut module: Module<Test> = oracle(1);
    assert_eq!(
        module.update_price_if_stale(1, answered(round_data(0), 0)),
        Err(price_err(PriceFeedError::PriceIsZero))
    );
    assert_eq!(module.price(), None);
    assert_eq!(module.last_price_update_at(), None);

    assert!(module.update_price_if_stale(1, answered(round_data(72), 0)).is_ok());
    assert_eq!(
        module.update_price_if_stale(2, answered(round_data(0), 0)),
        Err(price_err(PriceFeedError::PriceIsZero))
    );
    assert_eq!(module.price(), Some(72));
    assert_eq!(module.last_price_update_at(), Some(1));
    assert_eq!(module.events().len(), 2);
}

#[test]
fn wide_price_is_cut_to_its_low_32_bits() {
    let schema = round_data_schema();
    let wide = (7u128 << 32) + 123_456;
    assert_eq!(Module::<Test>::decode_evm_response_to_price(&schema, &round_data(wide)), Ok(123_456));
    assert_eq!(
        Module::<Test>::decode_evm_response_to_price(&schema, &round_data(u32::MAX as u128)),
        Ok(u32::MAX)
    );
    // a multiple of 2^32 has no low bits left
    assert_eq!(
        Module::<Test>::decode_evm_response_to_price(&schema, &round_data(1u128 << 32)),
        Err(price_err(PriceFeedError::PriceIsZero))
    );
    let negative = ethabi::encode(&[
        word(5),
        ethabi::Token::Int(ethabi::ethereum_types::U256::MAX),
    ]);
    assert_eq!(Module::<Test>::decode_evm_response_to_price(&schema[..2], &negative), Ok(u32::MAX));
}

#[test]
fn malformed_answer_fails_parsing() {
    let schema = round_data_schema();
    let full = round_data(72);
    assert_eq!(
        Module::<Test>::decode_evm_response_to_price(&schema, &[]),
        Err(price_err(PriceFeedError::ResponseParsingFailed))
    );
    assert_eq!(
        Module::<Test>::decode_evm_response_to_price(&schema, &full[..100]),
        Err(price_err(PriceFeedError::ResponseParsingFailed))
    );
    // fewer than two fields
    assert_eq!(
        Module::<Test>::decode_evm_response_to_price(&schema[..1], &full),
        Err(price_err(PriceFeedError::ResponseParsingFailed))
    );
    assert_eq!(
        Module::<Test>::decode_evm_response_to_price(&[], &full),
        Err(price_err(PriceFeedError::ResponseParsingFailed))
    );
    assert_eq!(Module::<Test>::decode_evm_response_to_price(&schema[..2], &full), Ok(72));
    assert_eq!(Module::<Test>::decode_evm_response_to_price(&schema, &full), Ok(72));
}

#[test]
fn second_field_of_another_kind_holds_no_price() {
    let full = round_data(72);
    for kind in [ParamKind::Address, ParamKind::Bool, ParamKind::FixedBytes(32)] {
        assert_eq!(
            Module::<Test>::decode_evm_response_to_price(&[ParamKind::Uint(80), kind], &full),
            Err(price_err(PriceFeedError::ResponseDoesNotHaveIntegerPrice))
        );
    }
    let text = ethabi::encode(&[word(5), ethabi::Token::String("72".to_string())]);
    for kind in [ParamKind::String, ParamKind::Bytes] {
        assert_eq!(
            Module::<Test>::decode_evm_response_to_price(&[ParamKind::Uint(80), kind], &text),
            Err(price_err(PriceFeedError::ResponseDoesNotHaveIntegerPrice))
        );
    }
    // an integer is read whether the schema calls it signed or unsigned
    let unsigned = [ParamKind::Uint(80), ParamKind::Uint(256)];
    assert_eq!(Module::<Test>::decode_evm_response_to_price(&unsigned, &full), Ok(72));
    let signed = [ParamKind::Int(80), ParamKind::Int(256)];
    assert_eq!(Module::<Test>::decode_evm_response_to_price(&signed, &full), Ok(72));
}

#[test]
fn failed_call_leaves_the_price_as_it_was() {
    let mut module: Module<Test> = oracle(1);
    assert!(module.update_price_if_stale(1, answered(round_data(72), 0)).is_ok());
    let failed = Err(price_err(PriceFeedError::ContractCallFailed));

    let reverted = Some(Ok(CallInfo {
        exit_reason: ExitReason::Revert,
        value: round_data(80),
        used_gas: U256::zero(),
    }));
    assert_eq!(module.update_price_if_stale(2, reverted), failed);
    let errored = Some(Ok(CallInfo {
        exit_reason: ExitReason::Error,
        value: round_data(80),
        used_gas: U256::zero(),
    }));
    assert_eq!(module.update_price_if_stale(2, errored), failed);
    let fatal = Some(Ok(CallInfo {
        exit_reason: ExitReason::Fatal,
        value: round_data(80),
        used_gas: U256::zero(),
    }));
    assert_eq!(module.update_price_if_stale(2, fatal), failed);
    assert_eq!(module.update_price_if_stale(2, Some(Err(DispatchError::BadOrigin))), failed);
    assert_eq!(module.update_price_if_stale(2, None), failed);
    assert_eq!(module.price(), Some(72));
    assert_eq!(module.last_price_update_at(), Some(1));

    let mut unset: Module<Test> = Module::default();
    assert!(unset.set_update_frequency(RawOrigin::Root, 1).is_ok());
    assert_eq!(unset.update_price_if_stale(2, answered(round_data(80), 0)), failed);
    assert_eq!(unset.price(), None);
}

#[test]
fn call_response_is_read_only_from_a_call_that_succeeded() {
    let info = CallInfo {
        exit_reason: ExitReason::Succeed,
        value: vec![1, 2, 3],
        used_gas: U256::from_u64(9),
    };
    let (bytes, gas) = Module::<Test>::get_evm_call_response(Ok(info)).unwrap();
    assert_eq!(bytes, vec![1, 2, 3]);
    assert_eq!(gas.limbs, [9, 0, 0, 0]);

    let reverted =
        CallInfo { exit_reason: ExitReason::Revert, value: vec![1, 2, 3], used_gas: U256::zero() };
    assert_eq!(
        Module::<Test>::get_evm_call_response(Ok(reverted)).unwrap_err(),
        price_err(PriceFeedError::ContractCallFailed)
    );
    assert_eq!(
        Module::<Test>::get_evm_call_response(Err(DispatchError::BadOrigin)).unwrap_err(),
        price_err(PriceFeedError::ContractCallFailed)
    );
    assert!(ExitReason::Succeed.is_succeed());
    assert!(!ExitReason::Revert.is_succeed());
    assert!(!ExitReason::Error.is_succeed());
    assert!(!ExitReason::Fatal.is_succeed());
}

#[test]
fn block_hook_swallows_the_error() {
    let mut module: Module<Weighted> = oracle(1);
    // an error costs two reads
    assert_eq!(module.on_initialize(1, None), 6);
    assert_eq!(module.on_initialize(1, answered(vec![1, 2, 3], 0)), 6);
    assert_eq!(module.price(), None);
    assert_eq!(module.on_initialize(1, answered(round_data(72), 10)), 6 + 23 + 14);
    assert_eq!(module.price(), Some(72));
    // fresh now: the check alone
    assert_eq!(module.on_initialize(1, None), 6);

    let mut off: Module<Weighted> = oracle(0);
    assert_eq!(off.on_initialize(1, answered(round_data(72), 10)), 3);
    assert_eq!(off.price(), None);
}

#[test]
fn only_root_sets_the_configuration() {
    let mut module: Module<Test> = Module::default();
    for origin in [RawOrigin::Signed(100), RawOrigin::Unsigned] {
        let refused = module.set_contract_config(origin, oracle_config()).unwrap_err();
        assert_eq!(refused.error, DispatchError::BadOrigin);
        assert_eq!(refused.post_info.pays_fee, Pays::Yes);
        assert!(module.contract_config().is_none());
        assert_eq!(module.events().len(), 0);
    }
    let done = module.set_contract_config(RawOrigin::Root, oracle_config()).unwrap();
    assert_eq!(done.pays_fee, Pays::No);
    assert_eq!(done.actual_weight, None);
    let kept = module.contract_config().unwrap();
    assert_eq!(kept.address.bytes, [0x11; 20]);
    assert_eq!(kept.query_abi_encoded, vec![0xfe, 0xaf, 0x96, 0x8c]);
    assert_eq!(kept.return_val_abi, round_data_schema());
    assert_eq!(module.events().len(), 1);
    match &module.events()[0] {
        Event::ContractConfigSet(announced) => {
            assert_eq!(announced.address.bytes, [0x11; 20]);
            assert_eq!(announced.return_val_abi, round_data_schema());
        }
        _ => panic!("the configuration was not announced"),
    }
}

#[test]
fn only_root_sets_the_frequency() {
    let mut module: Module<Test> = Module::new(oracle_config());
    for origin in [RawOrigin::Signed(100), RawOrigin::Unsigned] {
        let refused = module.set_update_frequency(origin, 9).unwrap_err();
        assert_eq!(refused.error, DispatchError::BadOrigin);
        assert_eq!(refused.post_info.pays_fee, Pays::Yes);
        assert_eq!(module.price_update_freq(), None);
        assert_eq!(module.events().len(), 0);
    }
    let done = module.set_update_frequency(RawOrigin::Root, 9).unwrap();
    assert_eq!(done.pays_fee, Pays::No);
    assert_eq!(module.price_update_freq(), Some(9));
    assert!(matches!(module.events()[0], Event::UpdateFrequencySet(9)));
}

#[test]
fn default_configuration_is_empty() {
    let config = ContractConfig::default();
    assert_eq!(config.address.bytes, [0u8; 20]);
    assert!(config.query_abi_encoded.is_empty());
    assert!(config.return_val_abi.is_empty());
    let copy = oracle_config().clone();
    assert_eq!(copy.address.bytes, [0x11; 20]);
    assert_eq!(copy.query_abi_encoded, vec![0xfe, 0xaf, 0x96, 0x8c]);
    assert_eq!(copy.return_val_abi, round_data_schema());
}

#[test]
fn oracle_provides_its_price() {
    let mut module: Module<Weighted> = oracle(1);
    assert_eq!(module.optimized_get_dock_usd_price(), None);
    assert_eq!(module.get_dock_usd_price(answered(round_data(55), 4)), Some((55, 3 + 8)));
    assert_eq!(module.get_dock_usd_price(None), None);
    assert_eq!(module.get_dock_usd_price(answered(round_data(0), 4)), None);
    // reading from the contract keeps nothing
    assert_eq!(module.optimized_get_dock_usd_price(), None);

    assert!(module.update_price_if_stale(1, answered(round_data(72), 0)).is_ok());
    assert_eq!(module.optimized_get_dock_usd_price(), Some((72, 3)));
}
