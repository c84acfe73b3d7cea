use oracles::account::{
    Clock, DecodedFeed, OracleAccount, PythPullUpdate, SbOnDemandFeed, SwitchboardDecimal,
    SwitchboardRound, NULL_KEY, PYTH_MAINNET_ID, PYTH_PULL_MAINNET_ID, SWITCHBOARD_ON_DEMAND_ID,
    SWITCHBOARD_V2_DEVNET_ID, SWITCHBOARD_V2_MAINNET_ID,
};
use oracles::price_account::{
    ACCOUNT_TYPE_OFFSET, AGG_OFFSET, COMP_AGG_OFFSET, COMP_LATEST_OFFSET, COMP_LEN, COMP_OFFSET,
    EMA_PRICE_OFFSET, EXPO_OFFSET, INFO_CONF_OFFSET, INFO_PRICE_OFFSET, INFO_PUB_SLOT_OFFSET,
    INFO_STATUS_OFFSET, MAGIC_OFFSET, PREV_CONF_OFFSET, PREV_PRICE_OFFSET, PREV_SLOT_OFFSET,
    PRICE_ACCOUNT_LEN, PRICE_ACCOUNT_TYPE, PRICE_TYPE_MAX, PRICE_TYPE_OFFSET, PYTH_MAGIC,
    PYTH_VERSION, STATUS_MAX, STATUS_TRADING, VERSION_OFFSET, PythPriceRecord,
};
use oracles::decimal::{apply_price_offset, mantissa_to_decimal, price_to_decimal, Decimal, WAD};
use oracles::error::OracleError;
use oracles::pyth::{
    get_pyth_price, get_pyth_price_unchecked, get_pyth_pull_price, get_pyth_pull_price_unchecked,
    pyth_record_price, validate_pyth_keys, validate_pyth_price_account_info,
    validate_pyth_pull_price_account_info,
};
use oracles::switchboard::{
    get_switchboard_price, get_switchboard_price_on_demand,
    get_switchboard_price_on_demand_unchecked, get_switchboard_price_v2,
    validate_sb_on_demand_keys, validate_switchboard_keys,
};
use oracles::{
    get_oracle_type, get_single_price, get_single_price_unchecked, resolve_reserve_prices,
    OracleType,
};
use pyth_sdk_solana::state::{
    AccountType, CorpAction, SolanaPriceAccount, PriceInfo, PriceStatus, PriceType, Rational, MAGIC,
    VERSION_2,
};

const SOME_KEY: [u8; 32] = [7; 32];
const OTHER_OWNER: [u8; 32] = [9; 32];

fn dec(v: u64) -> Decimal {
    Decimal::from_u64(v)
}

fn clock(slot: u64) -> Clock {
    Clock {
        slot,
        unix_timestamp: 0,
    }
}

fn price_account(price: i64, conf: u64, status: PriceStatus, pub_slot: u64) -> SolanaPriceAccount {
    SolanaPriceAccount {
        magic: MAGIC,
        ver: VERSION_2,
        atype: AccountType::Price as u32,
        ptype: PriceType::Price,
        expo: 1,
        timestamp: 0,
        ema_price: Rational {
            val: 11,
            numer: 110,
            denom: 10,
        },
        agg: PriceInfo {
            price,
            conf,
            status,
            corp_act: CorpAction::NoCorpAct,
            pub_slot,
        },
        ..SolanaPriceAccount::default()
    }
}

fn pyth_account(price_account: &SolanaPriceAccount) -> OracleAccount {
    OracleAccount {
        key: SOME_KEY,
        owner: PYTH_MAINNET_ID,
        data: bytemuck::bytes_of(price_account).to_vec(),
        decoded: DecodedFeed::Unparsed,
    }
}

fn decoded_account(owner: [u8; 32], decoded: DecodedFeed) -> OracleAccount {
    OracleAccount {
        key: SOME_KEY,
        owner,
        data: Vec::new(),
        decoded,
    }
}

fn pull_update(price: i64, conf: u64, publish_time: i64) -> PythPullUpdate {
    PythPullUpdate {
        fully_verified: true,
        price,
        conf,
        exponent: -6,
        publish_time,
        ema_price: 134522707,
        ema_conf: 0,
    }
}

fn sb_decimal(mantissa: i128, scale: u32) -> SwitchboardDecimal {
    SwitchboardDecimal { mantissa, scale }
}

fn sb_round(mantissa: i128, scale: u32, round_open_slot: u64) -> DecodedFeed {
    DecodedFeed::Switchboard(SwitchboardRound {
        round_open_slot,
        result: Some(sb_decimal(mantissa, scale)),
    })
}

fn sb_feed(value: i128, range: i128, result_slot: u64) -> DecodedFeed {
    DecodedFeed::SbOnDemand(SbOnDemandFeed {
        result_slot,
        value: Some(sb_decimal(value, 2)),
        range: Some(sb_decimal(range, 2)),
    })
}

#[test]
fn pyth_price_unchecked_test_cases() {
    let account = pyth_account(&price_account(200, 40, PriceStatus::Trading, 0));
    assert_eq!(get_pyth_price_unchecked(&account), Ok(dec(2000)));
}

#[test]
fn test_pyth_pull_price() {
    let update = pull_update(135426693, 100000, 1_700_000_000);
    let account = decoded_account(PYTH_PULL_MAINNET_ID, DecodedFeed::PythPull(update));
    let price = Decimal::from_scaled(135426693 * 1_000_000_000_000);
    let ema_price = Decimal::from_scaled(134522707 * 1_000_000_000_000);
    assert_eq!(get_pyth_pull_price_unchecked(&account).unwrap(), price);
    let clock = Clock {
        slot: 240,
        unix_timestamp: 1_700_000_000,
    };
    assert_eq!(get_pyth_pull_price(&account, &clock).unwrap(), (price, ema_price));
}

#[test]
fn pyth_bad_magic_is_refused() {
    let mut a = price_account(10, 1, PriceStatus::Trading, 0);
    a.magic = MAGIC + 1;
    a.expo = 10;
    assert_eq!(get_pyth_price(&pyth_account(&a), &clock(4)), Err(OracleError::SchemaMismatch));
}

#[test]
fn pyth_bad_version_is_refused() {
    let mut a = price_account(10, 1, PriceStatus::Trading, 0);
    a.ver = VERSION_2 - 1;
    assert_eq!(get_pyth_price(&pyth_account(&a), &clock(4)), Err(OracleError::SchemaMismatch));
}

#[test]
fn pyth_bad_account_type_is_refused() {
    let mut a = price_account(10, 1, PriceStatus::Trading, 0);
    a.atype = AccountType::Product as u32;
    assert_eq!(get_pyth_price(&pyth_account(&a), &clock(4)), Err(OracleError::SchemaMismatch));
}

#[test]
fn pyth_short_data_is_refused() {
    let mut account = pyth_account(&price_account(200, 1, PriceStatus::Trading, 0));
    account.data.truncate(100);
    assert_eq!(get_pyth_price(&account, &clock(4)), Err(OracleError::SchemaMismatch));
}

#[test]
fn pyth_trading_price_is_used() {
    let account = pyth_account(&price_account(200, 1, PriceStatus::Trading, 0));
    assert_eq!(get_pyth_price(&account, &clock(239)), Ok((dec(2000), dec(110))));
}

#[test]
fn pyth_falls_back_to_fresh_previous_price() {
    let mut a = price_account(200, 1, PriceStatus::Unknown, 1);
    a.timestamp = 20;
    a.prev_price = 190;
    a.prev_conf = 10;
    a.prev_slot = 0;
    assert_eq!(get_pyth_price(&pyth_account(&a), &clock(239)), Ok((dec(1900), dec(110))));
}

#[test]
fn pyth_stale_trading_price_is_refused() {
    let account = pyth_account(&price_account(200, 1, PriceStatus::Trading, 1));
    assert_eq!(get_pyth_price(&account, &clock(242)), Err(OracleError::StalePrice));
}

#[test]
fn pyth_stale_previous_price_is_refused() {
    let mut a = price_account(200, 1, PriceStatus::Unknown, 1);
    a.prev_price = 190;
    a.prev_conf = 10;
    a.prev_slot = 0;
    assert_eq!(get_pyth_price(&pyth_account(&a), &clock(241)), Err(OracleError::StalePrice));
}

#[test]
fn pyth_negative_price_is_refused() {
    let account = pyth_account(&price_account(-200, 1, PriceStatus::Trading, 0));
    assert_eq!(get_pyth_price(&account, &clock(240)), Err(OracleError::NegativePrice));
}

#[test]
fn pyth_wide_confidence_is_refused() {
    let account = pyth_account(&price_account(200, 40, PriceStatus::Trading, 0));
    assert_eq!(get_pyth_price(&account, &clock(239)), Err(OracleError::ExcessiveUncertainty));
}

#[test]
fn end_to_end_scenario() {
    let start = 1000;
    let account = pyth_account(&price_account(200, 1, PriceStatus::Trading, start));
    assert_eq!(get_pyth_price(&account, &clock(start + 239)), Ok((dec(2000), dec(110))));
    assert_eq!(get_pyth_price(&account, &clock(start + 240)), Err(OracleError::StalePrice));
    let wide = pyth_account(&price_account(200, 40, PriceStatus::Trading, start));
    assert_eq!(get_pyth_price(&wide, &clock(start)), Err(OracleError::ExcessiveUncertainty));
    let wider = pyth_account(&price_account(200, 30, PriceStatus::Trading, start));
    assert_eq!(get_pyth_price(&wider, &clock(start)), Err(OracleError::ExcessiveUncertainty));
}

#[test]
fn null_pyth_account_is_missing() {
    let mut account = pyth_account(&price_account(200, 1, PriceStatus::Trading, 0));
    account.key = NULL_KEY;
    assert_eq!(get_pyth_price(&account, &clock(1)), Err(OracleError::MissingOracle));
    assert_eq!(get_pyth_price_unchecked(&account), Err(OracleError::MissingOracle));
    assert_eq!(validate_pyth_keys(&account), Ok(()));
}

#[test]
fn pyth_unchecked_uses_previous_price_when_not_trading() {
    let mut a = price_account(200, 1, PriceStatus::Halted, 0);
    a.prev_price = 190;
    assert_eq!(get_pyth_price_unchecked(&pyth_account(&a)), Ok(dec(1900)));
}

#[test]
fn confidence_boundary() {
    let record = |price: i64, conf: u64| PythPriceRecord {
        expo: 0,
        agg_price: price,
        agg_conf: conf,
        agg_trading: true,
        agg_pub_slot: 5,
        prev_price: 0,
        prev_conf: 0,
        prev_slot: 0,
        ema_price: price,
    };
    assert_eq!(
        pyth_record_price(&record(200, 20), &clock(5)),
        Ok((dec(200), dec(200)))
    );
    assert_eq!(
        pyth_record_price(&record(209, 21), &clock(5)),
        Err(OracleError::ExcessiveUncertainty)
    );
}

#[test]
fn staleness_boundary_pull() {
    let account = decoded_account(
        PYTH_PULL_MAINNET_ID,
        DecodedFeed::PythPull(pull_update(2_000_000, 1, 1000)),
    );
    let at = |t: i64| Clock {
        slot: 0,
        unix_timestamp: t,
    };
    assert!(get_pyth_pull_price(&account, &at(1119)).is_ok());
    assert_eq!(get_pyth_pull_price(&account, &at(1120)), Err(OracleError::StalePrice));
}

#[test]
fn pull_partial_verification_is_refused() {
    let mut update = pull_update(2_000_000, 1, 1000);
    update.fully_verified = false;
    let account = decoded_account(PYTH_PULL_MAINNET_ID, DecodedFeed::PythPull(update));
    let now = Clock {
        slot: 0,
        unix_timestamp: 1000,
    };
    assert_eq!(get_pyth_pull_price(&account, &now), Err(OracleError::SchemaMismatch));
}

#[test]
fn pull_negative_price_is_refused_even_when_stale() {
    let account = decoded_account(
        PYTH_PULL_MAINNET_ID,
        DecodedFeed::PythPull(pull_update(-5, 0, 0)),
    );
    let now = Clock {
        slot: 0,
        unix_timestamp: 100_000,
    };
    assert_eq!(get_pyth_pull_price(&account, &now), Err(OracleError::NegativePrice));
}

#[test]
fn pull_unchecked_requires_pull_owner() {
    let account = decoded_account(
        PYTH_MAINNET_ID,
        DecodedFeed::PythPull(pull_update(1, 0, 0)),
    );
    assert_eq!(
        get_pyth_pull_price_unchecked(&account),
        Err(OracleError::AccountIdentityMismatch)
    );
}

#[test]
fn switchboard_v2_price_and_staleness() {
    let account = decoded_account(SWITCHBOARD_V2_MAINNET_ID, sb_round(1234, 2, 100));
    let expected = Decimal::from_scaled(1234 * WAD / 100);
    assert_eq!(get_switchboard_price(&account, &clock(339)), Ok(expected));
    assert_eq!(get_switchboard_price(&account, &clock(340)), Err(OracleError::StalePrice));
    assert_eq!(get_switchboard_price_v2(&account, &clock(10_000), false), Ok(expected));
    assert_eq!(
        get_switchboard_price_v2(&account, &clock(99), false),
        Err(OracleError::ArithmeticOverflow)
    );
}

#[test]
fn switchboard_devnet_owner_is_accepted() {
    let account = decoded_account(SWITCHBOARD_V2_DEVNET_ID, sb_round(5, 0, 0));
    assert_eq!(get_switchboard_price(&account, &clock(1)), Ok(dec(5)));
}

#[test]
fn switchboard_negative_price_is_refused() {
    let v2 = decoded_account(SWITCHBOARD_V2_MAINNET_ID, sb_round(-1, 0, 0));
    assert_eq!(get_switchboard_price(&v2, &clock(100_000)), Err(OracleError::NegativePrice));
    let od = decoded_account(SWITCHBOARD_ON_DEMAND_ID, sb_feed(-1, 0, 0));
    assert_eq!(get_switchboard_price(&od, &clock(100_000)), Err(OracleError::NegativePrice));
    let od_range = decoded_account(SWITCHBOARD_ON_DEMAND_ID, sb_feed(100, -1, 0));
    assert_eq!(get_switchboard_price(&od_range, &clock(1)), Err(OracleError::NegativePrice));
}

#[test]
fn switchboard_without_result_is_refused() {
    let account = decoded_account(
        SWITCHBOARD_V2_MAINNET_ID,
        DecodedFeed::Switchboard(SwitchboardRound {
            round_open_slot: 0,
            result: None,
        }),
    );
    assert_eq!(get_switchboard_price(&account, &clock(1)), Err(OracleError::SchemaMismatch));
}

#[test]
fn switchboard_on_demand_range_boundary() {
    let ok = decoded_account(SWITCHBOARD_ON_DEMAND_ID, sb_feed(1000, 100, 0));
    assert_eq!(get_switchboard_price(&ok, &clock(239)), Ok(dec(10)));
    let wide = decoded_account(SWITCHBOARD_ON_DEMAND_ID, sb_feed(1000, 101, 0));
    assert_eq!(
        get_switchboard_price(&wide, &clock(0)),
        Err(OracleError::ExcessiveUncertainty)
    );
    assert_eq!(get_switchboard_price(&ok, &clock(240)), Err(OracleError::StalePrice));
    assert_eq!(get_switchboard_price_on_demand(&ok, &clock(240), false), Ok(dec(10)));
}

#[test]
fn format_fidelity() {
    let of = |owner: [u8; 32]| get_oracle_type(&decoded_account(owner, DecodedFeed::Unparsed));
    assert_eq!(of(PYTH_MAINNET_ID), Ok(OracleType::Pyth));
    assert_eq!(of(PYTH_PULL_MAINNET_ID), Ok(OracleType::PythPull));
    assert_eq!(of(SWITCHBOARD_V2_MAINNET_ID), Ok(OracleType::Switchboard));
    assert_eq!(of(SWITCHBOARD_ON_DEMAND_ID), Ok(OracleType::SbOnDemand));
    assert_eq!(of(OTHER_OWNER), Err(OracleError::UnrecognizedOracleFormat));
    assert_eq!(of(SWITCHBOARD_V2_DEVNET_ID), Err(OracleError::UnrecognizedOracleFormat));
}

#[test]
fn offset_application() {
    assert_eq!(apply_price_offset(dec(10), 2000), Ok(dec(12)));
    assert_eq!(apply_price_offset(dec(10), -2000), Ok(dec(8)));
    assert_eq!(apply_price_offset(dec(10), 0), Ok(dec(10)));
    assert_eq!(apply_price_offset(dec(10), -10_001), Err(OracleError::NegativePrice));
    assert_eq!(
        apply_price_offset(Decimal::from_scaled(70_000), 1),
        Ok(Decimal::from_scaled(70_007))
    );
    assert_eq!(
        apply_price_offset(Decimal::from_scaled(u128::MAX), -10_000),
        Ok(Decimal::from_scaled(0))
    );
    let large = price_to_decimal(i64::MAX, 15).unwrap();
    assert_eq!(apply_price_offset(large, 0), Ok(large));
    let big = price_to_decimal(i64::MAX, 19).unwrap();
    assert_eq!(apply_price_offset(big, 0), Err(OracleError::ArithmeticOverflow));
    assert_eq!(apply_price_offset(big, i64::MAX), Err(OracleError::ArithmeticOverflow));
}

#[test]
fn exponent_scaling() {
    assert_eq!(price_to_decimal(5, 2), Ok(dec(500)));
    assert_eq!(price_to_decimal(1500, -3), Ok(Decimal::from_scaled(1_500_000_000_000_000_000)));
    assert_eq!(price_to_decimal(7_000_000, -6), Ok(dec(7)));
    assert_eq!(price_to_decimal(1, 19), Ok(Decimal::from_scaled(10u128.pow(37))));
    assert_eq!(price_to_decimal(1, 20), Err(OracleError::ArithmeticOverflow));
    assert_eq!(price_to_decimal(1, -20), Err(OracleError::ArithmeticOverflow));
    assert_eq!(
        price_to_decimal(i64::MAX, 2),
        dec(i64::MAX as u64).try_mul_u64(100)
    );
    assert!(price_to_decimal(i64::MAX, 19).is_ok());
    assert_eq!(price_to_decimal(-1, 0), Err(OracleError::NegativePrice));
    assert_eq!(price_to_decimal(1, i32::MIN), Err(OracleError::ArithmeticOverflow));
}

#[test]
fn mantissa_scaling() {
    assert_eq!(mantissa_to_decimal(1234, 2), Ok(Decimal::from_scaled(12_340_000_000_000_000_000)));
    assert_eq!(mantissa_to_decimal(5, 0), Ok(dec(5)));
    assert_eq!(
        mantissa_to_decimal(123_456_789_000_000_000_000_000, 24),
        Ok(Decimal::from_scaled(123_456_789_000_000_000))
    );
    assert_eq!(mantissa_to_decimal(1, 39), Err(OracleError::ArithmeticOverflow));
    assert_eq!(
        mantissa_to_decimal(1_000_000_000_000_000_000_000, 0),
        Decimal::from_scaled(1_000_000_000_000_000_000_000).try_mul_u64(WAD as u64)
    );
    assert!(mantissa_to_decimal(i128::MAX, 0).is_ok());
    let big = mantissa_to_decimal(i128::MAX, 0).unwrap();
    assert_eq!(big.try_mul_u64(u64::MAX), Err(OracleError::ArithmeticOverflow));
    assert!(big.try_mul_u64(10).is_ok());
    assert_eq!(mantissa_to_decimal(-3, 1), Err(OracleError::NegativePrice));
}

#[test]
fn single_price_dispatch() {
    let pyth = pyth_account(&price_account(200, 1, PriceStatus::Trading, 0));
    assert_eq!(get_single_price(&pyth, &clock(10)), Ok((dec(2000), Some(dec(110)))));
    let sb = decoded_account(SWITCHBOARD_V2_MAINNET_ID, sb_round(5, 0, 0));
    assert_eq!(get_single_price(&sb, &clock(10)), Ok((dec(5), None)));
    let other = decoded_account(OTHER_OWNER, DecodedFeed::Unparsed);
    assert_eq!(get_single_price(&other, &clock(10)), Err(OracleError::UnrecognizedOracleFormat));
}

#[test]
fn single_price_unchecked_skips_age() {
    let pyth = pyth_account(&price_account(200, 40, PriceStatus::Trading, 0));
    assert_eq!(get_single_price_unchecked(&pyth, &clock(100_000)), Ok(dec(2000)));
    let sb = decoded_account(SWITCHBOARD_V2_MAINNET_ID, sb_round(5, 0, 0));
    assert_eq!(get_single_price_unchecked(&sb, &clock(100_000)), Ok(dec(5)));
    let od = decoded_account(SWITCHBOARD_ON_DEMAND_ID, sb_feed(1000, 10, 0));
    assert_eq!(get_single_price_unchecked(&od, &clock(100_000)), Ok(dec(10)));
}

#[test]
fn reserve_prices_with_offset_and_extra() {
    let primary = pyth_account(&price_account(200, 1, PriceStatus::Trading, 0));
    let extra = decoded_account(SWITCHBOARD_V2_MAINNET_ID, sb_round(5, 0, 0));
    let prices = resolve_reserve_prices(&primary, &Some(extra), 2000, &clock(10)).unwrap();
    assert_eq!(prices.spot, dec(2400));
    assert_eq!(prices.smoothed, dec(132));
    assert_eq!(prices.extra, Some(dec(5)));

    let sb_primary = decoded_account(SWITCHBOARD_V2_MAINNET_ID, sb_round(10, 0, 0));
    let mut null_extra = decoded_account(OTHER_OWNER, DecodedFeed::Unparsed);
    null_extra.key = NULL_KEY;
    let prices = resolve_reserve_prices(&sb_primary, &Some(null_extra), -2000, &clock(10)).unwrap();
    assert_eq!(prices.spot, dec(8));
    assert_eq!(prices.smoothed, dec(8));
    assert_eq!(prices.extra, None);
}

#[test]
fn reserve_prices_fail_with_a_bad_extra() {
    let primary = pyth_account(&price_account(200, 1, PriceStatus::Trading, 0));
    let extra = decoded_account(OTHER_OWNER, DecodedFeed::Unparsed);
    assert_eq!(
        resolve_reserve_prices(&primary, &Some(extra), 0, &clock(10)),
        Err(OracleError::UnrecognizedOracleFormat)
    );
}

#[test]
fn key_validation() {
    let pyth = pyth_account(&price_account(200, 1, PriceStatus::Trading, 0));
    assert_eq!(validate_pyth_keys(&pyth), Ok(()));
    assert_eq!(validate_pyth_price_account_info(&pyth), Ok(()));
    let mut broken = pyth.clone();
    broken.data.truncate(10);
    assert_eq!(validate_pyth_keys(&broken), Err(OracleError::SchemaMismatch));
    let mut foreign = pyth.clone();
    foreign.owner = PYTH_PULL_MAINNET_ID;
    assert_eq!(
        validate_pyth_price_account_info(&foreign),
        Err(OracleError::AccountIdentityMismatch)
    );
    let pull = decoded_account(PYTH_PULL_MAINNET_ID, DecodedFeed::PythPull(pull_update(1, 0, 0)));
    assert_eq!(validate_pyth_keys(&pull), Ok(()));
    assert_eq!(validate_pyth_pull_price_account_info(&pull), Ok(()));
    let sb = decoded_account(SWITCHBOARD_V2_MAINNET_ID, sb_round(5, 0, 0));
    assert_eq!(validate_pyth_keys(&sb), Err(OracleError::AccountIdentityMismatch));
    assert_eq!(validate_switchboard_keys(&sb), Ok(()));
    assert_eq!(validate_switchboard_keys(&pyth), Err(OracleError::AccountIdentityMismatch));
    let od = decoded_account(SWITCHBOARD_ON_DEMAND_ID, sb_feed(1000, 10, 0));
    assert_eq!(validate_switchboard_keys(&od), Ok(()));
    assert_eq!(validate_sb_on_demand_keys(&od), Ok(()));
    assert_eq!(validate_sb_on_demand_keys(&sb), Err(OracleError::AccountIdentityMismatch));
    let od_unparsed = decoded_account(SWITCHBOARD_ON_DEMAND_ID, DecodedFeed::Unparsed);
    assert_eq!(validate_sb_on_demand_keys(&od_unparsed), Err(OracleError::SchemaMismatch));
    let other = decoded_account(OTHER_OWNER, DecodedFeed::Unparsed);
    assert_eq!(validate_switchboard_keys(&other), Err(OracleError::UnrecognizedOracleFormat));
}

fn pyth_feed(price: i64, ema_price: i64, pub_slot: u64) -> OracleAccount {
    let mut a = price_account(price, 0, PriceStatus::Trading, pub_slot);
    a.expo = 0;
    a.ema_price.val = ema_price;
    pyth_account(&a)
}

#[test]
fn test_use_price_weight() {
    let primary = pyth_feed(10, 20, 1000);
    let prices = resolve_reserve_prices(&primary, &None, 2_000, &clock(1001)).unwrap();
    assert_eq!(prices.spot, dec(12));
    assert_eq!(prices.smoothed, dec(24));

    let prices = resolve_reserve_prices(&primary, &None, -2_000, &clock(1002)).unwrap();
    assert_eq!(prices.spot, dec(8));
    assert_eq!(prices.smoothed, dec(16));

    let switchboard = decoded_account(SWITCHBOARD_V2_MAINNET_ID, sb_round(30, 0, 1002));
    let prices = resolve_reserve_prices(&switchboard, &None, -2_000, &clock(1003)).unwrap();
    assert_eq!(prices.spot, dec(24));
    assert_eq!(prices.smoothed, dec(24));
}

#[test]
fn test_use_extra_oracle() {
    let primary = pyth_feed(10, 10, 1000);
    let extra_pyth = pyth_feed(5, 5, 1000);
    let prices = resolve_reserve_prices(&primary, &Some(extra_pyth), 2_000, &clock(1001)).unwrap();
    assert_eq!(prices.spot, dec(12));
    assert_eq!(prices.smoothed, dec(12));
    assert_eq!(prices.extra, Some(dec(5)));

    let extra_switchboard = decoded_account(SWITCHBOARD_V2_MAINNET_ID, sb_round(2, 0, 1001));
    let prices =
        resolve_reserve_prices(&primary, &Some(extra_switchboard), 2_000, &clock(1002)).unwrap();
    assert_eq!(prices.extra, Some(dec(2)));

    let prices = resolve_reserve_prices(&primary, &None, 2_000, &clock(1003)).unwrap();
    assert_eq!(prices.extra, None);
}

#[test]
fn pyth_negative_trading_price_is_refused_whatever_its_age() {
    let mut a = price_account(-200, 1, PriceStatus::Trading, 0);
    a.prev_price = 190;
    a.prev_slot = 100_000;
    assert_eq!(get_pyth_price(&pyth_account(&a), &clock(100_000)), Err(OracleError::NegativePrice));
    let late = get_pyth_price(&pyth_account(&a), &clock(1_000_000));
    assert_eq!(late, Err(OracleError::NegativePrice));
}

#[test]
fn pyth_negative_smoothed_price_is_refused() {
    let mut a = price_account(200, 100, PriceStatus::Trading, 0);
    a.ema_price.val = -1;
    assert_eq!(get_pyth_price(&pyth_account(&a), &clock(10_000)), Err(OracleError::NegativePrice));
}

#[test]
fn pull_negative_smoothed_price_is_refused_before_age_and_confidence() {
    let mut update = pull_update(100, 50, 0);
    update.ema_price = -1;
    let account = decoded_account(PYTH_PULL_MAINNET_ID, DecodedFeed::PythPull(update));
    let now = Clock {
        slot: 0,
        unix_timestamp: 100_000,
    };
    assert_eq!(get_pyth_pull_price(&account, &now), Err(OracleError::NegativePrice));
}

#[test]
fn on_demand_unchecked_skips_age_and_range() {
    let wide = decoded_account(SWITCHBOARD_ON_DEMAND_ID, sb_feed(1000, 200, 0));
    assert_eq!(get_switchboard_price_on_demand_unchecked(&wide), Ok(dec(10)));
    assert_eq!(get_single_price_unchecked(&wide, &clock(100_000)), Ok(dec(10)));
    assert_eq!(
        get_switchboard_price_on_demand(&wide, &clock(0), false),
        Err(OracleError::ExcessiveUncertainty)
    );
}

#[test]
fn price_account_layout() {
    assert_eq!(std::mem::size_of::<SolanaPriceAccount>(), PRICE_ACCOUNT_LEN);
    assert_eq!(PYTH_MAGIC, MAGIC);
    assert_eq!(PYTH_VERSION, VERSION_2);
    assert_eq!(PRICE_ACCOUNT_TYPE, AccountType::Price as u32);
    assert_eq!(STATUS_TRADING, PriceStatus::Trading as u8);
    assert_eq!(STATUS_MAX, PriceStatus::Ignored as u8);
    assert_eq!(PRICE_TYPE_MAX, PriceType::Price as u8);
    let mut a = price_account(-123, 456, PriceStatus::Trading, 789);
    a.expo = -7;
    a.prev_slot = 11;
    a.prev_price = -12;
    a.prev_conf = 13;
    a.ema_price.val = -14;
    a.comp[5].latest.status = PriceStatus::Halted;
    a.comp[3].agg.status = PriceStatus::Auction;
    let b = bytemuck::bytes_of(&a);
    let u32_at = |o: usize| u32::from_le_bytes(b[o..o + 4].try_into().unwrap());
    let u64_at = |o: usize| u64::from_le_bytes(b[o..o + 8].try_into().unwrap());
    let i64_at = |o: usize| i64::from_le_bytes(b[o..o + 8].try_into().unwrap());
    assert_eq!(u32_at(MAGIC_OFFSET), MAGIC);
    assert_eq!(u32_at(VERSION_OFFSET), VERSION_2);
    assert_eq!(u32_at(ACCOUNT_TYPE_OFFSET), AccountType::Price as u32);
    assert_eq!(b[PRICE_TYPE_OFFSET], PriceType::Price as u8);
    assert_eq!(i32::from_le_bytes(b[EXPO_OFFSET..EXPO_OFFSET + 4].try_into().unwrap()), -7);
    assert_eq!(i64_at(EMA_PRICE_OFFSET), -14);
    assert_eq!(u64_at(PREV_SLOT_OFFSET), 11);
    assert_eq!(i64_at(PREV_PRICE_OFFSET), -12);
    assert_eq!(u64_at(PREV_CONF_OFFSET), 13);
    assert_eq!(i64_at(AGG_OFFSET + INFO_PRICE_OFFSET), -123);
    assert_eq!(u64_at(AGG_OFFSET + INFO_CONF_OFFSET), 456);
    assert_eq!(b[AGG_OFFSET + INFO_STATUS_OFFSET], STATUS_TRADING);
    assert_eq!(u64_at(AGG_OFFSET + INFO_PUB_SLOT_OFFSET), 789);
    let latest5 = COMP_OFFSET + 5 * COMP_LEN + COMP_LATEST_OFFSET + INFO_STATUS_OFFSET;
    assert_eq!(b[latest5], PriceStatus::Halted as u8);
    let agg3 = COMP_OFFSET + 3 * COMP_LEN + COMP_AGG_OFFSET + INFO_STATUS_OFFSET;
    assert_eq!(b[agg3], PriceStatus::Auction as u8);
}

#[test]
fn pyth_invalid_enum_byte_is_refused() {
    let mut account = pyth_account(&price_account(200, 1, PriceStatus::Trading, 0));
    account.data[AGG_OFFSET + INFO_STATUS_OFFSET] = 9;
    assert_eq!(get_pyth_price(&account, &clock(1)), Err(OracleError::SchemaMismatch));
    let mut account = pyth_account(&price_account(200, 1, PriceStatus::Trading, 0));
    account.data[COMP_OFFSET + 31 * COMP_LEN + COMP_LATEST_OFFSET + INFO_STATUS_OFFSET] = 5;
    assert_eq!(get_pyth_price_unchecked(&account), Err(OracleError::SchemaMismatch));
    assert_eq!(validate_pyth_price_account_info(&account), Err(OracleError::SchemaMismatch));
}

#[test]
fn pyth_account_with_trailing_bytes_is_read() {
    let mut account = pyth_account(&price_account(200, 1, PriceStatus::Trading, 0));
    account.data.extend_from_slice(&[0xff; 13]);
    assert_eq!(get_pyth_price(&account, &clock(1)), Ok((dec(2000), dec(110))));
}
