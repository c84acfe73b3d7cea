use vstd::prelude::*;

use crate::account::is_null;
use crate::account::is_null_key;
use crate::account::keys_equal;
use crate::account::Clock;
use crate::account::DecodedFeed;
use crate::account::OracleAccount;
use crate::account::SbOnDemandFeed;
use crate::account::SwitchboardDecimal;
use crate::account::SwitchboardRound;
use crate::account::SWITCHBOARD_ON_DEMAND_ID;
use crate::account::SWITCHBOARD_V2_DEVNET_ID;
use crate::account::SWITCHBOARD_V2_MAINNET_ID;
use crate::decimal::decimal_max;
use crate::decimal::decimal_result;
use crate::decimal::mantissa_decimal;
use crate::decimal::mantissa_to_decimal;
use crate::decimal::Decimal;
use crate::error::OracleError;
use crate::get_oracle_type;
use crate::oracle_type_of;
use crate::pyth::PYTH_CONFIDENCE_RATIO;
use crate::pyth::STALE_AFTER_SLOTS_ELAPSED;
use crate::OracleType;

verus! {

/// Whether `owner` is the Switchboard v2 program on either network.
pub open spec fn is_switchboard_v2_owner(owner: Seq<u8>) -> bool {
    owner == SWITCHBOARD_V2_MAINNET_ID@ || owner == SWITCHBOARD_V2_DEVNET_ID@
}

/// The age check shared by both Switchboard formats: the update must not lie
/// in the future, and with `check_staleness` fewer than 240 slots may have passed.
pub open spec fn switchboard_age(
    updated: int,
    now: int,
    check_staleness: bool,
) -> Result<(), OracleError> {
    if now < updated {
        Err(OracleError::ArithmeticOverflow)
    } else if check_staleness && now - updated >= STALE_AFTER_SLOTS_ELAPSED {
        Err(OracleError::StalePrice)
    } else {
        Ok(())
    }
}

/// The price that a Switchboard v2 round gives at slot `now`.
pub open spec fn switchboard_v2_price(
    round: SwitchboardRound,
    now: int,
    check_staleness: bool,
) -> Result<nat, OracleError> {
    match round.result {
        None => Err(OracleError::SchemaMismatch),
        Some(d) => if d.mantissa < 0 {
            Err(OracleError::NegativePrice)
        } else {
            match switchboard_age(round.round_open_slot as int, now, check_staleness) {
                Err(e) => Err(e),
                Ok(_) => mantissa_decimal(d.mantissa as int, d.scale as nat),
            }
        },
    }
}

/// The price that a Switchboard on-demand feed gives at slot `now`: its value,
/// provided that ten times its uncertainty range does not exceed it.
pub open spec fn sb_on_demand_price(
    feed: SbOnDemandFeed,
    now: int,
    check_staleness: bool,
) -> Result<nat, OracleError> {
    match feed.value {
        None => Err(OracleError::SchemaMismatch),
        Some(v) => if v.mantissa < 0 {
            Err(OracleError::NegativePrice)
        } else {
            match switchboard_age(feed.result_slot as int, now, check_staleness) {
                Err(e) => Err(e),
                Ok(_) => match mantissa_decimal(v.mantissa as int, v.scale as nat) {
                    Err(e) => Err(e),
                    Ok(price) => match feed.range {
                        None => Err(OracleError::SchemaMismatch),
                        Some(rg) => match mantissa_decimal(rg.mantissa as int, rg.scale as nat) {
                            Err(e) => Err(e),
                            Ok(range) => if range * PYTH_CONFIDENCE_RATIO > decimal_max() {
                                Err(OracleError::ArithmeticOverflow)
                            } else if range * PYTH_CONFIDENCE_RATIO > price {
                                Err(OracleError::ExcessiveUncertainty)
                            } else {
                                Ok(price)
                            },
                        },
                    },
                },
            }
        },
    }
}

/// The Switchboard age check accepts an update 239 slots old and refuses one
/// 240 slots old as stale; without the check, age only has to be non-negative.
pub proof fn lemma_switchboard_staleness_boundary(updated: int, now: int)
    ensures
        switchboard_age(updated, updated + 239, true) == Ok::<(), OracleError>(()),
        switchboard_age(updated, updated + 240, true) == Err::<(), OracleError>(
            OracleError::StalePrice,
        ),
        now >= updated ==> switchboard_age(updated, now, false) == Ok::<(), OracleError>(()),
{
}

/// The on-demand range check has the same inclusive boundary as the Pyth
/// confidence check: a fresh feed whose range times ten equals its value
/// gives that value, and one whose range times ten is one unit (of the
/// 18-digit scale) above its value is refused.
pub proof fn lemma_range_boundary(
    feed: SbOnDemandFeed,
    now: int,
    value: SwitchboardDecimal,
    range: SwitchboardDecimal,
    price: nat,
    width: nat,
)
    requires
        feed.value == Some(value),
        feed.range == Some(range),
        switchboard_age(feed.result_slot as int, now, true) == Ok::<(), OracleError>(()),
        mantissa_decimal(value.mantissa as int, value.scale as nat) == Ok::<nat, OracleError>(
            price,
        ),
        mantissa_decimal(range.mantissa as int, range.scale as nat) == Ok::<nat, OracleError>(
            width,
        ),
    ensures
        width * 10 == price ==> sb_on_demand_price(feed, now, true) == Ok::<nat, OracleError>(
            price,
        ),
        width * 10 == price + 1 ==> sb_on_demand_price(feed, now, true) == Err::<nat, OracleError>(
            OracleError::ExcessiveUncertainty,
        ),
{
}

/// A negative Switchboard value is refused as such, before any check of age
/// or range: by the conversion, by a v2 round and by an on-demand feed.
pub proof fn lemma_switchboard_negative_rejected(
    mantissa: int,
    scale: nat,
    round: SwitchboardRound,
    feed: SbOnDemandFeed,
    now: int,
    check_staleness: bool,
)
    ensures
        mantissa < 0 ==> mantissa_decimal(mantissa, scale) == Err::<nat, OracleError>(
            OracleError::NegativePrice,
        ),
        (match round.result {
            Some(d) => d.mantissa < 0,
            None => false,
        }) ==> switchboard_v2_price(round, now, check_staleness) == Err::<nat, OracleError>(
            OracleError::NegativePrice,
        ),
        (match feed.value {
            Some(v) => v.mantissa < 0,
            None => false,
        }) ==> sb_on_demand_price(feed, now, check_staleness) == Err::<nat, OracleError>(
            OracleError::NegativePrice,
        ),
{
}

/// Applies the age check shared by both Switchboard formats.
fn check_switchboard_age(
    updated: u64,
    now: u64,
    check_staleness: bool,
) -> (r: Result<(), OracleError>)
    ensures
        r == switchboard_age(updated as int, now as int, check_staleness),
{
    if now < updated {
        return Err(OracleError::ArithmeticOverflow);
    }
    if check_staleness && now - updated >= STALE_AFTER_SLOTS_ELAPSED {
        return Err(OracleError::StalePrice);
    }
    Ok(())
}

/// The price of a decoded Switchboard v2 round at `clock`.
pub fn switchboard_round_price(
    round: &SwitchboardRound,
    clock: &Clock,
    check_staleness: bool,
) -> (r: Result<Decimal, OracleError>)
    ensures
        decimal_result(r) == switchboard_v2_price(*round, clock.slot as int, check_staleness),
{
    let result = match round.result {
        Some(d) => d,
        None => return Err(OracleError::SchemaMismatch),
    };
    if result.mantissa < 0 {
        return Err(OracleError::NegativePrice);
    }
    match check_switchboard_age(round.round_open_slot, clock.slot, check_staleness) {
        Err(e) => return Err(e),
        Ok(_) => {},
    }
    mantissa_to_decimal(result.mantissa, result.scale)
}

/// The price of a decoded Switchboard on-demand feed at `clock`.
pub fn sb_on_demand_feed_price(
    feed: &SbOnDemandFeed,
    clock: &Clock,
    check_staleness: bool,
) -> (r: Result<Decimal, OracleError>)
    ensures
        decimal_result(r) == sb_on_demand_price(*feed, clock.slot as int, check_staleness),
{
    let value = match feed.value {
        Some(v) => v,
        None => return Err(OracleError::SchemaMismatch),
    };
    if value.mantissa < 0 {
        return Err(OracleError::NegativePrice);
    }
    match check_switchboard_age(feed.result_slot, clock.slot, check_staleness) {
        Err(e) => return Err(e),
        Ok(_) => {},
    }
    let price = match mantissa_to_decimal(value.mantissa, value.scale) {
        Ok(d) => d,
        Err(e) => return Err(e),
    };
    let range_desc = match feed.range {
        Some(v) => v,
        None => return Err(OracleError::SchemaMismatch),
    };
    let range = match mantissa_to_decimal(range_desc.mantissa, range_desc.scale) {
        Ok(d) => d,
        Err(e) => return Err(e),
    };
    let widened = match range.try_mul_u64(PYTH_CONFIDENCE_RATIO) {
        Ok(d) => d,
        Err(e) => return Err(e),
    };
    if widened.gt(&price) {
        return Err(OracleError::ExcessiveUncertainty);
    }
    Ok(price)
}

/// The value that a Switchboard on-demand feed shows with no check of age or
/// range: its converted value.
pub open spec fn sb_on_demand_unchecked(feed: SbOnDemandFeed) -> Result<nat, OracleError> {
    match feed.value {
        None => Err(OracleError::SchemaMismatch),
        Some(v) => mantissa_decimal(v.mantissa as int, v.scale as nat),
    }
}

/// The value that a Switchboard on-demand account shows with no check of age
/// or range.
pub open spec fn sb_on_demand_account_unchecked(a: OracleAccount) -> Result<nat, OracleError> {
    match a.decoded {
        DecodedFeed::SbOnDemand(feed) => sb_on_demand_unchecked(feed),
        _ => Err(OracleError::SchemaMismatch),
    }
}

/// The value of a Switchboard on-demand account with no check of age or
/// range; only for display, never for decisions on solvency.
pub fn get_switchboard_price_on_demand_unchecked(
    switchboard_feed_info: &OracleAccount,
) -> (r: Result<Decimal, OracleError>)
    ensures
        decimal_result(r) == sb_on_demand_account_unchecked(*switchboard_feed_info),
{
    match switchboard_feed_info.decoded {
        DecodedFeed::SbOnDemand(feed) => match feed.value {
            Some(v) => mantissa_to_decimal(v.mantissa, v.scale),
            None => Err(OracleError::SchemaMismatch),
        },
        _ => Err(OracleError::SchemaMismatch),
    }
}

/// The price that a Switchboard account of either format gives at slot `now`,
/// with the check of age: missing for the null sentinel, refused when no
/// Switchboard program owns it.
pub open spec fn switchboard_account_price(a: OracleAccount, now: int) -> Result<nat, OracleError> {
    if is_null_key(a.key@) {
        Err(OracleError::MissingOracle)
    } else if is_switchboard_v2_owner(a.owner@) {
        match a.decoded {
            DecodedFeed::Switchboard(round) => switchboard_v2_price(round, now, true),
            _ => Err(OracleError::SchemaMismatch),
        }
    } else if a.owner@ == SWITCHBOARD_ON_DEMAND_ID@ {
        match a.decoded {
            DecodedFeed::SbOnDemand(feed) => sb_on_demand_price(feed, now, true),
            _ => Err(OracleError::SchemaMismatch),
        }
    } else {
        Err(OracleError::UnrecognizedOracleFormat)
    }
}

/// The price of a Switchboard account of either format at `clock`, with the
/// check of age.
pub fn get_switchboard_price(
    switchboard_feed_info: &OracleAccount,
    clock: &Clock,
) -> (r: Result<Decimal, OracleError>)
    ensures
        decimal_result(r) == switchboard_account_price(*switchboard_feed_info, clock.slot as int),
{
    if is_null(switchboard_feed_info) {
        return Err(OracleError::MissingOracle);
    }
    if keys_equal(&switchboard_feed_info.owner, &SWITCHBOARD_V2_MAINNET_ID) || keys_equal(
        &switchboard_feed_info.owner,
        &SWITCHBOARD_V2_DEVNET_ID,
    ) {
        return get_switchboard_price_v2(switchboard_feed_info, clock, true);
    }
    if keys_equal(&switchboard_feed_info.owner, &SWITCHBOARD_ON_DEMAND_ID) {
        return get_switchboard_price_on_demand(switchboard_feed_info, clock, true);
    }
    Err(OracleError::UnrecognizedOracleFormat)
}

/// The price that a Switchboard on-demand account gives at slot `now`.
pub open spec fn sb_on_demand_account_price(
    a: OracleAccount,
    now: int,
    check_staleness: bool,
) -> Result<nat, OracleError> {
    match a.decoded {
        DecodedFeed::SbOnDemand(feed) => sb_on_demand_price(feed, now, check_staleness),
        _ => Err(OracleError::SchemaMismatch),
    }
}

/// The price of a Switchboard on-demand account at `clock`; the check of age
/// is made only with `check_staleness`, the check of the range always.
pub fn get_switchboard_price_on_demand(
    switchboard_feed_info: &OracleAccount,
    clock: &Clock,
    check_staleness: bool,
) -> (r: Result<Decimal, OracleError>)
    ensures
        decimal_result(r) == sb_on_demand_account_price(
            *switchboard_feed_info,
            clock.slot as int,
            check_staleness,
        ),
{
    match switchboard_feed_info.decoded {
        DecodedFeed::SbOnDemand(feed) => sb_on_demand_feed_price(&feed, clock, check_staleness),
        _ => Err(OracleError::SchemaMismatch),
    }
}

/// The price that a Switchboard v2 account gives at slot `now`.
pub open spec fn switchboard_v2_account_price(
    a: OracleAccount,
    now: int,
    check_staleness: bool,
) -> Result<nat, OracleError> {
    match a.decoded {
        DecodedFeed::Switchboard(round) => switchboard_v2_price(round, now, check_staleness),
        _ => Err(OracleError::SchemaMismatch),
    }
}

/// The price of a Switchboard v2 account at `clock`; the check of age is made
/// only with `check_staleness`.
pub fn get_switchboard_price_v2(
    switchboard_feed_info: &OracleAccount,
    clock: &Clock,
    check_staleness: bool,
) -> (r: Result<Decimal, OracleError>)
    ensures
        decimal_result(r) == switchboard_v2_account_price(
            *switchboard_feed_info,
            clock.slot as int,
            check_staleness,
        ),
{
    match switchboard_feed_info.decoded {
        DecodedFeed::Switchboard(round) => switchboard_round_price(&round, clock, check_staleness),
        _ => Err(OracleError::SchemaMismatch),
    }
}

/// Validates a Switchboard oracle account when a reserve is configured: the
/// null sentinel is accepted, a v2 or on-demand account must be well formed,
/// and an account of any other known format is refused.
pub fn validate_switchboard_keys(
    switchboard_feed_info: &OracleAccount,
) -> (r: Result<(), OracleError>)
    ensures
        r == (if is_null_key(switchboard_feed_info.key@) {
            Ok(())
        } else {
            match oracle_type_of(switchboard_feed_info.owner@) {
                None => Err(OracleError::UnrecognizedOracleFormat),
                Some(OracleType::Switchboard) => match switchboard_feed_info.decoded {
                    DecodedFeed::Switchboard(_) => Ok(()),
                    _ => Err(OracleError::SchemaMismatch),
                },
                Some(OracleType::SbOnDemand) => match switchboard_feed_info.decoded {
                    DecodedFeed::SbOnDemand(_) => Ok(()),
                    _ => Err(OracleError::SchemaMismatch),
                },
                Some(_) => Err(OracleError::AccountIdentityMismatch),
            }
        }),
{
    if is_null(switchboard_feed_info) {
        return Ok(());
    }
    match get_oracle_type(switchboard_feed_info) {
        Err(e) => Err(e),
        Ok(OracleType::Switchboard) => validate_switchboard_v2_keys(switchboard_feed_info),
        Ok(OracleType::SbOnDemand) => validate_sb_on_demand_keys(switchboard_feed_info),
        Ok(_) => Err(OracleError::AccountIdentityMismatch),
    }
}

/// Validates a Switchboard v2 account: the null sentinel is accepted; any
/// other must be owned by the Switchboard v2 program and hold an aggregator.
fn validate_switchboard_v2_keys(
    switchboard_feed_info: &OracleAccount,
) -> (r: Result<(), OracleError>)
    ensures
        r == (if is_null_key(switchboard_feed_info.key@) {
            Ok(())
        } else if !is_switchboard_v2_owner(switchboard_feed_info.owner@) {
            Err(OracleError::AccountIdentityMismatch)
        } else {
            match switchboard_feed_info.decoded {
                DecodedFeed::Switchboard(_) => Ok(()),
                _ => Err(OracleError::SchemaMismatch),
            }
        }),
{
    if is_null(switchboard_feed_info) {
        return Ok(());
    }
    if !keys_equal(&switchboard_feed_info.owner, &SWITCHBOARD_V2_MAINNET_ID) && !keys_equal(
        &switchboard_feed_info.owner,
        &SWITCHBOARD_V2_DEVNET_ID,
    ) {
        return Err(OracleError::AccountIdentityMismatch);
    }
    match switchboard_feed_info.decoded {
        DecodedFeed::Switchboard(_) => Ok(()),
        _ => Err(OracleError::SchemaMismatch),
    }
}

/// Validates a Switchboard on-demand account: the null sentinel is accepted;
/// any other must be owned by the on-demand program and hold a feed.
pub fn validate_sb_on_demand_keys(
    switchboard_feed_info: &OracleAccount,
) -> (r: Result<(), OracleError>)
    ensures
        r == (if is_null_key(switchboard_feed_info.key@) {
            Ok(())
        } else if switchboard_feed_info.owner@ != SWITCHBOARD_ON_DEMAND_ID@ {
            Err(OracleError::AccountIdentityMismatch)
        } else {
            match switchboard_feed_info.decoded {
                DecodedFeed::SbOnDemand(_) => Ok(()),
                _ => Err(OracleError::SchemaMismatch),
            }
        }),
{
    if is_null(switchboard_feed_info) {
        return Ok(());
    }
    if !keys_equal(&switchboard_feed_info.owner, &SWITCHBOARD_ON_DEMAND_ID) {
        return Err(OracleError::AccountIdentityMismatch);
    }
    match switchboard_feed_info.decoded {
        DecodedFeed::SbOnDemand(_) => Ok(()),
        _ => Err(OracleError::SchemaMismatch),
    }
}

} // verus!
