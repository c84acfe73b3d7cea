//! Oracle price resolution for a lending protocol: classifies a price-feed
//! account by its owning program, reads its quote, refuses quotes that are
//! stale, negative or too uncertain, and converts the rest into exact
//! fixed-point prices.

use vstd::prelude::*;

pub mod account;
pub mod decimal;
pub mod error;
pub mod price_account;
pub mod pyth;
pub mod switchboard;

use crate::account::is_null;
use crate::account::is_null_key;
use crate::account::Clock;
use crate::account::OracleAccount;
use crate::account::PYTH_MAINNET_ID;
use crate::account::PYTH_PULL_MAINNET_ID;
use crate::account::SWITCHBOARD_ON_DEMAND_ID;
use crate::account::SWITCHBOARD_V2_MAINNET_ID;
use crate::account::keys_equal;
use crate::decimal::apply_price_offset;
use crate::decimal::decimal_result;
use crate::decimal::offset_decimal;
use crate::decimal::Decimal;
use crate::error::OracleError;
use crate::pyth::get_pyth_price;
use crate::pyth::get_pyth_price_unchecked;
use crate::pyth::get_pyth_pull_price;
use crate::pyth::get_pyth_pull_price_unchecked;
use crate::pyth::pyth_account_prices;
use crate::pyth::pyth_account_unchecked;
use crate::pyth::pyth_pull_account_prices;
use crate::pyth::pyth_pull_account_unchecked;
use crate::switchboard::get_switchboard_price;
use crate::switchboard::get_switchboard_price_on_demand_unchecked;
use crate::switchboard::get_switchboard_price_v2;
use crate::switchboard::sb_on_demand_account_unchecked;
use crate::switchboard::switchboard_account_price;
use crate::switchboard::switchboard_v2_account_price;

verus! {

/// Which price-feed format an oracle account implements.
#[derive(Clone, Copy, Debug, PartialEq, Eq, Structural)]
pub enum OracleType {
    Pyth,
    Switchboard,
    PythPull,
    SbOnDemand,
}

/// The feed format of the account owned by `owner`, or `None` when none of
/// the known programs owns it.
pub open spec fn oracle_type_of(owner: Seq<u8>) -> Option<OracleType> {
    if owner == PYTH_MAINNET_ID@ {
        Some(OracleType::Pyth)
    } else if owner == PYTH_PULL_MAINNET_ID@ {
        Some(OracleType::PythPull)
    } else if owner == SWITCHBOARD_V2_MAINNET_ID@ {
        Some(OracleType::Switchboard)
    } else if owner == SWITCHBOARD_ON_DEMAND_ID@ {
        Some(OracleType::SbOnDemand)
    } else {
        None
    }
}

/// Classification is faithful: each of the four known owning programs yields
/// its own format, and any other owner is refused.
pub proof fn lemma_classification_fidelity(owner: Seq<u8>)
    ensures
        oracle_type_of(PYTH_MAINNET_ID@) == Some(OracleType::Pyth),
        oracle_type_of(PYTH_PULL_MAINNET_ID@) == Some(OracleType::PythPull),
        oracle_type_of(SWITCHBOARD_V2_MAINNET_ID@) == Some(OracleType::Switchboard),
        oracle_type_of(SWITCHBOARD_ON_DEMAND_ID@) == Some(OracleType::SbOnDemand),
        owner != PYTH_MAINNET_ID@ && owner != PYTH_PULL_MAINNET_ID@
            && owner != SWITCHBOARD_V2_MAINNET_ID@ && owner != SWITCHBOARD_ON_DEMAND_ID@
            ==> oracle_type_of(owner) is None,
{
    assert(PYTH_PULL_MAINNET_ID@[0] != PYTH_MAINNET_ID@[0]);
    assert(SWITCHBOARD_V2_MAINNET_ID@[0] != PYTH_MAINNET_ID@[0]);
    assert(SWITCHBOARD_V2_MAINNET_ID@[0] != PYTH_PULL_MAINNET_ID@[0]);
    assert(SWITCHBOARD_ON_DEMAND_ID@[0] != PYTH_MAINNET_ID@[0]);
    assert(SWITCHBOARD_ON_DEMAND_ID@[0] != PYTH_PULL_MAINNET_ID@[0]);
    assert(SWITCHBOARD_ON_DEMAND_ID@[1] != SWITCHBOARD_V2_MAINNET_ID@[1]);
}

/// Classifies an account by its owning program.
pub fn get_oracle_type(oracle_info: &OracleAccount) -> (r: Result<OracleType, OracleError>)
    ensures
        r == (match oracle_type_of(oracle_info.owner@) {
            Some(t) => Ok::<OracleType, OracleError>(t),
            None => Err(OracleError::UnrecognizedOracleFormat),
        }),
{
    if keys_equal(&oracle_info.owner, &PYTH_MAINNET_ID) {
        Ok(OracleType::Pyth)
    } else if keys_equal(&oracle_info.owner, &PYTH_PULL_MAINNET_ID) {
        Ok(OracleType::PythPull)
    } else if keys_equal(&oracle_info.owner, &SWITCHBOARD_V2_MAINNET_ID) {
        Ok(OracleType::Switchboard)
    } else if keys_equal(&oracle_info.owner, &SWITCHBOARD_ON_DEMAND_ID) {
        Ok(OracleType::SbOnDemand)
    } else {
        Err(OracleError::UnrecognizedOracleFormat)
    }
}

/// The spot price, and the smoothed price where the format has one, that an
/// account gives at `clock`, with the checks of age and confidence.
pub open spec fn single_price(
    a: OracleAccount,
    clock: Clock,
) -> Result<(nat, Option<nat>), OracleError> {
    match oracle_type_of(a.owner@) {
        None => Err(OracleError::UnrecognizedOracleFormat),
        Some(OracleType::Pyth) => match pyth_account_prices(a, clock.slot as int) {
            Ok((p, e)) => Ok((p, Some(e))),
            Err(e) => Err(e),
        },
        Some(OracleType::PythPull) => {
            match pyth_pull_account_prices(a, clock.unix_timestamp as int) {
                Ok((p, e)) => Ok((p, Some(e))),
                Err(e) => Err(e),
            }
        },
        Some(_) => match switchboard_account_price(a, clock.slot as int) {
            Ok(p) => Ok((p, None)),
            Err(e) => Err(e),
        },
    }
}

/// The price that an account shows at `clock` with the checks of age and
/// confidence (or range) left out.
pub open spec fn single_price_unchecked(
    a: OracleAccount,
    clock: Clock,
) -> Result<nat, OracleError> {
    match oracle_type_of(a.owner@) {
        None => Err(OracleError::UnrecognizedOracleFormat),
        Some(OracleType::Pyth) => pyth_account_unchecked(a),
        Some(OracleType::PythPull) => pyth_pull_account_unchecked(a),
        Some(OracleType::Switchboard) => switchboard_v2_account_price(a, clock.slot as int, false),
        Some(OracleType::SbOnDemand) => sb_on_demand_account_unchecked(a),
    }
}

/// The scaled values carried by a spot price and an optional smoothed price.
pub open spec fn single_result(
    r: Result<(Decimal, Option<Decimal>), OracleError>,
) -> Result<(nat, Option<nat>), OracleError> {
    match r {
        Ok((p, Some(e))) => Ok((p@, Some(e@))),
        Ok((p, None)) => Ok((p@, None)),
        Err(e) => Err(e),
    }
}

/// The spot price of an oracle account at `clock`, and its smoothed price
/// where the format has one, with the checks of age and confidence.
pub fn get_single_price(
    oracle_account_info: &OracleAccount,
    clock: &Clock,
) -> (r: Result<(Decimal, Option<Decimal>), OracleError>)
    ensures
        single_result(r) == single_price(*oracle_account_info, *clock),
{
    match get_oracle_type(oracle_account_info) {
        Err(e) => Err(e),
        Ok(OracleType::Pyth) => match get_pyth_price(oracle_account_info, clock) {
            Ok((p, e)) => Ok((p, Some(e))),
            Err(e) => Err(e),
        },
        Ok(OracleType::PythPull) => match get_pyth_pull_price(oracle_account_info, clock) {
            Ok((p, e)) => Ok((p, Some(e))),
            Err(e) => Err(e),
        },
        Ok(_) => match get_switchboard_price(oracle_account_info, clock) {
            Ok(p) => Ok((p, None)),
            Err(e) => Err(e),
        },
    }
}

/// The price of an oracle account at `clock` with the checks of age and
/// confidence left out where its format allows; only for display, never for
/// decisions on solvency.
pub fn get_single_price_unchecked(
    oracle_account_info: &OracleAccount,
    clock: &Clock,
) -> (r: Result<Decimal, OracleError>)
    ensures
        decimal_result(r) == single_price_unchecked(*oracle_account_info, *clock),
{
    match get_oracle_type(oracle_account_info) {
        Err(e) => Err(e),
        Ok(OracleType::Pyth) => get_pyth_price_unchecked(oracle_account_info),
        Ok(OracleType::PythPull) => get_pyth_pull_price_unchecked(oracle_account_info),
        Ok(OracleType::Switchboard) => get_switchboard_price_v2(oracle_account_info, clock, false),
        Ok(OracleType::SbOnDemand) => {
            get_switchboard_price_on_demand_unchecked(oracle_account_info)
        },
    }
}

/// The prices that a reserve reads from its oracles.
#[derive(Clone, Copy, Debug, PartialEq, Eq, Structural)]
pub struct ReservePrices {
    /// The primary feed's spot price, after the offset.
    pub spot: Decimal,
    /// The primary feed's smoothed price (its spot price where the format has
    /// none), after the offset.
    pub smoothed: Decimal,
    /// The extra feed's price, unchecked and without the offset, where one is
    /// configured.
    pub extra: Option<Decimal>,
}

/// The extra feed's price: none when no extra feed, or the null sentinel, is
/// configured.
pub open spec fn extra_price(
    extra: Option<OracleAccount>,
    clock: Clock,
) -> Result<Option<nat>, OracleError> {
    match extra {
        None => Ok(None),
        Some(acc) => if is_null_key(acc.key@) {
            Ok(None)
        } else {
            match single_price_unchecked(acc, clock) {
                Ok(p) => Ok(Some(p)),
                Err(e) => Err(e),
            }
        },
    }
}

/// The prices that a reserve with primary feed `primary`, optional extra feed
/// `extra` and offset `offset_bps` reads at `clock`, as scaled values.
pub open spec fn reserve_prices(
    primary: OracleAccount,
    extra: Option<OracleAccount>,
    offset_bps: int,
    clock: Clock,
) -> Result<(nat, nat, Option<nat>), OracleError> {
    match single_price(primary, clock) {
        Err(e) => Err(e),
        Ok((spot, smoothed)) => {
            let smoothed = match smoothed {
                Some(s) => s,
                None => spot,
            };
            match extra_price(extra, clock) {
                Err(e) => Err(e),
                Ok(x) => match offset_decimal(spot, offset_bps) {
                    Err(e) => Err(e),
                    Ok(s) => match offset_decimal(smoothed, offset_bps) {
                        Err(e) => Err(e),
                        Ok(m) => Ok((s, m, x)),
                    },
                },
            }
        },
    }
}

/// The scaled values carried by a reserve's prices.
pub open spec fn reserve_result(
    r: Result<ReservePrices, OracleError>,
) -> Result<(nat, nat, Option<nat>), OracleError> {
    match r {
        Ok(p) => Ok((
            p.spot@,
            p.smoothed@,
            match p.extra {
                Some(x) => Some(x@),
                None => None,
            },
        )),
        Err(e) => Err(e),
    }
}

/// Resolves the prices that a reserve needs: the primary feed with every
/// check, the extra feed (where configured) without the checks of age and
/// confidence, and the offset applied to the primary feed's two prices.
pub fn resolve_reserve_prices(
    primary: &OracleAccount,
    extra: &Option<OracleAccount>,
    price_offset_bps: i64,
    clock: &Clock,
) -> (r: Result<ReservePrices, OracleError>)
    ensures
        reserve_result(r) == reserve_prices(*primary, *extra, price_offset_bps as int, *clock),
{
    let (spot, smoothed) = match get_single_price(primary, clock) {
        Err(e) => return Err(e),
        Ok((p, Some(e))) => (p, e),
        Ok((p, None)) => (p, p),
    };
    let extra_price = match extra {
        None => None,
        Some(acc) => if is_null(acc) {
            None
        } else {
            match get_single_price_unchecked(acc, clock) {
                Ok(p) => Some(p),
                Err(e) => return Err(e),
            }
        },
    };
    let spot = match apply_price_offset(spot, price_offset_bps) {
        Ok(p) => p,
        Err(e) => return Err(e),
    };
    let smoothed = match apply_price_offset(smoothed, price_offset_bps) {
        Ok(p) => p,
        Err(e) => return Err(e),
    };
    Ok(ReservePrices { spot, smoothed, extra: extra_price })
}

} // verus!
