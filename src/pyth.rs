use vstd::prelude::*;

use crate::account::is_null;
use crate::account::is_null_key;
use crate::account::keys_equal;
use crate::account::Clock;
use crate::account::DecodedFeed;
use crate::account::OracleAccount;
use crate::account::PythPullUpdate;
use crate::account::PYTH_MAINNET_ID;
use crate::account::PYTH_PULL_MAINNET_ID;
use crate::decimal::price_decimal;
use crate::decimal::price_to_decimal;
use crate::decimal::decimal_result;
use crate::decimal::Decimal;
use crate::error::OracleError;
use crate::get_oracle_type;
use crate::oracle_type_of;
use crate::OracleType;
use crate::price_account::load_pyth_account;
use crate::price_account::pyth_account_decoded;
use crate::price_account::PythPriceRecord;

verus! {

/// A quote is refused when ten times its confidence exceeds its price.
pub const PYTH_CONFIDENCE_RATIO: u64 = 10;

/// A slot-based quote is stale once this many slots have passed (about two minutes).
pub const STALE_AFTER_SLOTS_ELAPSED: u64 = 240;

/// A time-based quote is stale once this many seconds have passed.
pub const STALE_AFTER_SECONDS_ELAPSED: u64 = 120;

/// Whether a quote published at slot `published` is still fresh at slot `now`:
/// fewer than 240 slots have passed.
pub open spec fn slot_fresh(published: int, now: int) -> bool {
    now - published < STALE_AFTER_SLOTS_ELAPSED
}

/// Whether a quote published at unix time `published` is still fresh at time
/// `now`: fewer than 120 seconds have passed.
pub open spec fn seconds_fresh(published: int, now: int) -> bool {
    now - published < STALE_AFTER_SECONDS_ELAPSED
}

/// Whether a confidence is narrow enough for its price: at most a tenth of it.
pub open spec fn confidence_ok(price: int, conf: int) -> bool {
    conf * PYTH_CONFIDENCE_RATIO <= price
}

/// The price, confidence and publication slot of the quote that a Pyth push
/// account offers: the aggregate when it is trading, else the previous
/// aggregate.
pub open spec fn pyth_selected(a: PythPriceRecord) -> (i64, u64, u64) {
    if a.agg_trading {
        (a.agg_price, a.agg_conf, a.agg_pub_slot)
    } else {
        (a.prev_price, a.prev_conf, a.prev_slot)
    }
}

/// Both conversions, the first error winning.
pub open spec fn both(
    a: Result<nat, OracleError>,
    b: Result<nat, OracleError>,
) -> Result<(nat, nat), OracleError> {
    match a {
        Err(e) => Err(e),
        Ok(x) => match b {
            Err(e) => Err(e),
            Ok(y) => Ok((x, y)),
        },
    }
}

/// The scaled values carried by a pair of prices.
pub open spec fn pair_result(r: Result<(Decimal, Decimal), OracleError>) -> Result<
    (nat, nat),
    OracleError,
> {
    match r {
        Ok((a, b)) => Ok((a@, b@)),
        Err(e) => Err(e),
    }
}

/// The spot and smoothed prices that a Pyth push account gives at slot `now`:
/// a negative price is refused first, then a stale quote, then a wide one.
pub open spec fn pyth_prices(a: PythPriceRecord, now: int) -> Result<(nat, nat), OracleError> {
    let (price, conf, slot) = pyth_selected(a);
    if price < 0 || a.ema_price < 0 {
        Err(OracleError::NegativePrice)
    } else if !slot_fresh(slot as int, now) {
        Err(OracleError::StalePrice)
    } else if !confidence_ok(price as int, conf as int) {
        Err(OracleError::ExcessiveUncertainty)
    } else {
        both(
            price_decimal(price as int, a.expo as int),
            price_decimal(a.ema_price as int, a.expo as int),
        )
    }
}

/// The price that a Pyth push account shows with no check of age or
/// confidence: the aggregate when it is trading, else the previous aggregate.
pub open spec fn pyth_unchecked_price(a: PythPriceRecord) -> Result<nat, OracleError> {
    price_decimal(pyth_selected(a).0 as int, a.expo as int)
}

/// The spot and smoothed prices that a Pyth pull update gives at unix time `now`.
pub open spec fn pyth_pull_prices(u: PythPullUpdate, now: int) -> Result<(nat, nat), OracleError> {
    if !u.fully_verified {
        Err(OracleError::SchemaMismatch)
    } else if u.price < 0 || u.ema_price < 0 {
        Err(OracleError::NegativePrice)
    } else if !seconds_fresh(u.publish_time as int, now) {
        Err(OracleError::StalePrice)
    } else if !confidence_ok(u.price as int, u.conf as int) {
        Err(OracleError::ExcessiveUncertainty)
    } else {
        both(
            price_decimal(u.price as int, u.exponent as int),
            price_decimal(u.ema_price as int, u.exponent as int),
        )
    }
}

/// The confidence boundary is inclusive on the accepting side: a fresh quote
/// whose confidence times ten equals its price passes the confidence check,
/// and one whose confidence times ten is its price plus one is refused.
pub proof fn lemma_confidence_boundary(
    a: PythPriceRecord,
    now_slot: int,
    u: PythPullUpdate,
    now_time: int,
)
    requires
        a.agg_trading,
        slot_fresh(a.agg_pub_slot as int, now_slot),
        a.agg_price >= 0,
        a.ema_price >= 0,
        u.fully_verified,
        u.price >= 0,
        u.ema_price >= 0,
        seconds_fresh(u.publish_time as int, now_time),
    ensures
        a.agg_conf * 10 == a.agg_price ==> pyth_prices(a, now_slot) == both(
            price_decimal(a.agg_price as int, a.expo as int),
            price_decimal(a.ema_price as int, a.expo as int),
        ),
        a.agg_conf * 10 == a.agg_price + 1 ==> pyth_prices(a, now_slot) == Err::<
            (nat, nat),
            OracleError,
        >(OracleError::ExcessiveUncertainty),
        u.conf * 10 == u.price ==> pyth_pull_prices(u, now_time) == both(
            price_decimal(u.price as int, u.exponent as int),
            price_decimal(u.ema_price as int, u.exponent as int),
        ),
        u.conf * 10 == u.price + 1 ==> pyth_pull_prices(u, now_time) == Err::<
            (nat, nat),
            OracleError,
        >(OracleError::ExcessiveUncertainty),
{
}

/// The staleness boundary is exclusive: a quote 239 slots (or 119 seconds)
/// old is fresh and one 240 slots (or 120 seconds) old is stale. A trading
/// Pyth push aggregate with non-negative prices is thus refused as stale 240
/// slots after its publication, whatever the previous aggregate holds.
pub proof fn lemma_staleness_boundary(published: int, a: PythPriceRecord, u: PythPullUpdate)
    ensures
        slot_fresh(published, published + 239),
        !slot_fresh(published, published + 240),
        seconds_fresh(published, published + 119),
        !seconds_fresh(published, published + 120),
        a.agg_trading && a.agg_price >= 0 && a.ema_price >= 0 ==> pyth_prices(
            a,
            a.agg_pub_slot + 240,
        ) == Err::<(nat, nat), OracleError>(OracleError::StalePrice),
        u.fully_verified && u.price >= 0 && u.ema_price >= 0 ==> pyth_pull_prices(
            u,
            u.publish_time + 120,
        ) == Err::<(nat, nat), OracleError>(OracleError::StalePrice),
{
}

/// A negative price is refused as such, before any check of age or
/// confidence: by the conversion; by a Pyth push account whose offered quote
/// (the aggregate, when it is trading) or smoothed price is negative, at any
/// slot; and by a verified Pyth pull update whose price or smoothed price is
/// negative, at any time.
pub proof fn lemma_negative_price_rejected(
    price: int,
    expo: int,
    a: PythPriceRecord,
    now_slot: int,
    u: PythPullUpdate,
    now_time: int,
)
    ensures
        price < 0 ==> price_decimal(price, expo) == Err::<nat, OracleError>(
            OracleError::NegativePrice,
        ),
        a.agg_trading && a.agg_price < 0 ==> pyth_prices(a, now_slot) == Err::<
            (nat, nat),
            OracleError,
        >(OracleError::NegativePrice),
        pyth_selected(a).0 < 0 || a.ema_price < 0 ==> pyth_prices(a, now_slot) == Err::<
            (nat, nat),
            OracleError,
        >(OracleError::NegativePrice),
        u.fully_verified && (u.price < 0 || u.ema_price < 0) ==> pyth_pull_prices(u, now_time)
            == Err::<(nat, nat), OracleError>(OracleError::NegativePrice),
{
}

/// Whether ten times `conf` exceeds `price`.
fn confidence_too_wide(price: i64, conf: u64) -> (r: bool)
    requires
        price >= 0,
    ensures
        r == !confidence_ok(price as int, conf as int),
{
    conf as u128 * PYTH_CONFIDENCE_RATIO as u128 > price as u128
}

/// Whether fewer than 240 slots lie between `published` and `now`.
pub fn is_slot_fresh(published: u64, now: u64) -> (r: bool)
    ensures
        r == slot_fresh(published as int, now as int),
{
    now < published || now - published < STALE_AFTER_SLOTS_ELAPSED
}

/// Converts a validated quote and its smoothed price.
fn quote_to_decimals(
    price: i64,
    ema_price: i64,
    expo: i32,
) -> (r: Result<(Decimal, Decimal), OracleError>)
    ensures
        pair_result(r) == both(
            price_decimal(price as int, expo as int),
            price_decimal(ema_price as int, expo as int),
        ),
{
    let market = match price_to_decimal(price, expo) {
        Ok(d) => d,
        Err(e) => return Err(e),
    };
    let ema = match price_to_decimal(ema_price, expo) {
        Ok(d) => d,
        Err(e) => return Err(e),
    };
    Ok((market, ema))
}

/// The spot and smoothed prices of a decoded Pyth push account at `clock`.
pub fn pyth_record_price(
    record: &PythPriceRecord,
    clock: &Clock,
) -> (r: Result<(Decimal, Decimal), OracleError>)
    ensures
        pair_result(r) == pyth_prices(*record, clock.slot as int),
{
    let (price, conf, slot) = if record.agg_trading {
        (record.agg_price, record.agg_conf, record.agg_pub_slot)
    } else {
        (record.prev_price, record.prev_conf, record.prev_slot)
    };
    if price < 0 || record.ema_price < 0 {
        return Err(OracleError::NegativePrice);
    }
    if !is_slot_fresh(slot, clock.slot) {
        return Err(OracleError::StalePrice);
    }
    if confidence_too_wide(price, conf) {
        return Err(OracleError::ExcessiveUncertainty);
    }
    quote_to_decimals(price, record.ema_price, record.expo)
}

/// The spot and smoothed prices of a decoded Pyth pull update at `clock`.
pub fn pyth_pull_update_price(
    update: &PythPullUpdate,
    clock: &Clock,
) -> (r: Result<(Decimal, Decimal), OracleError>)
    ensures
        pair_result(r) == pyth_pull_prices(*update, clock.unix_timestamp as int),
{
    if !update.fully_verified {
        return Err(OracleError::SchemaMismatch);
    }
    if update.price < 0 || update.ema_price < 0 {
        return Err(OracleError::NegativePrice);
    }
    let elapsed: i128 = clock.unix_timestamp as i128 - update.publish_time as i128;
    if elapsed >= STALE_AFTER_SECONDS_ELAPSED as i128 {
        return Err(OracleError::StalePrice);
    }
    if confidence_too_wide(update.price, update.conf) {
        return Err(OracleError::ExcessiveUncertainty);
    }
    quote_to_decimals(update.price, update.ema_price, update.exponent)
}

/// Validates a Pyth oracle account when a reserve is configured: the null
/// sentinel is accepted, a push or pull account must be well formed, and an
/// account of any other known format is refused.
pub fn validate_pyth_keys(pyth_price_info: &OracleAccount) -> (r: Result<(), OracleError>)
    ensures
        r == (if is_null_key(pyth_price_info.key@) {
            Ok(())
        } else {
            match oracle_type_of(pyth_price_info.owner@) {
                None => Err(OracleError::UnrecognizedOracleFormat),
                Some(OracleType::Pyth) => match pyth_account_decoded(pyth_price_info.data@) {
                    Some(_) => Ok(()),
                    None => Err(OracleError::SchemaMismatch),
                },
                Some(OracleType::PythPull) => match pyth_price_info.decoded {
                    DecodedFeed::PythPull(_) => Ok(()),
                    _ => Err(OracleError::SchemaMismatch),
                },
                Some(_) => Err(OracleError::AccountIdentityMismatch),
            }
        }),
{
    if is_null(pyth_price_info) {
        return Ok(());
    }
    match get_oracle_type(pyth_price_info) {
        Err(e) => Err(e),
        Ok(OracleType::Pyth) => validate_pyth_price_account_info(pyth_price_info),
        Ok(OracleType::PythPull) => validate_pyth_pull_price_account_info(pyth_price_info),
        Ok(_) => Err(OracleError::AccountIdentityMismatch),
    }
}

/// Validates a Pyth push account: it must be owned by the Pyth program and its
/// bytes must hold a price account.
pub fn validate_pyth_price_account_info(
    pyth_price_info: &OracleAccount,
) -> (r: Result<(), OracleError>)
    ensures
        r == (if pyth_price_info.owner@ != PYTH_MAINNET_ID@ {
            Err(OracleError::AccountIdentityMismatch)
        } else {
            match pyth_account_decoded(pyth_price_info.data@) {
                Some(_) => Ok(()),
                None => Err(OracleError::SchemaMismatch),
            }
        }),
{
    if !keys_equal(&pyth_price_info.owner, &PYTH_MAINNET_ID) {
        return Err(OracleError::AccountIdentityMismatch);
    }
    match load_pyth_account(&pyth_price_info.data) {
        Some(_) => Ok(()),
        None => Err(OracleError::SchemaMismatch),
    }
}

/// Validates a Pyth pull account: it must be owned by the Pyth receiver
/// program and its bytes must hold a price update.
pub fn validate_pyth_pull_price_account_info(
    pyth_price_info: &OracleAccount,
) -> (r: Result<(), OracleError>)
    ensures
        r == (if pyth_price_info.owner@ != PYTH_PULL_MAINNET_ID@ {
            Err(OracleError::AccountIdentityMismatch)
        } else {
            match pyth_price_info.decoded {
                DecodedFeed::PythPull(_) => Ok(()),
                _ => Err(OracleError::SchemaMismatch),
            }
        }),
{
    if !keys_equal(&pyth_price_info.owner, &PYTH_PULL_MAINNET_ID) {
        return Err(OracleError::AccountIdentityMismatch);
    }
    match pyth_price_info.decoded {
        DecodedFeed::PythPull(_) => Ok(()),
        _ => Err(OracleError::SchemaMismatch),
    }
}

/// The price that a Pyth push account shows with no check of age or
/// confidence: missing for the null sentinel, refused when its bytes hold no
/// price account.
pub open spec fn pyth_account_unchecked(a: OracleAccount) -> Result<nat, OracleError> {
    if is_null_key(a.key@) {
        Err(OracleError::MissingOracle)
    } else {
        match pyth_account_decoded(a.data@) {
            None => Err(OracleError::SchemaMismatch),
            Some(p) => pyth_unchecked_price(p),
        }
    }
}

/// The price of a Pyth push account with no check of age or confidence; only
/// for display, never for decisions on solvency.
pub fn get_pyth_price_unchecked(
    pyth_price_info: &OracleAccount,
) -> (r: Result<Decimal, OracleError>)
    ensures
        decimal_result(r) == pyth_account_unchecked(*pyth_price_info),
{
    if is_null(pyth_price_info) {
        return Err(OracleError::MissingOracle);
    }
    let record = match load_pyth_account(&pyth_price_info.data) {
        Some(a) => a,
        None => return Err(OracleError::SchemaMismatch),
    };
    if record.agg_trading {
        price_to_decimal(record.agg_price, record.expo)
    } else {
        price_to_decimal(record.prev_price, record.expo)
    }
}

/// The price that a Pyth pull account shows with no check of age,
/// verification or confidence: the account must be owned by the receiver
/// program and hold a price update.
pub open spec fn pyth_pull_account_unchecked(a: OracleAccount) -> Result<nat, OracleError> {
    if a.owner@ != PYTH_PULL_MAINNET_ID@ {
        Err(OracleError::AccountIdentityMismatch)
    } else {
        match a.decoded {
            DecodedFeed::PythPull(u) => price_decimal(u.price as int, u.exponent as int),
            _ => Err(OracleError::SchemaMismatch),
        }
    }
}

/// The price of a Pyth pull account with no check of age, verification or
/// confidence; only for display, never for decisions on solvency.
pub fn get_pyth_pull_price_unchecked(
    pyth_price_info: &OracleAccount,
) -> (r: Result<Decimal, OracleError>)
    ensures
        decimal_result(r) == pyth_pull_account_unchecked(*pyth_price_info),
{
    if !keys_equal(&pyth_price_info.owner, &PYTH_PULL_MAINNET_ID) {
        return Err(OracleError::AccountIdentityMismatch);
    }
    match pyth_price_info.decoded {
        DecodedFeed::PythPull(u) => price_to_decimal(u.price, u.exponent),
        _ => Err(OracleError::SchemaMismatch),
    }
}

/// The spot and smoothed prices that a Pyth push account gives at slot `now`:
/// missing for the null sentinel, refused when its bytes hold no price account.
pub open spec fn pyth_account_prices(
    a: OracleAccount,
    now: int,
) -> Result<(nat, nat), OracleError> {
    if is_null_key(a.key@) {
        Err(OracleError::MissingOracle)
    } else {
        match pyth_account_decoded(a.data@) {
            None => Err(OracleError::SchemaMismatch),
            Some(p) => pyth_prices(p, now),
        }
    }
}

/// The spot and smoothed prices of a Pyth push account at `clock`, with the
/// checks of age and confidence.
pub fn get_pyth_price(
    pyth_price_info: &OracleAccount,
    clock: &Clock,
) -> (r: Result<(Decimal, Decimal), OracleError>)
    ensures
        pair_result(r) == pyth_account_prices(*pyth_price_info, clock.slot as int),
{
    if is_null(pyth_price_info) {
        return Err(OracleError::MissingOracle);
    }
    match load_pyth_account(&pyth_price_info.data) {
        Some(record) => pyth_record_price(&record, clock),
        None => Err(OracleError::SchemaMismatch),
    }
}

/// The spot and smoothed prices that a Pyth pull account gives at unix time
/// `now`: missing for the null sentinel, refused when it holds no price update.
pub open spec fn pyth_pull_account_prices(
    a: OracleAccount,
    now: int,
) -> Result<(nat, nat), OracleError> {
    if is_null_key(a.key@) {
        Err(OracleError::MissingOracle)
    } else {
        match a.decoded {
            DecodedFeed::PythPull(u) => pyth_pull_prices(u, now),
            _ => Err(OracleError::SchemaMismatch),
        }
    }
}

/// The spot and smoothed prices of a Pyth pull account at `clock`, with the
/// checks of verification, age and confidence.
pub fn get_pyth_pull_price(
    pyth_price_info: &OracleAccount,
    clock: &Clock,
) -> (r: Result<(Decimal, Decimal), OracleError>)
    ensures
        pair_result(r) == pyth_pull_account_prices(*pyth_price_info, clock.unix_timestamp as int),
{
    if is_null(pyth_price_info) {
        return Err(OracleError::MissingOracle);
    }
    match pyth_price_info.decoded {
        DecodedFeed::PythPull(u) => pyth_pull_update_price(&u, clock),
        _ => Err(OracleError::SchemaMismatch),
    }
}

} // verus!
