use vstd::prelude::*;

use pyth_sdk_solana::state::PriceStatus;

verus! {

/// The size of a Pyth push price account, in bytes.
pub const PRICE_ACCOUNT_LEN: usize = 3312;

/// The magic number that opens every Pyth account.
pub const PYTH_MAGIC: u32 = 0xa1b2c3d4;

/// The account layout version that is read.
pub const PYTH_VERSION: u32 = 2;

/// The account type tag of a price account.
pub const PRICE_ACCOUNT_TYPE: u32 = 3;

/// Where the fields of a price account lie (its layout is `repr(C)`).
pub const MAGIC_OFFSET: usize = 0;
pub const VERSION_OFFSET: usize = 4;
pub const ACCOUNT_TYPE_OFFSET: usize = 8;
pub const PRICE_TYPE_OFFSET: usize = 16;
pub const EXPO_OFFSET: usize = 20;
pub const EMA_PRICE_OFFSET: usize = 48;
pub const PREV_SLOT_OFFSET: usize = 176;
pub const PREV_PRICE_OFFSET: usize = 184;
pub const PREV_CONF_OFFSET: usize = 192;
pub const AGG_OFFSET: usize = 208;
pub const COMP_OFFSET: usize = 240;

/// Where the fields of a price record (the aggregate and each component's two
/// records) lie, from the record's start.
pub const INFO_PRICE_OFFSET: usize = 0;
pub const INFO_CONF_OFFSET: usize = 8;
pub const INFO_STATUS_OFFSET: usize = 16;
pub const INFO_PUB_SLOT_OFFSET: usize = 24;

/// A component: a publisher key, then its aggregate and latest price records.
pub const COMP_LEN: usize = 96;
pub const COMP_AGG_OFFSET: usize = 32;
pub const COMP_LATEST_OFFSET: usize = 64;
pub const COMP_COUNT: usize = 32;

/// The status byte of a trading price, and the largest valid status.
pub const STATUS_TRADING: u8 = 1;
pub const STATUS_MAX: u8 = 4;

/// The largest valid price type.
pub const PRICE_TYPE_MAX: u8 = 1;

/// The fields of a Pyth push price account that price resolution reads.
#[derive(Clone, Copy, Debug)]
pub struct PythPriceRecord {
    pub expo: i32,
    pub agg_price: i64,
    pub agg_conf: u64,
    /// Whether the aggregate price has the status "trading".
    pub agg_trading: bool,
    pub agg_pub_slot: u64,
    pub prev_price: i64,
    pub prev_conf: u64,
    pub prev_slot: u64,
    pub ema_price: i64,
}

/// The unsigned little-endian integer in the `n` bytes of `s` from `at`.
pub open spec fn le_uint(s: Seq<u8>, at: int, n: nat) -> nat
    decreases n,
{
    if n == 0 {
        0
    } else {
        s[at] as nat + 256 * le_uint(s, at + 1, (n - 1) as nat)
    }
}

/// The two's-complement 32-bit integer in the four bytes of `s` from `at`.
pub open spec fn le_i32(s: Seq<u8>, at: int) -> int {
    let u = le_uint(s, at, 4);
    if u >= 0x8000_0000 {
        u - 0x1_0000_0000
    } else {
        u as int
    }
}

/// The two's-complement 64-bit integer in the eight bytes of `s` from `at`.
pub open spec fn le_i64(s: Seq<u8>, at: int) -> int {
    let u = le_uint(s, at, 8);
    if u >= 0x8000_0000_0000_0000 {
        u - 0x1_0000_0000_0000_0000
    } else {
        u as int
    }
}

/// Whether the price record at `at` holds a valid status and corporate action.
pub open spec fn info_enums_ok(s: Seq<u8>, at: int) -> bool {
    s[at + INFO_STATUS_OFFSET] <= STATUS_MAX && s[at + INFO_STATUS_OFFSET + 1] == 0
}

/// Whether both price records of component `i` hold valid enum bytes.
pub open spec fn comp_enums_ok(s: Seq<u8>, i: int) -> bool {
    let base = COMP_OFFSET + COMP_LEN * i;
    info_enums_ok(s, base + COMP_AGG_OFFSET) && info_enums_ok(s, base + COMP_LATEST_OFFSET)
}

/// Whether every enum field of the price account in `s` holds one of its
/// variants (vacuous when `s` is too short to hold an account).
pub open spec fn pyth_enums_valid(s: Seq<u8>) -> bool {
    s.len() >= PRICE_ACCOUNT_LEN ==> {
        &&& s[PRICE_TYPE_OFFSET as int] <= PRICE_TYPE_MAX
        &&& info_enums_ok(s, AGG_OFFSET as int)
        &&& forall|i: int| 0 <= i < COMP_COUNT ==> #[trigger] comp_enums_ok(s, i)
    }
}

/// Whether `s` opens with a price account's header.
pub open spec fn pyth_header_ok(s: Seq<u8>) -> bool {
    &&& s.len() >= PRICE_ACCOUNT_LEN
    &&& le_uint(s, MAGIC_OFFSET as int, 4) == PYTH_MAGIC
    &&& le_uint(s, VERSION_OFFSET as int, 4) == PYTH_VERSION
    &&& le_uint(s, ACCOUNT_TYPE_OFFSET as int, 4) == PRICE_ACCOUNT_TYPE
}

/// The fields of the price account that `s` holds, read at their offsets, or
/// `None` when `s` does not open with a price account's header.
pub open spec fn pyth_price_account_of(s: Seq<u8>) -> Option<PythPriceRecord> {
    if pyth_header_ok(s) {
        let agg = AGG_OFFSET as int;
        Some(
            PythPriceRecord {
                expo: le_i32(s, EXPO_OFFSET as int) as i32,
                agg_price: le_i64(s, agg + INFO_PRICE_OFFSET) as i64,
                agg_conf: le_uint(s, agg + INFO_CONF_OFFSET, 8) as u64,
                agg_trading: s[agg + INFO_STATUS_OFFSET] == STATUS_TRADING,
                agg_pub_slot: le_uint(s, agg + INFO_PUB_SLOT_OFFSET, 8) as u64,
                prev_price: le_i64(s, PREV_PRICE_OFFSET as int) as i64,
                prev_conf: le_uint(s, PREV_CONF_OFFSET as int, 8) as u64,
                prev_slot: le_uint(s, PREV_SLOT_OFFSET as int, 8) as u64,
                ema_price: le_i64(s, EMA_PRICE_OFFSET as int) as i64,
            },
        )
    } else {
        None
    }
}

/// What the library reads from the bytes of a Pyth push account: nothing
/// when an enum field holds an invalid byte, else the price account's fields.
pub open spec fn pyth_account_decoded(s: Seq<u8>) -> Option<PythPriceRecord> {
    if pyth_enums_valid(s) {
        pyth_price_account_of(s)
    } else {
        None
    }
}

/// Relies on `pyth_sdk_solana::state::load_price_account`: it refuses bytes
/// shorter than the account, or whose magic number, version or account type
/// differ from a price account's, and otherwise views the first
/// `PRICE_ACCOUNT_LEN` bytes as the `repr(C)` account. The view panics on a
/// misaligned buffer, so the bytes are first copied into `words` 8-byte
/// words; a byte that is no variant of an enum field would be undefined, so
/// the caller has checked them.
#[verifier::external_body]
fn load_price_account(data: &Vec<u8>, words: usize) -> (r: Option<PythPriceRecord>)
    requires
        data@.len() <= 8 * words,
        pyth_enums_valid(data@),
    ensures
        r == pyth_price_account_of(data@),
{
    let mut aligned: Vec<u64> = vec![0; words];
    let bytes = &mut bytemuck::cast_slice_mut::<u64, u8>(&mut aligned)[..data.len()];
    bytes.copy_from_slice(data);
    match pyth_sdk_solana::state::load_price_account::<32, ()>(bytes) {
        Ok(a) => Some(PythPriceRecord {
            expo: a.expo, ema_price: a.ema_price.val,
            agg_price: a.agg.price, agg_conf: a.agg.conf, agg_pub_slot: a.agg.pub_slot,
            agg_trading: matches!(a.agg.status, PriceStatus::Trading),
            prev_price: a.prev_price, prev_conf: a.prev_conf, prev_slot: a.prev_slot,
        }),
        Err(_) => None,
    }
}

/// Whether the price record at `at` holds a valid status and corporate action.
fn info_enums_valid(data: &Vec<u8>, at: usize) -> (r: bool)
    requires
        at + INFO_STATUS_OFFSET + 1 < data@.len(),
    ensures
        r == info_enums_ok(data@, at as int),
{
    let n = data.len();
    assert(at + INFO_STATUS_OFFSET + 1 < n);
    data[at + INFO_STATUS_OFFSET] <= STATUS_MAX && data[at + INFO_STATUS_OFFSET + 1] == 0
}

/// Whether every enum field of the price account in `data` holds one of its
/// variants.
pub fn pyth_enums_ok(data: &Vec<u8>) -> (r: bool)
    ensures
        r == pyth_enums_valid(data@),
{
    if data.len() < PRICE_ACCOUNT_LEN {
        return true;
    }
    if data[PRICE_TYPE_OFFSET] > PRICE_TYPE_MAX || !info_enums_valid(data, AGG_OFFSET) {
        return false;
    }
    let mut i: usize = 0;
    while i < COMP_COUNT
        invariant
            i <= COMP_COUNT,
            data@.len() >= PRICE_ACCOUNT_LEN,
            forall|j: int| 0 <= j < i ==> #[trigger] comp_enums_ok(data@, j),
        decreases COMP_COUNT - i,
    {
        let base: usize = COMP_OFFSET + COMP_LEN * i;
        let agg_ok = info_enums_valid(data, base + COMP_AGG_OFFSET);
        let latest_ok = info_enums_valid(data, base + COMP_LATEST_OFFSET);
        if !agg_ok || !latest_ok {
            assert(!comp_enums_ok(data@, i as int));
            return false;
        }
        assert(comp_enums_ok(data@, i as int));
        i = i + 1;
    }
    true
}

/// Reads the fields of the Pyth push price account held in `data`.
pub fn load_pyth_account(data: &Vec<u8>) -> (r: Option<PythPriceRecord>)
    ensures
        r == pyth_account_decoded(data@),
{
    if !pyth_enums_ok(data) {
        return None;
    }
    let words: usize = data.len() / 8 + 1;
    load_price_account(data, words)
}

} // verus!
