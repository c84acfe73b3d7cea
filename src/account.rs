use vstd::prelude::*;

verus! {

/// The key of the null sentinel account, which stands for "no oracle configured".
pub const NULL_KEY: [u8; 32] = [
    11, 193, 238, 216, 208, 116, 241, 195, 55, 212, 76, 22, 75, 202, 40, 216, 76, 206, 27, 169,
    138, 64, 177, 28, 19, 90, 156, 0, 0, 0, 0, 0,
];

/// Owning program of Pyth push price accounts.
pub const PYTH_MAINNET_ID: [u8; 32] = [
    220, 229, 235, 225, 228, 156, 59, 159, 17, 76, 181, 84, 76, 80, 169, 158, 192, 214, 146, 214,
    63, 86, 121, 90, 224, 41, 172, 131, 217, 234, 139, 226,
];

/// Owning program of Pyth pull price update accounts.
pub const PYTH_PULL_MAINNET_ID: [u8; 32] = [
    12, 183, 250, 187, 82, 247, 166, 72, 187, 91, 49, 125, 154, 1, 139, 144, 87, 203, 2, 71, 116,
    250, 254, 1, 230, 196, 223, 152, 204, 56, 88, 129,
];

/// Owning program of Switchboard v2 aggregator accounts on the production network.
pub const SWITCHBOARD_V2_MAINNET_ID: [u8; 32] = [
    6, 136, 81, 198, 140, 104, 50, 240, 47, 165, 129, 177, 191, 73, 27, 119, 202, 65, 119, 107,
    162, 185, 136, 181, 166, 250, 186, 142, 227, 162, 236, 144,
];

/// Owning program of Switchboard v2 aggregator accounts on the test network.
pub const SWITCHBOARD_V2_DEVNET_ID: [u8; 32] = [
    21, 175, 243, 73, 45, 68, 245, 12, 42, 213, 156, 141, 129, 194, 65, 181, 115, 202, 11, 225,
    119, 62, 247, 42, 73, 206, 175, 81, 212, 253, 178, 45,
];

/// Owning program of Switchboard on-demand feed accounts (the same on both networks).
pub const SWITCHBOARD_ON_DEMAND_ID: [u8; 32] = [
    6, 115, 189, 70, 242, 228, 126, 4, 241, 43, 217, 47, 183, 49, 150, 142, 205, 157, 151, 87,
    194, 116, 218, 135, 71, 111, 70, 92, 4, 12, 101, 115,
];

/// The moment at which a price is resolved.
#[derive(Clone, Copy, Debug)]
pub struct Clock {
    pub slot: u64,
    pub unix_timestamp: i64,
}

/// A Switchboard fixed-point value: `mantissa / 10^scale`.
#[derive(Clone, Copy, Debug, PartialEq, Eq, Structural)]
pub struct SwitchboardDecimal {
    pub mantissa: i128,
    pub scale: u32,
}

/// What a Pyth pull price update account holds, as read from its bytes.
#[derive(Clone, Copy, Debug)]
pub struct PythPullUpdate {
    /// Whether the update was verified by a full quorum of guardians.
    pub fully_verified: bool,
    pub price: i64,
    pub conf: u64,
    pub exponent: i32,
    /// Unix time, in seconds, at which the price was published.
    pub publish_time: i64,
    pub ema_price: i64,
    pub ema_conf: u64,
}

/// What a Switchboard v2 aggregator account holds, as read from its bytes.
#[derive(Clone, Copy, Debug)]
pub struct SwitchboardRound {
    /// The slot at which the latest confirmed round opened.
    pub round_open_slot: u64,
    /// The round's result, or `None` when the aggregator refuses to report it.
    pub result: Option<SwitchboardDecimal>,
}

/// What a Switchboard on-demand feed account holds, as read from its bytes.
#[derive(Clone, Copy, Debug)]
pub struct SbOnDemandFeed {
    /// The slot of the feed's current result.
    pub result_slot: u64,
    /// The current value, or `None` when the feed has none.
    pub value: Option<SwitchboardDecimal>,
    /// The width of the current value's uncertainty range, or `None`.
    pub range: Option<SwitchboardDecimal>,
}

/// The contents of a feed account whose layout is read outside this library.
#[derive(Clone, Copy, Debug)]
pub enum DecodedFeed {
    /// The bytes were not decoded, or did not decode under the owner's format.
    Unparsed,
    PythPull(PythPullUpdate),
    Switchboard(SwitchboardRound),
    SbOnDemand(SbOnDemandFeed),
}

/// An oracle account as handed to the library: its key, its owning program,
/// its raw bytes, and its contents where their layout is read elsewhere.
#[derive(Clone, Debug)]
pub struct OracleAccount {
    pub key: [u8; 32],
    pub owner: [u8; 32],
    pub data: Vec<u8>,
    pub decoded: DecodedFeed,
}

/// Whether two account keys are equal.
pub fn keys_equal(a: &[u8; 32], b: &[u8; 32]) -> (r: bool)
    ensures
        r == (a@ == b@),
{
    let mut i: usize = 0;
    while i < 32
        invariant
            i <= 32,
            a@.len() == 32,
            b@.len() == 32,
            forall|j: int| 0 <= j < i ==> a@[j] == b@[j],
        decreases 32 - i,
    {
        if a[i] != b[i] {
            return false;
        }
        i = i + 1;
    }
    assert(a@ =~= b@);
    true
}

/// Whether `key` is the null sentinel.
pub open spec fn is_null_key(key: Seq<u8>) -> bool {
    key == NULL_KEY@
}

/// Whether the account's key is the null sentinel.
pub fn is_null(account: &OracleAccount) -> (r: bool)
    ensures
        r == is_null_key(account.key@),
{
    keys_equal(&account.key, &NULL_KEY)
}

} // verus!
