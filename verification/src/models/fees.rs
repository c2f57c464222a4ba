//! Fees and the limits on them.
use super::error::SdkError;
use super::types::{
    BuyBitcoinRequest, Fee, FeePolicy, MaxFee, OnchainConfirmationSpeed, SendOnchainFeeQuote,
    SendOnchainSpeedFeeQuote,
};
use crate::text::{decimal, decimal_text, join};
use vstd::prelude::*;
use vstd::std_specs::convert::{FromSpec, FromSpecImpl};
use vstd::string::*;

verus! {

broadcast use vstd::string::group_string_axioms;

/// The number, or the largest one that fits where it is larger.
pub open spec fn capped(v: int) -> u64 {
    if v > u64::MAX {
        u64::MAX
    } else {
        v as u64
    }
}

impl Default for FeePolicy {
    fn default() -> (res: FeePolicy)
        ensures
            res == FeePolicy::FeesExcluded,
    {
        FeePolicy::FeesExcluded
    }
}

impl Default for BuyBitcoinRequest {
    fn default() -> (res: BuyBitcoinRequest)
        ensures
            res == (BuyBitcoinRequest::Moonpay { locked_amount_sat: None, redirect_url: None }),
    {
        BuyBitcoinRequest::Moonpay { locked_amount_sat: None, redirect_url: None }
    }
}

impl MaxFee {
    /// Whether the limit follows the network's recommended fees.
    pub fn needs_recommended_fees(&self) -> (res: bool)
        ensures
            res == (self is NetworkRecommended),
    {
        match self {
            MaxFee::NetworkRecommended { .. } => true,
            MaxFee::Fixed { .. } | MaxFee::Rate { .. } => false,
        }
    }

    /// The limit as a fee. `fastest_fee` is the fastest recommended rate, or why
    /// there is none; only a limit that follows it looks at it.
    pub fn to_fee(&self, fastest_fee: Result<u64, SdkError>) -> (res: Result<Fee, SdkError>)
        ensures
            match *self {
                MaxFee::Fixed { amount } => res == Ok::<Fee, SdkError>(Fee::Fixed { amount }),
                MaxFee::Rate { sat_per_vbyte } => res == Ok::<Fee, SdkError>(
                    Fee::Rate { sat_per_vbyte },
                ),
                MaxFee::NetworkRecommended { leeway_sat_per_vbyte } => match fastest_fee {
                    Ok(fastest) => res == Ok::<Fee, SdkError>(
                        Fee::Rate { sat_per_vbyte: capped(fastest + leeway_sat_per_vbyte) },
                    ),
                    Err(e) => res == Err::<Fee, SdkError>(e),
                },
            },
    {
        match self {
            MaxFee::Fixed { amount } => Ok(Fee::Fixed { amount: *amount }),
            MaxFee::Rate { sat_per_vbyte } => Ok(Fee::Rate { sat_per_vbyte: *sat_per_vbyte }),
            MaxFee::NetworkRecommended { leeway_sat_per_vbyte } => match fastest_fee {
                Ok(fastest) => Ok(
                    Fee::Rate { sat_per_vbyte: fastest.saturating_add(*leeway_sat_per_vbyte) },
                ),
                Err(e) => Err(e),
            },
        }
    }

    pub fn to_string(&self) -> (res: String)
        ensures
            res@ == match *self {
                MaxFee::Fixed { amount } => "Fixed: "@ + decimal(amount as nat),
                MaxFee::Rate { sat_per_vbyte } => "Rate: "@ + decimal(sat_per_vbyte as nat),
                MaxFee::NetworkRecommended { leeway_sat_per_vbyte } => "NetworkRecommended: "@
                    + decimal(leeway_sat_per_vbyte as nat),
            },
    {
        match self {
            MaxFee::Fixed { amount } => join("Fixed: ", decimal_text(*amount as u128).as_str()),
            MaxFee::Rate { sat_per_vbyte } => join(
                "Rate: ",
                decimal_text(*sat_per_vbyte as u128).as_str(),
            ),
            MaxFee::NetworkRecommended { leeway_sat_per_vbyte } => join(
                "NetworkRecommended: ",
                decimal_text(*leeway_sat_per_vbyte as u128).as_str(),
            ),
        }
    }
}

impl Fee {
    /// The fee of a transaction of that size, in satoshis.
    pub open spec fn sats(self, vbytes: u64) -> u64 {
        match self {
            Fee::Fixed { amount } => amount,
            Fee::Rate { sat_per_vbyte } => capped(sat_per_vbyte * vbytes),
        }
    }

    /// The fee of a transaction of that size, in satoshis.
    pub fn to_sats(&self, vbytes: u64) -> (res: u64)
        ensures
            res == self.sats(vbytes),
    {
        match self {
            Fee::Fixed { amount } => *amount,
            Fee::Rate { sat_per_vbyte } => {
                let (a, b) = (*sat_per_vbyte, vbytes);
                assert(a * b <= 0xffff_ffff_ffff_ffff * 0xffff_ffff_ffff_ffff) by (nonlinear_arith)
                    requires
                        0 <= a <= 0xffff_ffff_ffff_ffff,
                        0 <= b <= 0xffff_ffff_ffff_ffff,
                ;
                let product: u128 = a as u128 * b as u128;
                if product > u64::MAX as u128 {
                    u64::MAX
                } else {
                    product as u64
                }
            },
        }
    }
}

/// A larger transaction never costs less.
pub proof fn fees_grow_with_size(fee: Fee, smaller: u64, larger: u64)
    requires
        smaller <= larger,
    ensures
        fee.sats(smaller) <= fee.sats(larger),
{
    if let Fee::Rate { sat_per_vbyte } = fee {
        assert(sat_per_vbyte * smaller <= sat_per_vbyte * larger) by (nonlinear_arith)
            requires
                smaller <= larger,
                0 <= sat_per_vbyte,
        ;
    }
}

/// A fee as the wallet takes it.
#[derive(Clone, Copy, Debug, PartialEq, Eq, Structural)]
pub enum WalletFee {
    Fixed { amount: u64 },
    Rate { sat_per_vbyte: u64 },
}

impl From<Fee> for WalletFee {
    fn from(fee: Fee) -> (res: WalletFee) {
        match fee {
            Fee::Fixed { amount } => WalletFee::Fixed { amount },
            Fee::Rate { sat_per_vbyte } => WalletFee::Rate { sat_per_vbyte },
        }
    }
}

impl FromSpecImpl<Fee> for WalletFee {
    open spec fn obeys_from_spec() -> bool {
        true
    }

    open spec fn from_spec(fee: Fee) -> WalletFee {
        match fee {
            Fee::Fixed { amount } => WalletFee::Fixed { amount },
            Fee::Rate { sat_per_vbyte } => WalletFee::Rate { sat_per_vbyte },
        }
    }
}

impl SendOnchainSpeedFeeQuote {
    /// What the user and the broadcast cost together.
    pub fn total_fee_sat(&self) -> (res: u64)
        ensures
            res == capped(self.user_fee_sat + self.l1_broadcast_fee_sat),
    {
        self.user_fee_sat.saturating_add(self.l1_broadcast_fee_sat)
    }
}

/// A service provider's fees for leaving at one speed.
#[derive(Debug)]
pub struct CoopExitSpeedFeeQuote {
    pub user_fee_sat: u64,
    pub l1_broadcast_fee_sat: u64,
}

/// A service provider's fees for leaving at each speed.
#[derive(Debug)]
pub struct CoopExitFeeQuote {
    pub id: String,
    pub expires_at: u64,
    pub speed_fast: CoopExitSpeedFeeQuote,
    pub speed_medium: CoopExitSpeedFeeQuote,
    pub speed_slow: CoopExitSpeedFeeQuote,
}

/// How fast to leave.
#[derive(Clone, Copy, Debug, PartialEq, Eq, Structural)]
pub enum ExitSpeed {
    Fast,
    Medium,
    Slow,
}

pub open spec fn onchain_speed_quote(q: CoopExitSpeedFeeQuote) -> SendOnchainSpeedFeeQuote {
    SendOnchainSpeedFeeQuote {
        user_fee_sat: q.user_fee_sat,
        l1_broadcast_fee_sat: q.l1_broadcast_fee_sat,
    }
}

pub open spec fn coop_exit_speed_quote(q: SendOnchainSpeedFeeQuote) -> CoopExitSpeedFeeQuote {
    CoopExitSpeedFeeQuote {
        user_fee_sat: q.user_fee_sat,
        l1_broadcast_fee_sat: q.l1_broadcast_fee_sat,
    }
}

pub open spec fn onchain_quote(q: CoopExitFeeQuote) -> SendOnchainFeeQuote {
    SendOnchainFeeQuote {
        id: q.id,
        expires_at: q.expires_at,
        speed_fast: onchain_speed_quote(q.speed_fast),
        speed_medium: onchain_speed_quote(q.speed_medium),
        speed_slow: onchain_speed_quote(q.speed_slow),
    }
}

pub open spec fn coop_exit_quote(q: SendOnchainFeeQuote) -> CoopExitFeeQuote {
    CoopExitFeeQuote {
        id: q.id,
        expires_at: q.expires_at,
        speed_fast: coop_exit_speed_quote(q.speed_fast),
        speed_medium: coop_exit_speed_quote(q.speed_medium),
        speed_slow: coop_exit_speed_quote(q.speed_slow),
    }
}

pub open spec fn exit_speed(s: OnchainConfirmationSpeed) -> ExitSpeed {
    match s {
        OnchainConfirmationSpeed::Fast => ExitSpeed::Fast,
        OnchainConfirmationSpeed::Medium => ExitSpeed::Medium,
        OnchainConfirmationSpeed::Slow => ExitSpeed::Slow,
    }
}

pub open spec fn confirmation_speed(s: ExitSpeed) -> OnchainConfirmationSpeed {
    match s {
        ExitSpeed::Fast => OnchainConfirmationSpeed::Fast,
        ExitSpeed::Medium => OnchainConfirmationSpeed::Medium,
        ExitSpeed::Slow => OnchainConfirmationSpeed::Slow,
    }
}

/// Quotes and speeds are the same in both vocabularies.
pub proof fn quotes_convert_back(
    q: CoopExitFeeQuote,
    r: SendOnchainFeeQuote,
    s: ExitSpeed,
    t: OnchainConfirmationSpeed,
)
    ensures
        coop_exit_quote(onchain_quote(q)) == q,
        onchain_quote(coop_exit_quote(r)) == r,
        exit_speed(confirmation_speed(s)) == s,
        confirmation_speed(exit_speed(t)) == t,
{
}

impl From<CoopExitSpeedFeeQuote> for SendOnchainSpeedFeeQuote {
    fn from(value: CoopExitSpeedFeeQuote) -> (res: SendOnchainSpeedFeeQuote) {
        SendOnchainSpeedFeeQuote {
            user_fee_sat: value.user_fee_sat,
            l1_broadcast_fee_sat: value.l1_broadcast_fee_sat,
        }
    }
}

impl FromSpecImpl<CoopExitSpeedFeeQuote> for SendOnchainSpeedFeeQuote {
    open spec fn obeys_from_spec() -> bool {
        true
    }

    open spec fn from_spec(value: CoopExitSpeedFeeQuote) -> SendOnchainSpeedFeeQuote {
        onchain_speed_quote(value)
    }
}

impl From<SendOnchainSpeedFeeQuote> for CoopExitSpeedFeeQuote {
    fn from(value: SendOnchainSpeedFeeQuote) -> (res: CoopExitSpeedFeeQuote) {
        CoopExitSpeedFeeQuote {
            user_fee_sat: value.user_fee_sat,
            l1_broadcast_fee_sat: value.l1_broadcast_fee_sat,
        }
    }
}

impl FromSpecImpl<SendOnchainSpeedFeeQuote> for CoopExitSpeedFeeQuote {
    open spec fn obeys_from_spec() -> bool {
        true
    }

    open spec fn from_spec(value: SendOnchainSpeedFeeQuote) -> CoopExitSpeedFeeQuote {
        coop_exit_speed_quote(value)
    }
}

impl From<CoopExitFeeQuote> for SendOnchainFeeQuote {
    fn from(value: CoopExitFeeQuote) -> (res: SendOnchainFeeQuote) {
        SendOnchainFeeQuote {
            id: value.id,
            expires_at: value.expires_at,
            speed_fast: SendOnchainSpeedFeeQuote::from(value.speed_fast),
            speed_medium: SendOnchainSpeedFeeQuote::from(value.speed_medium),
            speed_slow: SendOnchainSpeedFeeQuote::from(value.speed_slow),
        }
    }
}

impl FromSpecImpl<CoopExitFeeQuote> for SendOnchainFeeQuote {
    open spec fn obeys_from_spec() -> bool {
        true
    }

    open spec fn from_spec(value: CoopExitFeeQuote) -> SendOnchainFeeQuote {
        onchain_quote(value)
    }
}

impl From<SendOnchainFeeQuote> for CoopExitFeeQuote {
    fn from(value: SendOnchainFeeQuote) -> (res: CoopExitFeeQuote) {
        CoopExitFeeQuote {
            id: value.id,
            expires_at: value.expires_at,
            speed_fast: CoopExitSpeedFeeQuote::from(value.speed_fast),
            speed_medium: CoopExitSpeedFeeQuote::from(value.speed_medium),
            speed_slow: CoopExitSpeedFeeQuote::from(value.speed_slow),
        }
    }
}

impl FromSpecImpl<SendOnchainFeeQuote> for CoopExitFeeQuote {
    open spec fn obeys_from_spec() -> bool {
        true
    }

    open spec fn from_spec(value: SendOnchainFeeQuote) -> CoopExitFeeQuote {
        coop_exit_quote(value)
    }
}

impl From<OnchainConfirmationSpeed> for ExitSpeed {
    fn from(speed: OnchainConfirmationSpeed) -> (res: ExitSpeed) {
        match speed {
            OnchainConfirmationSpeed::Fast => ExitSpeed::Fast,
            OnchainConfirmationSpeed::Medium => ExitSpeed::Medium,
            OnchainConfirmationSpeed::Slow => ExitSpeed::Slow,
        }
    }
}

impl FromSpecImpl<OnchainConfirmationSpeed> for ExitSpeed {
    open spec fn obeys_from_spec() -> bool {
        true
    }

    open spec fn from_spec(speed: OnchainConfirmationSpeed) -> ExitSpeed {
        exit_speed(speed)
    }
}

impl From<ExitSpeed> for OnchainConfirmationSpeed {
    fn from(speed: ExitSpeed) -> (res: OnchainConfirmationSpeed) {
        match speed {
            ExitSpeed::Fast => OnchainConfirmationSpeed::Fast,
            ExitSpeed::Medium => OnchainConfirmationSpeed::Medium,
            ExitSpeed::Slow => OnchainConfirmationSpeed::Slow,
        }
    }
}

impl FromSpecImpl<ExitSpeed> for OnchainConfirmationSpeed {
    open spec fn obeys_from_spec() -> bool {
        true
    }

    open spec fn from_spec(speed: ExitSpeed) -> OnchainConfirmationSpeed {
        confirmation_speed(speed)
    }
}

/// Each speed of a converted quote has the fees of the same speed, in both directions,
/// and the quote keeps its identifier and its expiry.
pub proof fn quotes_keep_their_fees(q: CoopExitFeeQuote, r: SendOnchainFeeQuote)
    ensures
        ({
            let res = <SendOnchainFeeQuote as FromSpec<CoopExitFeeQuote>>::from_spec(q);
            &&& res.id == q.id
            &&& res.expires_at == q.expires_at
            &&& res.speed_fast.user_fee_sat == q.speed_fast.user_fee_sat
            &&& res.speed_fast.l1_broadcast_fee_sat == q.speed_fast.l1_broadcast_fee_sat
            &&& res.speed_medium.user_fee_sat == q.speed_medium.user_fee_sat
            &&& res.speed_medium.l1_broadcast_fee_sat == q.speed_medium.l1_broadcast_fee_sat
            &&& res.speed_slow.user_fee_sat == q.speed_slow.user_fee_sat
            &&& res.speed_slow.l1_broadcast_fee_sat == q.speed_slow.l1_broadcast_fee_sat
        }),
        ({
            let res = <CoopExitFeeQuote as FromSpec<SendOnchainFeeQuote>>::from_spec(r);
            &&& res.id == r.id
            &&& res.expires_at == r.expires_at
            &&& res.speed_fast.user_fee_sat == r.speed_fast.user_fee_sat
            &&& res.speed_fast.l1_broadcast_fee_sat == r.speed_fast.l1_broadcast_fee_sat
            &&& res.speed_medium.user_fee_sat == r.speed_medium.user_fee_sat
            &&& res.speed_medium.l1_broadcast_fee_sat == r.speed_medium.l1_broadcast_fee_sat
            &&& res.speed_slow.user_fee_sat == r.speed_slow.user_fee_sat
            &&& res.speed_slow.l1_broadcast_fee_sat == r.speed_slow.l1_broadcast_fee_sat
        }),
{
}

/// The fees of one speed are kept, in both directions.
pub proof fn speed_quotes_keep_their_fees(q: CoopExitSpeedFeeQuote, r: SendOnchainSpeedFeeQuote)
    ensures
        ({
            let res = <SendOnchainSpeedFeeQuote as FromSpec<CoopExitSpeedFeeQuote>>::from_spec(q);
            res.user_fee_sat == q.user_fee_sat && res.l1_broadcast_fee_sat == q.l1_broadcast_fee_sat
        }),
        ({
            let res = <CoopExitSpeedFeeQuote as FromSpec<SendOnchainSpeedFeeQuote>>::from_spec(r);
            res.user_fee_sat == r.user_fee_sat && res.l1_broadcast_fee_sat == r.l1_broadcast_fee_sat
        }),
{
}

/// A speed is the same speed in both vocabularies.
pub proof fn speeds_keep_their_meaning(s: ExitSpeed, t: OnchainConfirmationSpeed)
    ensures
        ({
            let res = <OnchainConfirmationSpeed as FromSpec<ExitSpeed>>::from_spec(s);
            &&& s == ExitSpeed::Fast <==> res == OnchainConfirmationSpeed::Fast
            &&& s == ExitSpeed::Medium <==> res == OnchainConfirmationSpeed::Medium
            &&& s == ExitSpeed::Slow <==> res == OnchainConfirmationSpeed::Slow
        }),
        ({
            let res = <ExitSpeed as FromSpec<OnchainConfirmationSpeed>>::from_spec(t);
            &&& t == OnchainConfirmationSpeed::Fast <==> res == ExitSpeed::Fast
            &&& t == OnchainConfirmationSpeed::Medium <==> res == ExitSpeed::Medium
            &&& t == OnchainConfirmationSpeed::Slow <==> res == ExitSpeed::Slow
        }),
{
}

/// A fixed fee does not depend on the size. At a rate every byte costs that rate, up
/// to the largest fee. A fee handed to the wallet costs what it did.
pub proof fn fees_are_by_size(fee: Fee, vbytes: u64)
    ensures
        fee matches Fee::Fixed { amount } ==> fee.sats(vbytes) == amount,
        fee matches Fee::Rate { sat_per_vbyte } ==> {
            &&& sat_per_vbyte * vbytes <= u64::MAX ==> fee.sats(vbytes) == sat_per_vbyte * vbytes
            &&& sat_per_vbyte * vbytes > u64::MAX ==> fee.sats(vbytes) == u64::MAX
        },
        match (fee, <WalletFee as FromSpec<Fee>>::from_spec(fee)) {
            (Fee::Fixed { amount }, WalletFee::Fixed { amount: handed }) => handed == amount,
            (Fee::Rate { sat_per_vbyte }, WalletFee::Rate { sat_per_vbyte: handed }) => handed
                == sat_per_vbyte,
            _ => false,
        },
{
    if let Fee::Rate { sat_per_vbyte } = fee {
        assert(sat_per_vbyte * vbytes >= 0) by (nonlinear_arith)
            requires
                sat_per_vbyte >= 0,
                vbytes >= 0,
        ;
    }
}

} // verus!
