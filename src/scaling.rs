//! Fixed-point scaling between the venue's integer prices and quantities and
//! human units.
//!
//! The venue quotes a price as an integer number of collateral units per
//! asset unit, each scaled by its token's decimal precision, so a raw price
//! stands for `raw / 10^(collateral decimals - asset decimals)` and a raw
//! quantity for `raw / 10^(asset decimals)`. Human amounts are held exactly as
//! a value and a count of decimal places; going back to the venue's integers
//! truncates and never rounds.

use vstd::prelude::*;
use vstd::arithmetic::div_mod::{lemma_div_denominator, lemma_div_multiples_vanish, lemma_fundamental_div_mod};

verus! {

/// `10^n`.
pub open spec fn pow10(n: nat) -> nat
    decreases n,
{
    if n == 0 {
        1
    } else {
        10 * pow10((n - 1) as nat)
    }
}

proof fn lemma_pow10_positive(n: nat)
    ensures
        pow10(n) > 0,
    decreases n,
{
    if n > 0 {
        lemma_pow10_positive((n - 1) as nat);
    }
}

proof fn lemma_pow10_adds(a: nat, b: nat)
    ensures
        pow10(a + b) == pow10(a) * pow10(b),
    decreases a,
{
    if a > 0 {
        let a1 = (a - 1) as nat;
        lemma_pow10_adds(a1, b);
        assert(a + b == (a1 + b) + 1);
        assert(pow10(a + b) == 10 * pow10(a1 + b));
        assert(pow10(a) == 10 * pow10(a1));
        assert(10 * (pow10(a1) * pow10(b)) == (10 * pow10(a1)) * pow10(b)) by (nonlinear_arith);
    } else {
        assert(pow10(0) == 1);
        assert(a + b == b);
    }
}

/// Decimal precision of a market's asset and of the collateral it is priced in.
#[derive(Clone, Copy, Debug, PartialEq, Eq)]
pub struct Decimals {
    pub asset: u32,
    pub collateral: u32,
}

impl Decimals {
    /// A price exponent exists only when the collateral is at least as
    /// precise as the asset.
    pub open spec fn valid(self) -> bool {
        self.asset <= self.collateral
    }

    /// Decimal places of a human price: collateral decimals less asset decimals.
    pub open spec fn price_places(self) -> nat {
        (self.collateral - self.asset) as nat
    }

    /// Decimal places of a human size: the asset's decimals.
    pub open spec fn size_places(self) -> nat {
        self.asset as nat
    }
}

/// An exact human-unit amount: `value / 10^decimals`.
#[derive(Clone, Copy, Debug, PartialEq, Eq)]
pub struct Amount {
    pub value: u128,
    pub decimals: u32,
}

/// The integer part of `a * 10^places`: `a` written as a fixed-point integer
/// with `places` decimal places, truncated.
pub open spec fn to_fixed(a: Amount, places: nat) -> int {
    (a.value * pow10(places)) as int / pow10(a.decimals as nat) as int
}

/// The human price a raw venue price stands for.
pub open spec fn price_of_raw(raw: u64, d: Decimals) -> Amount {
    Amount { value: raw as u128, decimals: (d.collateral - d.asset) as u32 }
}

/// The human size a raw venue quantity stands for.
pub open spec fn size_of_raw(raw: u64, d: Decimals) -> Amount {
    Amount { value: raw as u128, decimals: d.asset }
}

/// Reads a raw venue price in human units.
pub fn decode_price(raw: u64, d: Decimals) -> (r: Amount)
    requires
        d.valid(),
    ensures
        r == price_of_raw(raw, d),
{
    Amount { value: raw as u128, decimals: d.collateral - d.asset }
}

/// Reads a raw venue quantity in human units.
pub fn decode_size(raw: u64, d: Decimals) -> (r: Amount)
    ensures
        r == size_of_raw(raw, d),
{
    Amount { value: raw as u128, decimals: d.asset }
}

/// `v * 10^e`, or `None` when that exceeds `u128::MAX`.
fn mul_pow10(v: u128, e: u32) -> (r: Option<u128>)
    ensures
        match r {
            Some(x) => x == v * pow10(e as nat),
            None => v * pow10(e as nat) > u128::MAX,
        },
{
    let mut acc: u128 = v;
    let mut i: u32 = 0;
    assert(pow10(0) == 1);
    while i < e
        invariant
            i <= e,
            acc == v * pow10(i as nat),
        decreases e - i,
    {
        proof {
            lemma_pow10_positive(i as nat);
            assert(acc * 10 == v * pow10((i + 1) as nat)) by (nonlinear_arith)
                requires
                    acc == v * pow10(i as nat),
                    pow10((i + 1) as nat) == 10 * pow10(i as nat);
        }
        match acc.checked_mul(10) {
            Some(next) => {
                acc = next;
            },
            None => {
                proof {
                    lemma_pow10_adds((i + 1) as nat, (e - i - 1) as nat);
                    lemma_pow10_positive((e - i - 1) as nat);
                    assert(v * pow10(e as nat) >= acc * 10) by (nonlinear_arith)
                        requires
                            pow10(e as nat) == pow10((i + 1) as nat) * pow10((e - i - 1) as nat),
                            pow10((e - i - 1) as nat) >= 1,
                            acc * 10 == v * pow10((i + 1) as nat);
                }
                return None;
            },
        }
        i = i + 1;
    }
    Some(acc)
}

/// `v / 10^e`, rounded down.
fn div_pow10(v: u128, e: u32) -> (r: u128)
    ensures
        r == v as int / pow10(e as nat) as int,
{
    let mut acc: u128 = v;
    let mut i: u32 = 0;
    assert(pow10(0) == 1);
    while i < e
        invariant
            i <= e,
            acc == v as int / pow10(i as nat) as int,
        decreases e - i,
    {
        proof {
            lemma_pow10_positive(i as nat);
            lemma_div_denominator(v as int, pow10(i as nat) as int, 10);
            assert(pow10((i + 1) as nat) == pow10(i as nat) * 10);
        }
        acc = acc / 10;
        i = i + 1;
    }
    acc
}

/// Writes `a` as a fixed-point integer with `places` decimal places,
/// truncating; `None` when the result does not fit in a `u64`.
pub fn rescale(a: Amount, places: u32) -> (r: Option<u64>)
    ensures
        match r {
            Some(x) => x == to_fixed(a, places as nat),
            None => to_fixed(a, places as nat) > u64::MAX,
        },
{
    let ghost v = a.value as nat;
    let ghost p = places as nat;
    let ghost d = a.decimals as nat;
    if places >= a.decimals {
        let steps = places - a.decimals;
        proof {
            lemma_scale_up(v, d, steps as nat);
            assert(d + steps == p);
        }
        match mul_pow10(a.value, steps) {
            Some(x) => {
                if x <= u64::MAX as u128 {
                    Some(x as u64)
                } else {
                    None
                }
            },
            None => None,
        }
    } else {
        let steps = a.decimals - places;
        proof {
            lemma_scale_down(v, p, steps as nat);
            assert(p + steps == d);
        }
        let x = div_pow10(a.value, steps);
        if x <= u64::MAX as u128 {
            Some(x as u64)
        } else {
            None
        }
    }
}

/// Writes a human price as the venue's raw price, truncating; `None` when it
/// does not fit in a `u64`.
pub fn encode_price(price: Amount, d: Decimals) -> (r: Option<u64>)
    requires
        d.valid(),
    ensures
        match r {
            Some(x) => x == to_fixed(price, d.price_places()),
            None => to_fixed(price, d.price_places()) > u64::MAX,
        },
{
    rescale(price, d.collateral - d.asset)
}

/// Writes a human size as the venue's raw quantity, truncating; `None` when
/// it does not fit in a `u64`.
pub fn encode_size(size: Amount, d: Decimals) -> (r: Option<u64>)
    ensures
        match r {
            Some(x) => x == to_fixed(size, d.size_places()),
            None => to_fixed(size, d.size_places()) > u64::MAX,
        },
{
    rescale(size, d.asset)
}

/// Basis points in a whole.
pub const BASIS_POINTS: u64 = 10_000;

/// The most collateral an order may spend: the notional `limit * quantity`
/// raised by the taker fee, truncated.
pub open spec fn max_cost(limit: u64, quantity: u64, taker_fee_bps: u16) -> int {
    (limit * quantity * (BASIS_POINTS + taker_fee_bps)) as int / BASIS_POINTS as int
}

/// The most collateral an order of `quantity` at `limit` may spend once the
/// taker fee is paid; `None` when that does not fit in a `u64`.
pub fn max_quote_cost(limit: u64, quantity: u64, taker_fee_bps: u16) -> (r: Option<u64>)
    ensures
        match r {
            Some(x) => x == max_cost(limit, quantity, taker_fee_bps),
            None => max_cost(limit, quantity, taker_fee_bps) > u64::MAX,
        },
{
    assert((limit as u128) * (quantity as u128) <= u128::MAX) by (nonlinear_arith)
        requires
            limit <= u64::MAX,
            quantity <= u64::MAX;
    let notional: u128 = (limit as u128) * (quantity as u128);
    let rate: u128 = (BASIS_POINTS as u128) + (taker_fee_bps as u128);
    match notional.checked_mul(rate) {
        Some(gross) => {
            let cost = gross / (BASIS_POINTS as u128);
            if cost <= u64::MAX as u128 {
                Some(cost as u64)
            } else {
                None
            }
        },
        None => {
            assert(notional * rate / 10_000 > u64::MAX) by (nonlinear_arith)
                requires
                    notional * rate > u128::MAX;
            None
        },
    }
}

/// Reading a raw price or quantity in human units and writing it back gives
/// the same raw integer: the scaling loses nothing on the way out.
pub proof fn lemma_decode_encode_round_trip(raw: u64, d: Decimals)
    requires
        d.valid(),
    ensures
        to_fixed(price_of_raw(raw, d), d.price_places()) == raw,
        to_fixed(size_of_raw(raw, d), d.size_places()) == raw,
{
    lemma_scale_up(raw as nat, d.price_places(), 0);
    lemma_scale_up(raw as nat, d.size_places(), 0);
    assert(pow10(0) == 1);
}

/// Writing a human amount as a fixed-point integer truncates: read back, the
/// integer is at most the amount and less than one last-place unit below it.
pub proof fn lemma_encode_truncates(a: Amount, places: nat)
    ensures
        to_fixed(a, places) * pow10(a.decimals as nat) <= a.value * pow10(places),
        a.value * pow10(places) < (to_fixed(a, places) + 1) * pow10(a.decimals as nat),
{
    let x = (a.value * pow10(places)) as int;
    let q = pow10(a.decimals as nat) as int;
    lemma_pow10_positive(a.decimals as nat);
    lemma_fundamental_div_mod(x, q);
    assert(x == q * (x / q) + x % q);
    assert((x / q) * q == q * (x / q)) by (nonlinear_arith);
    assert((x / q + 1) * q == q * (x / q) + q) by (nonlinear_arith);
}

/// Moving up by `e` more places than the amount has multiplies by `10^e`.
proof fn lemma_scale_up(v: nat, d: nat, e: nat)
    ensures
        (v * pow10(d + e)) as int / pow10(d) as int == v * pow10(e),
{
    lemma_pow10_positive(d);
    lemma_pow10_adds(d, e);
    assert(v * pow10(d + e) == pow10(d) * (v * pow10(e))) by (nonlinear_arith)
        requires
            pow10(d + e) == pow10(d) * pow10(e);
    lemma_div_multiples_vanish((v * pow10(e)) as int, pow10(d) as int);
}

/// Moving down by `e` places divides by `10^e`.
proof fn lemma_scale_down(v: nat, p: nat, e: nat)
    ensures
        (v * pow10(p)) as int / pow10(p + e) as int == v as int / pow10(e) as int,
{
    lemma_pow10_positive(p);
    lemma_pow10_positive(e);
    lemma_pow10_adds(p, e);
    assert(v * pow10(p) == pow10(p) * v) by (nonlinear_arith);
    lemma_div_multiples_vanish(v as int, pow10(p) as int);
    lemma_div_denominator((v * pow10(p)) as int, pow10(p) as int, pow10(e) as int);
}

} // verus!
