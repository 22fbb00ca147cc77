use optifi_client::scaling::{decode_price, decode_size, encode_price, encode_size, max_quote_cost, rescale, Amount, Decimals};

fn as_f64(a: Amount) -> f64 {
    a.value as f64 / 10f64.powi(a.decimals as i32)
}

#[test]
fn decode_six_six_example() {
    // With equal decimals the price exponent is zero: the raw price is kept
    // as is, and the size is scaled by the asset's six places.
    let d = Decimals { asset: 6, collateral: 6 };
    let price = decode_price(20_000_000, d);
    let size = decode_size(1_000_000, d);
    assert_eq!(price, Amount { value: 20_000_000, decimals: 0 });
    assert_eq!(as_f64(price), 20_000_000.0);
    assert_eq!(size, Amount { value: 1_000_000, decimals: 6 });
    assert_eq!(as_f64(size), 1.0);
}

#[test]
fn decode_with_six_price_places() {
    let d = Decimals { asset: 6, collateral: 12 };
    assert_eq!(as_f64(decode_price(20_000_000, d)), 20.0);
    assert_eq!(as_f64(decode_size(1_000_000, d)), 1.0);
}

#[test]
fn decode_bitcoin_market() {
    // Bitcoin instruments carry two decimals against six of the collateral.
    let d = Decimals { asset: 2, collateral: 6 };
    let price = decode_price(200_000, d);
    assert_eq!(price, Amount { value: 200_000, decimals: 4 });
    assert_eq!(as_f64(price), 20.0);
    assert_eq!(as_f64(decode_size(150, d)), 1.5);
}

#[test]
fn round_trip_is_exact() {
    for (asset, collateral) in [(0u32, 6u32), (1, 6), (2, 6), (6, 6), (3, 9)] {
        let d = Decimals { asset, collateral };
        for raw in [0u64, 1, 7, 20_000_000, 123_456_789, u64::MAX] {
            assert_eq!(encode_price(decode_price(raw, d), d), Some(raw));
            assert_eq!(encode_size(decode_size(raw, d), d), Some(raw));
        }
    }
}

#[test]
fn encoding_truncates() {
    let d = Decimals { asset: 2, collateral: 6 };
    // 1.23456789 at four places is 12345.6789: truncated, not rounded.
    assert_eq!(encode_price(Amount { value: 123_456_789, decimals: 8 }, d), Some(12_345));
    // 0.999 at two places is 99.9.
    assert_eq!(encode_size(Amount { value: 999, decimals: 3 }, d), Some(99));
    // 12.345 at four places is exact.
    assert_eq!(encode_price(Amount { value: 12_345, decimals: 3 }, d), Some(123_450));
}

#[test]
fn encoding_out_of_range() {
    let d = Decimals { asset: 0, collateral: 6 };
    assert_eq!(encode_price(Amount { value: u64::MAX as u128, decimals: 0 }, d), None);
    assert_eq!(rescale(Amount { value: u128::MAX, decimals: 0 }, 30), None);
    assert_eq!(rescale(Amount { value: u128::MAX, decimals: 38 }, 0), Some(3));
}

#[test]
fn max_cost_applies_taker_fee() {
    // A notional of 20_000_000 raised by four basis points.
    assert_eq!(max_quote_cost(200_000, 100, 4), Some(20_008_000));
    // Truncated: 333 * 10_004 / 10_000 = 333.1332.
    assert_eq!(max_quote_cost(333, 1, 4), Some(333));
    assert_eq!(max_quote_cost(7, 3, 0), Some(21));
    assert_eq!(max_quote_cost(u64::MAX, u64::MAX, 4), None);
}
