use vnquant_dataset::price::{validate, Candle, Price};

fn p(x: f64) -> Price {
    Price::from_bits(x.to_bits())
}

fn candle(open: f64, high: f64, low: f64, close: f64, volume: f64) -> Candle {
    Candle::new(1_700_000_000_000, p(open), p(high), p(low), p(close), p(volume))
}

#[test]
fn high_below_open_is_rejected() {
    assert!(!validate(&candle(10.0, 9.0, 5.0, 8.0, 100.0)));
}

#[test]
fn well_ordered_candle_is_accepted() {
    assert!(validate(&candle(10.0, 12.0, 9.0, 11.0, 1000.0)));
}

#[test]
fn nan_fields_are_rejected() {
    assert!(!validate(&candle(f64::NAN, 12.0, 9.0, 11.0, 1.0)));
    assert!(!validate(&candle(10.0, f64::NAN, 9.0, 11.0, 1.0)));
    assert!(!validate(&candle(10.0, 12.0, f64::NAN, 11.0, 1.0)));
    assert!(!validate(&candle(10.0, 12.0, 9.0, f64::NAN, 1.0)));
    assert!(!validate(&candle(10.0, 12.0, 9.0, 11.0, f64::NAN)));
    assert!(!validate(&candle(10.0, 12.0, 9.0, 11.0, -f64::NAN)));
}

#[test]
fn infinite_fields_are_rejected() {
    assert!(!validate(&candle(10.0, f64::INFINITY, 9.0, 11.0, 1.0)));
    assert!(!validate(&candle(10.0, 12.0, 9.0, 11.0, f64::INFINITY)));
    assert!(!validate(&candle(f64::NEG_INFINITY, 12.0, 9.0, 11.0, 1.0)));
}

#[test]
fn non_positive_prices_are_rejected() {
    assert!(!validate(&candle(0.0, 12.0, 9.0, 11.0, 1.0)));
    assert!(!validate(&candle(10.0, 12.0, -0.0, 11.0, 1.0)));
    assert!(!validate(&candle(10.0, 12.0, -1.0, 11.0, 1.0)));
    assert!(!validate(&candle(10.0, 12.0, 9.0, -11.0, 1.0)));
}

#[test]
fn volume_may_be_zero_but_not_negative() {
    assert!(validate(&candle(10.0, 12.0, 9.0, 11.0, 0.0)));
    assert!(validate(&candle(10.0, 12.0, 9.0, 11.0, -0.0)));
    assert!(!validate(&candle(10.0, 12.0, 9.0, 11.0, -1.0)));
}

#[test]
fn high_below_low_is_rejected() {
    assert!(!validate(&candle(10.0, 9.0, 11.0, 10.0, 1.0)));
}

#[test]
fn flat_candle_is_accepted() {
    assert!(validate(&candle(5.0, 5.0, 5.0, 5.0, 3.0)));
}

#[test]
fn close_outside_range_is_rejected() {
    assert!(!validate(&candle(10.0, 12.0, 9.0, 12.5, 1.0)));
    assert!(!validate(&candle(10.0, 12.0, 9.0, 8.5, 1.0)));
}

#[test]
fn price_comparisons_follow_float_order() {
    let values = [-f64::INFINITY, -3.5, -1.0, -0.0, 0.0, 1e-300, 0.5, 1.0, 2.0, 1e300, f64::INFINITY, f64::NAN];
    for a in values {
        for b in values {
            assert_eq!(p(a).le(&p(b)), a <= b, "{} <= {}", a, b);
            assert_eq!(p(a).lt(&p(b)), a < b, "{} < {}", a, b);
        }
        assert_eq!(p(a).is_nan(), a.is_nan());
        assert_eq!(p(a).is_infinite(), a.is_infinite());
    }
}
