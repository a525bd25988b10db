use payments::fixed::{from_fixed, to_fixed, Decimal, FIXED_AMOUNT_LIMIT, FIXED_DECIMAL_SCALING};

#[test]
fn scaling_is_four_decimal_digits() {
    assert_eq!(FIXED_DECIMAL_SCALING, 10_000);
    assert_eq!(FIXED_AMOUNT_LIMIT, u64::MAX as i128 * 10_000 + 9_999);
}

#[test]
fn to_fixed_scales_exactly() {
    let d = Decimal { negative: false, units: 42, ten_thousandths: 4200 };
    assert_eq!(to_fixed(d), 424200);

    let zero = Decimal { negative: false, units: 0, ten_thousandths: 0 };
    assert_eq!(to_fixed(zero), 0);

    let tiny = Decimal { negative: false, units: 0, ten_thousandths: 1 };
    assert_eq!(to_fixed(tiny), 1);

    let negative = Decimal { negative: true, units: 3, ten_thousandths: 1 };
    assert_eq!(to_fixed(negative), -30001);
}

#[test]
fn from_fixed_splits_exactly() {
    let d = from_fixed(424200);
    assert_eq!(d, Decimal { negative: false, units: 42, ten_thousandths: 4200 });

    let zero = from_fixed(0);
    assert_eq!(zero, Decimal { negative: false, units: 0, ten_thousandths: 0 });

    let negative = from_fixed(-30001);
    assert_eq!(negative, Decimal { negative: true, units: 3, ten_thousandths: 1 });
}

#[test]
fn fixed_round_trip_reproduces_the_decimal() {
    let samples = [
        Decimal { negative: false, units: 0, ten_thousandths: 0 },
        Decimal { negative: false, units: 0, ten_thousandths: 1 },
        Decimal { negative: false, units: 42, ten_thousandths: 4200 },
        Decimal { negative: true, units: 0, ten_thousandths: 1 },
        Decimal { negative: true, units: 1000, ten_thousandths: 9999 },
        Decimal { negative: false, units: u64::MAX, ten_thousandths: 9999 },
    ];
    for d in samples {
        assert_eq!(from_fixed(to_fixed(d)), d);
    }
}

#[test]
fn fixed_round_trip_reproduces_the_scaled_integer() {
    let samples: [i128; 7] =
        [0, 1, -1, 424200, -30001, FIXED_AMOUNT_LIMIT, -FIXED_AMOUNT_LIMIT];
    for v in samples {
        assert_eq!(to_fixed(from_fixed(v)), v);
    }
}

#[test]
fn fixed_round_trip_matches_float_parsing_to_four_places() {
    // what the ingestion boundary does with a floating decimal input
    let fx = |value: f64| -> i128 { (value * 10_000.0).round() as i128 };
    let samples = [0.0001, 0.0002, 42.42, 50.0, 100.0, 9999.9999];
    for value in samples {
        let scaled = fx(value);
        let d = from_fixed(scaled);
        let rendered = d.units as f64 + d.ten_thousandths as f64 / 10_000.0;
        assert!((rendered - value).abs() < 0.00005);
        assert_eq!(to_fixed(d), scaled);
    }
}
