use std::str::FromStr;

use ngx_x402::amount::amount_to_smallest_unit;
use ngx_x402::validation::parse_amount;

#[test]
fn conversion_matches_decimal_arithmetic() {
    // The verified conversion agrees with 96-bit decimal arithmetic:
    // multiply by ten to the decimals, normalize, render.
    let cases = [
        "0.001",
        "1",
        "1.5",
        "0",
        "123.456",
        "0.000000000000000001",
        "42000000",
        "3.140000",
    ];
    let decimals: [u8; 4] = [0, 2, 6, 18];
    for s in cases {
        for d in decimals {
            let a = parse_amount(s).unwrap();
            let dec = rust_decimal::Decimal::from_str(s).unwrap();
            let multiplier = rust_decimal::Decimal::from(10u64.pow(d as u32));
            let expected = (dec * multiplier).normalize().to_string();
            assert_eq!(
                amount_to_smallest_unit(&a, d),
                expected,
                "amount {s} at {d} decimals"
            );
        }
    }
}

#[test]
fn parsing_matches_decimal_parsing() {
    // Accepted inputs agree with the decimal crate's reading: same scale,
    // same rendering.
    let cases = ["0.001", "1", "0012.3400", "+7", "-0.25", ".5", "5."];
    for s in cases {
        let a = parse_amount(s).unwrap();
        let dec = rust_decimal::Decimal::from_str(s).unwrap();
        assert_eq!(u32::from(a.scale), dec.scale(), "scale of {s}");
        assert_eq!(
            i128::try_from(a.mantissa).unwrap() * if a.negative { -1 } else { 1 },
            dec.mantissa(),
            "mantissa of {s}"
        );
    }
}

#[test]
fn base_units_round_trip_recovers_the_amount() {
    // Rendering to base units and parsing the result back preserves the
    // value exactly: parsed/10^(scale+d) equals the starting amount.
    let cases = [("0.001", 6u8), ("1", 18), ("123.456", 2), ("0.5", 0), ("2", 0)];
    for (s, d) in cases {
        let a = parse_amount(s).unwrap();
        let rendered = amount_to_smallest_unit(&a, d);
        let b = parse_amount(&rendered).unwrap();
        // Cross-multiplied value equality:
        // b.mantissa / 10^(b.scale + d) == a.mantissa / 10^a.scale.
        let lhs = b.mantissa * 10u128.pow(a.scale);
        let rhs = a.mantissa * 10u128.pow(b.scale + u32::from(d));
        assert_eq!(lhs, rhs, "round trip of {s} at {d} decimals");
        assert_eq!(a.negative, b.negative);
    }
}
