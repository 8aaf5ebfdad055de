use tricoredb::codec;
use tricoredb::params::wire_params;
use tricoredb::{ErrorKind, Float, Number, Param};

fn wire(p: &[Param]) -> String {
    codec::render(&wire_params(p))
}

/// A float as the library holds it: by its shortest decimal text.
fn float(f: f64) -> Float {
    if f.is_nan() {
        Float::NotANumber
    } else if f == f64::INFINITY {
        Float::Infinity
    } else if f == f64::NEG_INFINITY {
        Float::NegativeInfinity
    } else {
        let text = format!("{f:?}");
        Float::Finite(Number::parse(&text.replace("e3", "e+3")).unwrap())
    }
}

#[test]
fn scalars_encode_as_json_scalars() {
    assert_eq!(
        wire(&[
            Param::from(None::<i32>),
            Param::from(true),
            Param::from(42),
            Param::from(-7i64),
            Param::from(float(1.5)),
            Param::from("O'Brien"),
        ]),
        r#"[null,true,42,-7,1.5,"O'Brien"]"#
    );
}

#[test]
fn wide_integers_are_exact_json_numbers() {
    assert_eq!(wire(&[Param::from(i64::MAX)]), "[9223372036854775807]");
    assert_eq!(wire(&[Param::from(u64::MAX)]), "[18446744073709551615]");
    assert_eq!(
        wire(&[Param::from(170141183460469231731687303715884105727i128)]),
        "[170141183460469231731687303715884105727]"
    );
    assert_eq!(
        wire(&[Param::from(u128::MAX)]),
        "[340282366920938463463374607431768211455]"
    );
    assert_eq!(
        wire(&[Param::from(-9223372036854775809i128)]),
        "[-9223372036854775809]"
    );
}

#[test]
fn decimals_are_plain_text_without_an_exponent() {
    let d = Param::decimal("0.123456789012345678").unwrap();
    assert_eq!(wire(&[d]), r#"["0.123456789012345678"]"#);
    assert!(Param::decimal("-1.50").is_ok());
    assert!(Param::decimal("+10").is_ok());
    assert!(Param::decimal(".5").is_ok());
    assert!(Param::decimal("5.").is_ok());
    for bad in ["1.5E+3", "1e10", "", "-", ".", "1.2.3", "12a", "NaN", " 1"] {
        assert!(Param::decimal(bad).is_err(), "{bad} should be refused");
    }
}

#[test]
fn bytes_are_lowercase_hex_text() {
    assert_eq!(
        wire(&[Param::bytes(&[0x00, 0xab, 0xff, 0x10])]),
        r#"["0x00abff10"]"#
    );
    assert_eq!(wire(&[Param::from(Vec::<u8>::new())]), r#"["0x"]"#);
    let invalid_utf8: &[u8] = &[0xc3, 0x28];
    assert_eq!(wire(&[Param::from(invalid_utf8)]), r#"["0xc328"]"#);
}

#[test]
fn non_finite_floats_are_refused_by_name() {
    for f in [f64::NAN, f64::INFINITY, f64::NEG_INFINITY] {
        let err = Param::Float(float(f)).validate(2).unwrap_err();
        assert_eq!(err.kind, ErrorKind::InvalidArgument);
        assert!(err.message.contains("parameter 3"), "{}", err.message);
    }
    assert!(Param::Float(float(1.0)).validate(0).is_ok());
}

#[test]
fn f32_widens_without_changing_the_value() {
    assert_eq!(wire(&[Param::from(float(f64::from(0.5f32)))]), "[0.5]");
}

#[test]
fn a_refused_parameter_says_why() {
    let err = Param::Float(Float::NegativeInfinity).validate(0).unwrap_err();
    assert_eq!(
        err.message,
        "parameter 1 is -inf, which has no SQL representation; only finite floats can be bound"
    );
    let err = Param::Decimal("1e3".to_string()).validate(0).unwrap_err();
    assert_eq!(
        err.message,
        "`1e3` is not a plain decimal: use digits with an optional sign and fractional part, and no exponent"
    );
    assert_eq!(wire(&[Param::Float(Float::NotANumber)]), "[null]");
}

#[test]
fn every_kind_of_value_becomes_a_parameter() {
    assert_eq!(Param::from(-1i8), Param::Int(-1));
    assert_eq!(Param::from(-1i16), Param::Int(-1));
    assert_eq!(Param::from(1u8), Param::UInt(1));
    assert_eq!(Param::from(1u16), Param::UInt(1));
    assert_eq!(Param::from(1u32), Param::UInt(1));
    assert_eq!(Param::from(1usize), Param::UInt(1));
    assert_eq!(Param::from(-1isize), Param::Int(-1));
    assert_eq!(Param::from(String::from("x")), Param::Text("x".into()));
    assert_eq!(Param::from(&String::from("x")), Param::text("x"));
    assert_eq!(Param::from(Some("x")), Param::Text("x".into()));
    assert_eq!(Param::from(None::<&str>), Param::Null);
    assert_eq!(
        wire(&[Param::from(i128::MIN)]),
        "[-170141183460469231731687303715884105728]"
    );
}

#[test]
fn numbers_keep_their_text() {
    for good in ["0", "-0", "10", "1.50", "1e+20", "-2.5e-7"] {
        assert_eq!(Number::parse(good).unwrap().as_str(), good);
    }
    for bad in ["", "-", "01", "1.", ".5", "1e5", "1E+5", "+1", "1e+", "1 ", "0x1"] {
        assert!(Number::parse(bad).is_none(), "{bad}");
    }
    assert_eq!(Number::parse("18446744073709551615").unwrap().as_u64(), Some(u64::MAX));
    assert_eq!(Number::parse("18446744073709551616").unwrap().as_u64(), None);
    assert_eq!(Number::parse("-1").unwrap().as_u64(), None);
    assert_eq!(Number::parse("-9223372036854775808").unwrap().as_i64(), Some(i64::MIN));
    assert_eq!(Number::parse("-9223372036854775809").unwrap().as_i64(), None);
    assert_eq!(Number::parse("9223372036854775807").unwrap().as_i64(), Some(i64::MAX));
    assert_eq!(Number::parse("1.0").unwrap().as_i64(), None);
}

#[test]
fn floats_are_equal_as_floats_are() {
    let param = |f: f64| Param::from(float(f));
    for a in [0.0, -0.0, 1.5, -1.5, 1e300, f64::INFINITY, f64::NEG_INFINITY, f64::NAN] {
        for b in [0.0, -0.0, 1.5, -1.5, 1e300, f64::INFINITY, f64::NEG_INFINITY, f64::NAN] {
            assert_eq!(float(a) == float(b), a == b, "{a} {b}");
        }
    }
    assert_ne!(param(f64::NAN), param(f64::NAN));
    assert_eq!(param(0.0), param(-0.0));
    assert_ne!(param(0.0), param(0.5));
    assert_eq!(Float::Finite(Number::parse("0e+5").unwrap()), float(0.0));
    assert_ne!(Param::from(1), Param::from(1u8));
    assert_ne!(Param::from("1"), Param::decimal("1").unwrap());
    assert_eq!(Param::bytes(&[1, 2]), Param::from(vec![1u8, 2]));
    assert_ne!(Param::bytes(&[1, 2]), Param::bytes(&[1, 3]));
}
