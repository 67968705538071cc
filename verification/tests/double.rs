use qendercore_mqtt_adapter::double::{
    format_float, is_whole, is_within, round, truncate, Double,
};
use serde_json::Value;

fn samples() -> Vec<f64> {
    let mut list = vec![
        0.0, -0.0, 0.1, 0.25, 0.49999999999999994, 0.5, 0.75, 1.0, 1.5, 2.5, 14.999, 15.0, 48.0, 99.5,
        99.9, 100.0, 100.5, 127.0, 254.999, 255.0, 255.00000000000003, 256.0, 1e15, 4503599627370495.5,
        9007199254740991.0, 9007199254740993.0, 1e16, 1e300, f64::MAX, f64::MIN_POSITIVE, 5e-324, -1.0,
        -0.5, -5e-324, f64::INFINITY, f64::NEG_INFINITY, f64::NAN,
    ];
    for n in 0..300 {
        list.push(n as f64);
        list.push(n as f64 + 0.5);
        list.push(n as f64 / 7.0);
    }
    list
}

#[test]
fn whole_numbers_are_recognized() {
    for x in samples() {
        assert_eq!(is_whole(x.to_bits()), x.fract() == 0.0, "{x}");
    }
}

#[test]
fn ranges_are_those_of_the_numbers() {
    for x in samples() {
        for top in [0u8, 1, 2, 99, 100, 127, 128, 255] {
            let expected = (0.0..=top as f64).contains(&x);
            assert_eq!(is_within(x.to_bits(), top), expected, "{x} up to {top}");
        }
    }
}

#[test]
fn truncating_and_rounding_follow_the_casts() {
    for x in samples() {
        if (0.0..=255.0).contains(&x) {
            assert_eq!(truncate(x.to_bits()), x as u8, "{x}");
        }
        if (0.0..=100.0).contains(&x) {
            assert_eq!(round(x.to_bits()), x.round() as u8, "{x}");
        }
    }
}

#[test]
fn literals_are_read_and_written() {
    for text in [
        "0", "15", "007", "100.0", "0.1", "1e3", "-2.5", "+5", ".5", "5.", "inf", "-inf", "infinity", "NaN",
        "-0", "9007199254740992", "9007199254740993", "123456789012345678901234567890", "-5", "-2.0",
        "-007.0", "9007199254740994", "-9007199254740994.0", "-9007199254740993", "-5.", "-.5",
    ] {
        let expected: f64 = text.parse().unwrap();
        let read = Double::parse(text).unwrap();
        if expected.is_nan() {
            assert_eq!(read.to_bits(), 0x7ff8_0000_0000_0000);
        } else {
            assert_eq!(read.to_bits(), expected.to_bits(), "{text}");
        }
        assert_eq!(read.plain(), expected.to_string());
        let written = if expected.fract() == 0.0 {
            format!("{expected:.1}")
        } else {
            format!("{expected}")
        };
        assert_eq!(format_float(&read), written);
        assert_eq!(read.to_value(), Value::from(expected));
    }
    for text in ["", " 1", "1 ", "x", "1,5", "0x10", "--1"] {
        let expected = text.parse::<f64>().unwrap_err().to_string();
        assert_eq!(Double::parse(text).unwrap_err(), expected);
    }
}

#[test]
fn json_numbers_are_read_as_doubles() {
    for value in [
        Value::from(0),
        Value::from(15),
        Value::from(-3),
        Value::from(u64::MAX),
        Value::from(i64::MIN),
        Value::from(-9007199254740993i64),
        Value::from(-9007199254740994i64),
        Value::from(4.6),
    ] {
        let read = Double::from_value(&value).unwrap();
        assert_eq!(read.to_bits(), value.as_f64().unwrap().to_bits());
        assert_eq!(read.to_value().as_f64(), value.as_f64());
        assert!(read.to_value().is_f64());
    }
    for value in [Value::Null, Value::from("15"), Value::from(true), Value::Array(Vec::new())] {
        assert!(Double::from_value(&value).is_none());
    }
    assert_eq!(Double::from_integer(100).to_bits(), 100.0f64.to_bits());
    assert_eq!(Double::from_integer(0).to_bits(), 0);
}

#[test]
fn equality_is_that_of_numbers() {
    let read = |text: &str| Double::parse(text).unwrap();
    assert_eq!(read("1.5"), read("1.50"));
    assert_eq!(read("0"), read("-0"));
    assert_ne!(read("NaN"), read("NaN"));
    assert_ne!(read("1"), read("-1"));
    assert_eq!(read("inf").clone(), read("inf"));
}

#[test]
fn whole_numbers_are_read_from_what_is_written() {
    for x in samples() {
        if x.fract() == 0.0 {
            for number in [x, -x] {
                let held = Double::from_value(&Value::from(number)).unwrap();
                let read = Double::parse(&format_float(&held)).unwrap();
                assert_eq!(read.to_bits(), number.to_bits(), "{number}");
            }
        }
    }
}
