use cbor_book::{
    library_tags, CurrencyAmount, CurrencyCode, DecimalFraction, DecodeError, TAG_CURRENCY_AMOUNT,
    TAG_CURRENCY_CODE, TAG_DECIMAL_FRACTION,
};
use dcbor::{Tag, CBOR};

fn usd_one_point_one() -> CurrencyAmount {
    CurrencyAmount::new(CurrencyCode::new("USD"), DecimalFraction::new(-1, 11))
}

fn int_pair(a: i64, b: i64) -> CBOR {
    CBOR::from(vec![CBOR::from(a), CBOR::from(b)])
}

#[test]
fn decimal_round_trip_over_extremes() {
    let exponents = [i8::MIN, -9, -1, 0, 1, 7, i8::MAX];
    let mantissas = [i64::MIN, -123, -1, 0, 1, 11, 123456789, i64::MAX];
    for exponent in exponents {
        for mantissa in mantissas {
            let d = DecimalFraction::new(exponent, mantissa);
            let back = DecimalFraction::from_cbor(d.to_cbor()).unwrap();
            assert_eq!(back, d);
            // Also through the binary form.
            let bytes = d.to_cbor().to_cbor_data();
            let back = DecimalFraction::from_cbor(CBOR::try_from_data(bytes).unwrap()).unwrap();
            assert_eq!(back, d);
        }
    }
}

#[test]
fn decimal_equality_is_structural() {
    let a = DecimalFraction::new(1, 5);
    let b = DecimalFraction::new(0, 50);
    assert_eq!(a.to_string(), "50");
    assert_eq!(b.to_string(), "50");
    assert_ne!(a, b);
    assert_eq!(DecimalFraction::from_cbor(a.to_cbor()).unwrap(), a);
}

#[test]
fn amount_round_trip_over_codes() {
    let codes = ["USD", "", "eur", "\u{20ac}uro", "e\u{301}", "A VERY LONG CURRENCY CODE"];
    let amounts = [
        DecimalFraction::new(-1, 11),
        DecimalFraction::new(0, 0),
        DecimalFraction::new(i8::MIN, i64::MIN),
        DecimalFraction::new(i8::MAX, i64::MAX),
    ];
    for code in codes {
        for amount in amounts {
            let value = CurrencyAmount::new(CurrencyCode::new(code), amount);
            let back = CurrencyAmount::from_cbor(value.to_cbor()).unwrap();
            assert_eq!(back, value);
            assert_eq!(back.currency().code(), code);
            assert_eq!(*back.amount(), amount);
        }
    }
}

#[test]
fn code_round_trip_and_text() {
    let code = CurrencyCode::new("CHF");
    assert_eq!(code.code(), "CHF");
    assert_eq!(code.to_string(), "CHF");
    assert_eq!(CurrencyCode::from_cbor(code.to_cbor()).unwrap(), code);
    assert_eq!(code.to_cbor().diagnostic(), "33000(\"CHF\")");
}

#[test]
fn rendering_of_edge_values() {
    assert_eq!(DecimalFraction::new(-5, 0).to_string(), "0");
    assert_eq!(DecimalFraction::new(5, 0).to_string(), "0");
    assert_eq!(DecimalFraction::new(0, i64::MIN).to_string(), "-9223372036854775808");
    assert_eq!(DecimalFraction::new(0, i64::MAX).to_string(), "9223372036854775807");
    assert_eq!(DecimalFraction::new(-19, i64::MIN).to_string(), "-0.9223372036854775808");
    assert_eq!(DecimalFraction::new(-18, i64::MIN).to_string(), "-9.223372036854775808");
    assert_eq!(DecimalFraction::new(-3, 1000).to_string(), "1.000");
    assert_eq!(DecimalFraction::new(-3, 123).to_string(), "0.123");
    assert_eq!(DecimalFraction::new(-4, -123).to_string(), "-0.0123");
    assert_eq!(DecimalFraction::new(2, -1).to_string(), "-100");

    let largest = DecimalFraction::new(i8::MAX, 7).to_string();
    assert_eq!(largest.len(), 128);
    assert!(largest.starts_with('7'));
    assert!(largest[1..].chars().all(|c| c == '0'));

    let smallest = DecimalFraction::new(i8::MIN, 7).to_string();
    assert_eq!(smallest.len(), 130);
    assert!(smallest.starts_with("0."));
    assert!(smallest.ends_with("07"));
}

#[test]
fn amount_text_joins_code_and_number() {
    assert_eq!(usd_one_point_one().to_string(), "USD 1.1");
    let amount = CurrencyAmount::new(CurrencyCode::new("JPY"), DecimalFraction::new(3, -2));
    assert_eq!(amount.to_string(), "JPY -2000");
    let amount = CurrencyAmount::new(CurrencyCode::new(""), DecimalFraction::new(0, 0));
    assert_eq!(amount.to_string(), " 0");
}

#[test]
fn amount_binary_layout() {
    let bytes = usd_one_point_one().to_cbor().to_cbor_data();
    let expected: Vec<u8> = vec![
        0xd9, 0x80, 0xe9, 0x82, 0xd9, 0x80, 0xe8, 0x63, 0x55, 0x53, 0x44, 0xc4, 0x82, 0x20, 0x0b,
    ];
    assert_eq!(bytes, expected);
}

#[test]
fn decimal_binary_layout() {
    let bytes = DecimalFraction::new(-2, 12345).to_cbor().to_cbor_data();
    assert_eq!(bytes, vec![0xc4, 0x82, 0x21, 0x19, 0x30, 0x39]);
}

#[test]
fn amount_with_one_or_three_items_is_a_shape_mismatch() {
    let code = CurrencyCode::new("USD").to_cbor();
    let number = DecimalFraction::new(-1, 11).to_cbor();
    let one = CBOR::to_tagged_value(TAG_CURRENCY_AMOUNT, CBOR::from(vec![code.clone()]));
    assert_eq!(CurrencyAmount::from_cbor(one), Err(DecodeError::ShapeMismatch));
    let three = CBOR::to_tagged_value(
        TAG_CURRENCY_AMOUNT,
        CBOR::from(vec![code.clone(), number.clone(), number.clone()]),
    );
    assert_eq!(CurrencyAmount::from_cbor(three), Err(DecodeError::ShapeMismatch));
    let not_array = CBOR::to_tagged_value(TAG_CURRENCY_AMOUNT, code);
    assert_eq!(CurrencyAmount::from_cbor(not_array), Err(DecodeError::ShapeMismatch));
}

#[test]
fn wrong_or_missing_tag_is_a_tag_mismatch() {
    let wrong = CBOR::to_tagged_value(TAG_CURRENCY_CODE, int_pair(-1, 11));
    assert_eq!(DecimalFraction::from_cbor(wrong), Err(DecodeError::TagMismatch));
    let untagged = int_pair(-1, 11);
    assert_eq!(DecimalFraction::from_cbor(untagged), Err(DecodeError::TagMismatch));
    let amount_as_code = usd_one_point_one().to_cbor();
    assert_eq!(CurrencyCode::from_cbor(amount_as_code), Err(DecodeError::TagMismatch));
    let code_as_amount = CurrencyCode::new("USD").to_cbor();
    assert_eq!(CurrencyAmount::from_cbor(code_as_amount), Err(DecodeError::TagMismatch));
}

#[test]
fn text_mantissa_is_a_type_mismatch() {
    let payload = CBOR::from(vec![CBOR::from(-1i64), CBOR::from("eleven")]);
    let value = CBOR::to_tagged_value(TAG_DECIMAL_FRACTION, payload);
    assert_eq!(DecimalFraction::from_cbor(value), Err(DecodeError::TypeMismatch));
    let payload = CBOR::from(vec![CBOR::from("minus one"), CBOR::from(11i64)]);
    let value = CBOR::to_tagged_value(TAG_DECIMAL_FRACTION, payload);
    assert_eq!(DecimalFraction::from_cbor(value), Err(DecodeError::TypeMismatch));
    let code = CBOR::to_tagged_value(TAG_CURRENCY_CODE, CBOR::from(840i64));
    assert_eq!(CurrencyCode::from_cbor(code), Err(DecodeError::TypeMismatch));
}

#[test]
fn wide_numbers_are_a_range_overflow() {
    let value = CBOR::to_tagged_value(TAG_DECIMAL_FRACTION, int_pair(128, 11));
    assert_eq!(DecimalFraction::from_cbor(value), Err(DecodeError::RangeOverflow));
    let value = CBOR::to_tagged_value(TAG_DECIMAL_FRACTION, int_pair(-129, 11));
    assert_eq!(DecimalFraction::from_cbor(value), Err(DecodeError::RangeOverflow));
    let value = CBOR::to_tagged_value(
        TAG_DECIMAL_FRACTION,
        CBOR::from(vec![CBOR::from(-1i64), CBOR::from(u64::MAX)]),
    );
    assert_eq!(DecimalFraction::from_cbor(value), Err(DecodeError::RangeOverflow));
    let value = CBOR::to_tagged_value(TAG_DECIMAL_FRACTION, int_pair(i8::MIN as i64, i64::MIN));
    assert_eq!(
        DecimalFraction::from_cbor(value),
        Ok(DecimalFraction::new(i8::MIN, i64::MIN))
    );
}

#[test]
fn item_errors_pass_through_an_amount() {
    let number = DecimalFraction::new(-1, 11).to_cbor();
    let code = CurrencyCode::new("USD").to_cbor();
    let swapped = CBOR::to_tagged_value(
        TAG_CURRENCY_AMOUNT,
        CBOR::from(vec![number.clone(), code.clone()]),
    );
    assert_eq!(CurrencyAmount::from_cbor(swapped), Err(DecodeError::TagMismatch));

    let bad_code = CBOR::to_tagged_value(TAG_CURRENCY_CODE, CBOR::from(1i64));
    let value = CBOR::to_tagged_value(
        TAG_CURRENCY_AMOUNT,
        CBOR::from(vec![bad_code, number.clone()]),
    );
    assert_eq!(CurrencyAmount::from_cbor(value), Err(DecodeError::TypeMismatch));

    let wide = CBOR::to_tagged_value(TAG_DECIMAL_FRACTION, int_pair(1000, 1));
    let value = CBOR::to_tagged_value(TAG_CURRENCY_AMOUNT, CBOR::from(vec![code.clone(), wide]));
    assert_eq!(CurrencyAmount::from_cbor(value), Err(DecodeError::RangeOverflow));

    let short = CBOR::to_tagged_value(TAG_DECIMAL_FRACTION, CBOR::from(vec![CBOR::from(1i64)]));
    let value = CBOR::to_tagged_value(TAG_CURRENCY_AMOUNT, CBOR::from(vec![code, short]));
    assert_eq!(CurrencyAmount::from_cbor(value), Err(DecodeError::ShapeMismatch));
}

#[test]
fn decoding_ignores_registered_names() {
    let value = usd_one_point_one();
    let before = CurrencyAmount::from_cbor(value.to_cbor()).unwrap();
    for _ in 0..2 {
        let tags: Vec<Tag> = library_tags()
            .into_iter()
            .map(|(value, name)| Tag::new(value, name))
            .collect();
        dcbor::GLOBAL_TAGS.get().as_mut().unwrap().insert_all(tags);
    }
    let after = CurrencyAmount::from_cbor(value.to_cbor()).unwrap();
    assert_eq!(before, after);
    assert_eq!(value.to_cbor().to_cbor_data(), usd_one_point_one().to_cbor().to_cbor_data());
}

#[test]
fn library_tags_pair_numbers_with_names() {
    let tags = library_tags();
    assert_eq!(
        tags,
        vec![
            (TAG_DECIMAL_FRACTION, "DecimalFraction"),
            (TAG_CURRENCY_CODE, "CurrencyCode"),
            (TAG_CURRENCY_AMOUNT, "CurrencyAmount"),
        ]
    );
    assert_eq!((TAG_DECIMAL_FRACTION, TAG_CURRENCY_CODE, TAG_CURRENCY_AMOUNT), (4, 33000, 33001));
}
