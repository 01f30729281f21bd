use mqtt_led::light::{decode_light, encode_light, DecodeError, Light};

#[test]
fn round_trip_fixture_two_on() {
    let l = Light::get_on(2);
    let bytes = encode_light(&l);
    let back = decode_light(&bytes).unwrap();
    assert!(back.on);
    assert_eq!(back.num, 2);
}

#[test]
fn encoded_form_is_a_two_entry_map() {
    assert_eq!(encode_light(&Light::get_on(2)), vec![0xa2, 0x00, 0xf5, 0x01, 0x02]);
    assert_eq!(encode_light(&Light::get_off(0)), vec![0xa2, 0x00, 0xf4, 0x01, 0x00]);
}

#[test]
fn encoded_form_of_wide_and_negative_numbers() {
    assert_eq!(encode_light(&Light::get_off(-300)), vec![0xa2, 0x00, 0xf4, 0x01, 0x39, 0x01, 0x2b]);
    assert_eq!(encode_light(&Light::get_on(24)), vec![0xa2, 0x00, 0xf5, 0x01, 0x18, 0x18]);
    assert_eq!(encode_light(&Light::get_on(-1)), vec![0xa2, 0x00, 0xf5, 0x01, 0x20]);
}

#[test]
fn round_trip_extremes() {
    for num in [i16::MIN, -25, -24, -1, 0, 23, 24, 255, 256, i16::MAX] {
        for on in [false, true] {
            let l = Light { on, num };
            assert_eq!(decode_light(&encode_light(&l)), Ok(l));
        }
    }
}

#[test]
fn constructors_set_the_flag() {
    assert_eq!(Light::get_on(7), Light { on: true, num: 7 });
    assert_eq!(Light::get_off(7), Light { on: false, num: 7 });
}

#[test]
fn decode_accepts_keys_in_any_order() {
    assert_eq!(decode_light(&[0xa2, 0x01, 0x02, 0x00, 0xf5]), Ok(Light { on: true, num: 2 }));
}

#[test]
fn decode_accepts_an_indefinite_map() {
    assert_eq!(decode_light(&[0xbf, 0x00, 0xf4, 0x01, 0x03, 0xff]), Ok(Light { on: false, num: 3 }));
}

#[test]
fn decode_skips_unknown_keys() {
    let bytes = [0xa3, 0x00, 0xf5, 0x05, 0x63, b'a', b'b', b'c', 0x01, 0x02];
    assert_eq!(decode_light(&bytes), Ok(Light { on: true, num: 2 }));
    let nested = [0xa3, 0x07, 0x82, 0x01, 0x02, 0x00, 0xf4, 0x01, 0x04];
    assert_eq!(decode_light(&nested), Ok(Light { on: false, num: 4 }));
}

#[test]
fn decode_keeps_the_last_value_of_a_repeated_key() {
    let bytes = [0xa3, 0x00, 0xf5, 0x01, 0x02, 0x00, 0xf4];
    assert_eq!(decode_light(&bytes), Ok(Light { on: false, num: 2 }));
}

#[test]
fn decode_accepts_a_longer_head_than_needed() {
    assert_eq!(decode_light(&[0xa2, 0x00, 0xf5, 0x01, 0x18, 0x02]), Ok(Light { on: true, num: 2 }));
}

#[test]
fn decode_ignores_trailing_bytes() {
    assert_eq!(decode_light(&[0xa2, 0x00, 0xf5, 0x01, 0x02, 0x99]), Ok(Light { on: true, num: 2 }));
}

#[test]
fn decode_reports_a_missing_field() {
    assert_eq!(decode_light(&[0xa1, 0x00, 0xf5]), Err(DecodeError::MissingField));
    assert_eq!(decode_light(&[0xa1, 0x01, 0x02]), Err(DecodeError::MissingField));
    assert_eq!(decode_light(&[0xa0]), Err(DecodeError::MissingField));
}

#[test]
fn decode_rejects_malformed_payloads() {
    assert_eq!(decode_light(&[]), Err(DecodeError::Malformed));
    assert_eq!(decode_light(&[0x82, 0xf5, 0x02]), Err(DecodeError::Malformed));
    assert_eq!(decode_light(&[0xa2, 0x00, 0x01, 0x01, 0x02]), Err(DecodeError::Malformed));
    assert_eq!(decode_light(&[0xa2, 0x00, 0xf5, 0x01]), Err(DecodeError::Malformed));
    assert_eq!(decode_light(&[0xbf, 0x00, 0xf5, 0x01, 0x02]), Err(DecodeError::Malformed));
    assert_eq!(decode_light(&b"anything"[..]), Err(DecodeError::Malformed));
}

#[test]
fn decode_rejects_a_number_outside_i16() {
    assert_eq!(decode_light(&[0xa2, 0x00, 0xf5, 0x01, 0x19, 0x80, 0x00]), Err(DecodeError::Malformed));
    assert_eq!(decode_light(&[0xa2, 0x00, 0xf5, 0x01, 0x39, 0x80, 0x00]), Err(DecodeError::Malformed));
    assert_eq!(decode_light(&[0xa2, 0x00, 0xf5, 0x01, 0x39, 0x7f, 0xff]), Ok(Light { on: true, num: i16::MIN }));
}
