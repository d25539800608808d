use toshiba_ac::toshiba_api::hex::{decode_hex, hex_digit};
use toshiba_ac::toshiba_api::mapping::{
    parse_state_data, AirConditionerMode, DecodeError, FanMode, PowerState, StateData,
};
use toshiba_ac::toshiba_api::state::normalize;

fn malformed(position: usize) -> Result<StateData, DecodeError> {
    Err(DecodeError::MalformedInput { position })
}

#[test]
fn basic() {
    let raw = "31411841316400101610fe0b00001002000000";
    let result = parse_state_data(raw);

    assert!(result.is_ok());
}

#[test]
fn sample_payload_decodes_field_by_field() {
    let state = parse_state_data("31411841316400101710fe0b00001002000000").unwrap();
    assert_eq!(state.power_status, PowerState::Off);
    assert_eq!(state.mode, AirConditionerMode::Auto);
    assert_eq!(state.target_temperature, 0x18);
    assert_eq!(state.fan_mode, FanMode::Auto);
    assert_eq!(
        state,
        StateData {
            power_status: PowerState::Off,
            mode: AirConditionerMode::Auto,
            target_temperature: 0x18,
            fan_mode: FanMode::Auto,
            swing_mode: 0x31,
            power_selection: 0x64,
            merit_a: 0x00,
            merit_b: 0x00,
            air_pure_ion: 0x00,
            indoor_temp: 0x10,
            outdoor_temp: 0x17,
            self_cleaning: 0x00,
        }
    );
}

#[test]
fn second_sample_payload_decodes() {
    let state = parse_state_data("31411841316400101610fe0b00001002000000").unwrap();
    assert_eq!(state.power_status, PowerState::Off);
    assert_eq!(state.indoor_temp, 0x10);
    assert_eq!(state.outdoor_temp, 0x16);
}

#[test]
fn every_field_is_read_at_its_offset() {
    // wire bytes 0x30, 0x42, then 0x03 .. 0x0e: each byte names its own offset
    let state = parse_state_data("3042033505060708090a0b0c0d0e").unwrap();
    assert_eq!(
        state,
        StateData {
            power_status: PowerState::On,
            mode: AirConditionerMode::Cool,
            target_temperature: 0x03,
            fan_mode: FanMode::MediumHigh,
            swing_mode: 0x05,
            power_selection: 0x06,
            merit_a: 0x07,
            merit_b: 0x00,
            air_pure_ion: 0x00,
            indoor_temp: 0x08,
            outdoor_temp: 0x09,
            self_cleaning: 0x0e,
        }
    );
}

#[test]
fn normalize_puts_two_zero_bytes_after_offset_six() {
    let raw: Vec<u8> = vec![1, 2, 3, 4, 5, 6, 7, 8, 9, 10];
    assert_eq!(normalize(&raw), Some(vec![1, 2, 3, 4, 5, 6, 7, 0, 0, 8, 9, 10]));
    let shortest: Vec<u8> = vec![1, 2, 3, 4, 5, 6, 7];
    assert_eq!(normalize(&shortest), Some(vec![1, 2, 3, 4, 5, 6, 7, 0, 0]));
}

#[test]
fn normalize_needs_a_byte_at_offset_six() {
    let raw: Vec<u8> = vec![1, 2, 3, 4, 5, 6];
    assert_eq!(normalize(&raw), None);
    assert_eq!(normalize(&[]), None);
}

#[test]
fn canonical_sequence_must_reach_the_last_field() {
    let short: Vec<u8> = vec![0x30; 15];
    assert_eq!(StateData::from_canonical(&short), None);
    let enough: Vec<u8> = vec![0x30; 16];
    let state = StateData::from_canonical(&enough).unwrap();
    assert_eq!(state.power_status, PowerState::On);
    assert_eq!(state.self_cleaning, 0x30);
}

#[test]
fn decoding_is_repeatable() {
    let text = "31411841316400101710fe0b00001002000000";
    assert_eq!(parse_state_data(text), parse_state_data(text));
    let owned = String::from(text);
    assert_eq!(parse_state_data(&owned), parse_state_data(text));
}

#[test]
fn letter_case_of_the_digits_does_not_matter() {
    let lower = parse_state_data("31411841316400101710fe0b00001002000000");
    let upper = parse_state_data("31411841316400101710FE0B00001002000000");
    assert!(lower.is_ok());
    assert_eq!(lower, upper);
}

#[test]
fn every_short_payload_is_malformed() {
    let full = "31411841316400101710fe0b0000";
    assert_eq!(full.len(), 28);
    assert!(parse_state_data(full).is_ok());
    for length in 0..28 {
        let result = parse_state_data(&full[..length]);
        assert!(matches!(result, Err(DecodeError::MalformedInput { .. })));
    }
}

#[test]
fn short_payload_is_refused_at_its_end() {
    assert_eq!(parse_state_data(""), malformed(0));
    assert_eq!(parse_state_data("3141"), malformed(4));
    assert_eq!(parse_state_data("31411841316400101710fe0b00"), malformed(26));
}

#[test]
fn odd_length_is_refused_at_the_unpaired_digit() {
    assert_eq!(parse_state_data("314"), malformed(2));
    assert_eq!(parse_state_data("31411841316400101710fe0b00001002000"), malformed(34));
}

#[test]
fn foreign_character_is_refused_where_it_stands() {
    assert_eq!(parse_state_data("31411841316400101710fg0b00001002000000"), malformed(21));
    assert_eq!(parse_state_data("x1411841316400101710fe0b00001002000000"), malformed(0));
    assert_eq!(parse_state_data("31411841316400101710fe0b0000100200000 "), malformed(37));
    assert_eq!(parse_state_data("+1411841316400101710fe0b00001002000000"), malformed(0));
    // the position counts characters, not bytes
    assert_eq!(parse_state_data("31é11841316400101710fe0b00001002000000"), malformed(2));
    assert_eq!(parse_state_data("31411841316400101710fe0b0000100200000é"), malformed(37));
}

#[test]
fn first_fault_wins() {
    // a foreign character in a text of odd length
    assert_eq!(parse_state_data("31z"), malformed(2));
    assert_eq!(parse_state_data("3z1z5"), malformed(1));
}

#[test]
fn unknown_power_codes_read_unknown() {
    for code in 0..=255u8 {
        let expected = match code {
            0x30 => PowerState::On,
            0x31 => PowerState::Off,
            _ => PowerState::Unknown,
        };
        assert_eq!(PowerState::from_code(code), expected);
    }
}

#[test]
fn unknown_mode_codes_read_unknown() {
    for code in 0..=255u8 {
        let expected = match code {
            0x41 => AirConditionerMode::Auto,
            0x42 => AirConditionerMode::Cool,
            0x43 => AirConditionerMode::Heat,
            0x44 => AirConditionerMode::Dry,
            0x45 => AirConditionerMode::Fan,
            _ => AirConditionerMode::Unknown,
        };
        assert_eq!(AirConditionerMode::from_code(code), expected);
    }
}

#[test]
fn unknown_fan_codes_read_unknown() {
    for code in 0..=255u8 {
        let expected = match code {
            0x41 => FanMode::Auto,
            0x31 => FanMode::Quiet,
            0x32 => FanMode::Low,
            0x33 => FanMode::MediumLow,
            0x34 => FanMode::Medium,
            0x35 => FanMode::MediumHigh,
            0x36 => FanMode::High,
            0x00 => FanMode::Unset,
            _ => FanMode::Unknown,
        };
        assert_eq!(FanMode::from_code(code), expected);
    }
}

#[test]
fn unknown_codes_do_not_fail_the_payload() {
    let state = parse_state_data("ffff18ff316400101710fe0b00001002000000").unwrap();
    assert_eq!(state.power_status, PowerState::Unknown);
    assert_eq!(state.mode, AirConditionerMode::Unknown);
    assert_eq!(state.fan_mode, FanMode::Unknown);
    assert_eq!(state.target_temperature, 0x18);
}

#[test]
fn hex_text_spells_bytes() {
    assert_eq!(decode_hex(""), Ok(Vec::new()));
    assert_eq!(decode_hex("00ff10aBCd"), Ok(vec![0x00, 0xff, 0x10, 0xab, 0xcd]));
    assert_eq!(decode_hex("0g"), Err(1));
    assert_eq!(decode_hex("abc"), Err(2));
    assert_eq!(decode_hex("/0"), Err(0));
    assert_eq!(decode_hex("0:"), Err(1));
    assert_eq!(decode_hex("@a"), Err(0));
    assert_eq!(decode_hex("aG"), Err(1));
    assert_eq!(decode_hex("`a"), Err(0));
}

#[test]
fn hex_digits_have_their_values() {
    let digits = "0123456789abcdef";
    for (value, digit) in digits.chars().enumerate() {
        assert_eq!(hex_digit(digit), Some(value as u8));
        assert_eq!(hex_digit(digit.to_ascii_uppercase()), Some(value as u8));
    }
    for other in ['/', ':', '@', 'G', '`', 'g', ' ', '+', '-', 'x', 'é', '\u{ff10}'] {
        assert_eq!(hex_digit(other), None);
    }
}
