use tmp117::temperature::{raw_to_word, word_to_raw};
use tmp117::Celsius;

const CELSIUS_PER_BIT: f32 = 7.8125 / 1000.0;

fn celsius(degrees: f32) -> Celsius {
    Celsius::from_bits(degrees.to_bits())
}

fn degrees(celsius: Celsius) -> f32 {
    f32::from_bits(celsius.to_bits())
}

#[test]
fn resolution_is_one_part_in_128() {
    assert_eq!(CELSIUS_PER_BIT, 0.0078125);
    assert_eq!(CELSIUS_PER_BIT, 1.0 / 128.0);
}

#[test]
fn raw_400_decodes_to_3_125_degrees() {
    assert_eq!(word_to_raw(0x0190), 400);
    assert_eq!(degrees(Celsius::from_raw(400)), 3.125);
    assert_eq!(degrees(Celsius::from_raw(400)), 400.0 * 0.0078125);
}

#[test]
fn raw_minus_400_decodes_to_minus_3_125_degrees() {
    assert_eq!(word_to_raw(0xFE70), -400);
    assert_eq!(degrees(Celsius::from_raw(-400)), -3.125);
}

#[test]
fn limit_of_3_125_degrees_encodes_to_0x0190() {
    assert_eq!(celsius(3.125).to_raw(), 400);
    assert_eq!(raw_to_word(celsius(3.125).to_raw()), 0x0190);
}

#[test]
fn limit_of_minus_3_125_degrees_encodes_to_0xfe70() {
    assert_eq!(celsius(-3.125).to_raw(), -400);
    assert_eq!(raw_to_word(celsius(-3.125).to_raw()), 0xFE70);
}

#[test]
fn zero_counts_are_positive_zero() {
    assert_eq!(Celsius::from_raw(0).to_bits(), 0);
    assert_eq!(degrees(Celsius::from_raw(0)), 0.0);
    assert!(degrees(Celsius::from_raw(0)).is_sign_positive());
}

#[test]
fn bit_patterns_of_some_temperatures() {
    assert_eq!(Celsius::from_raw(400).to_bits(), 0x4048_0000);
    assert_eq!(Celsius::from_raw(-400).to_bits(), 0xC048_0000);
    assert_eq!(Celsius::from_raw(1).to_bits(), 0x3C00_0000);
    assert_eq!(Celsius::from_raw(128).to_bits(), 0x3F80_0000);
    assert_eq!(Celsius::from_raw(i16::MAX).to_bits(), 0x437F_FE00);
    assert_eq!(Celsius::from_raw(i16::MIN).to_bits(), 0xC380_0000);
}

#[test]
fn ends_of_the_range() {
    assert_eq!(degrees(Celsius::from_raw(i16::MAX)), 255.9921875);
    assert_eq!(degrees(Celsius::from_raw(i16::MIN)), -256.0);
    assert_eq!(degrees(Celsius::from_raw(1)), 0.0078125);
    assert_eq!(degrees(Celsius::from_raw(-1)), -0.0078125);
}

#[test]
fn every_count_decodes_as_the_multiplication_does() {
    for raw in i16::MIN..=i16::MAX {
        let expected = (raw as f32) * CELSIUS_PER_BIT;
        assert_eq!(Celsius::from_raw(raw).to_bits(), expected.to_bits());
    }
}

#[test]
fn every_count_survives_the_round_trip() {
    for raw in i16::MIN..=i16::MAX {
        assert_eq!(Celsius::from_raw(raw).to_raw(), raw);
    }
}

#[test]
fn every_word_survives_the_round_trip() {
    for word in 0..=u16::MAX {
        assert_eq!(raw_to_word(word_to_raw(word)), word);
        assert_eq!(word_to_raw(word), word as i16);
    }
    for raw in i16::MIN..=i16::MAX {
        assert_eq!(word_to_raw(raw_to_word(raw)), raw);
        assert_eq!(raw_to_word(raw), raw as u16);
    }
}

#[test]
fn words_are_twos_complement() {
    assert_eq!(word_to_raw(0x0000), 0);
    assert_eq!(word_to_raw(0x7FFF), 32767);
    assert_eq!(word_to_raw(0x8000), -32768);
    assert_eq!(word_to_raw(0xFFFF), -1);
    assert_eq!(raw_to_word(-1), 0xFFFF);
    assert_eq!(raw_to_word(-32768), 0x8000);
}

#[test]
fn limits_are_rounded_toward_zero() {
    assert_eq!(celsius(3.13).to_raw(), 400);
    assert_eq!(celsius(-3.13).to_raw(), -400);
    assert_eq!(celsius(0.0078124).to_raw(), 0);
    assert_eq!(celsius(-0.0078124).to_raw(), 0);
    assert_eq!(celsius(0.0078125).to_raw(), 1);
    assert_eq!(celsius(-0.0078125).to_raw(), -1);
    assert_eq!(celsius(0.015624).to_raw(), 1);
    assert_eq!(celsius(25.0).to_raw(), 3200);
    assert_eq!(celsius(-40.0).to_raw(), -5120);
}

#[test]
fn zero_of_either_sign_is_no_count() {
    assert_eq!(celsius(0.0).to_raw(), 0);
    assert_eq!(celsius(-0.0).to_raw(), 0);
}

#[test]
fn limits_beyond_the_range_stop_at_its_ends() {
    assert_eq!(celsius(255.9921875).to_raw(), i16::MAX);
    assert_eq!(celsius(255.999).to_raw(), i16::MAX);
    assert_eq!(celsius(256.0).to_raw(), i16::MAX);
    assert_eq!(celsius(1000.0).to_raw(), i16::MAX);
    assert_eq!(celsius(f32::MAX).to_raw(), i16::MAX);
    assert_eq!(celsius(f32::INFINITY).to_raw(), i16::MAX);
    assert_eq!(celsius(-256.0).to_raw(), i16::MIN);
    assert_eq!(celsius(-255.9921875).to_raw(), -32767);
    assert_eq!(celsius(-256.0078125).to_raw(), i16::MIN);
    assert_eq!(celsius(-1000.0).to_raw(), i16::MIN);
    assert_eq!(celsius(f32::MIN).to_raw(), i16::MIN);
    assert_eq!(celsius(f32::NEG_INFINITY).to_raw(), i16::MIN);
}

#[test]
fn what_is_not_a_number_is_no_count() {
    assert_eq!(celsius(f32::NAN).to_raw(), 0);
    assert_eq!(Celsius::from_bits(0x7FC0_0001).to_raw(), 0);
    assert_eq!(Celsius::from_bits(0xFFFF_FFFF).to_raw(), 0);
    assert_eq!(Celsius::from_bits(0x7F80_0001).to_raw(), 0);
}

#[test]
fn tiny_temperatures_are_no_count() {
    assert_eq!(celsius(f32::MIN_POSITIVE).to_raw(), 0);
    assert_eq!(Celsius::from_bits(0x0000_0001).to_raw(), 0);
    assert_eq!(Celsius::from_bits(0x8000_0001).to_raw(), 0);
    assert_eq!(Celsius::from_bits(0x007F_FFFF).to_raw(), 0);
}

#[test]
fn limits_encode_as_the_division_and_cast_do() {
    let mut bits: u32 = 0;
    loop {
        let value = f32::from_bits(bits);
        let expected = (value / CELSIUS_PER_BIT) as i16;
        assert_eq!(Celsius::from_bits(bits).to_raw(), expected, "bits {:#010x}", bits);
        match bits.checked_add(4099) {
            Some(next) => bits = next,
            None => break,
        }
    }
}

#[test]
fn limits_near_whole_counts_encode_as_the_division_and_cast_do() {
    for raw in i16::MIN..=i16::MAX {
        let exact = (raw as f32) * CELSIUS_PER_BIT;
        for step in 0..4u32 {
            for pattern in [exact.to_bits().wrapping_add(step), exact.to_bits().wrapping_sub(step)] {
                let value = f32::from_bits(pattern);
                let expected = (value / CELSIUS_PER_BIT) as i16;
                assert_eq!(Celsius::from_bits(pattern).to_raw(), expected);
            }
        }
    }
}

#[test]
fn bits_pass_through_unchanged() {
    for bits in [0u32, 1, 0x4048_0000, 0x7FC0_0000, 0x8000_0000, u32::MAX] {
        assert_eq!(Celsius::from_bits(bits).to_bits(), bits);
        assert_eq!(Celsius::from_bits(bits), Celsius { bits });
    }
}
