use tmp117::{AlertMode, AlertSelect, Average, ConversionMode, Polarity};

#[test]
fn conversion_mode_patterns() {
    assert_eq!(ConversionMode::from_bits(0), ConversionMode::Continuous);
    assert_eq!(ConversionMode::from_bits(1), ConversionMode::Shutdown);
    assert_eq!(ConversionMode::from_bits(2), ConversionMode::OneShot);
    assert_eq!(ConversionMode::Continuous.to_bits(), 0);
    assert_eq!(ConversionMode::Shutdown.to_bits(), 1);
    assert_eq!(ConversionMode::OneShot.to_bits(), 2);
}

#[test]
fn conversion_mode_without_a_pattern_falls_back_to_continuous() {
    assert_eq!(ConversionMode::from_bits(3), ConversionMode::Continuous);
}

#[test]
fn conversion_mode_fallback_is_written_as_continuous() {
    assert_eq!(ConversionMode::from_bits(3).to_bits(), 0);
}

#[test]
fn conversion_mode_round_trip() {
    for mode in [ConversionMode::Continuous, ConversionMode::Shutdown, ConversionMode::OneShot] {
        assert_eq!(ConversionMode::from_bits(mode.to_bits()), mode);
    }
}

#[test]
fn average_patterns() {
    assert_eq!(Average::from_bits(0), Average::NoAverage);
    assert_eq!(Average::from_bits(1), Average::Average8);
    assert_eq!(Average::from_bits(2), Average::Average32);
    assert_eq!(Average::from_bits(3), Average::Average64);
    for bits in 0..=3u8 {
        assert_eq!(Average::from_bits(bits).to_bits(), bits);
    }
}

#[test]
fn alert_mode_patterns() {
    assert_eq!(AlertMode::from_bits(0), AlertMode::Alert);
    assert_eq!(AlertMode::from_bits(1), AlertMode::Therm);
    assert_eq!(AlertMode::Alert.to_bits(), 0);
    assert_eq!(AlertMode::Therm.to_bits(), 1);
}

#[test]
fn polarity_patterns() {
    assert_eq!(Polarity::from_bits(0), Polarity::ActiveLow);
    assert_eq!(Polarity::from_bits(1), Polarity::ActiveHigh);
    assert_eq!(Polarity::ActiveLow.to_bits(), 0);
    assert_eq!(Polarity::ActiveHigh.to_bits(), 1);
}

#[test]
fn alert_select_patterns() {
    assert_eq!(AlertSelect::from_bits(0), AlertSelect::Alert);
    assert_eq!(AlertSelect::from_bits(1), AlertSelect::DataReady);
    assert_eq!(AlertSelect::Alert.to_bits(), 0);
    assert_eq!(AlertSelect::DataReady.to_bits(), 1);
}
