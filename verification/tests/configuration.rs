use tmp117::configuration::RESET_CONFIGURATION;
use tmp117::{AlertSelect, Average, Configuration, ConversionMode, Polarity};

fn all_clear() -> Configuration {
    Configuration::from_bits(0)
}

#[test]
fn reset_configuration_word() {
    assert_eq!(RESET_CONFIGURATION, 0x0220);
    assert_eq!(Configuration::default().to_bits(), 0x0220);
    assert_eq!(Configuration::default(), Configuration::from_bits(0x0220));
}

#[test]
fn reset_configuration_fields() {
    let expected = Configuration {
        reserved: false,
        soft_reset: false,
        dr_alert: AlertSelect::Alert,
        high_alert: false,
        pol: Polarity::ActiveLow,
        t_na: AlertSelect::DataReady,
        avg: Average::NoAverage,
        conv: 2,
        mode: ConversionMode::Continuous,
        eeprom_busy: false,
        data_ready: false,
        low_alert: false,
    };
    assert_eq!(Configuration::default(), expected);
}

#[test]
fn all_clear_word_has_every_field_clear() {
    let fields = all_clear();
    assert!(!fields.reserved && !fields.soft_reset && !fields.high_alert);
    assert!(!fields.eeprom_busy && !fields.data_ready && !fields.low_alert);
    assert_eq!(fields.dr_alert, AlertSelect::Alert);
    assert_eq!(fields.pol, Polarity::ActiveLow);
    assert_eq!(fields.t_na, AlertSelect::Alert);
    assert_eq!(fields.avg, Average::NoAverage);
    assert_eq!(fields.conv, 0);
    assert_eq!(fields.mode, ConversionMode::Continuous);
}

#[test]
fn each_field_has_its_place_in_the_word() {
    assert_eq!(Configuration { reserved: true, ..all_clear() }.to_bits(), 0x0001);
    assert_eq!(Configuration { soft_reset: true, ..all_clear() }.to_bits(), 0x0002);
    assert_eq!(Configuration { dr_alert: AlertSelect::DataReady, ..all_clear() }.to_bits(), 0x0004);
    assert_eq!(Configuration { high_alert: true, ..all_clear() }.to_bits(), 0x0008);
    assert_eq!(Configuration { pol: Polarity::ActiveHigh, ..all_clear() }.to_bits(), 0x0010);
    assert_eq!(Configuration { t_na: AlertSelect::DataReady, ..all_clear() }.to_bits(), 0x0020);
    assert_eq!(Configuration { avg: Average::Average8, ..all_clear() }.to_bits(), 0x0040);
    assert_eq!(Configuration { avg: Average::Average32, ..all_clear() }.to_bits(), 0x0080);
    assert_eq!(Configuration { avg: Average::Average64, ..all_clear() }.to_bits(), 0x00C0);
    assert_eq!(Configuration { conv: 1, ..all_clear() }.to_bits(), 0x0100);
    assert_eq!(Configuration { conv: 7, ..all_clear() }.to_bits(), 0x0700);
    assert_eq!(Configuration { mode: ConversionMode::Shutdown, ..all_clear() }.to_bits(), 0x0800);
    assert_eq!(Configuration { mode: ConversionMode::OneShot, ..all_clear() }.to_bits(), 0x1000);
    assert_eq!(Configuration { eeprom_busy: true, ..all_clear() }.to_bits(), 0x2000);
    assert_eq!(Configuration { data_ready: true, ..all_clear() }.to_bits(), 0x4000);
    assert_eq!(Configuration { low_alert: true, ..all_clear() }.to_bits(), 0x8000);
}

#[test]
fn each_place_in_the_word_is_read_as_its_field() {
    assert!(Configuration::from_bits(0x0001).reserved);
    assert!(Configuration::from_bits(0x0002).soft_reset);
    assert_eq!(Configuration::from_bits(0x0004).dr_alert, AlertSelect::DataReady);
    assert!(Configuration::from_bits(0x0008).high_alert);
    assert_eq!(Configuration::from_bits(0x0010).pol, Polarity::ActiveHigh);
    assert_eq!(Configuration::from_bits(0x0020).t_na, AlertSelect::DataReady);
    assert_eq!(Configuration::from_bits(0x00C0).avg, Average::Average64);
    assert_eq!(Configuration::from_bits(0x0500).conv, 5);
    assert_eq!(Configuration::from_bits(0x0800).mode, ConversionMode::Shutdown);
    assert_eq!(Configuration::from_bits(0x1000).mode, ConversionMode::OneShot);
    assert!(Configuration::from_bits(0x2000).eeprom_busy);
    assert!(Configuration::from_bits(0x4000).data_ready);
    assert!(Configuration::from_bits(0x8000).low_alert);
}

#[test]
fn word_with_every_bit_set() {
    let fields = Configuration::from_bits(0xFFFF);
    let expected = Configuration {
        reserved: true,
        soft_reset: true,
        dr_alert: AlertSelect::DataReady,
        high_alert: true,
        pol: Polarity::ActiveHigh,
        t_na: AlertSelect::DataReady,
        avg: Average::Average64,
        conv: 7,
        mode: ConversionMode::Continuous,
        eeprom_busy: true,
        data_ready: true,
        low_alert: true,
    };
    assert_eq!(fields, expected);
    assert_eq!(fields.to_bits(), 0xE7FF);
}

#[test]
fn unassigned_mode_pattern_decodes_to_continuous() {
    assert_eq!(Configuration::from_bits(0x1800).mode, ConversionMode::Continuous);
    assert_eq!(Configuration::from_bits(0x1A20).mode, ConversionMode::Continuous);
    assert_eq!(Configuration::from_bits(0x1A20), Configuration::from_bits(0x0220));
}

#[test]
fn fields_survive_the_round_trip_through_every_word() {
    for word in 0..=u16::MAX {
        let fields = Configuration::from_bits(word);
        assert!(fields.conv <= 7);
        assert_eq!(Configuration::from_bits(fields.to_bits()), fields);
    }
}

#[test]
fn words_survive_the_round_trip_unless_the_mode_is_unassigned() {
    for word in 0..=u16::MAX {
        let back = Configuration::from_bits(word).to_bits();
        if (word >> 11) & 3 == 3 {
            assert_eq!(back, word & !0x1800);
        } else {
            assert_eq!(back, word);
        }
    }
}

#[test]
fn every_combination_of_fields_survives_the_round_trip() {
    let flags = [false, true];
    let selects = [AlertSelect::Alert, AlertSelect::DataReady];
    let polarities = [Polarity::ActiveLow, Polarity::ActiveHigh];
    let averages =
        [Average::NoAverage, Average::Average8, Average::Average32, Average::Average64];
    let modes = [ConversionMode::Continuous, ConversionMode::Shutdown, ConversionMode::OneShot];
    let mut seen = std::collections::HashSet::new();
    for number in 0..(1u32 << 9) {
        let flag = |place: u32| flags[((number >> place) & 1) as usize];
        for avg in averages {
            for conv in 0..8u8 {
                for mode in modes {
                    let fields = Configuration {
                        reserved: flag(0),
                        soft_reset: flag(1),
                        dr_alert: selects[((number >> 2) & 1) as usize],
                        high_alert: flag(3),
                        pol: polarities[((number >> 4) & 1) as usize],
                        t_na: selects[((number >> 5) & 1) as usize],
                        avg,
                        conv,
                        mode,
                        eeprom_busy: flag(6),
                        data_ready: flag(7),
                        low_alert: flag(8),
                    };
                    let word = fields.to_bits();
                    assert_eq!(Configuration::from_bits(word), fields);
                    assert!(seen.insert(word));
                }
            }
        }
    }
    assert_eq!(seen.len(), 512 * 4 * 8 * 3);
}

#[test]
fn only_three_bits_of_the_conversion_cycle_are_packed() {
    assert_eq!(Configuration { conv: 0x0A, ..all_clear() }.to_bits(), 0x0200);
    assert_eq!(Configuration { conv: 0xFF, ..all_clear() }.to_bits(), 0x0700);
}
