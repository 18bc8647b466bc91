use uac1::bytes::{high_byte, i16_from_le, i16_to_le, low_byte, u24_from_le, u24_to_le};
use uac1::settings::AudioSettings;
use uac1::types::Volume;

#[test]
fn bytes_of_numbers() {
    assert_eq!(low_byte(0x12AB), 0xAB);
    assert_eq!(high_byte(0x12AB), 0x12);
    assert_eq!(u24_to_le(0x00ABCDEF), [0xEF, 0xCD, 0xAB]);
    assert_eq!(u24_to_le(0xFF000001), [1, 0, 0]);
    assert_eq!(i16_to_le(-25600), [0x00, 0x9C]);
    assert_eq!(i16_to_le(256), [0x00, 0x01]);
}

#[test]
fn numbers_of_bytes() {
    assert_eq!(u24_from_le(0xEF, 0xCD, 0xAB), 0xABCDEF);
    assert_eq!(i16_from_le(0x00, 0x80), i16::MIN);
    assert_eq!(i16_from_le(0xFF, 0x7F), i16::MAX);
    assert_eq!(i16_from_le(0xFF, 0xFF), -1);
}

#[test]
fn i16_round_trips() {
    for value in i16::MIN..=i16::MAX {
        let [b0, b1] = i16_to_le(value);
        assert_eq!(i16_from_le(b0, b1), value);
    }
}

#[test]
fn default_settings() {
    let settings = AudioSettings::default();
    for channel in 0..13 {
        assert!(!settings.channel_muted(channel));
        assert_eq!(settings.volume_8q8(channel), 0);
        assert_eq!(settings.channel_volume(channel), Volume::DeciBel8q8(0));
    }
    assert!(!settings.stream_muted(12));
    assert!(settings.stream_muted(0));
}

#[test]
fn settings_of_one_channel() {
    let mut settings = AudioSettings::default();
    settings.set_volume_8q8(5, -512);
    assert_eq!(settings.channel_volume(5), Volume::DeciBel8q8(-512));
    settings.set_muted(5, true);
    assert_eq!(settings.channel_volume(5), Volume::Muted);
    assert_eq!(settings.volume_8q8(5), -512);
    assert_eq!(settings.channel_volume(4), Volume::DeciBel8q8(0));
    assert!(!settings.stream_muted(5));
    for channel in 1..5 {
        settings.set_muted(channel, true);
    }
    assert!(settings.stream_muted(5));
    assert!(!settings.stream_muted(6));
}
