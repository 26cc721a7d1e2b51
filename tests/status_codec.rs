use soundbar::status::{AutoOff, Power, Source, SpeakerOrientation, Status};

const SOURCES: [Source; 6] = [
    Source::Wifi,
    Source::USB,
    Source::BluetoothPaired,
    Source::BluetoothUnpaired,
    Source::AUX,
    Source::Optical,
];
const AUTO_OFFS: [AutoOff; 3] = [AutoOff::TwentyMinutes, AutoOff::SixtyMinutes, AutoOff::Never];
const ORIENTATIONS: [SpeakerOrientation; 2] =
    [SpeakerOrientation::MainIsRight, SpeakerOrientation::MainIsLeft];
const POWERS: [Power; 2] = [Power::On, Power::Off];

fn all_statuses() -> Vec<Status> {
    let mut all = Vec::new();
    for power in POWERS {
        for orientation in ORIENTATIONS {
            for source in SOURCES {
                for auto_off in AUTO_OFFS {
                    all.push(Status { power, orientation, source, auto_off });
                }
            }
        }
    }
    all
}

#[test]
fn round_trip_every_status() {
    let all = all_statuses();
    assert_eq!(all.len(), 72);
    for status in all {
        assert_eq!(Status::from_bits(status.to_bits()), status);
    }
}

#[test]
fn distinct_statuses_encode_to_distinct_bytes() {
    let all = all_statuses();
    for a in &all {
        for b in &all {
            if a != b {
                assert_ne!(a.to_bits(), b.to_bits());
            }
        }
    }
}

#[test]
fn encode_example_power_on_wifi() {
    let status = Status {
        power: Power::On,
        orientation: SpeakerOrientation::MainIsRight,
        source: Source::Wifi,
        auto_off: AutoOff::TwentyMinutes,
    };
    assert_eq!(status.to_bits(), 0b0000_0010);
}

#[test]
fn encode_places_each_field_at_its_offset() {
    let status = Status {
        power: Power::Off,
        orientation: SpeakerOrientation::MainIsLeft,
        source: Source::Optical,
        auto_off: AutoOff::Never,
    };
    assert_eq!(status.to_bits(), 0b1110_1011);
    assert_eq!(Source::USB.to_bits(), 0b1100);
    assert_eq!(AutoOff::SixtyMinutes.to_bits(), 0b0001_0000);
    assert_eq!(SpeakerOrientation::MainIsLeft.to_bits(), 0b0100_0000);
    assert_eq!(Power::Off.to_bits(), 0b1000_0000);
    assert_eq!(Power::On.to_bits(), 0);
}

#[test]
fn decode_example_0x92() {
    let status = Status::from_bits(0b1001_0010);
    assert_eq!(status.power, Power::Off);
    assert_eq!(status.orientation, SpeakerOrientation::MainIsRight);
    assert_eq!(status.auto_off, AutoOff::SixtyMinutes);
    assert_eq!(status.source, Source::Wifi);
}

fn expected_source(code: u8) -> Source {
    match code {
        0b0010 => Source::Wifi,
        0b1100 => Source::USB,
        0b1001 => Source::BluetoothPaired,
        0b1111 => Source::BluetoothUnpaired,
        0b1010 => Source::AUX,
        _ => Source::Optical,
    }
}

#[test]
fn decode_every_byte_follows_bit_layout() {
    for bits in 0..=255u8 {
        let status = Status::from_bits(bits);
        assert_eq!(status.source, expected_source(bits & 0x0f));
        let auto_off = match (bits >> 4) & 0b11 {
            0b01 => AutoOff::SixtyMinutes,
            0b10 => AutoOff::Never,
            _ => AutoOff::TwentyMinutes,
        };
        assert_eq!(status.auto_off, auto_off);
        let left = bits & 0b0100_0000 != 0;
        assert_eq!(status.orientation == SpeakerOrientation::MainIsLeft, left);
        let off = bits & 0b1000_0000 != 0;
        assert_eq!(status.power == Power::Off, off);
    }
}

#[test]
fn decode_falls_back_on_unknown_fields() {
    // source code 0b0000 and auto-off code 0b11 name no setting
    let status = Status::from_bits(0b0011_0000);
    assert_eq!(status.source, Source::Optical);
    assert_eq!(status.auto_off, AutoOff::TwentyMinutes);
    assert_eq!(Status::from_bits(0b0000_0111).source, Source::Optical);
    assert_eq!(Source::from_bits(0b1111_0001), Source::Optical);
    assert_eq!(AutoOff::from_bits(0b1111_1111), AutoOff::TwentyMinutes);
}

#[test]
fn decode_fields_ignore_other_bits() {
    assert_eq!(Source::from_bits(0b1111_1100), Source::USB);
    assert_eq!(AutoOff::from_bits(0b1110_1111), AutoOff::Never);
    assert_eq!(SpeakerOrientation::from_bits(0b0100_0000), SpeakerOrientation::MainIsLeft);
    assert_eq!(SpeakerOrientation::from_bits(0b1011_1111), SpeakerOrientation::MainIsRight);
    assert_eq!(Power::from_bits(0b0111_1111), Power::On);
    assert_eq!(Power::from_bits(0b1000_0000), Power::Off);
}

#[test]
fn invert_power() {
    assert_eq!(Power::On.invert(), Power::Off);
    assert_eq!(Power::Off.invert(), Power::On);
}

#[test]
fn labels() {
    assert_eq!(Source::Wifi.label(), "Wifi");
    assert_eq!(Source::USB.label(), "USB");
    assert_eq!(Source::BluetoothPaired.label(), "Bluetooth");
    assert_eq!(Source::BluetoothUnpaired.label(), "Bluetooth");
    assert_eq!(Source::AUX.label(), "AUX");
    assert_eq!(Source::Optical.label(), "Optical");
    assert_eq!(AutoOff::TwentyMinutes.label(), "20 minutes");
    assert_eq!(AutoOff::SixtyMinutes.label(), "60 minutes");
    assert_eq!(AutoOff::Never.label(), "Never");
    assert_eq!(SpeakerOrientation::MainIsLeft.label(), "Main speaker is on the left");
    assert_eq!(SpeakerOrientation::MainIsRight.label(), "Main speaker is on the right");
    assert_eq!(Power::On.label(), "On");
    assert_eq!(Power::Off.label(), "Off");
}
