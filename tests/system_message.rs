use remote_id::message::message::{Message, MessageError};
use remote_id::message::system_message::SystemMessage;

/// A system message of `len` bytes with the given first byte.
fn system(first: u8, len: usize) -> Vec<u8> {
    let full: Vec<u8> = vec![
        first, // bit fields
        0x01, 0x02, 0x03, 0x04, // latitude
        0xFF, 0xFF, 0xFF, 0xFF, // longitude
        0x10, 0x00, // operation area count
        0x05, // operation area radius
        0x20, 0x01, // ceiling
        0x30, 0x00, // floor
        0x07, // UA category
        0x08, // UA class
        0x64, 0x00, // station altitude
        0x78, 0x56, 0x34, 0x12, // timestamp
        0x99, // reserved
    ];
    full[..len].to_vec()
}

#[test]
fn system_full_message() {
    let msg = SystemMessage::from_bytes(&system(0b0000_1001, 25)).unwrap();
    assert_eq!(msg.classification_region, 2);
    assert_eq!(msg.station_type, 1);
    assert_eq!(msg.reserved_bits, 1);
    assert_eq!(msg.coordinate_system, 0);
    assert_eq!(msg.latitude, 0x04030201);
    assert_eq!(msg.longitude, -1);
    assert_eq!(msg.operation_count, Some(16));
    assert_eq!(msg.operation_radius, Some(5));
    assert_eq!(msg.altitude_upper, Some(0x0120));
    assert_eq!(msg.altitude_lower, Some(0x30));
    assert_eq!(msg.ua_category, 7);
    assert_eq!(msg.ua_level, 8);
    assert_eq!(msg.station_altitude, 100);
    assert_eq!(msg.timestamp, Some(0x12345678));
    assert_eq!(msg.reserved, Some(0x99));
}

#[test]
fn system_bit_fields() {
    let msg = SystemMessage::from_bytes(&system(0b1110_1111, 24)).unwrap();
    assert_eq!(msg.coordinate_system, 7);
    assert_eq!(msg.reserved_bits, 1);
    assert_eq!(msg.classification_region, 3);
    assert_eq!(msg.station_type, 3);
}

#[test]
fn system_invalid_classification() {
    for region in [0u8, 4, 5, 6, 7] {
        for other in [0u8, 0b1110_0011] {
            let first = (region << 2) | other;
            for len in [19usize, 20, 24, 25] {
                assert_eq!(
                    SystemMessage::from_bytes(&system(first, len)),
                    Err(MessageError::InvalidClassification)
                );
            }
        }
    }
}

#[test]
fn system_valid_classifications() {
    for region in 1u8..=3 {
        let msg = SystemMessage::from_bytes(&system(region << 2, 24)).unwrap();
        assert_eq!(msg.classification_region, region);
    }
}

#[test]
fn system_short_inputs_report_their_length() {
    for n in 0..19 {
        assert_eq!(
            SystemMessage::from_bytes(&system(0x04, n)),
            Err(MessageError::InsufficientLength(19, n))
        );
    }
}

#[test]
fn system_nineteen_bytes_miss_station_altitude() {
    assert_eq!(
        SystemMessage::from_bytes(&system(0x04, 19)),
        Err(MessageError::InsufficientLength(20, 19))
    );
}

#[test]
fn system_optional_tail_by_length() {
    let at = |len: usize| SystemMessage::from_bytes(&system(0x04, len)).unwrap();
    let m20 = at(20);
    assert_eq!(m20.operation_count, Some(16));
    assert_eq!(m20.altitude_lower, Some(0x30));
    assert_eq!(m20.station_altitude, 100);
    assert_eq!(m20.timestamp, None);
    assert_eq!(m20.reserved, None);

    for len in 21..24 {
        let m = at(len);
        assert_eq!(m.timestamp, None);
        assert_eq!(m.reserved, None);
    }

    let m24 = at(24);
    assert_eq!(m24.timestamp, Some(0x12345678));
    assert_eq!(m24.reserved, None);

    let m25 = at(25);
    assert_eq!(m25.timestamp, Some(0x12345678));
    assert_eq!(m25.reserved, Some(0x99));
}

#[test]
fn system_presence_never_shrinks() {
    let full = system(0x04, 25);
    let mut long = full.clone();
    long.extend_from_slice(&[1, 2, 3]);
    let lengths = [20usize, 21, 22, 23, 24, 25, 28];
    for (i, &a) in lengths.iter().enumerate() {
        for &b in &lengths[i..] {
            let src = if b > 25 { &long } else { &full };
            let short = SystemMessage::from_bytes(&src[..a]).unwrap();
            let longer = SystemMessage::from_bytes(&src[..b]).unwrap();
            if short.timestamp.is_some() {
                assert_eq!(longer.timestamp, short.timestamp);
            }
            if short.reserved.is_some() {
                assert_eq!(longer.reserved, short.reserved);
            }
            if short.reserved.is_some() {
                assert!(short.timestamp.is_some());
            }
            assert_eq!(longer.operation_count, short.operation_count);
        }
    }
}
