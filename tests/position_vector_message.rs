use remote_id::message::message::{Message, MessageError};
use remote_id::message::position_vector_message::PositionVectorMessage;

fn create_test_data() -> Vec<u8> {
    vec![
        0xAD, // run status 0xA, reserved 1, height type 1, direction 0, multiplier 1
        135,  // track angle
        120,  // ground speed
        15,   // vertical speed
        0x78, 0x56, 0x34, 0x12, // latitude
        0xEF, 0xCD, 0xAB, 0x90, // longitude
        0x34, 0x12, // pressure altitude
        0x78, 0x56, // geometric altitude
        0xCC, 0xAA, // ground altitude
        0x57, // vertical accuracy 5, horizontal accuracy 7
        0x04, // speed accuracy
        0x34, 0x12, // timestamp
        0x08, // timestamp accuracy
        0xAA, // reserved
    ]
}

#[test]
fn test_insufficient_data() {
    let short_data = create_test_data()[..23].to_vec();
    let result = PositionVectorMessage::from_bytes(&short_data);

    assert_eq!(result, Err(MessageError::InsufficientLength(24, 23)));
}

#[test]
fn test_full_range_values() {
    let mut data = create_test_data();

    data[0] = 0xF0;
    data[1] = 179;
    data[2] = 127;
    data[3] = 128;
    data[4..8].copy_from_slice(&i32::MIN.to_le_bytes());
    data[8..12].copy_from_slice(&i32::MAX.to_le_bytes());
    data[12..14].copy_from_slice(&i16::MIN.to_le_bytes());
    data[14..16].copy_from_slice(&i16::MAX.to_le_bytes());
    data[16..18].copy_from_slice(&0u16.to_le_bytes());
    data[18] = 0xFF;
    data[19] = 0x0F;
    data[20..22].copy_from_slice(&u16::MAX.to_le_bytes());
    data[22] = 0x0F;
    data[23] = 0xFF;

    let msg = PositionVectorMessage::from_bytes(&data).unwrap();

    assert_eq!(msg.run_status, 0x0F);
    assert_eq!(msg.track_angle, 179);
    assert_eq!(msg.ground_speed, 127);
    assert_eq!(msg.vertical_speed, -128);
    assert_eq!(msg.latitude, i32::MIN);
    assert_eq!(msg.longitude, i32::MAX);
    assert_eq!(msg.pressure_altitude, i16::MIN);
    assert_eq!(msg.geometric_altitude, i16::MAX);
    assert_eq!(msg.ground_altitude, 0);
    assert_eq!(msg.vertical_accuracy, 0x0F);
    assert_eq!(msg.horizontal_accuracy, 0x0F);
    assert_eq!(msg.speed_accuracy, 0x0F);
    assert_eq!(msg.timestamp, u16::MAX);
    assert_eq!(msg.timestamp_accuracy, 0x0F);
    assert_eq!(msg.reserved, 0xFF);
}

#[test]
fn position_vector_sample_fields() {
    let msg = PositionVectorMessage::from_bytes(&create_test_data()).unwrap();
    assert_eq!(msg.run_status, 0x0A);
    assert!(msg.reserved_flag);
    assert_eq!(msg.height_type, 1);
    assert!(!msg.track_direction);
    assert!(msg.speed_multiplier);
    assert_eq!(msg.track_angle, 135);
    assert_eq!(msg.ground_speed, 120);
    assert_eq!(msg.vertical_speed, 15);
    assert_eq!(msg.latitude, 0x12345678);
    assert_eq!(msg.longitude, -1867788817);
    assert_eq!(msg.pressure_altitude, 0x1234);
    assert_eq!(msg.geometric_altitude, 0x5678);
    assert_eq!(msg.ground_altitude, -21812);
    assert_eq!(msg.vertical_accuracy, 5);
    assert_eq!(msg.horizontal_accuracy, 7);
    assert_eq!(msg.speed_accuracy, 4);
    assert_eq!(msg.timestamp, 0x1234);
    assert_eq!(msg.timestamp_accuracy, 8);
    assert_eq!(msg.reserved, 0xAA);
}

#[test]
fn position_vector_longer_input_reads_first_24_bytes() {
    let mut data = create_test_data();
    data.push(0x55);
    let long = PositionVectorMessage::from_bytes(&data).unwrap();
    let exact = PositionVectorMessage::from_bytes(&create_test_data()).unwrap();
    assert_eq!(long, exact);
}

#[test]
fn position_vector_short_inputs_report_their_length() {
    for n in 0..24 {
        let data = vec![0u8; n];
        assert_eq!(
            PositionVectorMessage::from_bytes(&data),
            Err(MessageError::InsufficientLength(24, n))
        );
    }
}

#[test]
fn full_track_angle_adds_half_circle_when_direction_set() {
    let mut data = create_test_data();
    data[0] = 0x02;
    data[1] = 179;
    let west = PositionVectorMessage::from_bytes(&data).unwrap();
    assert!(west.track_direction);
    assert!(!west.speed_multiplier);
    assert_eq!(west.calculate_full_track_angle(), 359);

    data[0] = 0x00;
    let east = PositionVectorMessage::from_bytes(&data).unwrap();
    assert_eq!(east.calculate_full_track_angle(), 179);
}

#[test]
fn ground_speed_scaled_when_multiplier_set() {
    let mut data = create_test_data();
    data[0] = 0x01;
    data[2] = 0x80;
    let fast = PositionVectorMessage::from_bytes(&data).unwrap();
    assert!(fast.speed_multiplier);
    assert!(!fast.track_direction);
    assert_eq!(fast.calculate_ground_speed_knots(), -1280);

    data[0] = 0x00;
    data[2] = 127;
    let slow = PositionVectorMessage::from_bytes(&data).unwrap();
    assert_eq!(slow.calculate_ground_speed_knots(), 127);
}
