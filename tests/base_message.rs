use remote_id::message::base_message::{is_white_space_char, trim_identity, BaseMessage};
use remote_id::message::message::{Message, MessageError};

fn basic_id(id: &[u8]) -> Vec<u8> {
    let mut data = vec![0x12];
    let mut field = [0u8; 20];
    field[..id.len()].copy_from_slice(id);
    data.extend_from_slice(&field);
    data.extend_from_slice(&[0xA1, 0xB2, 0xC3]);
    data
}

#[test]
fn basic_id_strips_nul_padding() {
    let msg = BaseMessage::from_bytes(&basic_id(b"DroneBase")).unwrap();
    assert_eq!(msg.id_type, 1);
    assert_eq!(msg.ua_type, 2);
    assert_eq!(msg.uas_id, "DroneBase");
    assert_eq!(msg.reserved, [0xA1, 0xB2, 0xC3]);
}

#[test]
fn basic_id_strips_space_padding() {
    let msg = BaseMessage::from_bytes(&basic_id(b"DroneBase           ")).unwrap();
    assert_eq!(msg.uas_id, "DroneBase");
}

#[test]
fn basic_id_strips_spaces_then_nuls() {
    let msg = BaseMessage::from_bytes(&basic_id(b"DroneBase  \t ")).unwrap();
    assert_eq!(msg.uas_id, "DroneBase");
}

#[test]
fn basic_id_strips_nuls_before_trailing_space() {
    let msg = BaseMessage::from_bytes(&basic_id(b"DroneBase\0 ")).unwrap();
    assert_eq!(msg.uas_id, "DroneBase");
}

#[test]
fn basic_id_strips_nul_run_then_space_run() {
    let msg = BaseMessage::from_bytes(&basic_id(b"DroneBase\0\0\0\0\0      ")).unwrap();
    assert_eq!(msg.uas_id, "DroneBase");
}

#[test]
fn basic_id_keeps_interior_nul() {
    let msg = BaseMessage::from_bytes(&basic_id(b"Drone\0Base")).unwrap();
    assert_eq!(msg.uas_id, "Drone\0Base");
}

#[test]
fn basic_id_full_width_identity() {
    let msg = BaseMessage::from_bytes(&basic_id(b"1581F7FVC251A00CQ25C")).unwrap();
    assert_eq!(msg.uas_id, "1581F7FVC251A00CQ25C");
}

#[test]
fn basic_id_multibyte_identity() {
    let msg = BaseMessage::from_bytes(&basic_id("无人机-7".as_bytes())).unwrap();
    assert_eq!(msg.uas_id, "无人机-7");
}

#[test]
fn basic_id_invalid_utf8_is_rejected() {
    let mut data = basic_id(b"DroneBase");
    data[3] = 0xFF;
    match BaseMessage::from_bytes(&data) {
        Err(MessageError::InvalidText(e)) => assert_eq!(e.valid_up_to(), 2),
        other => panic!("expected InvalidText, got {:?}", other),
    }
}

#[test]
fn basic_id_invalid_byte_in_padding_is_rejected() {
    let mut data = basic_id(b"DroneBase");
    data[20] = 0xC3;
    assert!(matches!(
        BaseMessage::from_bytes(&data),
        Err(MessageError::InvalidText(_))
    ));
}

#[test]
fn basic_id_reserved_bytes_are_not_text() {
    let mut data = basic_id(b"DroneBase");
    data[21] = 0xFF;
    data[22] = 0xFE;
    let msg = BaseMessage::from_bytes(&data).unwrap();
    assert_eq!(msg.reserved, [0xFF, 0xFE, 0xC3]);
}

#[test]
fn basic_id_short_inputs_report_their_length() {
    for n in 0..24 {
        assert_eq!(
            BaseMessage::from_bytes(&vec![0x20u8; n]),
            Err(MessageError::InsufficientLength(24, n))
        );
    }
}

#[test]
fn identity_trimming() {
    assert_eq!(trim_identity("abc\0\0"), "abc");
    assert_eq!(trim_identity("abc \u{3000}\0"), "abc");
    assert_eq!(trim_identity("\0\0"), "");
    assert_eq!(trim_identity(" a b "), " a b");
    assert_eq!(trim_identity("ab\0 \0\t\0"), "ab");
}

#[test]
fn white_space_matches_std() {
    for u in 0u32..0x3100 {
        if let Some(c) = char::from_u32(u) {
            assert_eq!(is_white_space_char(c), c.is_whitespace(), "{:#x}", u);
        }
    }
}
