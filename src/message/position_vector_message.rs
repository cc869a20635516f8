//! The location/vector message: where the aircraft is and how it moves.
//!
//! The 24 bytes that follow the type byte, as ASTM F3411-22a lays them out:
//!
//! | byte   | content                                                   |
//! |--------|-----------------------------------------------------------|
//! | 0      | bits 7-4 run status, bit 3 reserved, bit 2 height type,   |
//! |        | bit 1 track direction (E/W), bit 0 speed multiplier       |
//! | 1      | track angle, degrees                                      |
//! | 2      | ground speed, signed                                      |
//! | 3      | vertical speed, signed                                    |
//! | 4-7    | latitude, 1e-7 degrees, little endian signed              |
//! | 8-11   | longitude, 1e-7 degrees, little endian signed             |
//! | 12-17  | pressure, geometric and ground altitude, LE signed 16-bit |
//! | 18     | bits 7-4 vertical accuracy, bits 3-0 horizontal accuracy  |
//! | 19     | bits 3-0 speed accuracy                                   |
//! | 20-21  | timestamp, 0.1 s, little endian                           |
//! | 22     | bits 3-0 timestamp accuracy                               |
//! | 23     | reserved                                                  |
use vstd::prelude::*;

use super::message::{Message, MessageError};
use crate::wire::{i8_of, le_i16, le_i32, le_u16, read_i16_le, read_i32_le, read_u16_le, to_i8};

verus! {

#[derive(Debug, Clone, Copy, PartialEq, Eq, Structural)]
pub struct PositionVectorMessage {
    pub run_status: u8,
    pub reserved_flag: bool,
    pub height_type: u8,
    pub track_direction: bool,
    pub speed_multiplier: bool,
    pub track_angle: u8,
    pub ground_speed: i8,
    pub vertical_speed: i8,
    pub latitude: i32,
    pub longitude: i32,
    pub pressure_altitude: i16,
    pub geometric_altitude: i16,
    pub ground_altitude: i16,
    pub vertical_accuracy: u8,
    pub horizontal_accuracy: u8,
    pub speed_accuracy: u8,
    pub timestamp: u16,
    pub timestamp_accuracy: u8,
    pub reserved: u8,
}

/// The bytes a location/vector message occupies after its type byte.
pub const POSITION_VECTOR_LENGTH: usize = 24;

/// The fields that the first 24 bytes of `d` hold.
pub open spec fn spec_position_vector(d: Seq<u8>) -> PositionVectorMessage {
    PositionVectorMessage {
        run_status: (d[0] >> 4u8) & 0x0f,
        reserved_flag: d[0] & 0x08 != 0,
        height_type: (d[0] >> 2u8) & 0x01,
        track_direction: d[0] & 0x02 != 0,
        speed_multiplier: d[0] & 0x01 != 0,
        track_angle: d[1],
        ground_speed: i8_of(d[2]),
        vertical_speed: i8_of(d[3]),
        latitude: le_i32(d, 4),
        longitude: le_i32(d, 8),
        pressure_altitude: le_i16(d, 12),
        geometric_altitude: le_i16(d, 14),
        ground_altitude: le_i16(d, 16),
        vertical_accuracy: d[18] >> 4u8,
        horizontal_accuracy: d[18] & 0x0f,
        speed_accuracy: d[19] & 0x0f,
        timestamp: le_u16(d, 20),
        timestamp_accuracy: d[22] & 0x0f,
        reserved: d[23],
    }
}

/// The outcome of decoding `d` as a location/vector message.
pub open spec fn spec_position_vector_result(d: Seq<u8>) -> Result<
    PositionVectorMessage,
    MessageError,
> {
    if d.len() < POSITION_VECTOR_LENGTH {
        Err(MessageError::InsufficientLength(POSITION_VECTOR_LENGTH, d.len() as usize))
    } else {
        Ok(spec_position_vector(d))
    }
}

impl PositionVectorMessage {
    pub const MESSAGE_TYPE: u8 = 0x01;

    /// The track angle in degrees over the full circle: 180 more when the
    /// direction flag is set.
    pub fn calculate_full_track_angle(&self) -> (r: u16)
        ensures
            r == if self.track_direction {
                self.track_angle as int + 180
            } else {
                self.track_angle as int
            },
    {
        if self.track_direction {
            self.track_angle as u16 + 180
        } else {
            self.track_angle as u16
        }
    }

    /// The ground speed scaled by the multiplier flag: ten times the raw
    /// value when it is set.
    pub fn calculate_ground_speed_knots(&self) -> (r: i16)
        ensures
            r == if self.speed_multiplier {
                self.ground_speed as int * 10
            } else {
                self.ground_speed as int
            },
    {
        if self.speed_multiplier {
            self.ground_speed as i16 * 10
        } else {
            self.ground_speed as i16
        }
    }
}

impl Message for PositionVectorMessage {
    open spec fn min_len() -> usize {
        POSITION_VECTOR_LENGTH
    }

    open spec fn decodes_to(data: Seq<u8>, r: Result<Self, MessageError>) -> bool {
        r == spec_position_vector_result(data)
    }

    fn from_bytes(data: &[u8]) -> (r: Result<Self, MessageError>) {
        if data.len() < POSITION_VECTOR_LENGTH {
            return Err(MessageError::InsufficientLength(POSITION_VECTOR_LENGTH, data.len()));
        }
        let byte0 = data[0];
        Ok(PositionVectorMessage {
            run_status: (byte0 >> 4u8) & 0x0f,
            reserved_flag: byte0 & 0x08 != 0,
            height_type: (byte0 >> 2u8) & 0x01,
            track_direction: byte0 & 0x02 != 0,
            speed_multiplier: byte0 & 0x01 != 0,
            track_angle: data[1],
            ground_speed: to_i8(data[2]),
            vertical_speed: to_i8(data[3]),
            latitude: read_i32_le(data, 4),
            longitude: read_i32_le(data, 8),
            pressure_altitude: read_i16_le(data, 12),
            geometric_altitude: read_i16_le(data, 14),
            ground_altitude: read_i16_le(data, 16),
            vertical_accuracy: data[18] >> 4u8,
            horizontal_accuracy: data[18] & 0x0f,
            speed_accuracy: data[19] & 0x0f,
            timestamp: read_u16_le(data, 20),
            timestamp_accuracy: data[22] & 0x0f,
            reserved: data[23],
        })
    }
}

} // verus!
