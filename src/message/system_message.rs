//! The system message: where the remote pilot's station is, the operating
//! area, and the aircraft's category.
//!
//! After the type byte: one byte of bit fields, the station latitude and
//! longitude (little endian signed, 1e-7 degrees), then a chain of fields
//! read left to right with a cursor. An optional field is present exactly
//! when the optional field before it is present and enough bytes remain at
//! the cursor when it is reached: once one is absent, every later optional
//! field is absent too. An absent field leaves the cursor where it was.
//!
//! | field                      | size | presence  |
//! |----------------------------|------|-----------|
//! | operation area count       | 2    | optional  |
//! | operation area radius      | 1    | optional  |
//! | operation area ceiling     | 2    | optional  |
//! | operation area floor       | 2    | optional  |
//! | UA category                | 1    | mandatory |
//! | UA class                   | 1    | mandatory |
//! | station altitude, 0.1 m    | 2    | mandatory |
//! | timestamp, Unix seconds    | 4    | optional  |
//! | reserved                   | 1    | optional  |
use vstd::prelude::*;

use super::message::{Message, MessageError};
use crate::wire::{le_i32, le_u16, le_u32, read_i32_le, read_u16_le, read_u32_le};

verus! {

#[derive(Debug, Clone, Copy, PartialEq, Eq, Structural)]
pub struct SystemMessage {
    pub coordinate_system: u8,
    pub reserved_bits: u8,
    pub classification_region: u8,
    pub station_type: u8,
    pub latitude: i32,
    pub longitude: i32,
    pub operation_count: Option<u16>,
    pub operation_radius: Option<u8>,
    pub altitude_upper: Option<u16>,
    pub altitude_lower: Option<u16>,
    pub ua_category: u8,
    pub ua_level: u8,
    pub station_altitude: u16,
    pub timestamp: Option<u32>,
    pub reserved: Option<u8>,
}

/// The fewest bytes a system message is read from.
pub const SYSTEM_MIN_LENGTH: usize = 19;

/// The classification region held in bits 4-2 of the first byte.
pub open spec fn spec_classification(b: u8) -> u8 {
    (b >> 2u8) & 0x07
}

/// Whether a classification region is one that the format defines.
pub open spec fn valid_classification(c: u8) -> bool {
    1 <= c <= 3
}

/// Whether the operation area count (2 bytes at 9) is present.
pub open spec fn has_count(n: int) -> bool {
    n >= 9 + 2
}

/// Whether the operation area radius (1 byte at 11) is present.
pub open spec fn has_radius(n: int) -> bool {
    has_count(n) && n >= 11 + 1
}

/// Whether the operation area ceiling (2 bytes at 12) is present.
pub open spec fn has_ceiling(n: int) -> bool {
    has_radius(n) && n >= 12 + 2
}

/// Whether the operation area floor (2 bytes at 14) is present.
pub open spec fn has_floor(n: int) -> bool {
    has_ceiling(n) && n >= 14 + 2
}

/// Where the UA category is read: right after the last operation area
/// field present.
pub open spec fn category_at(n: int) -> int {
    if has_floor(n) {
        16
    } else if has_ceiling(n) {
        14
    } else if has_radius(n) {
        12
    } else if has_count(n) {
        11
    } else {
        9
    }
}

/// Whether the timestamp (4 bytes after the station altitude) is present.
pub open spec fn has_timestamp(n: int) -> bool {
    has_floor(n) && n >= category_at(n) + 4 + 4
}

/// Whether the trailing reserved byte (after the timestamp) is present.
pub open spec fn has_reserved(n: int) -> bool {
    has_timestamp(n) && n >= category_at(n) + 8 + 1
}

/// The fields of a system message read from `d`, whose bytes suffice.
pub open spec fn spec_system(d: Seq<u8>) -> SystemMessage {
    let n = d.len() as int;
    let c = category_at(n);
    SystemMessage {
        coordinate_system: (d[0] >> 5u8) & 0x07,
        reserved_bits: (d[0] >> 3u8) & 0x03,
        classification_region: spec_classification(d[0]),
        station_type: d[0] & 0x03,
        latitude: le_i32(d, 1),
        longitude: le_i32(d, 5),
        operation_count: if has_count(n) {
            Some(le_u16(d, 9))
        } else {
            None
        },
        operation_radius: if has_radius(n) {
            Some(d[11])
        } else {
            None
        },
        altitude_upper: if has_ceiling(n) {
            Some(le_u16(d, 12))
        } else {
            None
        },
        altitude_lower: if has_floor(n) {
            Some(le_u16(d, 14))
        } else {
            None
        },
        ua_category: d[c],
        ua_level: d[c + 1],
        station_altitude: le_u16(d, c + 2),
        timestamp: if has_timestamp(n) {
            Some(le_u32(d, c + 4))
        } else {
            None
        },
        reserved: if has_reserved(n) {
            Some(d[c + 8])
        } else {
            None
        },
    }
}

/// The outcome of decoding `d` as a system message.
pub open spec fn spec_system_result(d: Seq<u8>) -> Result<SystemMessage, MessageError> {
    let n = d.len() as int;
    if n < SYSTEM_MIN_LENGTH {
        Err(MessageError::InsufficientLength(SYSTEM_MIN_LENGTH, d.len() as usize))
    } else if !valid_classification(spec_classification(d[0])) {
        Err(MessageError::InvalidClassification)
    } else if n < category_at(n) + 4 {
        Err(MessageError::InsufficientLength((category_at(n) + 4) as usize, d.len() as usize))
    } else {
        Ok(spec_system(d))
    }
}

/// Lengthening a system message's bytes never takes away an optional field
/// that a shorter prefix already had, nor changes its value.
pub proof fn lemma_optional_fields_monotonic(short: Seq<u8>, long: Seq<u8>)
    requires
        short.len() <= long.len(),
        short == long.subrange(0, short.len() as int),
        spec_system_result(short) is Ok,
    ensures
        spec_system_result(long) is Ok,
        ({
            let a = spec_system_result(short)->Ok_0;
            let b = spec_system_result(long)->Ok_0;
            &&& a.operation_count is Some ==> b.operation_count == a.operation_count
            &&& a.operation_radius is Some ==> b.operation_radius == a.operation_radius
            &&& a.altitude_upper is Some ==> b.altitude_upper == a.altitude_upper
            &&& a.altitude_lower is Some ==> b.altitude_lower == a.altitude_lower
            &&& a.timestamp is Some ==> b.timestamp == a.timestamp
            &&& a.reserved is Some ==> b.reserved == a.reserved
        }),
{
    assert(short[0] == long[0]);
}

/// Once an optional field of a decoded system message is absent, every
/// optional field after it is absent too.
pub proof fn lemma_absent_field_ends_chain(d: Seq<u8>)
    requires
        spec_system_result(d) is Ok,
    ensures
        ({
            let m = spec_system_result(d)->Ok_0;
            &&& m.operation_count is None ==> m.operation_radius is None
            &&& m.operation_radius is None ==> m.altitude_upper is None
            &&& m.altitude_upper is None ==> m.altitude_lower is None
            &&& m.altitude_lower is None ==> m.timestamp is None
            &&& m.timestamp is None ==> m.reserved is None
        }),
{
}

impl SystemMessage {
    pub const MESSAGE_TYPE: u8 = 0x04;
}

impl Message for SystemMessage {
    open spec fn min_len() -> usize {
        SYSTEM_MIN_LENGTH
    }

    open spec fn decodes_to(data: Seq<u8>, r: Result<Self, MessageError>) -> bool {
        r == spec_system_result(data)
    }

    fn from_bytes(data: &[u8]) -> (r: Result<Self, MessageError>)
        ensures
            data@.len() >= SYSTEM_MIN_LENGTH && !valid_classification(
                spec_classification(data@[0]),
            ) ==> r == Err::<Self, MessageError>(MessageError::InvalidClassification),
    {
        let n = data.len();
        if n < SYSTEM_MIN_LENGTH {
            return Err(MessageError::InsufficientLength(SYSTEM_MIN_LENGTH, n));
        }
        let byte0 = data[0];
        let classification_region = (byte0 >> 2u8) & 0x07;
        if classification_region == 0 || classification_region > 3 {
            return Err(MessageError::InvalidClassification);
        }
        let latitude = read_i32_le(data, 1);
        let longitude = read_i32_le(data, 5);

        let mut offset: usize = 9;
        let operation_count = if n >= offset + 2 {
            let v = read_u16_le(data, offset);
            offset = offset + 2;
            Some(v)
        } else {
            None
        };
        let operation_radius = if operation_count.is_some() && n >= offset + 1 {
            let v = data[offset];
            offset = offset + 1;
            Some(v)
        } else {
            None
        };
        let altitude_upper = if operation_radius.is_some() && n >= offset + 2 {
            let v = read_u16_le(data, offset);
            offset = offset + 2;
            Some(v)
        } else {
            None
        };
        let altitude_lower = if altitude_upper.is_some() && n >= offset + 2 {
            let v = read_u16_le(data, offset);
            offset = offset + 2;
            Some(v)
        } else {
            None
        };
        assert(offset == category_at(n as int));
        if n < offset + 4 {
            return Err(MessageError::InsufficientLength(offset + 4, n));
        }
        let ua_category = data[offset];
        let ua_level = data[offset + 1];
        let station_altitude = read_u16_le(data, offset + 2);
        offset = offset + 4;
        let timestamp = if altitude_lower.is_some() && n >= offset + 4 {
            let v = read_u32_le(data, offset);
            offset = offset + 4;
            Some(v)
        } else {
            None
        };
        let reserved = if timestamp.is_some() && n >= offset + 1 {
            Some(data[offset])
        } else {
            None
        };
        Ok(SystemMessage {
            coordinate_system: (byte0 >> 5u8) & 0x07,
            reserved_bits: (byte0 >> 3u8) & 0x03,
            classification_region,
            station_type: byte0 & 0x03,
            latitude,
            longitude,
            operation_count,
            operation_radius,
            altitude_upper,
            altitude_lower,
            ua_category,
            ua_level,
            station_altitude,
            timestamp,
            reserved,
        })
    }
}

} // verus!
