//! The capture metadata that precedes every captured 802.11 frame.
//!
//! Byte 2 declares the header's length; the frame itself starts there. Up to
//! that length the header is walked as (field type, value) pairs: a signal
//! byte, a rate byte, or a channel frequency (two little-endian bytes, four
//! bytes consumed). Any other field type ends the walk.
use vstd::prelude::*;

use crate::message::message::MessageError;
use crate::wire::{i8_of, le_u16, read_u16_le, to_i8};

verus! {

/// The radio metrics found in a capture header; each is zero when absent.
#[derive(Debug, Clone, Copy, PartialEq, Eq, Structural)]
pub struct RadiotapHeader {
    /// Signal strength, dBm.
    pub signal: i8,
    /// Data rate, in units of 500 kb/s.
    pub rate: u8,
    /// Channel frequency, MHz.
    pub channel_freq: u16,
}

/// Where the header's declared length is stored.
pub const HEADER_LENGTH_AT: usize = 2;

pub const FIELD_RATE: u8 = 0x02;

pub const FIELD_SIGNAL: u8 = 0x03;

pub const FIELD_CHANNEL: u8 = 0x12;

/// The bytes that a channel field takes after its type byte.
pub const CHANNEL_FIELD_WIDTH: usize = 4;

/// The header before any field has been read.
pub open spec fn empty_header() -> RadiotapHeader {
    RadiotapHeader { signal: 0, rate: 0, channel_freq: 0 }
}

/// The metrics after walking the fields of `d` from `at` up to `end`,
/// starting from `h`; `None` when a field's value lies past the end of `d`.
pub open spec fn radiotap_walk(d: Seq<u8>, end: int, at: int, h: RadiotapHeader) -> Option<
    RadiotapHeader,
>
    decreases end + 1 + CHANNEL_FIELD_WIDTH - at,
{
    if at < 0 || at >= end {
        Some(h)
    } else if d[at] == FIELD_SIGNAL {
        if at + 1 < d.len() {
            radiotap_walk(
                d,
                end,
                at + 2,
                RadiotapHeader { signal: i8_of(d[at + 1]), rate: h.rate, channel_freq: h.channel_freq },
            )
        } else {
            None
        }
    } else if d[at] == FIELD_RATE {
        if at + 1 < d.len() {
            radiotap_walk(
                d,
                end,
                at + 2,
                RadiotapHeader { signal: h.signal, rate: d[at + 1], channel_freq: h.channel_freq },
            )
        } else {
            None
        }
    } else if d[at] == FIELD_CHANNEL {
        if at + 2 < d.len() {
            radiotap_walk(
                d,
                end,
                at + 1 + CHANNEL_FIELD_WIDTH,
                RadiotapHeader { signal: h.signal, rate: h.rate, channel_freq: le_u16(d, at + 1) },
            )
        } else {
            None
        }
    } else {
        Some(h)
    }
}

/// The metrics of the capture header at the start of `d`, or `None` when it
/// does not fit in `d`.
pub open spec fn spec_parse_radiotap(d: Seq<u8>) -> Option<RadiotapHeader> {
    if d.len() <= HEADER_LENGTH_AT || d[HEADER_LENGTH_AT as int] > d.len() {
        None
    } else {
        radiotap_walk(d, d[HEADER_LENGTH_AT as int] as int, 0, empty_header())
    }
}

/// Reads the capture header at the start of `data` and returns its metrics
/// and the 802.11 frame that follows it.
pub fn parse_radiotap(data: &[u8]) -> (r: Result<(RadiotapHeader, &[u8]), MessageError>)
    ensures
        r is Ok <==> spec_parse_radiotap(data@) is Some,
        r is Err ==> r == Err::<(RadiotapHeader, &[u8]), MessageError>(MessageError::BoundsError),
        r matches Ok((h, frame)) ==> {
            &&& h == spec_parse_radiotap(data@)->Some_0
            &&& frame@ == data@.subrange(data@[HEADER_LENGTH_AT as int] as int, data@.len() as int)
        },
{
    let n = data.len();
    if n <= HEADER_LENGTH_AT || data[HEADER_LENGTH_AT] as usize > n {
        return Err(MessageError::BoundsError);
    }
    let end = data[HEADER_LENGTH_AT] as usize;
    let mut at: usize = 0;
    let mut h = RadiotapHeader { signal: 0, rate: 0, channel_freq: 0 };
    while at < end
        invariant
            HEADER_LENGTH_AT < n == data@.len(),
            end == data@[HEADER_LENGTH_AT as int] <= n,
            at <= end + CHANNEL_FIELD_WIDTH,
            spec_parse_radiotap(data@) == radiotap_walk(data@, end as int, at as int, h),
        decreases end + 1 + CHANNEL_FIELD_WIDTH - at,
    {
        let t = data[at];
        if t == FIELD_SIGNAL {
            if at + 1 >= n {
                return Err(MessageError::BoundsError);
            }
            h = RadiotapHeader { signal: to_i8(data[at + 1]), rate: h.rate, channel_freq: h.channel_freq };
            at = at + 2;
        } else if t == FIELD_RATE {
            if at + 1 >= n {
                return Err(MessageError::BoundsError);
            }
            h = RadiotapHeader { signal: h.signal, rate: data[at + 1], channel_freq: h.channel_freq };
            at = at + 2;
        } else if t == FIELD_CHANNEL {
            if at + 2 >= n {
                return Err(MessageError::BoundsError);
            }
            h = RadiotapHeader { signal: h.signal, rate: h.rate, channel_freq: read_u16_le(data, at + 1) };
            at = at + 1 + CHANNEL_FIELD_WIDTH;
        } else {
            // an unknown field type ends the walk
            at = end;
        }
    }
    Ok((h, &data[end..n]))
}

} // verus!
