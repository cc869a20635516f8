//! One captured frame, from the capture header to the telemetry record.
use vstd::prelude::*;

use crate::beacon::{beacon_vendor_elements, find_wps_overrun, has_wps_overrun, parse_beacon_elements};
use crate::message::message::MessageError;
use crate::radiotap::{parse_radiotap, spec_parse_radiotap, HEADER_LENGTH_AT};
use crate::upload_data::{telemetry_from_elements, telemetry_outcome, BeaconReport};

verus! {

/// Frames shorter than this cannot hold a beacon worth decoding and are dropped.
pub const MIN_FRAME_LENGTH: usize = 100;

/// Decodes one captured frame. `Ok(None)` means the frame is dropped: it is
/// too short, it holds a WPS element that the 802.11 parser would read past
/// the end of, the parser rejects it, it is not a beacon, or no vendor
/// element of it carries Remote-ID payload.
pub fn process_packet(packet: &[u8]) -> (r: Result<Option<BeaconReport>, MessageError>)
    ensures
        packet@.len() < MIN_FRAME_LENGTH ==> r == Ok::<Option<BeaconReport>, MessageError>(None),
        packet@.len() >= MIN_FRAME_LENGTH && spec_parse_radiotap(packet@) is None ==> r == Err::<
            Option<BeaconReport>,
            MessageError,
        >(MessageError::BoundsError),
        packet@.len() >= MIN_FRAME_LENGTH && spec_parse_radiotap(packet@) is Some ==> {
            let frame = packet@.subrange(
                packet@[HEADER_LENGTH_AT as int] as int,
                packet@.len() as int,
            );
            if has_wps_overrun(frame) {
                r == Ok::<Option<BeaconReport>, MessageError>(None)
            } else {
                match beacon_vendor_elements(frame) {
                    None => r == Ok::<Option<BeaconReport>, MessageError>(None),
                    Some(es) => telemetry_outcome(es, r),
                }
            }
        },
{
    if packet.len() < MIN_FRAME_LENGTH {
        return Ok(None);
    }
    let frame = match parse_radiotap(packet) {
        Ok((_, frame)) => frame,
        Err(e) => {
            return Err(e);
        },
    };
    if find_wps_overrun(frame) {
        return Ok(None);
    }
    match parse_beacon_elements(frame) {
        None => Ok(None),
        Some(elements) => telemetry_from_elements(&elements),
    }
}

} // verus!
