//! The record made of one beacon's messages: the aircraft's identity and
//! position, each taken from the latest message that carries it.
use vstd::prelude::*;
use vstd::utf8::{decode_utf8, valid_utf8};

use crate::beacon::{first_remote_id, find_remote_id_element, ElementView, VendorElement};
use crate::message::base_message::{identity_text, uas_id_bytes, BASE_MESSAGE_LENGTH};
use crate::message::message::{spec_message_type, MessageError, MessageType};
use crate::message::position_vector_message::POSITION_VECTOR_LENGTH;
use crate::message::{type_nibble, AnyMessage};
use crate::packs::{packs_fit, spec_packs, split_packs};
use crate::wire::le_i32;

verus! {

#[derive(Debug, Clone, PartialEq)]
pub struct UploadData {
    /// The UAS identity of the latest basic ID message; empty when none came.
    pub rid: String,
    /// Latitude of the latest location message, 1e-7 degrees; 0 when none came.
    pub latitude: i32,
    /// Longitude of the latest location message, 1e-7 degrees; 0 when none came.
    pub longitude: i32,
}

/// What one beacon's packs gave: the record, and each pack's decoding in order.
#[derive(Debug, PartialEq)]
pub struct BeaconReport {
    pub record: UploadData,
    pub messages: Vec<Result<AnyMessage, MessageError>>,
}

/// A record as plain values: (identity, latitude, longitude).
pub type UploadView = (Seq<char>, i32, i32);

impl View for UploadData {
    type V = UploadView;

    open spec fn view(&self) -> UploadView {
        (self.rid@, self.latitude, self.longitude)
    }
}

/// The identity a decoded message carries, if it is a basic ID message.
pub open spec fn message_identity(m: AnyMessage) -> Option<Seq<char>> {
    match m {
        AnyMessage::Base(b) => Some(b.uas_id@),
        _ => None,
    }
}

/// The position a decoded message carries, if it is a location message.
pub open spec fn message_position(m: AnyMessage) -> Option<(i32, i32)> {
    match m {
        AnyMessage::PositionVector(p) => Some((p.latitude, p.longitude)),
        _ => None,
    }
}

/// The identity that the pack `p` yields, when it decodes as a basic ID message.
pub open spec fn pack_identity(p: Seq<u8>) -> Option<Seq<char>> {
    let c = p.subrange(1, p.len() as int);
    if p.len() > 0 && spec_message_type(type_nibble(p[0])) == Some(MessageType::BaseMessageType)
        && c.len() >= BASE_MESSAGE_LENGTH && valid_utf8(uas_id_bytes(c)) {
        Some(identity_text(decode_utf8(uas_id_bytes(c))))
    } else {
        None
    }
}

/// The (latitude, longitude) that the pack `p` yields, when it decodes as a location message.
pub open spec fn pack_position(p: Seq<u8>) -> Option<(i32, i32)> {
    let c = p.subrange(1, p.len() as int);
    if p.len() > 0 && spec_message_type(type_nibble(p[0])) == Some(
        MessageType::PositionVectorMessageType,
    ) && c.len() >= POSITION_VECTOR_LENGTH {
        Some((le_i32(c, 4), le_i32(c, 8)))
    } else {
        None
    }
}

/// The identity of the last pack of `ps` that yields one; empty if none does.
pub open spec fn latest_identity(ps: Seq<Seq<u8>>) -> Seq<char>
    decreases ps.len(),
{
    if ps.len() == 0 {
        Seq::empty()
    } else {
        match pack_identity(ps.last()) {
            Some(t) => t,
            None => latest_identity(ps.drop_last()),
        }
    }
}

/// The position of the last pack of `ps` that yields one; (0, 0) if none does.
pub open spec fn latest_position(ps: Seq<Seq<u8>>) -> (i32, i32)
    decreases ps.len(),
{
    if ps.len() == 0 {
        (0, 0)
    } else {
        match pack_position(ps.last()) {
            Some(q) => q,
            None => latest_position(ps.drop_last()),
        }
    }
}

/// The record that the packs `ps` of one beacon make.
pub open spec fn spec_upload(ps: Seq<Seq<u8>>) -> UploadView {
    (latest_identity(ps), latest_position(ps).0, latest_position(ps).1)
}

/// Holds when `rep` is the report of the packs `ps`: the record they make,
/// and the outcome of decoding each.
pub open spec fn reports_packs(ps: Seq<Seq<u8>>, rep: BeaconReport) -> bool {
    &&& rep.record@ == spec_upload(ps)
    &&& rep.messages@.len() == ps.len()
    &&& forall|i: int| 0 <= i < ps.len() ==> AnyMessage::decodes_to(ps[i], #[trigger] rep.messages@[i])
}

/// Holds when `r` is the outcome of reporting on the vendor elements `es`
/// of one beacon: nothing when no element carries Remote-ID payload, a
/// bounds error when its packs do not fit, else the report of its packs.
pub open spec fn telemetry_outcome(
    es: Seq<ElementView>,
    r: Result<Option<BeaconReport>, MessageError>,
) -> bool {
    match first_remote_id(es) {
        None => r == Ok::<Option<BeaconReport>, MessageError>(None),
        Some(i) => {
            let d = es[i].3;
            if !packs_fit(d) {
                r == Err::<Option<BeaconReport>, MessageError>(MessageError::BoundsError)
            } else {
                r matches Ok(Some(rep)) && reports_packs(spec_packs(d), rep)
            }
        },
    }
}

/// What a decoded pack contributes: its identity and position are those of
/// the message it decodes to, and an undecodable pack contributes nothing.
proof fn lemma_decoded_pack(p: Seq<u8>, r: Result<AnyMessage, MessageError>)
    requires
        AnyMessage::decodes_to(p, r),
    ensures
        pack_identity(p) == match r {
            Ok(m) => message_identity(m),
            Err(_) => None::<Seq<char>>,
        },
        pack_position(p) == match r {
            Ok(m) => message_position(m),
            Err(_) => None::<(i32, i32)>,
        },
{
}

impl UploadData {
    /// A record that no message has reached yet.
    pub fn new() -> (r: UploadData)
        ensures
            r@ == (Seq::<char>::empty(), 0i32, 0i32),
    {
        UploadData { rid: String::new(), latitude: 0, longitude: 0 }
    }

    /// Takes in one decoded message: a basic ID message sets the identity, a
    /// location message the position; a system message changes nothing.
    pub fn absorb(&mut self, m: &AnyMessage)
        ensures
            final(self).rid@ == match message_identity(*m) {
                Some(t) => t,
                None => old(self).rid@,
            },
            (final(self).latitude, final(self).longitude) == match message_position(*m) {
                Some(q) => q,
                None => (old(self).latitude, old(self).longitude),
            },
    {
        match m {
            AnyMessage::Base(b) => {
                self.rid = b.uas_id.clone();
            },
            AnyMessage::PositionVector(p) => {
                self.latitude = p.latitude;
                self.longitude = p.longitude;
            },
            AnyMessage::System(_) => {},
        }
    }
}

impl BeaconReport {
    /// Decodes each pack and folds the messages into one record; a pack that
    /// does not decode leaves the record as it was.
    pub fn from_packs(packs: &Vec<&[u8]>) -> (r: BeaconReport)
        ensures
            reports_packs(packs@.map_values(|p: &[u8]| p@), r),
    {
        let ghost ps = packs@.map_values(|p: &[u8]| p@);
        let mut record = UploadData::new();
        let mut messages: Vec<Result<AnyMessage, MessageError>> = Vec::new();
        let mut i: usize = 0;
        while i < packs.len()
            invariant
                i <= packs@.len() == ps.len(),
                ps == packs@.map_values(|p: &[u8]| p@),
                record@ == spec_upload(ps.take(i as int)),
                messages@.len() == i,
                forall|k: int| 0 <= k < i ==> AnyMessage::decodes_to(ps[k], #[trigger] messages@[k]),
            decreases packs.len() - i,
        {
            let decoded = AnyMessage::from_bytes(packs[i]);
            proof {
                lemma_decoded_pack(ps[i as int], decoded);
                assert(ps.take(i + 1).drop_last() =~= ps.take(i as int));
                assert(ps.take(i + 1).last() == ps[i as int]);
            }
            match &decoded {
                Ok(m) => record.absorb(m),
                Err(_) => {},
            }
            messages.push(decoded);
            i = i + 1;
        }
        assert(ps.take(packs.len() as int) =~= ps);
        BeaconReport { record, messages }
    }
}

/// Reports on one beacon from its vendor elements.
pub fn telemetry_from_elements(elements: &Vec<VendorElement>) -> (r: Result<
    Option<BeaconReport>,
    MessageError,
>)
    ensures
        telemetry_outcome(elements@.map_values(|e: VendorElement| e@), r),
{
    let ghost es = elements@.map_values(|e: VendorElement| e@);
    match find_remote_id_element(elements) {
        None => Ok(None),
        Some(i) => {
            assert(es[i as int] == elements@[i as int]@);
            match split_packs(elements[i].data.as_slice()) {
                Err(e) => Err(e),
                Ok(packs) => Ok(Some(BeaconReport::from_packs(&packs))),
            }
        },
    }
}

} // verus!
