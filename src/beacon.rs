//! Vendor-specific information elements of a beacon, and the one among them
//! that carries Remote-ID messages.
use vstd::prelude::*;

verus! {

/// A vendor-specific information element, as the 802.11 parser separates it.
#[derive(Debug, Clone, PartialEq)]
pub struct VendorElement {
    pub element_id: u8,
    pub oui: [u8; 3],
    pub oui_type: u8,
    /// The payload after the OUI type.
    pub data: Vec<u8>,
}

/// An element as plain values: (element id, OUI, OUI type, payload).
pub type ElementView = (u8, Seq<u8>, u8, Seq<u8>);

impl View for VendorElement {
    type V = ElementView;

    open spec fn view(&self) -> ElementView {
        (self.element_id, self.oui@, self.oui_type, self.data@)
    }
}

/// The element id of a vendor-specific element.
pub const VENDOR_SPECIFIC_ELEMENT_ID: u8 = 221;

/// The OUI type that marks a vendor element as Remote-ID payload.
pub const REMOTE_ID_OUI_TYPE: u8 = 13;

pub open spec fn is_remote_id_element(e: ElementView) -> bool {
    e.0 == VENDOR_SPECIFIC_ELEMENT_ID && e.2 == REMOTE_ID_OUI_TYPE
}

/// The index of the first Remote-ID element of `es` at or after `from`.
pub open spec fn first_remote_id_from(es: Seq<ElementView>, from: int) -> Option<int>
    decreases es.len() - from,
{
    if from < 0 || from >= es.len() {
        None
    } else if is_remote_id_element(es[from]) {
        Some(from)
    } else {
        first_remote_id_from(es, from + 1)
    }
}

/// The index of the first Remote-ID element of `es`.
pub open spec fn first_remote_id(es: Seq<ElementView>) -> Option<int> {
    first_remote_id_from(es, 0)
}

/// The OUI and OUI type of a WPS vendor element.
pub const WPS_OUI: [u8; 3] = [0x00, 0x50, 0xf2];

pub const WPS_OUI_TYPE: u8 = 4;

/// The WPS attribute type of the setup state, whose value is one byte.
pub const WPS_SETUP_STATE: u16 = 0x1057;

/// Whether walking the WPS attributes of `a` from `at` (each a big-endian
/// type and length, then the value) meets a setup-state attribute that ends
/// `a` with no value byte. The walk stops where an attribute's header or
/// value would run past `a`.
pub open spec fn wps_attributes_overrun(a: Seq<u8>, at: int) -> bool
    decreases a.len() - at,
{
    if at < 0 || at + 4 > a.len() {
        false
    } else {
        let kind = a[at] as int * 0x100 + a[at + 1] as int;
        let value = at + 4;
        let end = value + a[at + 2] as int * 0x100 + a[at + 3] as int;
        if end > a.len() {
            false
        } else if kind == WPS_SETUP_STATE && value == a.len() {
            true
        } else {
            wps_attributes_overrun(a, end)
        }
    }
}

/// Whether a WPS vendor element starts at `q` in `f`, lies within `f`, and
/// has attributes that overrun it.
pub open spec fn wps_overrun_at(f: Seq<u8>, q: int) -> bool {
    &&& 0 <= q && q + 6 <= f.len()
    &&& f[q] == VENDOR_SPECIFIC_ELEMENT_ID
    &&& f[q + 1] >= 4
    &&& q + 2 + f[q + 1] <= f.len()
    &&& f[q + 2] == WPS_OUI[0] && f[q + 3] == WPS_OUI[1] && f[q + 4] == WPS_OUI[2]
    &&& f[q + 5] == WPS_OUI_TYPE
    &&& wps_attributes_overrun(f.subrange(q + 6, q + 2 + f[q + 1]), 0)
}

/// Whether `frame` holds, anywhere, a WPS vendor element whose attributes
/// overrun it. The 802.11 parser reads past the end of such an element.
pub open spec fn has_wps_overrun(frame: Seq<u8>) -> bool {
    exists|q: int| wps_overrun_at(frame, q)
}

/// The vendor elements of the beacon that `frame` encodes, or `None` when
/// the 802.11 parser rejects the frame or it is not a beacon.
pub uninterp spec fn beacon_vendor_elements(frame: Seq<u8>) -> Option<Seq<ElementView>>;

/// Relies on libwifi::parse_frame (no FCS): its result depends on the frame's
/// bytes alone; for a beacon, the vendor elements of its station info, in order.
/// Its WPS attribute reader indexes past the end of an element that closes
/// with an empty setup-state attribute, wherever the element-by-element
/// walk of the frame meets one; every such element is found by
/// `has_wps_overrun`, so those frames are not handed to it.
#[verifier::external_body]
pub(crate) fn parse_beacon_elements(frame: &[u8]) -> (r: Option<Vec<VendorElement>>)
    requires
        !has_wps_overrun(frame@),
    ensures
        r is Some <==> beacon_vendor_elements(frame@) is Some,
        r matches Some(v) ==> v@.map_values(|e: VendorElement| e@) == beacon_vendor_elements(
            frame@,
        )->Some_0,
{
    match libwifi::parse_frame(frame, false) {
        Ok(libwifi::Frame::Beacon(beacon)) => Some(
            beacon.station_info.vendor_specific.into_iter().map(
                |v| VendorElement { element_id: v.element_id, oui: v.oui, oui_type: v.oui_type, data: v.data },
            ).collect(),
        ),
        _ => None,
    }
}

/// Whether the WPS attributes in `a` overrun it.
pub fn wps_attributes_overrun_exec(a: &[u8]) -> (r: bool)
    ensures
        r == wps_attributes_overrun(a@, 0),
{
    let n = a.len();
    let mut at: usize = 0;
    while n - at >= 4
        invariant
            at <= n == a@.len(),
            wps_attributes_overrun(a@, 0) == wps_attributes_overrun(a@, at as int),
        decreases n - at,
    {
        let kind = a[at] as u16 * 0x100 + a[at + 1] as u16;
        let value = at + 4;
        let len = a[at + 2] as usize * 0x100 + a[at + 3] as usize;
        if len > n - value {
            return false;
        }
        if kind == WPS_SETUP_STATE && value == n {
            return true;
        }
        at = value + len;
    }
    false
}

/// Whether `frame` holds a WPS vendor element whose attributes overrun it.
pub fn find_wps_overrun(frame: &[u8]) -> (r: bool)
    ensures
        r == has_wps_overrun(frame@),
{
    let n = frame.len();
    let mut q: usize = 0;
    while n - q >= 6
        invariant
            q <= n == frame@.len(),
            forall|p: int| 0 <= p < q ==> !#[trigger] wps_overrun_at(frame@, p),
        decreases n - q,
    {
        let len = frame[q + 1] as usize;
        if frame[q] == VENDOR_SPECIFIC_ELEMENT_ID && len >= 4 && len <= n - q - 2 && frame[q + 2]
            == WPS_OUI[0] && frame[q + 3] == WPS_OUI[1] && frame[q + 4] == WPS_OUI[2] && frame[q
            + 5] == WPS_OUI_TYPE {
            let attributes = &frame[q + 6..q + 2 + len];
            assert(attributes@ == frame@.subrange(q + 6, q + 2 + len));
            if wps_attributes_overrun_exec(attributes) {
                assert(wps_overrun_at(frame@, q as int));
                return true;
            }
        }
        q = q + 1;
    }
    assert forall|p: int| !#[trigger] wps_overrun_at(frame@, p) by {
        if 0 <= p < q {
        }
    }
    false
}

/// The index of the first element that carries Remote-ID payload, if any.
pub fn find_remote_id_element(elements: &Vec<VendorElement>) -> (r: Option<usize>)
    ensures
        r matches Some(i) ==> i < elements@.len() && is_remote_id_element(elements@[i as int]@),
        r matches Some(i) ==> first_remote_id(elements@.map_values(|e: VendorElement| e@)) == Some(
            i as int,
        ),
        r is None ==> first_remote_id(elements@.map_values(|e: VendorElement| e@)) is None,
{
    let ghost es = elements@.map_values(|e: VendorElement| e@);
    let mut i: usize = 0;
    while i < elements.len()
        invariant
            i <= elements@.len() == es.len(),
            es == elements@.map_values(|e: VendorElement| e@),
            first_remote_id(es) == first_remote_id_from(es, i as int),
        decreases elements.len() - i,
    {
        let e = &elements[i];
        assert(es[i as int] == e@);
        if e.element_id == VENDOR_SPECIFIC_ELEMENT_ID && e.oui_type == REMOTE_ID_OUI_TYPE {
            return Some(i);
        }
        i = i + 1;
    }
    None
}

} // verus!
