//! The basic ID message: who the aircraft is.
//!
//! After the type byte: one byte with the ID type (bits 7-4) and the UA type
//! (bits 3-0), twenty bytes of UTF-8 identity padded with NULs or spaces, and
//! three reserved bytes.
use vstd::prelude::*;
use vstd::string::*;
use vstd::utf8::{decode_utf8, valid_utf8};

use super::message::{Message, MessageError};

verus! {

#[derive(Debug, Clone, PartialEq)]
pub struct BaseMessage {
    pub id_type: u8,
    pub ua_type: u8,
    pub uas_id: String,
    pub reserved: [u8; 3],
}

/// The bytes a basic ID message occupies after its type byte.
pub const BASE_MESSAGE_LENGTH: usize = 24;

/// Where the identity starts and ends among those bytes.
pub const UAS_ID_START: usize = 1;

pub const UAS_ID_END: usize = 21;

/// Whether `c` has Unicode's White_Space property, the test that `char::is_whitespace` makes.
pub open spec fn is_white_space(c: char) -> bool {
    let u = c as u32;
    ||| 0x09 <= u <= 0x0d
    ||| u == 0x20
    ||| u == 0x85
    ||| u == 0xa0
    ||| u == 0x1680
    ||| 0x2000 <= u <= 0x200a
    ||| u == 0x2028
    ||| u == 0x2029
    ||| u == 0x202f
    ||| u == 0x205f
    ||| u == 0x3000
}

/// Whether `c` is padding after an identity: a NUL or white space.
pub open spec fn is_padding(c: char) -> bool {
    c == '\0' || is_white_space(c)
}

/// The identity that the decoded text `s` carries: `s` without its trailing
/// NULs and white space, in whatever order they come.
pub open spec fn identity_text(s: Seq<char>) -> Seq<char>
    decreases s.len(),
{
    if s.len() > 0 && is_padding(s.last()) {
        identity_text(s.drop_last())
    } else {
        s
    }
}

/// The identity bytes of a basic ID message's payload.
pub open spec fn uas_id_bytes(d: Seq<u8>) -> Seq<u8> {
    d.subrange(UAS_ID_START as int, UAS_ID_END as int)
}

/// Relies on std::str::from_utf8: it succeeds exactly on well-formed UTF-8,
/// and then returns the text that the bytes encode.
#[verifier::external_body]
fn text_from_utf8<'a>(b: &'a [u8]) -> (r: Result<&'a str, std::str::Utf8Error>)
    ensures
        r is Ok <==> valid_utf8(b@),
        r matches Ok(s) ==> s@ == decode_utf8(b@),
{
    std::str::from_utf8(b)
}

pub fn is_white_space_char(c: char) -> (r: bool)
    ensures
        r == is_white_space(c),
{
    let u = c as u32;
    (0x09 <= u && u <= 0x0d) || u == 0x20 || u == 0x85 || u == 0xa0 || u == 0x1680 || (0x2000
        <= u && u <= 0x200a) || u == 0x2028 || u == 0x2029 || u == 0x202f || u == 0x205f || u
        == 0x3000
}

pub fn is_padding_char(c: char) -> (r: bool)
    ensures
        r == is_padding(c),
{
    c == '\0' || is_white_space_char(c)
}

/// The identity carried by `s`: its trailing NULs and white space removed.
pub fn trim_identity(s: &str) -> (r: String)
    ensures
        r@ == identity_text(s@),
{
    let n = s.unicode_len();
    let mut end = n;
    assert(s@.subrange(0, n as int) =~= s@);
    while end > 0 && is_padding_char(s.get_char(end - 1))
        invariant
            end <= n == s@.len(),
            identity_text(s@) == identity_text(s@.subrange(0, end as int)),
        decreases end,
    {
        assert(s@.subrange(0, end as int).drop_last() =~= s@.subrange(0, end - 1));
        end = end - 1;
    }
    let t = s.substring_char(0, end);
    String::from_str(t)
}

impl BaseMessage {
    pub const MESSAGE_TYPE: u8 = 0x00;
}

impl Message for BaseMessage {
    open spec fn min_len() -> usize {
        BASE_MESSAGE_LENGTH
    }

    open spec fn decodes_to(data: Seq<u8>, r: Result<Self, MessageError>) -> bool {
        if data.len() < BASE_MESSAGE_LENGTH {
            r == Err::<Self, MessageError>(
                MessageError::InsufficientLength(BASE_MESSAGE_LENGTH, data.len() as usize),
            )
        } else if !valid_utf8(uas_id_bytes(data)) {
            r matches Err(MessageError::InvalidText(_))
        } else {
            &&& r matches Ok(m)
            &&& r->Ok_0.id_type == (data[0] >> 4u8) & 0x0f
            &&& r->Ok_0.ua_type == data[0] & 0x0f
            &&& r->Ok_0.uas_id@ == identity_text(decode_utf8(uas_id_bytes(data)))
            &&& r->Ok_0.reserved@ == data.subrange(UAS_ID_END as int, BASE_MESSAGE_LENGTH as int)
        }
    }

    fn from_bytes(data: &[u8]) -> (r: Result<Self, MessageError>) {
        if data.len() < BASE_MESSAGE_LENGTH {
            return Err(MessageError::InsufficientLength(BASE_MESSAGE_LENGTH, data.len()));
        }
        let byte0 = data[0];
        let id_bytes = &data[UAS_ID_START..UAS_ID_END];
        assert(id_bytes@ == uas_id_bytes(data@));
        let uas_id = match text_from_utf8(id_bytes) {
            Ok(s) => trim_identity(s),
            Err(e) => {
                return Err(MessageError::InvalidText(e));
            },
        };
        let reserved = [data[UAS_ID_END], data[UAS_ID_END + 1], data[UAS_ID_END + 2]];
        assert(reserved@ =~= data@.subrange(UAS_ID_END as int, BASE_MESSAGE_LENGTH as int));
        Ok(BaseMessage { id_type: (byte0 >> 4u8) & 0x0f, ua_type: byte0 & 0x0f, uas_id, reserved })
    }
}

} // verus!
