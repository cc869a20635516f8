//! The Remote-ID vendor payload: a 4-byte header, then fixed-size packs.
//!
//! Byte 0 is informational, byte 2 is the pack size S and byte 3 the pack
//! count N; pack i occupies `[4 + i*S, 4 + i*S + S)`.
use vstd::prelude::*;

use crate::message::message::MessageError;

verus! {

pub const PACK_HEADER_LENGTH: usize = 4;

pub const PACK_SIZE_AT: usize = 2;

pub const PACK_COUNT_AT: usize = 3;

pub open spec fn pack_size(d: Seq<u8>) -> int {
    d[PACK_SIZE_AT as int] as int
}

pub open spec fn pack_count(d: Seq<u8>) -> int {
    d[PACK_COUNT_AT as int] as int
}

/// Whether the header of `d` is present and the packs it declares lie within `d`.
pub open spec fn packs_fit(d: Seq<u8>) -> bool {
    &&& d.len() >= PACK_HEADER_LENGTH
    &&& PACK_HEADER_LENGTH + pack_count(d) * pack_size(d) <= d.len()
}

/// Pack `i` of `d`.
pub open spec fn spec_pack(d: Seq<u8>, i: int) -> Seq<u8> {
    let start = PACK_HEADER_LENGTH + i * pack_size(d);
    d.subrange(start, start + pack_size(d))
}

/// All the packs of `d`, in order.
pub open spec fn spec_packs(d: Seq<u8>) -> Seq<Seq<u8>> {
    Seq::new(pack_count(d) as nat, |i: int| spec_pack(d, i))
}

proof fn lemma_pack_within(n: int, s: int, i: int)
    requires
        0 <= i < n,
        0 <= s,
    ensures
        0 <= i * s,
        i * s + s <= n * s,
{
    assert(0 <= i * s) by (nonlinear_arith)
        requires
            0 <= i,
            0 <= s,
    ;
    assert(i * s + s <= n * s) by (nonlinear_arith)
        requires
            i < n,
            0 <= s,
    ;
}

/// Cuts the vendor payload `data` into its packs, after checking that the
/// declared count and size stay within `data`.
pub fn split_packs(data: &[u8]) -> (r: Result<Vec<&[u8]>, MessageError>)
    ensures
        packs_fit(data@) <==> r is Ok,
        r is Err ==> r == Err::<Vec<&[u8]>, MessageError>(MessageError::BoundsError),
        r matches Ok(packs) ==> packs@.map_values(|p: &[u8]| p@) == spec_packs(data@),
{
    if data.len() < PACK_HEADER_LENGTH {
        return Err(MessageError::BoundsError);
    }
    let size = data[PACK_SIZE_AT] as usize;
    let count = data[PACK_COUNT_AT] as usize;
    assert(count * size <= 255 * 255) by (nonlinear_arith)
        requires
            count <= 255,
            size <= 255,
    ;
    if PACK_HEADER_LENGTH + count * size > data.len() {
        return Err(MessageError::BoundsError);
    }
    let mut packs: Vec<&[u8]> = Vec::new();
    let mut i: usize = 0;
    while i < count
        invariant
            packs_fit(data@),
            size == pack_size(data@),
            count == pack_count(data@),
            count * size <= 255 * 255,
            i <= count,
            packs@.len() == i,
            forall|k: int| 0 <= k < i ==> #[trigger] packs@[k]@ == spec_pack(data@, k),
        decreases count - i,
    {
        proof {
            lemma_pack_within(count as int, size as int, i as int);
        }
        let start = PACK_HEADER_LENGTH + i * size;
        packs.push(&data[start..start + size]);
        i = i + 1;
    }
    assert(packs@.map_values(|p: &[u8]| p@) =~= spec_packs(data@));
    Ok(packs)
}

} // verus!
