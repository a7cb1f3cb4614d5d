//! First-fit placement in the 32-word shared instruction memory.
//!
//! Occupancy is one bit per instruction slot in a 32-bit bitmap. A request
//! asks for a contiguous range, either anywhere (automatic placement, which
//! scans offsets in increasing order and takes the first free window) or at
//! a caller-fixed origin. Bits are only ever set: this layer has no free
//! operation, space comes back only by recreating the whole controller.

use vstd::prelude::*;

verus! {

/// Number of instruction words in the shared memory.
pub const INSTRUCTION_COUNT: usize = 32;

/// Slot `i` of the instruction memory is occupied.
pub open spec fn bit_set(bitmap: u32, i: u32) -> bool {
    (bitmap >> i) & 1u32 == 1u32
}

/// Slots `[off, off + len)` are all free.
pub open spec fn range_free(bitmap: u32, off: u32, len: u32) -> bool {
    forall|i: u32| off <= i < off + len ==> !bit_set(bitmap, i)
}

/// A program of `len` words can be placed at `off`: the window lies within
/// the memory and is entirely free.
pub open spec fn fits(bitmap: u32, off: u32, len: u32) -> bool {
    off + len <= 32 && range_free(bitmap, off, len)
}

/// The lowest offset at or above `start` where a window of `len` free slots
/// begins, if one exists.
pub open spec fn first_fit_from(bitmap: u32, len: u32, start: u32) -> Option<u32>
    decreases 32 - start,
{
    if start + len > 32 {
        None
    } else if range_free(bitmap, start, len) {
        Some(start)
    } else {
        first_fit_from(bitmap, len, (start + 1) as u32)
    }
}

/// The offset a placement request resolves to: `None` when the request does
/// not fit. A fixed origin is taken exactly or not at all; automatic
/// placement takes the lowest fitting offset.
pub open spec fn spec_find_offset(bitmap: u32, len: nat, origin: Option<u8>) -> Option<u32> {
    if len > 32 {
        None
    } else {
        match origin {
            Some(x) => if fits(bitmap, x as u32, len as u32) {
                Some(x as u32)
            } else {
                None
            },
            None => first_fit_from(bitmap, len as u32, 0),
        }
    }
}

/// Check that slots `[off, off + len)` are all free.
pub fn range_is_free(bitmap: u32, off: usize, len: usize) -> (r: bool)
    requires
        off + len <= 32,
    ensures
        r == range_free(bitmap, off as u32, len as u32),
{
    let mut k: usize = 0;
    while k < len
        invariant
            off + len <= 32,
            k <= len,
            forall|i: u32| off <= i < off + k ==> !bit_set(bitmap, i),
        decreases len - k,
    {
        if (bitmap >> ((off + k) as u32)) & 1u32 == 1u32 {
            assert(bit_set(bitmap, (off + k) as u32));
            return false;
        }
        k = k + 1;
    }
    true
}

/// Scan offsets in increasing order for the first free window of `len`
/// slots.
pub fn find_first_fit(bitmap: u32, len: usize) -> (r: Option<usize>)
    requires
        len <= 32,
    ensures
        (match r {
            Some(o) => first_fit_from(bitmap, len as u32, 0) == Some(o as u32) && o + len
                <= 32,
            None => first_fit_from(bitmap, len as u32, 0) is None,
        }),
{
    let mut off: usize = 0;
    while off + len <= 32
        invariant
            len <= 32,
            off <= 33,
            first_fit_from(bitmap, len as u32, 0) == first_fit_from(bitmap, len as u32, off as u32),
        decreases 33 - off,
    {
        if range_is_free(bitmap, off, len) {
            assert(first_fit_from(bitmap, len as u32, off as u32) == Some(off as u32));
            return Some(off);
        }
        assert(first_fit_from(bitmap, len as u32, off as u32)
            == first_fit_from(bitmap, len as u32, (off + 1) as u32));
        off = off + 1;
    }
    assert(first_fit_from(bitmap, len as u32, off as u32) is None);
    None
}

/// Every result of `first_fit_from` starts at or after `start`, fits, and
/// is the lowest fitting offset at or after `start`; a `None` means nothing
/// at or after `start` fits.
pub proof fn lemma_first_fit_from_props(bitmap: u32, len: u32, start: u32)
    ensures
        (match first_fit_from(bitmap, len, start) {
            Some(o) => start <= o && fits(bitmap, o, len) && (forall|o2: u32|
                start <= o2 < o ==> !(#[trigger] fits(bitmap, o2, len))),
            None => forall|o2: u32| o2 >= start ==> !(#[trigger] fits(bitmap, o2, len)),
        }),
    decreases 32 - start,
{
    if start + len > 32 {
        assert forall|o2: u32| o2 >= start implies !fits(bitmap, o2, len) by {
            assert(o2 + len > 32);
        }
    } else if range_free(bitmap, start, len) {
    } else {
        lemma_first_fit_from_props(bitmap, len, (start + 1) as u32);
        assert(!fits(bitmap, start, len));
    }
}

/// Law: automatic placement of a program of length `len` succeeds exactly
/// when some window of `len` contiguous free slots exists, and then yields
/// the lowest such offset.
pub proof fn lemma_auto_placement_lowest(bitmap: u32, len: nat)
    requires
        1 <= len <= 32,
    ensures
        (spec_find_offset(bitmap, len, None) is Some) <==> (exists|o: u32|
            #[trigger] fits(bitmap, o, len as u32)),
        (match spec_find_offset(bitmap, len, None) {
            Some(o) => fits(bitmap, o, len as u32) && (forall|o2: u32|
                o2 < o ==> !(#[trigger] fits(bitmap, o2, len as u32))),
            None => true,
        }),
{
    lemma_first_fit_from_props(bitmap, len as u32, 0);
    match first_fit_from(bitmap, len as u32, 0) {
        Some(o) => {
            assert(fits(bitmap, o, len as u32));
        }
        None => {
            assert forall|o: u32| !(#[trigger] fits(bitmap, o, len as u32)) by {
                assert(o >= 0);
            }
        }
    }
}

/// Law: a fixed-origin request at `origin` with length `len` succeeds
/// exactly when the window `[origin, origin + len)` lies within the memory
/// and is entirely free, and then yields `origin` itself.
pub proof fn lemma_fixed_origin(bitmap: u32, len: nat, origin: u8)
    requires
        1 <= len <= 32,
    ensures
        (spec_find_offset(bitmap, len, Some(origin)) is Some) <==> (origin + len <= 32
            && range_free(bitmap, origin as u32, len as u32)),
        (spec_find_offset(bitmap, len, Some(origin)) matches Some(o) ==> o == origin),
{
}

/// Law: a request longer than the whole instruction memory never succeeds,
/// with or without a fixed origin.
pub proof fn lemma_oversize_request(bitmap: u32, len: nat, origin: Option<u8>)
    requires
        len > 32,
    ensures
        spec_find_offset(bitmap, len, origin) is None,
{
}

/// Law: two successive successful automatic placements occupy disjoint
/// ranges, and the bitmap after both holds exactly the first bitmap's bits
/// together with both reserved ranges — their bitwise union.
///
/// `b1` and `b2` are constrained to be the bitmaps after the first and
/// second reservation, bit for bit, as `add_program` ensures them.
pub proof fn lemma_two_reservations_disjoint(
    b0: u32,
    b1: u32,
    b2: u32,
    len1: nat,
    len2: nat,
    o1: u32,
    o2: u32,
)
    requires
        1 <= len1,
        1 <= len2,
        spec_find_offset(b0, len1, None) == Some(o1),
        forall|i: u32|
            i < 32 ==> (bit_set(b1, i) <==> (bit_set(b0, i) || o1 <= i < o1 + len1)),
        spec_find_offset(b1, len2, None) == Some(o2),
        forall|i: u32|
            i < 32 ==> (bit_set(b2, i) <==> (bit_set(b1, i) || o2 <= i < o2 + len2)),
    ensures
        o1 + len1 <= 32,
        o2 + len2 <= 32,
        o1 + len1 <= o2 || o2 + len2 <= o1,
        forall|i: u32|
            i < 32 ==> (bit_set(b2, i) <==> (bit_set(b0, i) || o1 <= i < o1 + len1 || o2 <= i
                < o2 + len2)),
{
    assert(len1 <= 32 && len2 <= 32);
    lemma_first_fit_from_props(b0, len1 as u32, 0);
    lemma_first_fit_from_props(b1, len2 as u32, 0);
    assert(fits(b0, o1, len1 as u32));
    assert(fits(b1, o2, len2 as u32));
    if !(o1 + len1 <= o2 || o2 + len2 <= o1) {
        // The ranges overlap: the larger of the two origins lies in both.
        let i0: u32 = if o1 >= o2 {
            o1
        } else {
            o2
        };
        assert(o1 <= i0 < o1 + len1);
        assert(o2 <= i0 < o2 + len2);
        assert(bit_set(b1, i0));
        assert(!bit_set(b1, i0));
    }
}

} // verus!
