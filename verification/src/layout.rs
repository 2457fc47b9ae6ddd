//! Triple-buffered ring layout for the alternate shared-memory backend.
//!
//! The mapped region starts with a queue header; after it, aligned up to a
//! 32-byte boundary, come three slots.  Each slot reserves room for one
//! frame's pixel data plus a fixed slot header, and the next slot begins at
//! the following 32-byte boundary.  The frame size assumes a planar,
//! chroma-subsampled pixel format of a byte and a half per pixel.  This
//! module only computes and describes the layout; no read/write-index
//! advancement protocol is defined over it.

use vstd::prelude::*;

verus! {

use vstd::arithmetic::div_mod::{
    lemma_div_is_ordered,
    lemma_div_multiples_vanish,
    lemma_fundamental_div_mod,
    lemma_mod_multiples_basic,
};
use vstd::arithmetic::mul::lemma_mul_nonnegative;

/// Bytes reserved at the front of each slot for its timestamp header.
pub const FRAME_HEADER_SIZE: u32 = 32;

/// Bytes the queue header occupies at the front of the mapped region:
/// two index words and a state word (each kept as a 64-bit slot on the
/// wire), three slot offsets, a type word, the frame dimensions, the frame
/// interval and eight reserved words.
pub const QUEUE_HEADER_BYTES: u32 = 88;

/// Rounds `size` up to the next multiple of `align`.
///
/// The result is the unique multiple of `align` in
/// `[size, size + align)`.
pub fn align_size(size: usize, align: usize) -> (r: usize)
    requires
        1 <= align,
        size + align - 1 <= usize::MAX,
    ensures
        r as int % align as int == 0,
        size <= r < size + align,
{
    let rem: usize = size % align;
    if rem == 0 {
        size
    } else {
        proof {
            lemma_fundamental_div_mod(size as int, align as int);
            let q: int = size as int / align as int;
            assert(size as int + (align as int - rem as int) == (q + 1) * align as int)
                by (nonlinear_arith)
                requires
                    size as int == align as int * q + rem as int,
            ;
            lemma_mod_multiples_basic(q + 1, align as int);
        }
        size + (align - rem)
    }
}

/// `n` rounded up to the next multiple of 32.
pub open spec fn spec_align32(n: int) -> int {
    if n % 32 == 0 {
        n
    } else {
        n + (32 - n % 32)
    }
}

/// Pixel bytes of one frame: a byte and a half per pixel.
pub open spec fn spec_frame_size(cx: int, cy: int) -> int {
    cx * cy * 3 / 2
}

/// Byte offset of slot `i` in the mapped region: slot 0 starts at the first
/// 32-byte boundary after the queue header, and each further slot at the
/// first 32-byte boundary after the previous slot's frame and slot header.
pub open spec fn spec_slot_offset(cx: int, cy: int, i: int) -> int
    decreases i,
{
    if i <= 0 {
        spec_align32(QUEUE_HEADER_BYTES as int)
    } else {
        spec_align32(
            spec_slot_offset(cx, cy, i - 1) + spec_frame_size(cx, cy) + FRAME_HEADER_SIZE as int,
        )
    }
}

/// Total bytes of the mapped region: the end of the last slot, aligned.
pub open spec fn spec_total_size(cx: int, cy: int) -> int {
    spec_align32(
        spec_slot_offset(cx, cy, 2) + spec_frame_size(cx, cy) + FRAME_HEADER_SIZE as int,
    )
}

proof fn lemma_align32_props(n: int)
    requires
        0 <= n,
    ensures
        spec_align32(n) % 32 == 0,
        n <= spec_align32(n) < n + 32,
{
    lemma_fundamental_div_mod(n, 32);
    if n % 32 != 0 {
        let q: int = n / 32;
        assert(n + (32 - n % 32) == (q + 1) * 32) by {
            assert((q + 1) * 32 == q * 32 + 32) by (nonlinear_arith);
        }
        lemma_mod_multiples_basic(q + 1, 32);
    }
}

proof fn lemma_frame_size_nonneg(cx: int, cy: int)
    requires
        0 <= cx,
        0 <= cy,
    ensures
        0 <= spec_frame_size(cx, cy),
{
    lemma_mul_nonnegative(cx, cy);
    lemma_mul_nonnegative(cx * cy, 3);
}

/// Ring layout law: for any frame dimensions, the computed slot offsets are
/// 32-byte aligned and strictly increasing, consecutive slots never overlap
/// (each next offset lies beyond the previous slot's frame and slot header),
/// and the first slot starts at the aligned end of the queue header.
pub proof fn lemma_ring_layout(cx: int, cy: int)
    requires
        0 <= cx,
        0 <= cy,
    ensures
        spec_slot_offset(cx, cy, 0) % 32 == 0,
        spec_slot_offset(cx, cy, 1) % 32 == 0,
        spec_slot_offset(cx, cy, 2) % 32 == 0,
        spec_slot_offset(cx, cy, 0) >= spec_align32(QUEUE_HEADER_BYTES as int),
        spec_slot_offset(cx, cy, 1) >= spec_slot_offset(cx, cy, 0) + spec_frame_size(cx, cy)
            + FRAME_HEADER_SIZE,
        spec_slot_offset(cx, cy, 2) >= spec_slot_offset(cx, cy, 1) + spec_frame_size(cx, cy)
            + FRAME_HEADER_SIZE,
        spec_slot_offset(cx, cy, 0) < spec_slot_offset(cx, cy, 1),
        spec_slot_offset(cx, cy, 1) < spec_slot_offset(cx, cy, 2),
        spec_slot_offset(cx, cy, 2) + spec_frame_size(cx, cy) + FRAME_HEADER_SIZE
            <= spec_total_size(cx, cy),
{
    reveal_with_fuel(spec_slot_offset, 4);
    let fs: int = spec_frame_size(cx, cy);
    lemma_frame_size_nonneg(cx, cy);
    lemma_align32_props(QUEUE_HEADER_BYTES as int);
    let o0: int = spec_slot_offset(cx, cy, 0);
    lemma_align32_props(o0 + fs + FRAME_HEADER_SIZE as int);
    let o1: int = spec_slot_offset(cx, cy, 1);
    lemma_align32_props(o1 + fs + FRAME_HEADER_SIZE as int);
    let o2: int = spec_slot_offset(cx, cy, 2);
    lemma_align32_props(o2 + fs + FRAME_HEADER_SIZE as int);
}

/// The queue header written at the front of the ring's mapped region.
/// Index and state words and the slot offsets are kept as integer values;
/// offsets are byte distances from the start of the region.
#[derive(Debug, Clone, Copy)]
pub struct QueueHeader {
    pub write_idx: u32,
    pub read_idx: u32,
    pub state: u32,
    pub offsets: [u32; 3],
    pub type_: u32,
    pub cx: u32,
    pub cy: u32,
    pub interval: u64,
    pub reserved: [u32; 8],
}

/// The ring-backend handle: the header to be written into the region and
/// the derived byte offsets of each slot's timestamp and frame areas.
#[derive(Debug, Clone, Copy)]
pub struct VideoQueue {
    pub ready_to_read: bool,
    pub header: QueueHeader,
    pub ts: [u32; 3],
    pub frame: [u32; 3],
    pub total_size: u32,
    pub last_inc: i64,
    pub dup_counter: i32,
    pub is_writer: bool,
}

impl VideoQueue {
    /// The freshly created writer-side layout for dimensions `cx` by `cy`
    /// and frame interval `interval`.
    pub open spec fn wf_created(self, cx: int, cy: int, interval: u64) -> bool {
        &&& self.header.write_idx == 0
        &&& self.header.read_idx == 0
        &&& self.header.state == 1
        &&& self.header.type_ == 0
        &&& self.header.cx == cx
        &&& self.header.cy == cy
        &&& self.header.interval == interval
        &&& forall|i: int| 0 <= i < 8 ==> self.header.reserved@[i] == 0
        &&& forall|i: int|
            0 <= i < 3 ==> self.header.offsets@[i] == spec_slot_offset(cx, cy, i)
        &&& forall|i: int| 0 <= i < 3 ==> self.ts@[i] == spec_slot_offset(cx, cy, i)
        &&& forall|i: int|
            0 <= i < 3 ==> self.frame@[i] == spec_slot_offset(cx, cy, i)
                + FRAME_HEADER_SIZE
        &&& self.total_size == spec_total_size(cx, cy)
        &&& self.is_writer
        &&& !self.ready_to_read
        &&& self.last_inc == 0
        &&& self.dup_counter == 0
    }

    /// Computes the writer-side ring layout for `cx` by `cy` frames.
    ///
    /// Succeeds exactly when the whole region fits in a 32-bit size; the
    /// returned value carries the header and the slot offsets that
    /// `lemma_ring_layout` describes.  Creating the named OS mapping of
    /// `total_size` bytes and writing the header into it is the platform
    /// layer's work.
    pub fn video_queue_create(cx: u32, cy: u32, interval: u64) -> (r: Option<VideoQueue>)
        ensures
            r is Some <==> spec_total_size(cx as int, cy as int) <= u32::MAX,
            (r matches Some(vq) ==> vq.wf_created(cx as int, cy as int, interval)),
    {
        proof {
            reveal_with_fuel(spec_slot_offset, 4);
            lemma_ring_layout(cx as int, cy as int);
            lemma_align32_props(QUEUE_HEADER_BYTES as int);
            assert(cx as int * cy as int <= u32::MAX as int * u32::MAX as int)
                by (nonlinear_arith)
                requires
                    cx as int <= u32::MAX as int,
                    cy as int <= u32::MAX as int,
                    0 <= cx as int,
                    0 <= cy as int,
            ;
        }
        let pix: u64 = cx as u64 * cy as u64;
        if pix > u32::MAX as u64 {
            proof {
                lemma_pix_overflow(cx as int, cy as int);
            }
            return None;
        }
        let frame_size: u64 = pix * 3 / 2;
        let mut size: u64 = align32_u64(QUEUE_HEADER_BYTES as u64);
        let off0: u64 = size;
        size = align32_u64(size + frame_size + FRAME_HEADER_SIZE as u64);
        let off1: u64 = size;
        size = align32_u64(size + frame_size + FRAME_HEADER_SIZE as u64);
        let off2: u64 = size;
        size = align32_u64(size + frame_size + FRAME_HEADER_SIZE as u64);
        if size > u32::MAX as u64 {
            return None;
        }
        let header = QueueHeader {
            write_idx: 0,
            read_idx: 0,
            state: 1,
            offsets: [off0 as u32, off1 as u32, off2 as u32],
            type_: 0,
            cx,
            cy,
            interval,
            reserved: [0, 0, 0, 0, 0, 0, 0, 0],
        };
        let vq = VideoQueue {
            ready_to_read: false,
            header,
            ts: [off0 as u32, off1 as u32, off2 as u32],
            frame: [
                off0 as u32 + FRAME_HEADER_SIZE,
                off1 as u32 + FRAME_HEADER_SIZE,
                off2 as u32 + FRAME_HEADER_SIZE,
            ],
            total_size: size as u32,
            last_inc: 0,
            dup_counter: 0,
            is_writer: true,
        };
        Some(vq)
    }
}

/// When the pixel count alone exceeds the 32-bit range, so does the total
/// region size.
proof fn lemma_pix_overflow(cx: int, cy: int)
    requires
        0 <= cx,
        0 <= cy,
        cx * cy > u32::MAX,
    ensures
        spec_total_size(cx, cy) > u32::MAX,
{
    lemma_ring_layout(cx, cy);
    lemma_frame_size_nonneg(cx, cy);
    let n: int = cx * cy;
    assert(spec_frame_size(cx, cy) >= n) by {
        assert(n * 3 >= n * 2) by (nonlinear_arith)
            requires 0 <= n,
        ;
        lemma_div_is_ordered(n * 2, n * 3, 2);
        lemma_div_multiples_vanish(n, 2);
        assert(2 * n == n * 2);
    }
    lemma_align32_props(QUEUE_HEADER_BYTES as int);
}

/// `n` rounded up to the next multiple of 32, in 64-bit arithmetic.
fn align32_u64(n: u64) -> (r: u64)
    requires
        n + 31 <= u64::MAX,
    ensures
        r == spec_align32(n as int),
        n <= r < n + 32,
{
    proof {
        lemma_align32_props(n as int);
    }
    let rem: u64 = n % 32;
    if rem == 0 {
        n
    } else {
        n + (32 - rem)
    }
}

} // verus!
