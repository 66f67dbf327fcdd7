//! Sizing of the compute dispatch and the readback pipeline.
//!
//! The GPU program runs in 8×8-thread workgroups. The dispatch size is
//! derived from the image dimensions by truncating division: an image
//! whose width or height is not a multiple of 8 keeps its requested
//! size, but the trailing rows or columns fall outside every workgroup
//! and keep the image's cleared initial value. That policy is a known
//! edge of the renderer and is stated here, not silently repaired.
//!
//! After readback the raw bytes are linear-light; image files expect
//! display-encoded bytes. The conversion runs each color channel through
//! a 256-entry translation table supplied by the caller (built once from
//! the color library's transfer function); alpha is not gamma-encoded
//! and passes through unchanged.

use vstd::prelude::*;

use crate::params::ImgDimensions;

verus! {

/// Width and height, in threads, of one compute workgroup.
pub const WORKGROUP_DIM: u32 = 8;

/// Bytes per pixel of the output image (RGBA, one byte per channel).
pub const BYTES_PER_PIXEL: u64 = 4;

/// How many workgroups a dispatch over `dims` issues along x and y.
/// Truncating division: partial workgroups at the right and bottom edges
/// are not dispatched.
pub fn dispatch_group_counts(dims: ImgDimensions) -> (counts: (u32, u32))
    ensures
        counts.0 == dims.width / WORKGROUP_DIM,
        counts.1 == dims.height / WORKGROUP_DIM,
{
    (dims.width / WORKGROUP_DIM, dims.height / WORKGROUP_DIM)
}

/// How many pixel columns the dispatched workgroups actually write.
pub open spec fn covered(extent: u32) -> int {
    WORKGROUP_DIM * (extent / WORKGROUP_DIM)
}

/// Dimension rounding: a dispatch never writes past the requested
/// extent, covers all of it exactly when the extent is divisible by the
/// workgroup size, and otherwise leaves the trailing `extent % 8` rows
/// or columns unwritten — the image itself is never resized.
pub proof fn lemma_dispatch_coverage(extent: u32)
    ensures
        covered(extent) <= extent,
        extent % WORKGROUP_DIM == 0 <==> covered(extent) == extent,
        extent - covered(extent) == extent % WORKGROUP_DIM,
{
}

/// Size in bytes of the CPU-readable output buffer for an image of
/// `dims`: one RGBA byte quadruple per requested pixel — the full
/// requested size, whether or not the dispatch covers it. `None` when
/// that size cannot be represented.
pub fn output_byte_len(dims: ImgDimensions) -> (len: Option<u64>)
    ensures
        match len {
            Some(v) => v == dims.width as int * dims.height as int * BYTES_PER_PIXEL,
            None => dims.width as int * dims.height as int * BYTES_PER_PIXEL > u64::MAX,
        },
{
    proof {
        assert(dims.width as int * dims.height as int <= 0xffff_ffff * 0xffff_ffff)
            by (nonlinear_arith)
            requires
                dims.width <= 0xffff_ffffu64 && dims.height <= 0xffff_ffffu64,
        ;
    }
    let pixels: u64 = (dims.width as u64) * (dims.height as u64);
    if pixels <= u64::MAX / BYTES_PER_PIXEL {
        Some(pixels * BYTES_PER_PIXEL)
    } else {
        None
    }
}

/// What one channel byte becomes after the table pass: color channels go
/// through the table, the alpha channel (every fourth byte) is kept.
pub open spec fn encoded_byte(bytes: Seq<u8>, table: Seq<u8>, i: int) -> u8 {
    if i % 4 == 3 {
        bytes[i]
    } else {
        table[bytes[i] as int]
    }
}

/// Convert a readback buffer of RGBA byte quadruples in place: red,
/// green and blue pass through the 256-entry translation table, alpha is
/// untouched. This is the linear-light to display-encoded step of the
/// export pipeline when the caller hands in an encoding table.
pub fn encode_pixels(pixels: &mut Vec<u8>, table: &Vec<u8>)
    requires
        table@.len() == 256,
    ensures
        final(pixels)@.len() == old(pixels)@.len(),
        forall|i: int|
            0 <= i < old(pixels)@.len() ==> final(pixels)@[i] == encoded_byte(
                old(pixels)@,
                table@,
                i,
            ),
{
    let ghost orig = pixels@;
    let n = pixels.len();
    let mut i: usize = 0;
    while i < n
        invariant
            n == orig.len(),
            pixels@.len() == n,
            table@.len() == 256,
            i <= n,
            forall|j: int| 0 <= j < i ==> pixels@[j] == encoded_byte(orig, table@, j),
            forall|j: int| i <= j < n ==> pixels@[j] == orig[j],
        decreases n - i,
    {
        if i % 4 != 3 {
            let b = pixels[i];
            let t = table[b as usize];
            pixels.set(i, t);
        }
        i = i + 1;
    }
}

} // verus!
