//! Frame data and the pure transforms of the capture path: nearest-neighbor
//! scaling, color-layout conversion, black-frame synthesis, and camera
//! selection.
//!
//! The platform backends that produce raw frames push them asynchronously;
//! everything here works on the plain byte buffers they deliver.

use vstd::prelude::*;
use crate::error::RecorderError;
use crate::compositor::{lemma_byte_index_decomposes, lemma_byte_index_in_bounds, lemma_mul_bound};
use vstd::arithmetic::div_mod::{lemma_fundamental_div_mod_converse, lemma_multiply_divide_lt};
use vstd::arithmetic::mul::lemma_mul_strict_inequality;

verus! {

/// One captured video frame: a 4-byte-per-pixel buffer in row-major order,
/// with its capture timestamp and a monotonically increasing sequence number.
#[derive(Debug, Clone)]
pub struct Frame {
    pub data: Vec<u8>,
    pub width: u32,
    pub height: u32,
    pub timestamp: u64,
    pub frame_number: u64,
}

/// Byte `i` of a `src_w x src_h` frame scaled to `dst_w x dst_h` by
/// nearest-neighbor sampling.
pub open spec fn spec_scaled_byte(
    src: Seq<u8>,
    src_w: int,
    src_h: int,
    dst_w: int,
    dst_h: int,
    i: int,
) -> u8 {
    let p = i / 4;
    let k = i % 4;
    let y = p / dst_w;
    let x = p % dst_w;
    src[((y * src_h / dst_h) * src_w + x * src_w / dst_w) * 4 + k]
}

/// A buffer of `n` zero bytes (an all-black 4-byte-per-pixel frame).
fn zero_buffer(n: usize) -> (v: Vec<u8>)
    ensures
        v@.len() == n,
        forall|i: int| 0 <= i < n ==> v@[i] == 0u8,
{
    let mut v: Vec<u8> = Vec::new();
    let mut j: usize = 0;
    while j < n
        invariant
            0 <= j <= n,
            v@.len() == j,
            forall|i: int| 0 <= i < j ==> v@[i] == 0u8,
        decreases n - j,
    {
        v.push(0u8);
        j = j + 1;
    }
    v
}

/// Scales a 4-byte-per-pixel frame to the target size with nearest-neighbor
/// sampling. When the sizes already match, the buffer is returned unchanged.
pub fn scale_bgra_nearest(src: &Vec<u8>, src_w: u32, src_h: u32, dst_w: u32, dst_h: u32) -> (out:
    Vec<u8>)
    requires
        src_w > 0,
        src_h > 0,
        dst_w > 0,
        dst_h > 0,
        src.len() >= src_w as int * src_h as int * 4,
    ensures
        src_w == dst_w && src_h == dst_h ==> out@ == src@,
        !(src_w == dst_w && src_h == dst_h) ==> {
            &&& out@.len() == dst_w as int * dst_h as int * 4
            &&& forall|i: int|
                0 <= i < out@.len() ==> out@[i] == spec_scaled_byte(
                    src@,
                    src_w as int,
                    src_h as int,
                    dst_w as int,
                    dst_h as int,
                    i,
                )
        },
{
    if src_w == dst_w && src_h == dst_h {
        return src.clone();
    }

    let ghost swi = src_w as int;
    let ghost shi = src_h as int;
    let ghost dwi = dst_w as int;
    let ghost dhi = dst_h as int;
    let src_len: usize = src.len();
    let sw_us: usize = src_w as usize;

    let mut out: Vec<u8> = Vec::new();
    let mut y: u32 = 0;
    while y < dst_h
        invariant
            0 <= y <= dst_h,
            src_w > 0,
            src_h > 0,
            dst_w > 0,
            dst_h > 0,
            swi == src_w as int,
            shi == src_h as int,
            dwi == dst_w as int,
            dhi == dst_h as int,
            sw_us == swi,
            src_len == src.len(),
            src_len >= swi * shi * 4,
            out@.len() == y as int * dwi * 4,
            forall|i: int|
                0 <= i < out@.len() ==> out@[i] == spec_scaled_byte(src@, swi, shi, dwi, dhi, i),
        decreases dst_h - y,
    {
        proof {
            lemma_mul_bound(y as int, 0xffff_ffff, shi, 0xffff_ffff);
            lemma_mul_strict_inequality(y as int, dhi, shi);
            lemma_multiply_divide_lt((y as int) * shi, dhi, shi);
        }
        let sy: usize = ((y as u64) * (src_h as u64) / (dst_h as u64)) as usize;

        let mut x: u32 = 0;
        while x < dst_w
            invariant
                0 <= x <= dst_w,
                0 <= y < dst_h,
                src_w > 0,
                src_h > 0,
                dst_w > 0,
                dst_h > 0,
                swi == src_w as int,
                shi == src_h as int,
                dwi == dst_w as int,
                dhi == dst_h as int,
                sw_us == swi,
                src_len == src.len(),
                src_len >= swi * shi * 4,
                sy == (y as int) * shi / dhi,
                0 <= sy < shi,
                out@.len() == (y as int * dwi + x as int) * 4,
                forall|i: int|
                    0 <= i < out@.len() ==> out@[i] == spec_scaled_byte(
                        src@,
                        swi,
                        shi,
                        dwi,
                        dhi,
                        i,
                    ),
            decreases dst_w - x,
        {
            proof {
                lemma_mul_bound(x as int, 0xffff_ffff, swi, 0xffff_ffff);
                lemma_mul_strict_inequality(x as int, dwi, swi);
                lemma_multiply_divide_lt((x as int) * swi, dwi, swi);
            }
            let sx: usize = ((x as u64) * (src_w as u64) / (dst_w as u64)) as usize;
            proof {
                lemma_byte_index_in_bounds(swi, shi, sy as int, sx as int, 0);
                assert((sy as int * swi + sx as int) * 4 < swi * shi * 4);
                assert(sy as int * swi <= sy as int * swi + sx as int);
            }
            let s_base: usize = (sy * sw_us + sx) * 4;

            let mut k: usize = 0;
            while k < 4
                invariant
                    0 <= k <= 4,
                    0 <= x < dst_w,
                    0 <= y < dst_h,
                    swi == src_w as int,
                    shi == src_h as int,
                    dwi == dst_w as int,
                    dhi == dst_h as int,
                    src_len == src.len(),
                    src_len >= swi * shi * 4,
                    sy == (y as int) * shi / dhi,
                    sx == (x as int) * swi / dwi,
                    0 <= sy < shi,
                    0 <= sx < swi,
                    s_base == (sy as int * swi + sx as int) * 4,
                    s_base + 4 <= src_len,
                    out@.len() == (y as int * dwi + x as int) * 4 + k,
                    forall|i: int|
                        0 <= i < out@.len() ==> out@[i] == spec_scaled_byte(
                            src@,
                            swi,
                            shi,
                            dwi,
                            dhi,
                            i,
                        ),
                decreases 4 - k,
            {
                let v: u8 = src[s_base + k];
                out.push(v);
                proof {
                    lemma_byte_index_decomposes(dwi, y as int, x as int, k as int);
                }
                k = k + 1;
            }
            x = x + 1;
        }
        proof {
            assert((y as int * dwi + dwi) * 4 == (y as int + 1) * dwi * 4) by (nonlinear_arith);
        }
        y = y + 1;
    }
    proof {
        assert(dst_h as int * dwi * 4 == dwi * dst_h as int * 4) by (nonlinear_arith);
    }
    out
}

/// Byte `i` of the 4-byte-per-pixel conversion of a packed RGB buffer:
/// blue, green, red, then a fixed opaque alpha.
pub open spec fn spec_bgra_byte(rgb: Seq<u8>, i: int) -> u8 {
    let p = i / 4;
    let k = i % 4;
    if k == 0 {
        rgb[p * 3 + 2]
    } else if k == 1 {
        rgb[p * 3 + 1]
    } else if k == 2 {
        rgb[p * 3]
    } else {
        255u8
    }
}

/// Converts a packed 3-byte-per-pixel RGB buffer to the 4-byte layout used
/// downstream (blue, green, red, then a fixed opaque alpha). A trailing
/// fragment shorter than one pixel is dropped.
pub fn rgb_to_bgra(rgb: &Vec<u8>) -> (out: Vec<u8>)
    ensures
        out@.len() == (rgb@.len() / 3) * 4,
        forall|i: int| 0 <= i < out@.len() ==> out@[i] == spec_bgra_byte(rgb@, i),
{
    let rgb_len: usize = rgb.len();
    let n: usize = rgb_len / 3;
    let mut out: Vec<u8> = Vec::new();
    let mut p: usize = 0;
    while p < n
        invariant
            0 <= p <= n,
            rgb_len == rgb@.len(),
            n == rgb@.len() / 3,
            out@.len() == p * 4,
            forall|i: int| 0 <= i < out@.len() ==> out@[i] == spec_bgra_byte(rgb@, i),
        decreases n - p,
    {
        proof {
            vstd::arithmetic::mul::lemma_mul_inequality(p as int, n as int - 1, 3);
            vstd::arithmetic::div_mod::lemma_fundamental_div_mod(rgb@.len() as int, 3);
            vstd::arithmetic::div_mod::lemma_mod_bound(rgb@.len() as int, 3);
            assert(3 * (n as int) <= rgb@.len());
            assert(p as int * 3 + 2 < rgb@.len());
        }
        let b: u8 = rgb[p * 3 + 2];
        let g: u8 = rgb[p * 3 + 1];
        let r: u8 = rgb[p * 3];
        out.push(b);
        out.push(g);
        out.push(r);
        out.push(255u8);
        proof {
            lemma_fundamental_div_mod_converse(p as int * 4, 4, p as int, 0);
            lemma_fundamental_div_mod_converse(p as int * 4 + 1, 4, p as int, 1);
            lemma_fundamental_div_mod_converse(p as int * 4 + 2, 4, p as int, 2);
            lemma_fundamental_div_mod_converse(p as int * 4 + 3, 4, p as int, 3);
        }
        p = p + 1;
    }
    out
}

/// Checks the target size a capture source is asked to deliver.
pub fn validate_target_resolution(width: u32, height: u32) -> (r: Result<(), RecorderError>)
    ensures
        r is Ok <==> width > 0 && height > 0,
        r matches Err(e) ==> e.is_invalid_settings(),
{
    if width == 0 || height == 0 {
        return Err(RecorderError::invalid_settings("Invalid target resolution"));
    }
    Ok(())
}

/// Builds the frame handed downstream from the most recent capture, or an
/// all-black frame of the target size when none has arrived yet.
pub fn frame_from_latest(
    latest: Option<Vec<u8>>,
    target_w: u32,
    target_h: u32,
    timestamp: u64,
    frame_number: u64,
) -> (r: Frame)
    requires
        target_w as int * target_h as int * 4 <= usize::MAX,
    ensures
        r.width == target_w,
        r.height == target_h,
        r.timestamp == timestamp,
        r.frame_number == frame_number,
        match latest {
            Some(d) => r.data == d,
            None => r.data@.len() == target_w as int * target_h as int * 4 && forall|i: int|
                0 <= i < r.data@.len() ==> r.data@[i] == 0u8,
        },
{
    let data: Vec<u8> = match latest {
        Some(d) => d,
        None => {
            proof {
                lemma_mul_bound(target_w as int, 0xffff_ffff, target_h as int, 0xffff_ffff);
            }
            let n: usize = ((target_w as u64) * (target_h as u64)) as usize * 4;
            zero_buffer(n)
        },
    };
    Frame { data, width: target_w, height: target_h, timestamp, frame_number }
}

/// Picks the camera to open: the first entry whose numeric index equals the
/// requested one, else the entry at the requested position, else the first.
/// Returns a position into `indices`.
pub fn choose_camera_index(indices: &Vec<u64>, selected: Option<usize>) -> (pos: usize)
    requires
        indices.len() > 0,
    ensures
        pos < indices.len(),
        match selected {
            Some(n) => {
                if exists|q: int| 0 <= q < indices@.len() && indices@[q] as int == n as int {
                    indices@[pos as int] as int == n as int && forall|q: int|
                        0 <= q < pos ==> indices@[q] as int != n as int
                } else if (n as int) < indices@.len() {
                    pos == n
                } else {
                    pos == 0
                }
            },
            None => pos == 0,
        },
{
    match selected {
        Some(n) => {
            let len: usize = indices.len();
            let mut q: usize = 0;
            while q < len
                invariant
                    0 <= q <= len,
                    len == indices.len(),
                    indices.len() > 0,
                    selected == Some(n),
                    forall|j: int| 0 <= j < q ==> indices@[j] as int != n as int,
                decreases len - q,
            {
                if indices[q] == n as u64 {
                    proof {
                        assert(indices@[q as int] as int == n as int);
                        assert(exists|j: int|
                            0 <= j < indices@.len() && indices@[j] as int == n as int);
                    }
                    return q;
                }
                q = q + 1;
            }
            if n < len {
                n
            } else {
                0
            }
        },
        None => 0,
    }
}

} // verus!
