//! Pure compositing of a secondary (camera) frame onto a primary (screen)
//! frame: nearest-neighbor resample plus direct overwrite, no alpha blending.
//!
//! Both frames are 4-byte-per-pixel buffers in row-major order. The overlay's
//! width is a size-class percentage of the primary's width, its height
//! preserves the secondary's aspect ratio, and both are clamped to the
//! primary. Placement keeps a fixed margin from the corner named by the
//! position; an axis whose placement would overflow the primary falls back to
//! origin 0 on that axis.

use vstd::prelude::*;
use vstd::arithmetic::div_mod::{
    lemma_fundamental_div_mod, lemma_fundamental_div_mod_converse, lemma_multiply_divide_lt,
};
use vstd::arithmetic::mul::{
    lemma_mul_inequality, lemma_mul_strict_inequality, lemma_mul_upper_bound,
};
use vstd::pervasive::VecAdditionalExecFns;
use crate::error::RecorderError;
use crate::settings::{CameraPosition, CameraSize};

verus! {

/// Margin, in pixels, kept between the overlay and the primary frame's edge.
pub const OVERLAY_MARGIN: u32 = 16;

/// Share of the primary frame's width given to the overlay, in percent.
pub open spec fn spec_size_percent(size: CameraSize) -> int {
    match size {
        CameraSize::Small => 15,
        CameraSize::Medium => 25,
        CameraSize::Large => 35,
    }
}

/// Overlay width: the size-class percentage of the primary width, at least 1,
/// clamped to the primary width.
pub open spec fn spec_overlay_width(sw: int, size: CameraSize) -> int {
    let t = sw * spec_size_percent(size) / 100;
    let t1 = if t < 1 {
        1
    } else {
        t
    };
    if t1 > sw {
        sw
    } else {
        t1
    }
}

/// Overlay height: derived from the overlay width by preserving the
/// secondary's aspect ratio, at least 1, clamped to the primary height.
pub open spec fn spec_overlay_height(sw: int, sh: int, cw: int, ch: int, size: CameraSize) -> int {
    let tw = spec_overlay_width(sw, size);
    let h = tw * ch / cw;
    let h1 = if h < 1 {
        1
    } else {
        h
    };
    if h1 > sh {
        sh
    } else {
        h1
    }
}

/// Horizontal origin of the overlay: a margin from the edge named by the
/// position, falling back to 0 when the placement would overflow.
pub open spec fn spec_overlay_x0(sw: int, tw: int, position: CameraPosition) -> int {
    let raw = match position {
        CameraPosition::TopLeft | CameraPosition::BottomLeft => OVERLAY_MARGIN as int,
        CameraPosition::TopRight | CameraPosition::BottomRight => if sw - tw - OVERLAY_MARGIN < 0 {
            0
        } else {
            sw - tw - OVERLAY_MARGIN
        },
    };
    if raw + tw > sw {
        0
    } else {
        raw
    }
}

/// Vertical origin of the overlay, analogous to [`spec_overlay_x0`].
pub open spec fn spec_overlay_y0(sh: int, th: int, position: CameraPosition) -> int {
    let raw = match position {
        CameraPosition::TopLeft | CameraPosition::TopRight => OVERLAY_MARGIN as int,
        CameraPosition::BottomLeft | CameraPosition::BottomRight => if sh - th - OVERLAY_MARGIN
            < 0 {
            0
        } else {
            sh - th - OVERLAY_MARGIN
        },
    };
    if raw + th > sh {
        0
    } else {
        raw
    }
}

/// Both frames declare positive dimensions, and each buffer's length is
/// exactly its declared pixel area.
pub open spec fn spec_frames_valid(
    screen_len: int,
    sw: int,
    sh: int,
    camera_len: int,
    cw: int,
    ch: int,
) -> bool {
    &&& sw > 0
    &&& sh > 0
    &&& cw > 0
    &&& ch > 0
    &&& screen_len == sw * sh * 4
    &&& camera_len == cw * ch * 4
}

/// Byte `i` of the composited primary buffer: bytes of pixels inside the
/// overlay rectangle come from the nearest-neighbor source pixel of the
/// secondary, every other byte is unchanged.
pub open spec fn spec_composited_byte(
    scr: Seq<u8>,
    cam: Seq<u8>,
    sw: int,
    cw: int,
    ch: int,
    tw: int,
    th: int,
    x0: int,
    y0: int,
    i: int,
) -> u8 {
    let p = i / 4;
    let k = i % 4;
    let py = p / sw;
    let px = p % sw;
    if x0 <= px < x0 + tw && y0 <= py < y0 + th {
        let sy = (py - y0) * ch / th;
        let sx = (px - x0) * cw / tw;
        cam[(sy * cw + sx) * 4 + k]
    } else {
        scr[i]
    }
}

/// Byte `i` after the overlay rows before `rows`, and the pixels before
/// `cols` of row `rows`, have been written (overlay-local row-major order).
spec fn spec_partial_byte(
    scr: Seq<u8>,
    cam: Seq<u8>,
    sw: int,
    cw: int,
    ch: int,
    tw: int,
    th: int,
    x0: int,
    y0: int,
    rows: int,
    cols: int,
    i: int,
) -> u8 {
    let p = i / 4;
    let k = i % 4;
    let py = p / sw;
    let px = p % sw;
    if x0 <= px < x0 + tw && y0 <= py < y0 + th && (py - y0 < rows || (py - y0 == rows && px - x0
        < cols)) {
        let sy = (py - y0) * ch / th;
        let sx = (px - x0) * cw / tw;
        cam[(sy * cw + sx) * 4 + k]
    } else {
        scr[i]
    }
}

/// Bounds a product of two bounded non-negative factors.
pub(crate) proof fn lemma_mul_bound(a: int, ab: int, b: int, bb: int)
    requires
        0 <= a <= ab,
        0 <= b <= bb,
    ensures
        a * b <= ab * bb,
{
    lemma_mul_upper_bound(a, ab, b, bb);
}

/// The byte index of channel `k` of pixel `(x, y)` in a `w`-pixel-wide
/// 4-byte-per-pixel buffer decomposes back into `(x, y, k)`.
pub(crate) proof fn lemma_byte_index_decomposes(w: int, y: int, x: int, k: int)
    requires
        0 < w,
        0 <= y,
        0 <= x < w,
        0 <= k < 4,
    ensures
        ((y * w + x) * 4 + k) / 4 == y * w + x,
        ((y * w + x) * 4 + k) % 4 == k,
        (y * w + x) / w == y,
        (y * w + x) % w == x,
{
    lemma_mul_inequality(0, y, w);
    lemma_fundamental_div_mod_converse((y * w + x) * 4 + k, 4, y * w + x, k);
    lemma_fundamental_div_mod_converse(y * w + x, w, y, x);
}

/// Channel `k` of pixel `(x, y)` lies inside the `w * h * 4`-byte buffer.
pub(crate) proof fn lemma_byte_index_in_bounds(w: int, h: int, y: int, x: int, k: int)
    requires
        0 <= y < h,
        0 <= x < w,
        0 <= k < 4,
    ensures
        0 <= (y * w + x) * 4 + k,
        (y * w + x) * 4 + k < w * h * 4,
{
    lemma_mul_inequality(0, y, w);
    lemma_mul_inequality(y, h - 1, w);
    assert((h - 1) * w == h * w - w) by (nonlinear_arith);
    assert((y * w + x) * 4 <= (h * w - 1) * 4) by (nonlinear_arith)
        requires
            y * w + x <= h * w - 1,
    ;
    assert(h * w * 4 == w * h * 4) by (nonlinear_arith);
}

/// Zero-width/zero-height frames, or buffers whose length does not match the
/// declared dimensions, are rejected; this performs no allocation.
pub struct FrameCompositor;

/// Computes the overlay rectangle `(width, height, x0, y0)` for a secondary
/// frame of `camera_width x camera_height` placed on a primary frame of
/// `screen_width x screen_height`.
pub fn overlay_geometry(
    screen_width: u32,
    screen_height: u32,
    camera_width: u32,
    camera_height: u32,
    position: CameraPosition,
    size: CameraSize,
) -> (g: (u32, u32, u32, u32))
    requires
        screen_width > 0,
        screen_height > 0,
        camera_width > 0,
        camera_height > 0,
    ensures
        g.0 == spec_overlay_width(screen_width as int, size),
        g.1 == spec_overlay_height(
            screen_width as int,
            screen_height as int,
            camera_width as int,
            camera_height as int,
            size,
        ),
        g.2 == spec_overlay_x0(screen_width as int, g.0 as int, position),
        g.3 == spec_overlay_y0(screen_height as int, g.1 as int, position),
        1 <= g.0,
        1 <= g.1,
        g.2 + g.0 <= screen_width,
        g.3 + g.1 <= screen_height,
{
    let sw: u64 = screen_width as u64;
    let sh: u64 = screen_height as u64;
    let pct: u64 = match size {
        CameraSize::Small => 15,
        CameraSize::Medium => 25,
        CameraSize::Large => 35,
    };

    let t: u64 = sw * pct / 100;
    let t1: u64 = if t < 1 {
        1
    } else {
        t
    };
    let tw: u64 = if t1 > sw {
        sw
    } else {
        t1
    };

    proof {
        lemma_mul_bound(tw as int, 0xffff_ffff, camera_height as int, 0xffff_ffff);
    }
    let h: u64 = tw * (camera_height as u64) / (camera_width as u64);
    let h1: u64 = if h < 1 {
        1
    } else {
        h
    };
    let th: u64 = if h1 > sh {
        sh
    } else {
        h1
    };

    let margin: u64 = OVERLAY_MARGIN as u64;
    let x_raw: u64 = match position {
        CameraPosition::TopLeft | CameraPosition::BottomLeft => margin,
        CameraPosition::TopRight | CameraPosition::BottomRight => if sw >= tw + margin {
            sw - tw - margin
        } else {
            0
        },
    };
    let y_raw: u64 = match position {
        CameraPosition::TopLeft | CameraPosition::TopRight => margin,
        CameraPosition::BottomLeft | CameraPosition::BottomRight => if sh >= th + margin {
            sh - th - margin
        } else {
            0
        },
    };
    let x0: u64 = if x_raw + tw > sw {
        0
    } else {
        x_raw
    };
    let y0: u64 = if y_raw + th > sh {
        0
    } else {
        y_raw
    };

    (tw as u32, th as u32, x0 as u32, y0 as u32)
}

impl FrameCompositor {
    /// Overlays `camera` onto `screen` at the position and size class given.
    ///
    /// On success every byte of `screen` equals the composited value; the
    /// buffer's length never changes. Fails exactly when either frame's
    /// declared dimensions are zero or do not match its buffer's length,
    /// leaving `screen` untouched.
    pub fn overlay_bgra(
        screen: &mut Vec<u8>,
        screen_width: u32,
        screen_height: u32,
        camera: &Vec<u8>,
        camera_width: u32,
        camera_height: u32,
        position: CameraPosition,
        size: CameraSize,
    ) -> (r: Result<(), RecorderError>)
        ensures
            final(screen).len() == old(screen).len(),
            r is Ok <==> spec_frames_valid(
                old(screen).len() as int,
                screen_width as int,
                screen_height as int,
                camera.len() as int,
                camera_width as int,
                camera_height as int,
            ),
            r matches Err(e) ==> e.is_invalid_settings() && final(screen)@ == old(screen)@,
            r is Ok ==> {
                let sw = screen_width as int;
                let tw = spec_overlay_width(sw, size);
                let th = spec_overlay_height(
                    sw,
                    screen_height as int,
                    camera_width as int,
                    camera_height as int,
                    size,
                );
                let x0 = spec_overlay_x0(sw, tw, position);
                let y0 = spec_overlay_y0(screen_height as int, th, position);
                forall|i: int|
                    0 <= i < final(screen).len() ==> final(screen)@[i] == spec_composited_byte(
                        old(screen)@,
                        camera@,
                        sw,
                        camera_width as int,
                        camera_height as int,
                        tw,
                        th,
                        x0,
                        y0,
                        i,
                    )
            },
    {
        proof {
            lemma_mul_bound(screen_width as int, 0xffff_ffff, screen_height as int, 0xffff_ffff);
            lemma_mul_bound(camera_width as int, 0xffff_ffff, camera_height as int, 0xffff_ffff);
        }
        let screen_area: u128 = (screen_width as u128) * (screen_height as u128) * 4;
        let camera_area: u128 = (camera_width as u128) * (camera_height as u128) * 4;
        if screen_width == 0 || screen_height == 0 || camera_width == 0 || camera_height == 0
            || (screen.len() as u128) != screen_area || (camera.len() as u128) != camera_area {
            return Err(RecorderError::invalid_settings("Invalid frame dimensions"));
        }

        let (tw, th, x0, y0) = overlay_geometry(
            screen_width,
            screen_height,
            camera_width,
            camera_height,
            position,
            size,
        );

        let ghost scr0 = screen@;
        let ghost swi = screen_width as int;
        let ghost cwi = camera_width as int;
        let ghost chi = camera_height as int;
        let ghost twi = tw as int;
        let ghost thi = th as int;
        let ghost x0i = x0 as int;
        let ghost y0i = y0 as int;
        let ghost len = screen@.len() as int;

        let sw_us: usize = screen_width as usize;
        let cw_us: usize = camera_width as usize;
        let scr_len: usize = screen.len();
        let cam_len: usize = camera.len();

        proof {
            assert(swi * (screen_height as int) * 4 <= scr_len);
            assert(cwi * chi * 4 <= cam_len);
        }

        let mut dy: u32 = 0;
        while dy < th
            invariant
                0 <= dy <= th,
                screen@.len() == scr0.len(),
                scr0.len() == len,
                sw_us == swi,
                cw_us == cwi,
                screen_width > 0,
                screen_height > 0,
                camera_width > 0,
                camera_height > 0,
                twi == tw,
                thi == th,
                x0i == x0,
                y0i == y0,
                1 <= twi,
                1 <= thi,
                x0i + twi <= screen_width,
                y0i + thi <= screen_height,
                swi == screen_width as int,
                cwi == camera_width as int,
                chi == camera_height as int,
                scr_len == len,
                cam_len == camera@.len(),
                swi * (screen_height as int) * 4 <= scr_len,
                cwi * chi * 4 <= cam_len,
                forall|i: int|
                    0 <= i < len ==> screen@[i] == spec_partial_byte(
                        scr0,
                        camera@,
                        swi,
                        cwi,
                        chi,
                        twi,
                        thi,
                        x0i,
                        y0i,
                        dy as int,
                        0,
                        i,
                    ),
            decreases th - dy,
        {
            proof {
                lemma_mul_bound(dy as int, 0xffff_ffff, chi, 0xffff_ffff);
                lemma_mul_strict_inequality(dy as int, thi, chi);
                lemma_multiply_divide_lt((dy as int) * chi, thi, chi);
            }
            let sy: usize = ((dy as u64) * (camera_height as u64) / (th as u64)) as usize;

            let mut dx: u32 = 0;
            while dx < tw
                invariant
                    0 <= dx <= tw,
                    0 <= dy < th,
                    screen@.len() == scr0.len(),
                    scr0.len() == len,
                    sw_us == swi,
                    cw_us == cwi,
                    screen_width > 0,
                    screen_height > 0,
                    camera_width > 0,
                    camera_height > 0,
                    twi == tw,
                    thi == th,
                    x0i == x0,
                    y0i == y0,
                    1 <= twi,
                    1 <= thi,
                    x0i + twi <= screen_width,
                    y0i + thi <= screen_height,
                    swi == screen_width as int,
                    cwi == camera_width as int,
                    chi == camera_height as int,
                    scr_len == len,
                    cam_len == camera@.len(),
                    swi * (screen_height as int) * 4 <= scr_len,
                    cwi * chi * 4 <= cam_len,
                    sy == (dy as int) * chi / thi,
                    0 <= sy < chi,
                    forall|i: int|
                        0 <= i < len ==> screen@[i] == spec_partial_byte(
                            scr0,
                            camera@,
                            swi,
                            cwi,
                            chi,
                            twi,
                            thi,
                            x0i,
                            y0i,
                            dy as int,
                            dx as int,
                            i,
                        ),
                decreases tw - dx,
            {
                proof {
                    lemma_mul_bound(dx as int, 0xffff_ffff, cwi, 0xffff_ffff);
                    lemma_mul_strict_inequality(dx as int, twi, cwi);
                    lemma_multiply_divide_lt((dx as int) * cwi, twi, cwi);
                }
                let sx: usize = ((dx as u64) * (camera_width as u64) / (tw as u64)) as usize;
                proof {
                    lemma_byte_index_in_bounds(cwi, chi, sy as int, sx as int, 0);
                    assert((sy as int * cwi + sx as int) * 4 < cwi * chi * 4);
                    assert(sy as int * cwi <= sy as int * cwi + sx as int);
                }
                let s_base: usize = (sy * cw_us + sx) * 4;

                let ghost py = y0i + dy as int;
                let ghost px = x0i + dx as int;
                proof {
                    lemma_byte_index_in_bounds(
                        swi,
                        screen_height as int,
                        py,
                        px,
                        0,
                    );
                }
                let d_base: usize = ((y0 + dy) as usize * sw_us + (x0 + dx) as usize) * 4;

                let ghost before = screen@;

                let mut k: usize = 0;
                while k < 4
                    invariant
                        0 <= k <= 4,
                        screen@.len() == before.len(),
                        before.len() == len,
                        d_base == (py * swi + px) * 4,
                        s_base == (sy as int * cwi + sx as int) * 4,
                        0 <= d_base,
                        d_base + 4 <= len,
                        0 <= s_base,
                        s_base + 4 <= camera@.len(),
                        forall|i: int|
                            0 <= i < len && !(d_base <= i < d_base + k) ==> screen@[i]
                                == before[i],
                        forall|i: int|
                            d_base <= i < d_base + k ==> screen@[i] == camera@[s_base + (i
                                - d_base)],
                    decreases 4 - k,
                {
                    let v: u8 = camera[s_base + k];
                    screen.set(d_base + k, v);
                    k = k + 1;
                }

                proof {
                    assert forall|i: int|
                        0 <= i < len implies screen@[i] == spec_partial_byte(
                        scr0,
                        camera@,
                        swi,
                        cwi,
                        chi,
                        twi,
                        thi,
                        x0i,
                        y0i,
                        dy as int,
                        dx as int + 1,
                        i,
                    ) by {
                        lemma_fundamental_div_mod(i, 4);
                        lemma_fundamental_div_mod(i / 4, swi);
                        vstd::arithmetic::div_mod::lemma_mod_bound(i, 4);
                        vstd::arithmetic::div_mod::lemma_mod_bound(i / 4, swi);
                        vstd::arithmetic::div_mod::lemma_div_pos_is_pos(i, 4);
                        vstd::arithmetic::div_mod::lemma_div_pos_is_pos(i / 4, swi);
                        let ipy = (i / 4) / swi;
                        let ipx = (i / 4) % swi;
                        let ik = i % 4;
                        if d_base <= i < d_base + 4 {
                            // the freshly written pixel
                            lemma_byte_index_decomposes(swi, py, px, i - d_base);
                            assert(ipy == py && ipx == px && ik == i - d_base);
                            assert(screen@[i] == camera@[s_base + ik]);
                            assert(x0i <= ipx < x0i + twi);
                            assert(y0i <= ipy < y0i + thi);
                            assert(ipy - y0i == dy as int);
                            assert(ipx - x0i == dx as int);
                            assert((ipy - y0i) * chi / thi == sy as int);
                            assert((ipx - x0i) * cwi / twi == sx as int);
                            assert(((ipy - y0i) * chi / thi * cwi + (ipx - x0i) * cwi / twi) * 4
                                + ik == s_base + ik);
                        } else {
                            // untouched byte: show it is not the written pixel
                            if ipy == py && ipx == px {
                                lemma_byte_index_decomposes(swi, py, px, ik);
                                vstd::arithmetic::mul::lemma_mul_is_commutative(swi, py);
                                assert(i / 4 == py * swi + px);
                                assert(i == (py * swi + px) * 4 + ik);
                                assert(d_base <= i < d_base + 4);
                            }
                            assert(screen@[i] == before[i]);
                            assert(before[i] == spec_partial_byte(
                                scr0,
                                camera@,
                                swi,
                                cwi,
                                chi,
                                twi,
                                thi,
                                x0i,
                                y0i,
                                dy as int,
                                dx as int,
                                i,
                            ));
                        }
                    }
                }
                dx = dx + 1;
            }
            proof {
                assert forall|i: int|
                    0 <= i < len implies screen@[i] == spec_partial_byte(
                    scr0,
                    camera@,
                    swi,
                    cwi,
                    chi,
                    twi,
                    thi,
                    x0i,
                    y0i,
                    dy as int + 1,
                    0,
                    i,
                ) by {
                }
            }
            dy = dy + 1;
        }

        proof {
            assert forall|i: int|
                0 <= i < len implies screen@[i] == spec_composited_byte(
                scr0,
                camera@,
                swi,
                cwi,
                chi,
                twi,
                thi,
                x0i,
                y0i,
                i,
            ) by {
            }
        }
        Ok(())
    }
}

} // verus!
