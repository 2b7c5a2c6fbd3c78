//! Raw frame buffer transforms between capture and encode.
//!
//! The screen grabber hands back bottom-up BGRA scanlines; the encoders
//! want top-down RGB. These transforms are pure byte shuffles on the raw
//! buffer, specified pixel by pixel.
use vstd::arithmetic::div_mod::{
    lemma_div_is_ordered, lemma_div_multiples_vanish, lemma_fundamental_div_mod,
};
use vstd::arithmetic::mul::{lemma_mul_inequality, lemma_mul_is_commutative, lemma_mul_upper_bound};
use vstd::prelude::*;

verus! {

/// Reverses the order of a frame's scanlines. A row of pixels keeps its
/// bytes; row `y` of the result is row `height - 1 - y` of the input.
pub fn flip_frame_vertically(frame: &Vec<u8>, width: u32, height: u32) -> (flipped: Vec<u8>)
    requires
        frame@.len() == width as int * 4 * height as int,
    ensures
        flipped@.len() == frame@.len(),
        forall|y: int, k: int|
            0 <= y < height && 0 <= k < width as int * 4 ==> #[trigger] flipped@[y * (width as int
                * 4) + k] == frame@[(height - 1 - y) * (width as int * 4) + k],
{
    let ghost stride_g = width as int * 4;
    let flen: usize = frame.len();
    if height == 0 || width == 0 {
        proof {
            assert(frame@.len() == 0) by (nonlinear_arith)
                requires
                    frame@.len() == width as int * 4 * height as int,
                    width == 0 || height == 0,
            ;
        }
        let out: Vec<u8> = Vec::new();
        return out;
    }
    proof {
        assert(width as int * 4 <= frame@.len()) by (nonlinear_arith)
            requires
                frame@.len() == width as int * 4 * height as int,
                height >= 1,
                width >= 1,
        ;
    }
    let stride: usize = (width as usize) * 4;
    let mut out: Vec<u8> = Vec::new();
    let mut y: usize = 0;
    while y < height as usize
        invariant
            stride == stride_g,
            frame@.len() <= usize::MAX,
            frame@.len() == stride_g * height as int,
            1 <= height,
            y <= height as usize,
            out@.len() == y as int * stride_g,
            forall|r: int, k: int|
                0 <= r < y && 0 <= k < stride_g ==> #[trigger] out@[r * stride_g + k]
                    == frame@[(height - 1 - r) * stride_g + k],
        decreases height as usize - y,
    {
        let src_row: usize = (height as usize - 1) - y;
        assert(src_row as int * stride_g + stride_g <= frame@.len()) by (nonlinear_arith)
            requires
                frame@.len() == stride_g * height as int,
                src_row as int == height - 1 - y,
                0 <= y < height,
                stride_g >= 0,
        ;
        assert(y as int * stride_g + stride_g <= frame@.len()) by (nonlinear_arith)
            requires
                frame@.len() == stride_g * height as int,
                0 <= y < height,
                stride_g >= 0,
        ;
        let base: usize = src_row * stride;
        let mut k: usize = 0;
        while k < stride
            invariant
                stride == stride_g,
                frame@.len() <= usize::MAX,
                frame@.len() == stride_g * height as int,
                1 <= height,
                y < height as usize,
                base == src_row as int * stride_g,
                src_row as int == height - 1 - y,
                src_row as int * stride_g + stride_g <= frame@.len(),
                k <= stride,
                out@.len() == y as int * stride_g + k,
                y as int * stride_g + stride_g <= frame@.len(),
                forall|r: int, j: int|
                    0 <= r < y && 0 <= j < stride_g ==> #[trigger] out@[r * stride_g + j]
                        == frame@[(height - 1 - r) * stride_g + j],
                forall|j: int|
                    0 <= j < k ==> #[trigger] out@[y as int * stride_g + j] == frame@[src_row as int
                        * stride_g + j],
            decreases stride - k,
        {
            out.push(frame[base + k]);
            k = k + 1;
            proof {
                assert forall|r: int, j: int|
                    0 <= r < y && 0 <= j < stride_g implies #[trigger] out@[r * stride_g + j]
                    == frame@[(height - 1 - r) * stride_g + j] by {
                    assert(r * stride_g + j < y as int * stride_g) by (nonlinear_arith)
                        requires
                            0 <= r < y,
                            0 <= j < stride_g,
                    ;
                }
            }
        }
        y = y + 1;
        proof {
            assert(y as int * stride_g == (y - 1) * stride_g + stride_g) by (nonlinear_arith);
            assert forall|r: int, j: int|
                0 <= r < y && 0 <= j < stride_g implies #[trigger] out@[r * stride_g + j]
                == frame@[(height - 1 - r) * stride_g + j] by {
                if r < y - 1 {
                    assert(r * stride_g + j < (y - 1) * stride_g + stride_g) by (nonlinear_arith)
                        requires
                            0 <= r < y - 1,
                            0 <= j < stride_g,
                    ;
                }
            }
        }
    }
    proof {
        assert(out@.len() == frame@.len()) by (nonlinear_arith)
            requires
                out@.len() == height as int * stride_g,
                frame@.len() == stride_g * height as int,
        ;
    }
    out
}

/// Converts a BGRA pixel buffer to a tightly packed RGB buffer: the
/// alpha byte of each pixel is dropped and the blue and red bytes trade
/// places.
pub fn bgra_to_rgb(bgra: &Vec<u8>) -> (rgb: Vec<u8>)
    ensures
        rgb@.len() == (bgra@.len() as int / 4) * 3,
        forall|p: int|
            0 <= p < bgra@.len() as int / 4 ==> {
                &&& #[trigger] rgb@[3 * p] == bgra@[4 * p + 2]
                &&& rgb@[3 * p + 1] == bgra@[4 * p + 1]
                &&& rgb@[3 * p + 2] == bgra@[4 * p]
            },
{
    let pixels: usize = bgra.len() / 4;
    let mut rgb: Vec<u8> = Vec::new();
    let mut p: usize = 0;
    proof {
        lemma_fundamental_div_mod(bgra@.len() as int, 4);
    }
    while p < pixels
        invariant
            bgra@.len() <= usize::MAX,
            pixels == bgra@.len() as int / 4,
            p <= pixels,
            4 * pixels as int <= bgra@.len(),
            rgb@.len() == 3 * p,
            forall|q: int|
                0 <= q < p ==> {
                    &&& #[trigger] rgb@[3 * q] == bgra@[4 * q + 2]
                    &&& rgb@[3 * q + 1] == bgra@[4 * q + 1]
                    &&& rgb@[3 * q + 2] == bgra@[4 * q]
                },
        decreases pixels - p,
    {
        let ghost rgb0 = rgb@;
        rgb.push(bgra[4 * p + 2]);
        rgb.push(bgra[4 * p + 1]);
        rgb.push(bgra[4 * p]);
        p = p + 1;
        proof {
            assert forall|q: int|
                0 <= q < p implies {
                &&& #[trigger] rgb@[3 * q] == bgra@[4 * q + 2]
                &&& rgb@[3 * q + 1] == bgra@[4 * q + 1]
                &&& rgb@[3 * q + 2] == bgra@[4 * q]
            } by {
                if q == p - 1 {
                    assert(rgb@[3 * q] == bgra@[4 * q + 2]);
                    assert(rgb@[3 * q + 1] == bgra@[4 * q + 1]);
                    assert(rgb@[3 * q + 2] == bgra@[4 * q]);
                } else {
                    assert(3 * q + 2 < rgb0.len());
                    assert(rgb@[3 * q] == rgb0[3 * q]);
                    assert(rgb@[3 * q + 1] == rgb0[3 * q + 1]);
                    assert(rgb@[3 * q + 2] == rgb0[3 * q + 2]);
                }
            }
        }
    }
    proof {
        lemma_mul_is_commutative(pixels as int, 3);
    }
    rgb
}

/// Applies the optional width cap to the capture geometry: a frame wider
/// than the cap is scaled down to it, keeping the aspect ratio by integer
/// arithmetic; otherwise the geometry passes through unchanged.
pub fn scaled_dimensions(width: u32, height: u32, scale_max_width: Option<u32>) -> (dims: (
    u32,
    u32,
))
    ensures
        match scale_max_width {
            Some(max_w) => if max_w > 0 && width > max_w {
                dims.0 == max_w && dims.1 == height as int * max_w as int / width as int
            } else {
                dims == (width, height)
            },
            None => dims == (width, height),
        },
{
    match scale_max_width {
        Some(max_w) => {
            if max_w > 0 && width > max_w {
                proof {
                    lemma_mul_upper_bound(height as int, u32::MAX as int, max_w as int,
                        u32::MAX as int);
                    lemma_mul_inequality(max_w as int, width as int, height as int);
                    lemma_mul_is_commutative(max_w as int, height as int);
                    lemma_mul_is_commutative(width as int, height as int);
                    lemma_div_is_ordered(
                        height as int * max_w as int,
                        width as int * height as int,
                        width as int,
                    );
                    lemma_div_multiples_vanish(height as int, width as int);
                }
                let scaled: u64 = (height as u64) * (max_w as u64) / (width as u64);
                (max_w, scaled as u32)
            } else {
                (width, height)
            }
        },
        None => (width, height),
    }
}

} // verus!
