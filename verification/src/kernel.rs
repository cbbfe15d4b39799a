//! The radius analysis kernel.
//!
//! For every pixel the kernel goes through the square around it, row by row,
//! keeps what lies in the disk and in the image, and records the highest
//! elevation and the steepest rise it finds. Only the elevation channel is
//! read; only the three auxiliary channels are written.

use vstd::prelude::*;
use crate::raster::{in_bounds, sample_index};
use crate::scan::{lemma_scan_finds_extremes, scan_height, scan_rise};
use crate::window::{
    analyzed, analyzed_sample, effective_radius, elevation, in_window, is_max_diff, is_max_height,
    is_steepest_rise, lemma_elevations_decide, lemma_index_in_range, lemma_steepest_rise_exists,
    max_diff, max_height, raised, same_elevations, saturated, steepest_rise, DEFAULT_FLOOR,
};

verus! {

/// Reads the elevation of one pixel.
fn elevation_at(data: &Vec<i16>, width: u32, height: u32, x: usize, y: usize) -> (e: i16)
    requires
        data@.len() == width as int * height as int * 4,
        in_bounds(width as int, height as int, x as int, y as int),
    ensures
        e as int == elevation(data@, width as int, x as int, y as int),
    no_unwind
{
    proof {
        lemma_index_in_range(width as int, height as int, x as int, y as int, 0);
        assert(data@.len() == data.len());
    }
    data[(y * (width as usize) + x) * 4]
}

/// Raises `floor` to the rise from `(qx, qy)` to its neighbour at the offset
/// `(dx, dy)`, where that neighbour lies in the image and is that much
/// higher.
fn climb(
    data: &Vec<i16>,
    width: u32,
    height: u32,
    qx: usize,
    qy: usize,
    dx: i64,
    dy: i64,
    floor: i32,
) -> (g: i32)
    requires
        data@.len() == width as int * height as int * 4,
        in_bounds(width as int, height as int, qx as int, qy as int),
        -1 <= dx <= 1,
        -1 <= dy <= 1,
        -32768 <= floor <= 65535,
    ensures
        g == raised(
            data@,
            width as int,
            height as int,
            qx as int,
            qy as int,
            dx as int,
            dy as int,
            floor as int,
        ),
        floor <= g <= 65535,
    no_unwind
{
    let nx: i64 = qx as i64 + dx;
    let ny: i64 = qy as i64 + dy;
    if nx < 0 || ny < 0 || nx >= width as i64 || ny >= height as i64 {
        return floor;
    }
    let there: i32 = elevation_at(data, width, height, nx as usize, ny as usize) as i32;
    let here: i32 = elevation_at(data, width, height, qx, qy) as i32;
    let diff: i32 = there - here;
    if diff > floor {
        diff
    } else {
        floor
    }
}

/// Finds the steepest rise from one pixel to its eight neighbours, as far as
/// they lie in the image; `floor` where none of them rises above it.
pub fn steepest_rise_at(
    data: &Vec<i16>,
    width: u32,
    height: u32,
    qx: usize,
    qy: usize,
    floor: i16,
) -> (g: i32)
    requires
        data@.len() == width as int * height as int * 4,
        in_bounds(width as int, height as int, qx as int, qy as int),
    ensures
        is_steepest_rise(
            data@,
            width as int,
            height as int,
            qx as int,
            qy as int,
            floor as int,
            g as int,
        ),
        g == steepest_rise(data@, width as int, height as int, qx as int, qy as int, floor as int),
        floor <= g <= 65535,
    no_unwind
{
    let g0: i32 = floor as i32;
    let g1: i32 = climb(data, width, height, qx, qy, -1, -1, g0);
    let g2: i32 = climb(data, width, height, qx, qy, 0, -1, g1);
    let g3: i32 = climb(data, width, height, qx, qy, 1, -1, g2);
    let g4: i32 = climb(data, width, height, qx, qy, -1, 0, g3);
    let g5: i32 = climb(data, width, height, qx, qy, 1, 0, g4);
    let g6: i32 = climb(data, width, height, qx, qy, -1, 1, g5);
    let g7: i32 = climb(data, width, height, qx, qy, 0, 1, g6);
    let g8: i32 = climb(data, width, height, qx, qy, 1, 1, g7);
    proof {
        lemma_steepest_rise_exists(
            data@,
            width as int,
            height as int,
            qx as int,
            qy as int,
            floor as int,
        );
    }
    g8
}

/// Analyses one pixel: the highest elevation in its window, and the steepest
/// rise found there as it is stored. A negative radius counts as `0`; where
/// no step rises above `floor`, the steepest rise is `floor`.
///
/// The result depends on the elevation channel alone, so pixels can be
/// analysed in any order, or side by side.
pub fn analyze_pixel(
    data: &Vec<i16>,
    width: u32,
    height: u32,
    radius: i16,
    floor: i16,
    x: usize,
    y: usize,
) -> (found: (i16, i16))
    requires
        data@.len() == width as int * height as int * 4,
        in_bounds(width as int, height as int, x as int, y as int),
    ensures
        is_max_height(
            data@,
            width as int,
            height as int,
            effective_radius(radius as int),
            x as int,
            y as int,
            found.0 as int,
        ),
        found.0 == max_height(
            data@,
            width as int,
            height as int,
            effective_radius(radius as int),
            x as int,
            y as int,
        ),
        is_max_diff(
            data@,
            width as int,
            height as int,
            effective_radius(radius as int),
            x as int,
            y as int,
            floor as int,
            max_diff(
                data@,
                width as int,
                height as int,
                effective_radius(radius as int),
                x as int,
                y as int,
                floor as int,
            ),
        ),
        found.1 == saturated(
            max_diff(
                data@,
                width as int,
                height as int,
                effective_radius(radius as int),
                x as int,
                y as int,
                floor as int,
            ),
        ),
    no_unwind
{
    let ghost s = data@;
    let ghost w = width as int;
    let ghost h = height as int;
    let ghost px = x as int;
    let ghost py = y as int;
    let ghost f = floor as int;
    let r: i64 = if radius < 0 {
        0
    } else {
        radius as i64
    };
    assert(0 <= r * r <= 1073676289) by (nonlinear_arith)
        requires
            0 <= r <= 32767,
    ;
    let r2: i64 = r * r;
    let mut best: i16 = i16::MIN;
    let mut steep: i32 = floor as i32;
    let mut j: i64 = -r;
    while j <= r
        invariant
            s == data@,
            s.len() == w * h * 4,
            w == width as int,
            h == height as int,
            px == x as int,
            py == y as int,
            f == floor as int,
            in_bounds(w, h, px, py),
            0 <= r <= 32767,
            r2 == r * r,
            -r <= j <= r + 1,
            best == scan_height(s, w, h, r as int, px, py, j as int, -r as int),
            steep == scan_rise(s, w, h, r as int, px, py, f, j as int, -r as int),
            f <= steep <= 65535,
        decreases r + 1 - j,
    {
        let mut i: i64 = -r;
        while i <= r
            invariant
                s == data@,
                s.len() == w * h * 4,
                w == width as int,
                h == height as int,
                px == x as int,
                py == y as int,
                f == floor as int,
                in_bounds(w, h, px, py),
                0 <= r <= 32767,
                r2 == r * r,
                -r <= j <= r,
                -r <= i <= r + 1,
                best == scan_height(s, w, h, r as int, px, py, j as int, i as int),
                steep == scan_rise(s, w, h, r as int, px, py, f, j as int, i as int),
                f <= steep <= 65535,
            decreases r + 1 - i,
        {
            assert(0 <= i * i <= 1073676289 && 0 <= j * j <= 1073676289) by (nonlinear_arith)
                requires
                    -32767 <= i <= 32767,
                    -32767 <= j <= 32767,
            ;
            let qx: i64 = x as i64 + i;
            let qy: i64 = y as i64 + j;
            let in_disk = i * i + j * j <= r2;
            let in_image = 0 <= qx && qx < width as i64 && 0 <= qy && qy < height as i64;
            if in_disk && in_image {
                assert(in_window(w, h, r as int, px, py, px + (i + 1) - 1, py + j));
                let e = elevation_at(data, width, height, qx as usize, qy as usize);
                let g = steepest_rise_at(data, width, height, qx as usize, qy as usize, floor);
                if g > steep {
                    steep = g;
                }
                if e > best {
                    best = e;
                }
            } else {
                assert(!in_window(w, h, r as int, px, py, px + (i + 1) - 1, py + j));
            }
            i += 1;
        }
        j += 1;
    }
    proof {
        lemma_scan_finds_extremes(s, w, h, r as int, px, py, f);
    }
    let stored: i16 = if steep > 32767 {
        32767
    } else {
        steep as i16
    };
    (best, stored)
}

/// Runs the analysis over a whole buffer, in place, with the floor `0`:
/// where no step in a window goes up, the steepest rise is reported as `0`.
///
/// A negative radius counts as `0`. Elevations stay as they are; of every
/// pixel the second channel receives the highest elevation in its window,
/// the third the steepest rise found there (at most `i16::MAX`), and the
/// fourth the radius that was used.
pub fn compute_tiff(data: &mut Vec<i16>, width: u32, height: u32, radius: i16)
    requires
        old(data)@.len() == width as int * height as int * 4,
    ensures
        final(data)@ == analyzed(
            old(data)@,
            width as int,
            height as int,
            effective_radius(radius as int),
            0,
        ),
    no_unwind
{
    compute_tiff_with_floor(data, width, height, radius, DEFAULT_FLOOR);
}

/// Runs the analysis over a whole buffer, in place, with a floor of the
/// caller's choice: where no step in a window rises above `floor`, the
/// steepest rise is reported as `floor`.
///
/// A negative floor lets windows in which every step goes down report the
/// gentlest descent in place of `0`. Everything else is as in
/// [`compute_tiff`].
pub fn compute_tiff_with_floor(
    data: &mut Vec<i16>,
    width: u32,
    height: u32,
    radius: i16,
    floor: i16,
)
    requires
        old(data)@.len() == width as int * height as int * 4,
    ensures
        final(data)@ == analyzed(
            old(data)@,
            width as int,
            height as int,
            effective_radius(radius as int),
            floor as int,
        ),
    no_unwind
{
    let ghost orig = data@;
    let ghost w = width as int;
    let ghost h = height as int;
    let ghost r = effective_radius(radius as int);
    let ghost f = floor as int;
    let marker: i16 = if radius < 0 {
        0
    } else {
        radius
    };
    let len = data.len();
    let cols: usize = width as usize;
    let rows: usize = height as usize;
    let mut p: usize = 0;
    let mut y: usize = 0;
    while y < rows
        invariant
            w == width as int,
            h == height as int,
            r == effective_radius(radius as int),
            f == floor as int,
            0 <= r <= 32767,
            marker == r,
            cols == w,
            rows == h,
            len == w * h * 4,
            orig.len() == len,
            data@.len() == len,
            y <= rows,
            p == y * w,
            p * 4 <= len,
            forall|k: int| 0 <= k < p * 4 ==> data@[k] == analyzed_sample(orig, w, h, r, f, k),
            forall|k: int| p * 4 <= k < len ==> data@[k] == orig[k],
        decreases rows - y,
    {
        let mut x: usize = 0;
        while x < cols
            invariant
                w == width as int,
                h == height as int,
                r == effective_radius(radius as int),
                f == floor as int,
                0 <= r <= 32767,
                marker == r,
                cols == w,
                rows == h,
                len == w * h * 4,
                orig.len() == len,
                data@.len() == len,
                y < rows,
                x <= cols,
                p == y * w + x,
                p * 4 <= len,
                forall|k: int| 0 <= k < p * 4 ==> data@[k] == analyzed_sample(orig, w, h, r, f, k),
                forall|k: int| p * 4 <= k < len ==> data@[k] == orig[k],
            decreases cols - x,
        {
            proof {
                lemma_index_in_range(w, h, x as int, y as int, 0);
                assert forall|ax: int, ay: int| in_bounds(w, h, ax, ay) implies elevation(
                    data@,
                    w,
                    ax,
                    ay,
                ) == elevation(orig, w, ax, ay) by {
                    lemma_index_in_range(w, h, ax, ay, 0);
                    let k = sample_index(w, ax, ay, 0);
                    if k < p * 4 {
                        assert(data@[k] == analyzed_sample(orig, w, h, r, f, k));
                    }
                }
                assert(same_elevations(data@, orig, w, h));
            }
            let found = analyze_pixel(data, width, height, radius, floor, x, y);
            proof {
                lemma_elevations_decide(data@, orig, w, h, r, x as int, y as int, f);
            }
            let base: usize = p * 4;
            let ghost before = data@;
            data[base + 1] = found.0;
            data[base + 2] = found.1;
            data[base + 3] = marker;
            proof {
                assert forall|k: int| 0 <= k < (p + 1) * 4 implies data@[k] == analyzed_sample(
                    orig,
                    w,
                    h,
                    r,
                    f,
                    k,
                ) by {
                    if k < base {
                        assert(data@[k] == before[k]);
                    } else {
                        assert(k / 4 == p as int);
                        assert(before[base as int] == orig[base as int]);
                    }
                }
            }
            x += 1;
            p += 1;
        }
        y += 1;
        proof {
            assert((y - 1) * w + w == y * w) by (nonlinear_arith);
        }
    }
    proof {
        assert(p * 4 == len) by (nonlinear_arith)
            requires
                p == y * w,
                y == h,
                len == w * h * 4,
        ;
        assert(data@ =~= analyzed(orig, w, h, r, f));
    }
}

} // verus!
