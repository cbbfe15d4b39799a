//! What the analysis kernel computes, stated without saying how.
//!
//! Around every pixel lies its window: the pixels of the image in the filled
//! disk of the given radius. The kernel records the highest elevation in the
//! window and the steepest rise from a pixel of the window to one of its
//! eight neighbours.
//!
//! The steepest rise is never reported below a floor. With the floor `0`,
//! which is the default, a window in which every step goes down reports `0`;
//! with a negative floor it reports its gentlest descent.

use vstd::prelude::*;
use vstd::arithmetic::div_mod::lemma_fundamental_div_mod_converse;
use crate::raster::{in_bounds, sample_index, RasterView};
use crate::scan::lemma_scan_finds_extremes;

verus! {

/// The elevation of the pixel in column `x` and row `y`.
pub open spec fn elevation(s: Seq<i16>, width: int, x: int, y: int) -> int {
    s[sample_index(width, x, y, 0)] as int
}

/// Whether the offset `(dx, dy)` lies in the filled disk of the given radius.
pub open spec fn in_disk(dx: int, dy: int, radius: int) -> bool {
    dx * dx + dy * dy <= radius * radius
}

/// Whether `(qx, qy)` is a pixel of the image that lies in the disk around
/// `(px, py)`. Offsets that leave the image are left out, not wrapped.
pub open spec fn in_window(
    width: int,
    height: int,
    radius: int,
    px: int,
    py: int,
    qx: int,
    qy: int,
) -> bool {
    in_bounds(width, height, qx, qy) && in_disk(qx - px, qy - py, radius)
}

/// Whether `(nx, ny)` is one of the eight positions around `(qx, qy)`.
pub open spec fn adjacent(qx: int, qy: int, nx: int, ny: int) -> bool {
    qx - 1 <= nx <= qx + 1 && qy - 1 <= ny <= qy + 1 && (nx != qx || ny != qy)
}

/// How much higher the pixel `(nx, ny)` is than the pixel `(qx, qy)`.
pub open spec fn rise(s: Seq<i16>, width: int, qx: int, qy: int, nx: int, ny: int) -> int {
    elevation(s, width, nx, ny) - elevation(s, width, qx, qy)
}

/// Whether `m` is the highest elevation in the window around `(px, py)`: some
/// pixel of the window has it, and none is higher.
pub open spec fn is_max_height(
    s: Seq<i16>,
    width: int,
    height: int,
    radius: int,
    px: int,
    py: int,
    m: int,
) -> bool {
    &&& exists|qx: int, qy: int|
        in_window(width, height, radius, px, py, qx, qy) && #[trigger] elevation(s, width, qx, qy)
            == m
    &&& forall|qx: int, qy: int|
        in_window(width, height, radius, px, py, qx, qy) ==> #[trigger] elevation(s, width, qx, qy)
            <= m
}

/// Whether `g` is the steepest rise from the pixel `(qx, qy)` to one of its
/// neighbours in the image, or `floor` where no neighbour rises above it.
pub open spec fn is_steepest_rise(
    s: Seq<i16>,
    width: int,
    height: int,
    qx: int,
    qy: int,
    floor: int,
    g: int,
) -> bool {
    &&& g >= floor
    &&& forall|nx: int, ny: int|
        in_bounds(width, height, nx, ny) && adjacent(qx, qy, nx, ny) ==> #[trigger] rise(
            s,
            width,
            qx,
            qy,
            nx,
            ny,
        ) <= g
    &&& g == floor || exists|nx: int, ny: int|
        in_bounds(width, height, nx, ny) && adjacent(qx, qy, nx, ny) && #[trigger] rise(
            s,
            width,
            qx,
            qy,
            nx,
            ny,
        ) == g
}

/// Whether `d` is the steepest rise from any pixel of the window around
/// `(px, py)` to one of its neighbours in the image, or `floor` where no such
/// step rises above it. The neighbour need not lie in the window itself.
pub open spec fn is_max_diff(
    s: Seq<i16>,
    width: int,
    height: int,
    radius: int,
    px: int,
    py: int,
    floor: int,
    d: int,
) -> bool {
    &&& d >= floor
    &&& forall|qx: int, qy: int, nx: int, ny: int|
        in_window(width, height, radius, px, py, qx, qy) && in_bounds(width, height, nx, ny)
            && adjacent(qx, qy, nx, ny) ==> #[trigger] rise(s, width, qx, qy, nx, ny) <= d
    &&& d == floor || exists|qx: int, qy: int, nx: int, ny: int|
        in_window(width, height, radius, px, py, qx, qy) && in_bounds(width, height, nx, ny)
            && adjacent(qx, qy, nx, ny) && #[trigger] rise(s, width, qx, qy, nx, ny) == d
}

/// The highest elevation in the window around `(px, py)`.
pub open spec fn max_height(
    s: Seq<i16>,
    width: int,
    height: int,
    radius: int,
    px: int,
    py: int,
) -> int {
    choose|m: int| is_max_height(s, width, height, radius, px, py, m)
}

/// The steepest rise from the pixel `(qx, qy)` to one of its neighbours, at
/// least `floor`.
pub open spec fn steepest_rise(
    s: Seq<i16>,
    width: int,
    height: int,
    qx: int,
    qy: int,
    floor: int,
) -> int {
    choose|g: int| is_steepest_rise(s, width, height, qx, qy, floor, g)
}

/// The steepest rise found in the window around `(px, py)`, at least
/// `floor`.
pub open spec fn max_diff(
    s: Seq<i16>,
    width: int,
    height: int,
    radius: int,
    px: int,
    py: int,
    floor: int,
) -> int {
    choose|d: int| is_max_diff(s, width, height, radius, px, py, floor, d)
}

/// The floor of the steepest rise unless another is asked for: where no step
/// goes up, the steepest rise is reported as `0`.
pub const DEFAULT_FLOOR: i16 = 0;

/// A rise as it is stored in a signed 16-bit channel: rises above
/// `i16::MAX` are stored as `i16::MAX`.
pub open spec fn saturated(d: int) -> int {
    if d > 32767 {
        32767
    } else {
        d
    }
}

/// The radius that the kernel works with: a negative radius counts as `0`.
pub open spec fn effective_radius(radius: int) -> int {
    if radius < 0 {
        0
    } else {
        radius
    }
}

/// Sample `k` of the analysed buffer: elevations stay, the second channel
/// gets the highest elevation in the pixel's window, the third the steepest
/// rise found there (at least `floor`), and the fourth the radius.
pub open spec fn analyzed_sample(
    s: Seq<i16>,
    width: int,
    height: int,
    radius: int,
    floor: int,
    k: int,
) -> i16 {
    let x = (k / 4) % width;
    let y = (k / 4) / width;
    if k % 4 == 0 {
        s[k]
    } else if k % 4 == 1 {
        max_height(s, width, height, radius, x, y) as i16
    } else if k % 4 == 2 {
        saturated(max_diff(s, width, height, radius, x, y, floor)) as i16
    } else {
        radius as i16
    }
}

/// The buffer that analysing `s` with the given radius and floor gives.
pub open spec fn analyzed(
    s: Seq<i16>,
    width: int,
    height: int,
    radius: int,
    floor: int,
) -> Seq<i16> {
    Seq::new(s.len(), |k: int| analyzed_sample(s, width, height, radius, floor, k))
}

/// The raster that analysing `raster` with the given radius and floor gives:
/// the same size, and the analysed samples.
pub open spec fn analyzed_raster(raster: RasterView, radius: int, floor: int) -> RasterView {
    RasterView {
        width: raster.width,
        height: raster.height,
        samples: analyzed(raster.samples, raster.width as int, raster.height as int, radius, floor),
    }
}

/// A window has at most one highest elevation.
pub proof fn lemma_max_height_unique(
    s: Seq<i16>,
    width: int,
    height: int,
    radius: int,
    px: int,
    py: int,
    a: int,
    b: int,
)
    requires
        is_max_height(s, width, height, radius, px, py, a),
        is_max_height(s, width, height, radius, px, py, b),
    ensures
        a == b,
        max_height(s, width, height, radius, px, py) == a,
{
    let c = max_height(s, width, height, radius, px, py);
    assert(is_max_height(s, width, height, radius, px, py, c));
}

/// A pixel has at most one steepest rise.
pub proof fn lemma_steepest_rise_unique(
    s: Seq<i16>,
    width: int,
    height: int,
    qx: int,
    qy: int,
    floor: int,
    a: int,
    b: int,
)
    requires
        is_steepest_rise(s, width, height, qx, qy, floor, a),
        is_steepest_rise(s, width, height, qx, qy, floor, b),
    ensures
        a == b,
        steepest_rise(s, width, height, qx, qy, floor) == a,
{
    let c = steepest_rise(s, width, height, qx, qy, floor);
    assert(is_steepest_rise(s, width, height, qx, qy, floor, c));
}

/// A window has at most one steepest rise.
pub proof fn lemma_max_diff_unique(
    s: Seq<i16>,
    width: int,
    height: int,
    radius: int,
    px: int,
    py: int,
    floor: int,
    a: int,
    b: int,
)
    requires
        is_max_diff(s, width, height, radius, px, py, floor, a),
        is_max_diff(s, width, height, radius, px, py, floor, b),
    ensures
        a == b,
        max_diff(s, width, height, radius, px, py, floor) == a,
{
    let c = max_diff(s, width, height, radius, px, py, floor);
    assert(is_max_diff(s, width, height, radius, px, py, floor, c));
}

/// Every channel of every pixel of an image has its own place in the buffer.
pub proof fn lemma_index_in_range(width: int, height: int, x: int, y: int, channel: int)
    requires
        in_bounds(width, height, x, y),
        0 <= channel < 4,
    ensures
        0 <= y * width,
        0 <= y * width + x < width * height,
        0 <= sample_index(width, x, y, channel) < width * height * 4,
        sample_index(width, x, y, channel) / 4 == y * width + x,
        sample_index(width, x, y, channel) % 4 == channel,
        (y * width + x) % width == x,
        (y * width + x) / width == y,
{
    assert(0 <= y * width && y * width + width <= height * width) by (nonlinear_arith)
        requires
            0 <= y < height,
            0 < width,
    ;
    assert(width * height == height * width) by (nonlinear_arith);
    lemma_fundamental_div_mod_converse(y * width + x, width, y, x);
}

/// A disk of radius `radius` lies in the square of that half-width.
pub proof fn lemma_disk_in_square(dx: int, dy: int, radius: int)
    requires
        radius >= 0,
        in_disk(dx, dy, radius),
    ensures
        -radius <= dx <= radius,
        -radius <= dy <= radius,
{
    assert(-radius <= dx <= radius && -radius <= dy <= radius) by (nonlinear_arith)
        requires
            radius >= 0,
            dx * dx + dy * dy <= radius * radius,
    ;
}

/// The floor `floor`, raised to the rise from `(qx, qy)` to its neighbour at
/// the offset `(dx, dy)` where that neighbour lies in the image and is that
/// much higher.
pub open spec fn raised(
    s: Seq<i16>,
    width: int,
    height: int,
    qx: int,
    qy: int,
    dx: int,
    dy: int,
    floor: int,
) -> int {
    if in_bounds(width, height, qx + dx, qy + dy) && rise(s, width, qx, qy, qx + dx, qy + dy)
        > floor {
        rise(s, width, qx, qy, qx + dx, qy + dy)
    } else {
        floor
    }
}

/// The floor `floor`, raised in turn over all eight neighbours of
/// `(qx, qy)`.
pub open spec fn raised_around(
    s: Seq<i16>,
    width: int,
    height: int,
    qx: int,
    qy: int,
    floor: int,
) -> int {
    let g1 = raised(s, width, height, qx, qy, -1, -1, floor);
    let g2 = raised(s, width, height, qx, qy, 0, -1, g1);
    let g3 = raised(s, width, height, qx, qy, 1, -1, g2);
    let g4 = raised(s, width, height, qx, qy, -1, 0, g3);
    let g5 = raised(s, width, height, qx, qy, 1, 0, g4);
    let g6 = raised(s, width, height, qx, qy, -1, 1, g5);
    let g7 = raised(s, width, height, qx, qy, 0, 1, g6);
    raised(s, width, height, qx, qy, 1, 1, g7)
}

/// Every pixel has a steepest rise: it is what raising the floor over the
/// eight neighbours in turn gives.
pub proof fn lemma_steepest_rise_exists(
    s: Seq<i16>,
    width: int,
    height: int,
    qx: int,
    qy: int,
    floor: int,
)
    ensures
        is_steepest_rise(
            s,
            width,
            height,
            qx,
            qy,
            floor,
            steepest_rise(s, width, height, qx, qy, floor),
        ),
        steepest_rise(
            s,
            width,
            height,
            qx,
            qy,
            floor,
        ) == raised_around(s, width, height, qx, qy, floor),
{
    let g1 = raised(s, width, height, qx, qy, -1, -1, floor);
    let g2 = raised(s, width, height, qx, qy, 0, -1, g1);
    let g3 = raised(s, width, height, qx, qy, 1, -1, g2);
    let g4 = raised(s, width, height, qx, qy, -1, 0, g3);
    let g5 = raised(s, width, height, qx, qy, 1, 0, g4);
    let g6 = raised(s, width, height, qx, qy, -1, 1, g5);
    let g7 = raised(s, width, height, qx, qy, 0, 1, g6);
    let g8 = raised(s, width, height, qx, qy, 1, 1, g7);
    assert forall|nx: int, ny: int|
        in_bounds(width, height, nx, ny) && adjacent(qx, qy, nx, ny) implies #[trigger] rise(
        s,
        width,
        qx,
        qy,
        nx,
        ny,
    ) <= g8 by {
        if ny == qy - 1 {
            if nx == qx - 1 {
                assert(rise(s, width, qx, qy, qx + (-1), qy + (-1)) <= g1);
            } else if nx == qx {
                assert(rise(s, width, qx, qy, qx + 0, qy + (-1)) <= g2);
            } else {
                assert(rise(s, width, qx, qy, qx + 1, qy + (-1)) <= g3);
            }
        } else if ny == qy {
            if nx == qx - 1 {
                assert(rise(s, width, qx, qy, qx + (-1), qy + 0) <= g4);
            } else {
                assert(rise(s, width, qx, qy, qx + 1, qy + 0) <= g5);
            }
        } else {
            if nx == qx - 1 {
                assert(rise(s, width, qx, qy, qx + (-1), qy + 1) <= g6);
            } else if nx == qx {
                assert(rise(s, width, qx, qy, qx + 0, qy + 1) <= g7);
            } else {
                assert(rise(s, width, qx, qy, qx + 1, qy + 1) <= g8);
            }
        }
    }
    assert(is_steepest_rise(s, width, height, qx, qy, floor, g8));
    lemma_steepest_rise_unique(s, width, height, qx, qy, floor, g8, g8);
}

/// Around every pixel of the image, and for every radius that is not
/// negative, the window has a highest elevation and a steepest rise: the
/// functions [`max_height`] and [`max_diff`] name them.
pub proof fn lemma_window_extremes_exist(
    s: Seq<i16>,
    width: int,
    height: int,
    radius: int,
    px: int,
    py: int,
    floor: int,
)
    requires
        in_bounds(width, height, px, py),
        radius >= 0,
    ensures
        is_max_height(
            s,
            width,
            height,
            radius,
            px,
            py,
            max_height(s, width, height, radius, px, py),
        ),
        is_max_diff(
            s,
            width,
            height,
            radius,
            px,
            py,
            floor,
            max_diff(s, width, height, radius, px, py, floor),
        ),
        -32768 <= max_height(s, width, height, radius, px, py) <= 32767,
        floor <= max_diff(s, width, height, radius, px, py, floor),
        max_diff(s, width, height, radius, px, py, floor) <= 65535 || max_diff(
            s,
            width,
            height,
            radius,
            px,
            py,
            floor,
        ) == floor,
{
    lemma_scan_finds_extremes(s, width, height, radius, px, py, floor);
}

/// At radius `0` the window of a pixel holds that pixel and no other.
pub proof fn lemma_radius_zero_window(
    width: int,
    height: int,
    px: int,
    py: int,
    qx: int,
    qy: int,
)
    ensures
        in_window(width, height, 0, px, py, qx, qy) <==> (in_bounds(width, height, qx, qy) && qx
            == px && qy == py),
{
    let dx = qx - px;
    let dy = qy - py;
    assert(in_disk(dx, dy, 0) <==> (dx == 0 && dy == 0)) by (nonlinear_arith);
}

/// Kernel identity at radius `0`: the highest elevation in the window of a
/// pixel is the pixel's own elevation, and the steepest rise in the window is
/// the steepest rise from the pixel itself to its neighbours in the image.
pub proof fn lemma_radius_zero(s: Seq<i16>, width: int, height: int, px: int, py: int, floor: int)
    requires
        in_bounds(width, height, px, py),
    ensures
        max_height(s, width, height, 0, px, py) == elevation(s, width, px, py),
        max_diff(
            s,
            width,
            height,
            0,
            px,
            py,
            floor,
        ) == steepest_rise(s, width, height, px, py, floor),
        is_steepest_rise(
            s,
            width,
            height,
            px,
            py,
            floor,
            max_diff(s, width, height, 0, px, py, floor),
        ),
{
    let e = elevation(s, width, px, py);
    let g = steepest_rise(s, width, height, px, py, floor);
    lemma_steepest_rise_exists(s, width, height, px, py, floor);
    lemma_radius_zero_window(width, height, px, py, px, py);
    assert forall|ax: int, ay: int|
        in_window(width, height, 0, px, py, ax, ay) implies #[trigger] elevation(s, width, ax, ay)
        <= e by {
        lemma_radius_zero_window(width, height, px, py, ax, ay);
    }
    assert(is_max_height(s, width, height, 0, px, py, e));
    lemma_max_height_unique(s, width, height, 0, px, py, e, e);
    assert forall|ax: int, ay: int, nx: int, ny: int|
        in_window(width, height, 0, px, py, ax, ay) && in_bounds(width, height, nx, ny)
            && adjacent(ax, ay, nx, ny) implies #[trigger] rise(s, width, ax, ay, nx, ny) <= g by {
        lemma_radius_zero_window(width, height, px, py, ax, ay);
    }
    if g != floor {
        let (nx, ny) = choose|nx: int, ny: int|
            in_bounds(width, height, nx, ny) && adjacent(px, py, nx, ny) && #[trigger] rise(
                s,
                width,
                px,
                py,
                nx,
                ny,
            ) == g;
        assert(rise(s, width, px, py, nx, ny) == g);
    }
    assert(is_max_diff(s, width, height, 0, px, py, floor, g));
    lemma_max_diff_unique(s, width, height, 0, px, py, floor, g, g);
}

/// The analysed buffer, pixel by pixel: of the pixel in column `x` and row
/// `y` the elevation is the one before, the second channel holds the highest
/// elevation of the pixel's window, the third the steepest rise found there
/// as it is stored, and the fourth the radius.
pub proof fn lemma_analyzed_pixel(
    s: Seq<i16>,
    width: int,
    height: int,
    radius: int,
    floor: int,
    x: int,
    y: int,
)
    requires
        s.len() == width * height * 4,
        in_bounds(width, height, x, y),
        0 <= radius <= 32767,
        -32768 <= floor <= 32767,
    ensures
        analyzed(s, width, height, radius, floor).len() == s.len(),
        analyzed(s, width, height, radius, floor)[sample_index(width, x, y, 0)] == s[sample_index(
            width,
            x,
            y,
            0,
        )],
        analyzed(s, width, height, radius, floor)[sample_index(width, x, y, 1)] == max_height(
            s,
            width,
            height,
            radius,
            x,
            y,
        ),
        analyzed(s, width, height, radius, floor)[sample_index(width, x, y, 2)] == saturated(
            max_diff(s, width, height, radius, x, y, floor),
        ),
        analyzed(s, width, height, radius, floor)[sample_index(width, x, y, 3)] == radius,
{
    lemma_index_in_range(width, height, x, y, 0);
    lemma_index_in_range(width, height, x, y, 1);
    lemma_index_in_range(width, height, x, y, 2);
    lemma_index_in_range(width, height, x, y, 3);
    lemma_window_extremes_exist(s, width, height, radius, x, y, floor);
}

/// Boundary safety: whatever pixel the kernel reads for `(px, py)`, be it a
/// pixel `(qx, qy)` of the window or a neighbour `(nx, ny)` of one, lies in
/// the image, and its elevation stands inside the buffer at the place of
/// exactly that column and row. Nothing is read past an edge, and nothing
/// wraps around to the other side.
pub proof fn lemma_reads_stay_inside(
    width: int,
    height: int,
    radius: int,
    px: int,
    py: int,
    qx: int,
    qy: int,
    nx: int,
    ny: int,
)
    requires
        in_window(width, height, radius, px, py, qx, qy),
        in_bounds(width, height, nx, ny),
        adjacent(qx, qy, nx, ny),
    ensures
        0 <= qx < width && 0 <= qy < height,
        0 <= sample_index(width, qx, qy, 0) < width * height * 4,
        (sample_index(width, qx, qy, 0) / 4) % width == qx,
        (sample_index(width, qx, qy, 0) / 4) / width == qy,
        0 <= sample_index(width, nx, ny, 0) < width * height * 4,
        (sample_index(width, nx, ny, 0) / 4) % width == nx,
        (sample_index(width, nx, ny, 0) / 4) / width == ny,
{
    lemma_index_in_range(width, height, qx, qy, 0);
    lemma_index_in_range(width, height, nx, ny, 0);
}

/// Whether two buffers of an image hold the same elevations.
pub open spec fn same_elevations(a: Seq<i16>, b: Seq<i16>, width: int, height: int) -> bool {
    forall|x: int, y: int|
        #![trigger elevation(a, width, x, y)]
        #![trigger elevation(b, width, x, y)]
        in_bounds(width, height, x, y) ==> elevation(a, width, x, y) == elevation(b, width, x, y)
}

/// What the kernel finds depends on the elevation channel alone: buffers
/// with the same elevations have the same highest elevation and the same
/// steepest rise in every window.
pub proof fn lemma_elevations_decide(
    a: Seq<i16>,
    b: Seq<i16>,
    width: int,
    height: int,
    radius: int,
    px: int,
    py: int,
    floor: int,
)
    requires
        same_elevations(a, b, width, height),
        in_bounds(width, height, px, py),
        radius >= 0,
    ensures
        max_height(a, width, height, radius, px, py) == max_height(
            b,
            width,
            height,
            radius,
            px,
            py,
        ),
        max_diff(a, width, height, radius, px, py, floor) == max_diff(
            b,
            width,
            height,
            radius,
            px,
            py,
            floor,
        ),
{
    lemma_window_extremes_exist(a, width, height, radius, px, py, floor);
    let m = max_height(a, width, height, radius, px, py);
    let d = max_diff(a, width, height, radius, px, py, floor);
    let (qx, qy) = choose|qx: int, qy: int|
        in_window(width, height, radius, px, py, qx, qy) && #[trigger] elevation(a, width, qx, qy)
            == m;
    assert(elevation(b, width, qx, qy) == m);
    assert forall|ax: int, ay: int, nx: int, ny: int|
        in_window(width, height, radius, px, py, ax, ay) && in_bounds(width, height, nx, ny)
            && adjacent(ax, ay, nx, ny) implies #[trigger] rise(b, width, ax, ay, nx, ny) == rise(
        a,
        width,
        ax,
        ay,
        nx,
        ny,
    ) by {
        assert(elevation(a, width, ax, ay) == elevation(b, width, ax, ay));
        assert(elevation(a, width, nx, ny) == elevation(b, width, nx, ny));
    }
    if d != floor {
        let (ax, ay, nx, ny) = choose|ax: int, ay: int, nx: int, ny: int|
            in_window(width, height, radius, px, py, ax, ay) && in_bounds(width, height, nx, ny)
                && adjacent(ax, ay, nx, ny) && #[trigger] rise(a, width, ax, ay, nx, ny) == d;
        assert(rise(b, width, ax, ay, nx, ny) == d);
    }
    assert(is_max_height(b, width, height, radius, px, py, m));
    assert(is_max_diff(b, width, height, radius, px, py, floor, d));
    lemma_max_height_unique(b, width, height, radius, px, py, m, m);
    lemma_max_diff_unique(b, width, height, radius, px, py, floor, d, d);
}

} // verus!
