//! How a scan through the square around a pixel finds what the window
//! holds: the argument behind the kernel's loops.
//!
//! The scan goes row by row, and within a row from left to right. What it
//! has found when it stands at an offset is defined here step by step, and
//! shown to bound everything it has passed. At the end of the square this is
//! the highest elevation and the steepest rise of the window.

use vstd::prelude::*;
use crate::raster::in_bounds;
use crate::window::{
    adjacent, elevation, in_disk, in_window, is_max_diff, is_max_height, lemma_disk_in_square,
    lemma_max_diff_unique, lemma_max_height_unique, lemma_steepest_rise_exists, max_diff,
    max_height, rise, steepest_rise,
};

verus! {

/// Whether the scan of the window around `(px, py)`, which goes row by row
/// and within a row from left to right, has passed `(qx, qy)` when it stands
/// at the offset `(i, j)`.
pub(crate) open spec fn scanned(px: int, py: int, qx: int, qy: int, j: int, i: int) -> bool {
    qy - py < j || (qy - py == j && qx - px < i)
}

/// No pixel of the window that the scan has passed is higher than `m`.
pub(crate) open spec fn heights_below(
    s: Seq<i16>,
    width: int,
    height: int,
    radius: int,
    px: int,
    py: int,
    j: int,
    i: int,
    m: int,
) -> bool {
    forall|qx: int, qy: int|
        in_window(width, height, radius, px, py, qx, qy) && scanned(px, py, qx, qy, j, i)
            ==> #[trigger] elevation(s, width, qx, qy) <= m
}

/// Some pixel of the window has the elevation `m`.
pub(crate) open spec fn height_reached(
    s: Seq<i16>,
    width: int,
    height: int,
    radius: int,
    px: int,
    py: int,
    m: int,
) -> bool {
    exists|qx: int, qy: int|
        in_window(width, height, radius, px, py, qx, qy) && #[trigger] elevation(s, width, qx, qy)
            == m
}

/// No step from a pixel of the window that the scan has passed rises by more
/// than `d`.
pub(crate) open spec fn rises_below(
    s: Seq<i16>,
    width: int,
    height: int,
    radius: int,
    px: int,
    py: int,
    j: int,
    i: int,
    d: int,
) -> bool {
    forall|qx: int, qy: int, nx: int, ny: int|
        in_window(width, height, radius, px, py, qx, qy) && scanned(px, py, qx, qy, j, i)
            && in_bounds(width, height, nx, ny) && adjacent(qx, qy, nx, ny) ==> #[trigger] rise(
            s,
            width,
            qx,
            qy,
            nx,
            ny,
        ) <= d
}

/// Some step from a pixel of the window rises by `d`.
pub(crate) open spec fn rise_reached(
    s: Seq<i16>,
    width: int,
    height: int,
    radius: int,
    px: int,
    py: int,
    d: int,
) -> bool {
    exists|qx: int, qy: int, nx: int, ny: int|
        in_window(width, height, radius, px, py, qx, qy) && in_bounds(width, height, nx, ny)
            && adjacent(qx, qy, nx, ny) && #[trigger] rise(s, width, qx, qy, nx, ny) == d
}

/// The highest elevation among the pixels of the window that a scan has
/// passed when it stands at the offset `(i, j)`, or `i16::MIN` where it has
/// passed none.
pub(crate) open spec fn scan_height(
    s: Seq<i16>,
    width: int,
    height: int,
    radius: int,
    px: int,
    py: int,
    j: int,
    i: int,
) -> int
    decreases j + radius, i + radius,
{
    if i > -radius {
        let below = scan_height(s, width, height, radius, px, py, j, i - 1);
        if in_window(width, height, radius, px, py, px + i - 1, py + j) && elevation(
            s,
            width,
            px + i - 1,
            py + j,
        ) > below {
            elevation(s, width, px + i - 1, py + j)
        } else {
            below
        }
    } else if j > -radius {
        scan_height(s, width, height, radius, px, py, j - 1, radius + 1)
    } else {
        -32768
    }
}

/// The steepest rise among the steps from the pixels of the window that a
/// scan has passed when it stands at the offset `(i, j)`, or `floor` where
/// none of them rises above it.
pub(crate) open spec fn scan_rise(
    s: Seq<i16>,
    width: int,
    height: int,
    radius: int,
    px: int,
    py: int,
    floor: int,
    j: int,
    i: int,
) -> int
    decreases j + radius, i + radius,
{
    if i > -radius {
        let below = scan_rise(s, width, height, radius, px, py, floor, j, i - 1);
        if in_window(width, height, radius, px, py, px + i - 1, py + j) && steepest_rise(
            s,
            width,
            height,
            px + i - 1,
            py + j,
            floor,
        ) > below {
            steepest_rise(s, width, height, px + i - 1, py + j, floor)
        } else {
            below
        }
    } else if j > -radius {
        scan_rise(s, width, height, radius, px, py, floor, j - 1, radius + 1)
    } else {
        floor
    }
}

/// What a scan has found so far bounds every pixel that it has passed, and
/// is the elevation of one of them unless it is still `i16::MIN`.
proof fn lemma_scan_height(
    s: Seq<i16>,
    width: int,
    height: int,
    radius: int,
    px: int,
    py: int,
    j: int,
    i: int,
)
    requires
        radius >= 0,
        -radius <= j <= radius + 1,
        -radius <= i <= radius + 1,
    ensures
        heights_below(
            s,
            width,
            height,
            radius,
            px,
            py,
            j,
            i,
            scan_height(s, width, height, radius, px, py, j, i),
        ),
        scan_height(s, width, height, radius, px, py, j, i) == -32768 || height_reached(
            s,
            width,
            height,
            radius,
            px,
            py,
            scan_height(s, width, height, radius, px, py, j, i),
        ),
        -32768 <= scan_height(s, width, height, radius, px, py, j, i) <= 32767,
    decreases j + radius, i + radius,
{
    let m = scan_height(s, width, height, radius, px, py, j, i);
    if i > -radius {
        lemma_scan_height(s, width, height, radius, px, py, j, i - 1);
        let below = scan_height(s, width, height, radius, px, py, j, i - 1);
        assert forall|ax: int, ay: int|
            in_window(width, height, radius, px, py, ax, ay) && scanned(
                px,
                py,
                ax,
                ay,
                j,
                i,
            ) implies #[trigger] elevation(s, width, ax, ay) <= m by {
            if scanned(px, py, ax, ay, j, i - 1) {
                assert(elevation(s, width, ax, ay) <= below);
            } else {
                assert(ax == px + i - 1 && ay == py + j);
            }
        }
    } else if j > -radius {
        lemma_scan_height(s, width, height, radius, px, py, j - 1, radius + 1);
        assert forall|ax: int, ay: int|
            in_window(width, height, radius, px, py, ax, ay) && scanned(
                px,
                py,
                ax,
                ay,
                j,
                i,
            ) implies #[trigger] elevation(s, width, ax, ay) <= m by {
            lemma_disk_in_square(ax - px, ay - py, radius);
            assert(scanned(px, py, ax, ay, j - 1, radius + 1));
        }
    } else {
        assert forall|ax: int, ay: int|
            in_window(width, height, radius, px, py, ax, ay) && scanned(
                px,
                py,
                ax,
                ay,
                j,
                i,
            ) implies #[trigger] elevation(s, width, ax, ay) <= m by {
            lemma_disk_in_square(ax - px, ay - py, radius);
        }
    }
}

/// What a scan has found so far bounds every step from a pixel that it has
/// passed, and is the rise of one of them unless it is still the floor.
proof fn lemma_scan_rise(
    s: Seq<i16>,
    width: int,
    height: int,
    radius: int,
    px: int,
    py: int,
    floor: int,
    j: int,
    i: int,
)
    requires
        radius >= 0,
        -radius <= j <= radius + 1,
        -radius <= i <= radius + 1,
    ensures
        rises_below(
            s,
            width,
            height,
            radius,
            px,
            py,
            j,
            i,
            scan_rise(s, width, height, radius, px, py, floor, j, i),
        ),
        scan_rise(s, width, height, radius, px, py, floor, j, i) == floor || rise_reached(
            s,
            width,
            height,
            radius,
            px,
            py,
            scan_rise(s, width, height, radius, px, py, floor, j, i),
        ),
        floor <= scan_rise(s, width, height, radius, px, py, floor, j, i),
        scan_rise(s, width, height, radius, px, py, floor, j, i) <= 65535 || scan_rise(
            s,
            width,
            height,
            radius,
            px,
            py,
            floor,
            j,
            i,
        ) == floor,
    decreases j + radius, i + radius,
{
    let d = scan_rise(s, width, height, radius, px, py, floor, j, i);
    if i > -radius {
        lemma_scan_rise(s, width, height, radius, px, py, floor, j, i - 1);
        let below = scan_rise(s, width, height, radius, px, py, floor, j, i - 1);
        let qx = px + i - 1;
        let qy = py + j;
        let g = steepest_rise(s, width, height, qx, qy, floor);
        lemma_steepest_rise_exists(s, width, height, qx, qy, floor);
        if d != below {
            let (nx, ny) = choose|nx: int, ny: int|
                in_bounds(width, height, nx, ny) && adjacent(qx, qy, nx, ny) && #[trigger] rise(
                    s,
                    width,
                    qx,
                    qy,
                    nx,
                    ny,
                ) == g;
            assert(rise(s, width, qx, qy, nx, ny) == d);
        }
        assert forall|ax: int, ay: int, nx: int, ny: int|
            in_window(width, height, radius, px, py, ax, ay) && scanned(px, py, ax, ay, j, i)
                && in_bounds(width, height, nx, ny) && adjacent(
                ax,
                ay,
                nx,
                ny,
            ) implies #[trigger] rise(s, width, ax, ay, nx, ny) <= d by {
            if scanned(px, py, ax, ay, j, i - 1) {
                assert(rise(s, width, ax, ay, nx, ny) <= below);
            } else {
                assert(ax == qx && ay == qy);
            }
        }
    } else if j > -radius {
        lemma_scan_rise(s, width, height, radius, px, py, floor, j - 1, radius + 1);
        assert forall|ax: int, ay: int, nx: int, ny: int|
            in_window(width, height, radius, px, py, ax, ay) && scanned(px, py, ax, ay, j, i)
                && in_bounds(width, height, nx, ny) && adjacent(
                ax,
                ay,
                nx,
                ny,
            ) implies #[trigger] rise(s, width, ax, ay, nx, ny) <= d by {
            lemma_disk_in_square(ax - px, ay - py, radius);
            assert(scanned(px, py, ax, ay, j - 1, radius + 1));
        }
    } else {
        assert forall|ax: int, ay: int, nx: int, ny: int|
            in_window(width, height, radius, px, py, ax, ay) && scanned(px, py, ax, ay, j, i)
                && in_bounds(width, height, nx, ny) && adjacent(
                ax,
                ay,
                nx,
                ny,
            ) implies #[trigger] rise(s, width, ax, ay, nx, ny) <= d by {
            lemma_disk_in_square(ax - px, ay - py, radius);
        }
    }
}

/// A scan that has gone through the whole square around a pixel of the image
/// has found the highest elevation and the steepest rise of the window.
pub(crate) proof fn lemma_scan_finds_extremes(
    s: Seq<i16>,
    width: int,
    height: int,
    radius: int,
    px: int,
    py: int,
    floor: int,
)
    requires
        in_bounds(width, height, px, py),
        radius >= 0,
    ensures
        is_max_height(
            s,
            width,
            height,
            radius,
            px,
            py,
            scan_height(s, width, height, radius, px, py, radius + 1, -radius),
        ),
        is_max_diff(
            s,
            width,
            height,
            radius,
            px,
            py,
            floor,
            scan_rise(s, width, height, radius, px, py, floor, radius + 1, -radius),
        ),
        max_height(s, width, height, radius, px, py) == scan_height(
            s,
            width,
            height,
            radius,
            px,
            py,
            radius + 1,
            -radius,
        ),
        max_diff(s, width, height, radius, px, py, floor) == scan_rise(
            s,
            width,
            height,
            radius,
            px,
            py,
            floor,
            radius + 1,
            -radius,
        ),
        -32768 <= max_height(s, width, height, radius, px, py) <= 32767,
        floor <= max_diff(s, width, height, radius, px, py, floor),
        max_diff(s, width, height, radius, px, py, floor) <= 65535 || max_diff(
            s,
            width,
            height,
            radius,
            px,
            py,
            floor,
        ) == floor,
{
    let m = scan_height(s, width, height, radius, px, py, radius + 1, -radius);
    let d = scan_rise(s, width, height, radius, px, py, floor, radius + 1, -radius);
    lemma_scan_height(s, width, height, radius, px, py, radius + 1, -radius);
    lemma_scan_rise(s, width, height, radius, px, py, floor, radius + 1, -radius);
    assert(in_disk(0, 0, radius)) by (nonlinear_arith)
        requires
            radius >= 0,
    ;
    assert(in_window(width, height, radius, px, py, px, py));
    assert forall|ax: int, ay: int|
        in_window(width, height, radius, px, py, ax, ay) implies #[trigger] elevation(
        s,
        width,
        ax,
        ay,
    ) <= m by {
        lemma_disk_in_square(ax - px, ay - py, radius);
        assert(scanned(px, py, ax, ay, radius + 1, -radius));
    }
    assert forall|ax: int, ay: int, nx: int, ny: int|
        in_window(width, height, radius, px, py, ax, ay) && in_bounds(width, height, nx, ny)
            && adjacent(ax, ay, nx, ny) implies #[trigger] rise(s, width, ax, ay, nx, ny) <= d by {
        lemma_disk_in_square(ax - px, ay - py, radius);
        assert(scanned(px, py, ax, ay, radius + 1, -radius));
    }
    assert(elevation(s, width, px, py) <= m);
    assert(is_max_height(s, width, height, radius, px, py, m));
    assert(is_max_diff(s, width, height, radius, px, py, floor, d));
    lemma_max_height_unique(s, width, height, radius, px, py, m, m);
    lemma_max_diff_unique(s, width, height, radius, px, py, floor, d, d);
}

} // verus!
