//! The fixed geometry of a frame: its size, the square in which the noise is
//! distorted, and the order in which the pixels are visited and stored.
//!
//! A pixel is named by its column `i` and its row `j`. Pixels are visited
//! column by column, each column from top to bottom, and stored row by row.

use vstd::prelude::*;

verus! {

/// Width of a frame in pixels.
pub const W: usize = 320;

/// Height of a frame in pixels.
pub const H: usize = 240;

/// Default width of the noise grid.
pub const NOISE_W: usize = 512;

/// Default height of the noise grid.
pub const NOISE_H: usize = 512;

/// Half of the side of the distortion square: a pixel lies in the square when
/// it is less than this far from the centre along both axes.
pub const HALF_EXTENT: usize = 30;

/// Column of the centre of the frame.
pub const CENTER_X: usize = W / 2;

/// Row of the centre of the frame.
pub const CENTER_Y: usize = H / 2;

/// Number of columns, and of rows, of the distortion square.
pub const REGION_SIDE: usize = 59;

/// Number of pixels of the distortion square.
pub const REGION_PIXELS: usize = 3481;

/// Number of pixels of a frame.
pub const FRAME_PIXELS: usize = 76800;

/// Number of pixels of a frame outside the distortion square.
pub const OUTSIDE_PIXELS: usize = 73319;

/// Whether `(i, j)` is a pixel of the frame.
pub open spec fn in_frame(i: int, j: int) -> bool {
    0 <= i < W && 0 <= j < H
}

/// Whether the pixel `(i, j)` lies in the distortion square: strictly less
/// than `HALF_EXTENT` away from the centre along both axes.
pub open spec fn in_region(i: int, j: int) -> bool {
    &&& -HALF_EXTENT < i - CENTER_X < HALF_EXTENT
    &&& -HALF_EXTENT < j - CENTER_Y < HALF_EXTENT
}

/// Position of the pixel `(i, j)` in a stored frame.
pub open spec fn storage_index(i: int, j: int) -> int {
    j * W + i
}

/// Position of the pixel `(i, j)` in the order of visit.
pub open spec fn visit_index(i: int, j: int) -> int {
    i * H + j
}

/// Number of pixels outside the distortion square among the first `p` pixels
/// in the order of visit.
pub open spec fn outside_before(p: nat) -> nat
    decreases p,
{
    if p == 0 {
        0
    } else {
        let q = (p - 1) as nat;
        if in_region(q as int / H as int, q as int % H as int) {
            outside_before(q)
        } else {
            outside_before(q) + 1
        }
    }
}

/// Number of pixels inside the distortion square among the first `p` pixels
/// in the order of visit, in closed form.
pub open spec fn inside_before(p: nat) -> nat {
    let i = p as int / H as int;
    let j = p as int % H as int;
    let first_col = CENTER_X - HALF_EXTENT + 1;
    let first_row = CENTER_Y - HALF_EXTENT + 1;
    let cols = if i < first_col {
        0
    } else if i - first_col > REGION_SIDE {
        REGION_SIDE as int
    } else {
        i - first_col
    };
    let rows = if i < first_col || i - first_col >= REGION_SIDE || j < first_row {
        0
    } else if j - first_row > REGION_SIDE {
        REGION_SIDE as int
    } else {
        j - first_row
    };
    (cols * REGION_SIDE + rows) as nat
}

/// Tells whether the pixel `(i, j)` lies in the distortion square.
pub fn in_distortion_region(i: usize, j: usize) -> (inside: bool)
    ensures
        inside == in_region(i as int, j as int),
{
    i > CENTER_X - HALF_EXTENT && i < CENTER_X + HALF_EXTENT && j > CENTER_Y - HALF_EXTENT && j
        < CENTER_Y + HALF_EXTENT
}

/// The position of the pixel `(i, j)` in a stored frame, if it is a pixel of
/// the frame.
pub fn pixel_index(i: usize, j: usize) -> (index: Option<usize>)
    ensures
        index == if in_frame(i as int, j as int) {
            Some(storage_index(i as int, j as int) as usize)
        } else {
            None
        },
        index is Some ==> index.unwrap() < FRAME_PIXELS,
{
    if i < W && j < H {
        Some(j * W + i)
    } else {
        None
    }
}

/// The offset of the pixel `(i, j)` from the centre of the frame.
pub fn centered(i: usize, j: usize) -> (offset: (i32, i32))
    requires
        in_frame(i as int, j as int),
    ensures
        offset.0 == i - CENTER_X,
        offset.1 == j - CENTER_Y,
{
    (i as i32 - CENTER_X as i32, j as i32 - CENTER_Y as i32)
}

/// The distortion square is the block of `REGION_SIDE` columns and rows
/// around the centre, and lies within the frame.
pub proof fn lemma_region_is_central_block(i: int, j: int)
    ensures
        in_region(i, j) <==> (131 <= i <= 189 && 91 <= j <= 149),
        in_region(i, j) ==> in_frame(i, j),
{
}

/// The derived sizes agree with the width, the height and the half extent.
pub proof fn lemma_sizes()
    ensures
        REGION_SIDE == 2 * HALF_EXTENT - 1,
        REGION_PIXELS == REGION_SIDE * REGION_SIDE,
        FRAME_PIXELS == W * H,
        OUTSIDE_PIXELS == FRAME_PIXELS - REGION_PIXELS,
{
}

/// The pixels visited before position `p` are those outside the distortion
/// square and those inside it.
pub proof fn lemma_outside_before_closed_form(p: nat)
    requires
        p <= FRAME_PIXELS,
    ensures
        outside_before(p) + inside_before(p) == p,
    decreases p,
{
    if p > 0 {
        let q = (p - 1) as nat;
        lemma_outside_before_closed_form(q);
        let i = q as int / 240;
        let j = q as int % 240;
        if j < 239 {
            assert(p as int / 240 == i && p as int % 240 == j + 1);
        } else {
            assert(p as int / 240 == i + 1 && p as int % 240 == 0);
        }
    }
}

/// The count of pixels outside the distortion square never falls along the
/// order of visit.
pub proof fn lemma_outside_before_monotone(p: nat, q: nat)
    requires
        p <= q,
    ensures
        outside_before(p) <= outside_before(q),
    decreases q,
{
    if p < q {
        lemma_outside_before_monotone(p, (q - 1) as nat);
    }
}

/// A frame holds `OUTSIDE_PIXELS` pixels outside the distortion square.
pub proof fn lemma_outside_total()
    ensures
        outside_before(FRAME_PIXELS as nat) == OUTSIDE_PIXELS,
{
    lemma_outside_before_closed_form(FRAME_PIXELS as nat);
}

} // verus!
