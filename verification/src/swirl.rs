//! The sample coordinates of one frame.
//!
//! For each pixel of the distortion square the swirl names a point of the
//! noise field. The caller evaluates the swirl and truncates the coordinates
//! of that point toward zero to signed integers; this module holds the pairs,
//! one for each pixel of the square, addressed by the pixel's offset from the
//! centre of the frame.

use vstd::prelude::*;
use crate::geometry::{HALF_EXTENT, REGION_PIXELS, REGION_SIDE};

verus! {

/// The truncated sample coordinates of the pixels of the distortion square,
/// column by column.
pub struct SwirlSamples {
    coords: Vec<(i32, i32)>,
}

/// Whether `(x, y)` is the offset of a pixel of the distortion square.
pub open spec fn is_offset(x: int, y: int) -> bool {
    -HALF_EXTENT < x < HALF_EXTENT && -HALF_EXTENT < y < HALF_EXTENT
}

/// Position, among the pairs, of the pixel at offset `(x, y)`.
pub open spec fn slot(x: int, y: int) -> int {
    (x + HALF_EXTENT - 1) * REGION_SIDE + (y + HALF_EXTENT - 1)
}

impl View for SwirlSamples {
    type V = Seq<(i32, i32)>;

    /// The pairs, column by column.
    closed spec fn view(&self) -> Seq<(i32, i32)> {
        self.coords@
    }
}

impl SwirlSamples {
    /// A table is well formed when it holds one pair for each pixel of the
    /// distortion square.
    pub open spec fn wf(&self) -> bool {
        self@.len() == REGION_PIXELS
    }

    /// The pair of the pixel at offset `(x, y)`.
    pub open spec fn at(&self, x: int, y: int) -> (i32, i32) {
        self@[slot(x, y)]
    }

    /// Takes the pairs of one frame, column by column. The table exists
    /// exactly when there is one pair for each pixel of the distortion square.
    pub fn new(coords: Vec<(i32, i32)>) -> (table: Option<SwirlSamples>)
        ensures
            table is Some <==> coords@.len() == REGION_PIXELS,
            table is Some ==> table.unwrap().wf() && table.unwrap()@ == coords@,
    {
        if coords.len() == REGION_PIXELS {
            Some(SwirlSamples { coords })
        } else {
            None
        }
    }

    /// The pairs, column by column.
    pub fn pairs(&self) -> (pairs: &Vec<(i32, i32)>)
        ensures
            pairs@ == self@,
    {
        &self.coords
    }

    /// The pair of the pixel at offset `(x, y)`, if that is a pixel of the
    /// distortion square.
    pub fn get(&self, x: i32, y: i32) -> (pair: Option<(i32, i32)>)
        requires
            self.wf(),
        ensures
            pair == if is_offset(x as int, y as int) {
                Some(self.at(x as int, y as int))
            } else {
                None
            },
    {
        if -(HALF_EXTENT as i32) < x && x < HALF_EXTENT as i32 && -(HALF_EXTENT as i32) < y && y
            < HALF_EXTENT as i32 {
            let column: usize = (x + (HALF_EXTENT as i32 - 1)) as usize;
            let row: usize = (y + (HALF_EXTENT as i32 - 1)) as usize;
            Some(self.coords[column * REGION_SIDE + row])
        } else {
            None
        }
    }
}

/// Every pixel of the distortion square has a slot of its own in the table.
pub proof fn lemma_slots_distinct(x1: int, y1: int, x2: int, y2: int)
    requires
        is_offset(x1, y1),
        is_offset(x2, y2),
    ensures
        0 <= slot(x1, y1) < REGION_PIXELS,
        slot(x1, y1) == slot(x2, y2) <==> (x1 == x2 && y1 == y2),
{
}

} // verus!
