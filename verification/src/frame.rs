//! A frame and how it is put together.
//!
//! A pixel of the distortion square shows the cell of the noise field that
//! its sample coordinates name. Every other pixel shows a fresh random value:
//! the pixels are visited column by column, and each pixel outside the square
//! takes the next value that was drawn.

use vstd::prelude::*;
use crate::geometry::{
    centered, in_distortion_region, in_frame, in_region, lemma_outside_before_monotone,
    lemma_outside_total, outside_before, pixel_index, storage_index, visit_index, CENTER_X,
    CENTER_Y, FRAME_PIXELS, H, OUTSIDE_PIXELS, W,
};
use crate::noise::NoiseField;
use crate::swirl::{lemma_slots_distinct, slot, SwirlSamples};

verus! {

/// The pixels of one frame, stored row by row.
pub struct FrameBuffer {
    pixels: Vec<u32>,
}

impl View for FrameBuffer {
    type V = Seq<u32>;

    /// The pixel values, row by row.
    closed spec fn view(&self) -> Seq<u32> {
        self.pixels@
    }
}

/// The value that the pixel `(i, j)` of the distortion square shows: the cell
/// of `noise` that the pixel's pair of `samples` names.
pub open spec fn region_pixel(noise: &NoiseField, samples: &SwirlSamples, i: int, j: int) -> Option<
    u32,
> {
    let pair = samples.at(i - CENTER_X, j - CENTER_Y);
    noise.sample_spec(pair.0, pair.1)
}

/// The value that the pixel `(i, j)` shows in the frame put together from
/// `noise`, `samples` and the values `draws`.
pub open spec fn frame_pixel(
    noise: &NoiseField,
    samples: &SwirlSamples,
    draws: Seq<u32>,
    i: int,
    j: int,
) -> u32 {
    if in_region(i, j) {
        region_pixel(noise, samples, i, j).unwrap()
    } else {
        draws[outside_before(visit_index(i, j) as nat) as int]
    }
}

impl FrameBuffer {
    /// A frame is well formed when it holds one value for each pixel.
    pub open spec fn wf(&self) -> bool {
        self@.len() == FRAME_PIXELS
    }

    /// The value of the pixel `(i, j)`.
    pub open spec fn pixel_at(&self, i: int, j: int) -> u32 {
        self@[storage_index(i, j)]
    }

    /// Puts a frame together: each pixel of the distortion square shows the
    /// cell of `noise` that its pair of `samples` names, and the other
    /// pixels, in the order of visit, show the values of `draws` in turn.
    pub fn compose(noise: &NoiseField, samples: &SwirlSamples, draws: &Vec<u32>) -> (frame:
        FrameBuffer)
        requires
            noise.wf(),
            samples.wf(),
            noise.accepts_spec(samples),
            draws@.len() == OUTSIDE_PIXELS,
        ensures
            frame.wf(),
            forall|i: int, j: int|
                in_frame(i, j) ==> #[trigger] frame.pixel_at(i, j) == frame_pixel(
                    noise,
                    samples,
                    draws@,
                    i,
                    j,
                ),
    {
        let mut pixels: Vec<u32> = vec![0u32; FRAME_PIXELS];
        let mut used: usize = 0;
        let mut i: usize = 0;
        while i < W
            invariant
                i <= W,
                noise.wf(),
                samples.wf(),
                noise.accepts_spec(samples),
                draws@.len() == OUTSIDE_PIXELS,
                pixels@.len() == FRAME_PIXELS,
                used == outside_before(visit_index(i as int, 0) as nat),
                forall|a: int, b: int|
                    0 <= a < i && 0 <= b < H ==> pixels@[#[trigger] storage_index(a, b)]
                        == frame_pixel(noise, samples, draws@, a, b),
            decreases W - i,
        {
            let mut j: usize = 0;
            while j < H
                invariant
                    i < W,
                    j <= H,
                    noise.wf(),
                    samples.wf(),
                    noise.accepts_spec(samples),
                    draws@.len() == OUTSIDE_PIXELS,
                    pixels@.len() == FRAME_PIXELS,
                    used == outside_before(visit_index(i as int, j as int) as nat),
                    forall|a: int, b: int|
                        (0 <= a < i && 0 <= b < H) || (a == i && 0 <= b < j) ==> pixels@[#[trigger] storage_index(
                            a,
                            b,
                        )] == frame_pixel(noise, samples, draws@, a, b),
                decreases H - j,
            {
                let ghost here = visit_index(i as int, j as int) as nat;
                assert(here as int / H as int == i && here as int % H as int == j);
                assert(outside_before(here + 1) == if in_region(i as int, j as int) {
                    outside_before(here)
                } else {
                    outside_before(here) + 1
                });
                let value = if in_distortion_region(i, j) {
                    let offset = centered(i, j);
                    proof {
                        lemma_slots_distinct(offset.0 as int, offset.1 as int, 0, 0);
                        let k = slot(offset.0 as int, offset.1 as int);
                        assert(noise.sample_spec(samples@[k].0, samples@[k].1) is Some);
                    }
                    let pair = samples.get(offset.0, offset.1).unwrap();
                    noise.sample(pair.0, pair.1).unwrap()
                } else {
                    proof {
                        lemma_outside_before_monotone(here + 1, FRAME_PIXELS as nat);
                        lemma_outside_total();
                    }
                    let drawn = draws[used];
                    used = used + 1;
                    drawn
                };
                let index = pixel_index(i, j).unwrap();
                let ghost before = pixels@;
                pixels.set(index, value);
                assert forall|a: int, b: int|
                    (0 <= a < i && 0 <= b < H) || (a == i && 0 <= b < j + 1) implies pixels@[#[trigger] storage_index(
                    a,
                    b,
                )] == frame_pixel(noise, samples, draws@, a, b) by {
                    if a == i && b == j {
                    } else {
                        assert(storage_index(a, b) != storage_index(i as int, j as int));
                        assert(pixels@[storage_index(a, b)] == before[storage_index(a, b)]);
                    }
                }
                j = j + 1;
            }
            i = i + 1;
        }
        FrameBuffer { pixels }
    }

    /// Number of pixels held.
    pub fn len(&self) -> (count: usize)
        ensures
            count == self@.len(),
    {
        self.pixels.len()
    }

    /// The value of the pixel `(i, j)`, if it is a pixel of the frame.
    pub fn pixel(&self, i: usize, j: usize) -> (value: Option<u32>)
        requires
            self.wf(),
        ensures
            value == if in_frame(i as int, j as int) {
                Some(self.pixel_at(i as int, j as int))
            } else {
                None
            },
    {
        match pixel_index(i, j) {
            Some(index) => Some(self.pixels[index]),
            None => None,
        }
    }

    /// The pixel values, row by row.
    pub fn pixels(&self) -> (pixels: &Vec<u32>)
        ensures
            pixels@ == self@,
    {
        &self.pixels
    }

    /// Gives up the frame for its pixel values, row by row.
    pub fn into_pixels(self) -> (pixels: Vec<u32>)
        ensures
            pixels@ == self@,
    {
        self.pixels
    }
}

} // verus!
