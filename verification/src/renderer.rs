//! The renderer: the noise field, the time counter and the random source,
//! and the production of one frame after another.
//!
//! Time is counted in ticks of one hundredth of a unit, one tick for each
//! frame. A frame is produced at the time that the counter shows after its
//! tick, `next_frame_ticks`: the caller evaluates the swirl for that time and
//! hands in the resulting sample coordinates.

use vstd::prelude::*;
use crate::frame::{frame_pixel, region_pixel, FrameBuffer};
use crate::geometry::{
    in_frame, in_region, lemma_region_is_central_block, NOISE_H, NOISE_W, OUTSIDE_PIXELS,
};
use crate::noise::NoiseField;
use crate::random::RandomSource;
use crate::swirl::SwirlSamples;

verus! {

/// Number of ticks in one unit of time.
pub const TICKS_PER_UNIT: u64 = 100;

/// The time counter after one more frame.
pub open spec fn next_tick(ticks: nat) -> nat {
    ticks + 1
}

/// The time counter after `frames` more frames.
pub open spec fn ticks_after(ticks: nat, frames: nat) -> nat
    decreases frames,
{
    if frames == 0 {
        ticks
    } else {
        next_tick(ticks_after(ticks, (frames - 1) as nat))
    }
}

/// Produces frames from a noise field that it owns.
pub struct FrameRenderer {
    noise: NoiseField,
    ticks: u64,
    rng: RandomSource,
}

impl FrameRenderer {
    /// The noise field.
    pub closed spec fn spec_noise(&self) -> NoiseField {
        self.noise
    }

    /// The time counter: the number of frames produced so far.
    pub closed spec fn spec_ticks(&self) -> nat {
        self.ticks as nat
    }

    /// A renderer is well formed when its noise field is.
    pub open spec fn wf(&self) -> bool {
        self.spec_noise().wf()
    }

    /// A renderer at time zero, with a noise field of the default size
    /// filled from `rng`.
    pub fn new(rng: RandomSource) -> (renderer: FrameRenderer)
        ensures
            renderer.wf(),
            renderer.spec_ticks() == 0,
            renderer.spec_noise().spec_width() == NOISE_W,
            renderer.spec_noise().spec_height() == NOISE_H,
    {
        let mut rng = rng;
        let noise = NoiseField::generate(NOISE_W, NOISE_H, &mut rng);
        FrameRenderer { noise, ticks: 0, rng }
    }

    /// A renderer at time zero that reads the given noise field.
    pub fn with_field(noise: NoiseField, rng: RandomSource) -> (renderer: FrameRenderer)
        requires
            noise.wf(),
        ensures
            renderer.wf(),
            renderer.spec_ticks() == 0,
            renderer.spec_noise() == noise,
    {
        FrameRenderer { noise, ticks: 0, rng }
    }

    /// The noise field.
    pub fn noise(&self) -> (noise: &NoiseField)
        ensures
            *noise == self.spec_noise(),
    {
        &self.noise
    }

    /// The time counter: the number of frames produced so far.
    pub fn ticks(&self) -> (ticks: u64)
        ensures
            ticks == self.spec_ticks(),
    {
        self.ticks
    }

    /// The time of the next frame in ticks, unless the counter cannot advance
    /// any further.
    pub fn next_frame_ticks(&self) -> (ticks: Option<u64>)
        ensures
            ticks == if self.spec_ticks() < u64::MAX {
                Some(next_tick(self.spec_ticks()) as u64)
            } else {
                None
            },
    {
        self.ticks.checked_add(1)
    }

    /// Produces the next frame. The time counter advances by one tick and the
    /// noise field stays as it is. Each pixel of the distortion square shows
    /// the cell of the noise field that its pair of `samples` names; each
    /// other pixel shows a fresh draw from the random source.
    pub fn render_frame(&mut self, samples: &SwirlSamples) -> (frame: FrameBuffer)
        requires
            old(self).wf(),
            samples.wf(),
            old(self).spec_noise().accepts_spec(samples),
            old(self).spec_ticks() < u64::MAX,
        ensures
            final(self).wf(),
            final(self).spec_noise() == old(self).spec_noise(),
            final(self).spec_ticks() == next_tick(old(self).spec_ticks()),
            frame.wf(),
            forall|i: int, j: int|
                in_region(i, j) ==> #[trigger] frame.pixel_at(i, j) == region_pixel(
                    &old(self).spec_noise(),
                    samples,
                    i,
                    j,
                ).unwrap(),
            exists|draws: Seq<u32>|
                draws.len() == OUTSIDE_PIXELS && forall|i: int, j: int|
                    in_frame(i, j) ==> #[trigger] frame.pixel_at(i, j) == frame_pixel(
                        &old(self).spec_noise(),
                        samples,
                        draws,
                        i,
                        j,
                    ),
    {
        self.ticks = self.ticks + 1;
        let draws = self.rng.draw_many(OUTSIDE_PIXELS);
        let frame = FrameBuffer::compose(&self.noise, samples, &draws);
        assert forall|i: int, j: int| in_region(i, j) implies #[trigger] frame.pixel_at(i, j)
            == region_pixel(&self.noise, samples, i, j).unwrap() by {
            lemma_region_is_central_block(i, j);
        }
        frame
    }
}

/// After `frames` frames the time counter has advanced by `frames` ticks:
/// a renderer that started at time zero shows the number of frames produced.
pub proof fn lemma_ticks_count_frames(ticks: nat, frames: nat)
    ensures
        ticks_after(ticks, frames) == ticks + frames,
        ticks_after(0, frames) == frames,
    decreases frames,
{
    if frames > 0 {
        lemma_ticks_count_frames(ticks, (frames - 1) as nat);
        lemma_ticks_count_frames(0, (frames - 1) as nat);
    }
}

} // verus!
