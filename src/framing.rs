//! Assembly of 50%-overlapping analysis frames from the capture ring.

use crate::ring::{after_pop, SampleRing};
use vstd::prelude::*;

verus! {

/// Number of samples in one analysis frame.
pub const FFT_SIZE: usize = 2048;

/// Builds analysis frames of `2 * hop` samples, where `hop` is half the FFT
/// size: each frame is the second half of the previous frame (zeros before the
/// first one) followed by `hop` new samples taken from the ring.
pub struct FrameAssembler {
    fft_size: usize,
    overlap: Vec<u32>,
}

impl FrameAssembler {
    /// The FFT size this assembler was made for.
    pub closed spec fn fft_size_spec(&self) -> nat {
        self.fft_size as nat
    }

    /// Number of new samples each frame takes: half the FFT size.
    pub open spec fn hop(&self) -> nat {
        self.fft_size_spec() / 2
    }

    /// The half frame carried into the next frame.
    pub closed spec fn carried(&self) -> Seq<u32> {
        self.overlap@
    }

    /// The carried half frame always has `hop` samples.
    pub open spec fn wf(&self) -> bool {
        self.carried().len() == self.hop()
    }

    /// An assembler whose first frame starts with `hop` zero samples.
    pub fn new(fft_size: usize) -> (r: FrameAssembler)
        ensures
            r.wf(),
            r.fft_size_spec() == fft_size,
            r.carried() == Seq::new(r.hop(), |i: int| 0u32),
    {
        let hop = fft_size / 2;
        let overlap: Vec<u32> = vec![0u32; hop];
        let r = FrameAssembler { fft_size, overlap };
        proof {
            assert(r.carried() =~= Seq::new(r.hop(), |i: int| 0u32));
        }
        r
    }

    /// The FFT size this assembler was made for.
    pub fn fft_size(&self) -> (n: usize)
        ensures
            n == self.fft_size_spec(),
    {
        self.fft_size
    }

    /// Number of new samples each frame takes.
    pub fn hop_size(&self) -> (n: usize)
        ensures
            n == self.hop(),
    {
        self.fft_size / 2
    }

    /// Takes up to `hop` samples from `ring`. When fewer than `hop` were held
    /// they are consumed and no frame comes out; otherwise the frame is the
    /// carried half followed by the new samples, which are carried on.
    pub fn next_frame(&mut self, ring: &mut SampleRing) -> (r: Option<Vec<u32>>)
        requires
            old(self).wf(),
        ensures
            final(self).wf(),
            final(self).fft_size_spec() == old(self).fft_size_spec(),
            final(ring)@ == after_pop(old(ring)@, old(self).hop()),
            final(ring).capacity_spec() == old(ring).capacity_spec(),
            old(ring)@.len() < old(self).hop() ==> r is None && final(self).carried() == old(
                self,
            ).carried(),
            old(ring)@.len() >= old(self).hop() ==> r is Some && r->0@ == old(self).carried()
                + old(ring)@.take(old(self).hop() as int) && final(self).carried() == old(
                ring,
            )@.take(old(self).hop() as int),
    {
        let hop = self.fft_size / 2;
        let fresh = ring.pop_block(hop);
        if fresh.len() < hop {
            return None;
        }
        let mut frame: Vec<u32> = Vec::with_capacity(2 * hop);
        frame.extend_from_slice(self.overlap.as_slice());
        frame.extend_from_slice(fresh.as_slice());
        proof {
            assert(frame@ =~= old(self).carried() + old(ring)@.take(hop as int));
        }
        self.overlap = fresh;
        Some(frame)
    }
}

} // verus!
