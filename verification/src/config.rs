use vstd::prelude::*;

verus! {

/// The render-wide constants as one explicit record: the output
/// resolution, the samples accumulated per pixel, the hard path-depth
/// bound, and the number of worker threads.
#[derive(Clone, Copy, PartialEq, Eq, Structural, Debug)]
pub struct RenderConfig {
    pub width: u32,
    pub height: u32,
    pub samples_per_pixel: u32,
    pub max_depth: u32,
    pub thread_count: u32,
}

impl RenderConfig {
    /// A configuration a render can run with: a nonempty image, at least
    /// one sample per pixel, at least one worker, and pixel and band
    /// arithmetic that fit the machine word.
    pub open spec fn is_valid(self) -> bool {
        &&& 0 < self.width
        &&& 0 < self.height
        &&& 0 < self.samples_per_pixel
        &&& 0 < self.thread_count
        &&& self.thread_count * self.height <= usize::MAX
        &&& self.width * self.height <= usize::MAX
    }

    /// Check at run time that this configuration can drive a render.
    pub fn validate(&self) -> (ok: bool)
        ensures
            ok == self.is_valid(),
    {
        proof {
            vstd::arithmetic::mul::lemma_mul_upper_bound(
                self.thread_count as int,
                u32::MAX as int,
                self.height as int,
                u32::MAX as int,
            );
            vstd::arithmetic::mul::lemma_mul_upper_bound(
                self.width as int,
                u32::MAX as int,
                self.height as int,
                u32::MAX as int,
            );
        }
        0 < self.width && 0 < self.height && 0 < self.samples_per_pixel && 0 < self.thread_count
            && (self.thread_count as u64) * (self.height as u64) <= (usize::MAX as u64)
            && (self.width as u64) * (self.height as u64) <= (usize::MAX as u64)
    }

    /// The number of pixels in the output image.
    pub fn pixel_count(&self) -> (n: u64)
        ensures
            n == self.width * self.height,
    {
        proof {
            vstd::arithmetic::mul::lemma_mul_upper_bound(
                self.width as int,
                u32::MAX as int,
                self.height as int,
                u32::MAX as int,
            );
        }
        (self.width as u64) * (self.height as u64)
    }
}

} // verus!
