//! Animation variants: an ordered list of frame strings and a refresh
//! interval, validated once at construction.

use vstd::prelude::*;

verus! {

/// Why a variant could not be constructed.
#[derive(Debug, Clone, Copy, PartialEq, Eq, Structural)]
pub enum VariantError {
    /// The frame list was empty.
    EmptyFrames,
    /// The refresh interval was zero or negative.
    NonPositiveInterval,
}

/// An animation definition: a non-empty ordered sequence of frame strings
/// and a positive refresh interval in milliseconds. Immutable once built.
#[derive(Debug, Clone)]
pub struct SpinnerVariant {
    frames: Vec<String>,
    interval_ms: u64,
}

impl SpinnerVariant {
    /// The frame strings, as sequences of characters.
    pub closed spec fn frames_spec(&self) -> Seq<Seq<char>> {
        self.frames.deep_view()
    }

    /// The refresh interval in milliseconds.
    pub closed spec fn interval_spec(&self) -> u64 {
        self.interval_ms
    }

    /// A variant is well formed when it has at least one frame and a
    /// positive interval; the constructor refuses anything else.
    pub open spec fn wf(&self) -> bool {
        self.frames_spec().len() > 0 && self.interval_spec() > 0
    }

    /// Builds a variant, failing fast on an empty frame list or a
    /// non-positive interval so that no invalid variant ever reaches the
    /// animation loop.
    pub fn new(frames: Vec<String>, interval_ms: i64) -> (r: Result<SpinnerVariant, VariantError>)
        ensures
            r is Ok <==> (frames@.len() > 0 && interval_ms > 0),
            r matches Ok(v) ==> v.wf() && v.frames_spec() == frames.deep_view()
                && v.interval_spec() == interval_ms as u64,
            frames@.len() == 0 ==> r == Result::<SpinnerVariant, VariantError>::Err(
                VariantError::EmptyFrames,
            ),
            frames@.len() > 0 && interval_ms <= 0 ==> r
                == Result::<SpinnerVariant, VariantError>::Err(VariantError::NonPositiveInterval),
    {
        if frames.len() == 0 {
            Err(VariantError::EmptyFrames)
        } else if interval_ms <= 0 {
            Err(VariantError::NonPositiveInterval)
        } else {
            Ok(SpinnerVariant { frames, interval_ms: interval_ms as u64 })
        }
    }

    /// How many frames the variant cycles through.
    pub fn frame_count(&self) -> (n: usize)
        ensures
            n == self.frames_spec().len(),
    {
        self.frames.len()
    }

    /// The frame at a given position.
    pub fn frame_at(&self, i: usize) -> (f: &String)
        requires
            i < self.frames_spec().len(),
        ensures
            f@ == self.frames_spec()[i as int],
    {
        &self.frames[i]
    }

    /// The refresh interval in milliseconds.
    pub fn interval_ms(&self) -> (n: u64)
        ensures
            n == self.interval_spec(),
    {
        self.interval_ms
    }
}

} // verus!
