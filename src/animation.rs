//! Frame cycling of an animated sprite sheet.
use vstd::prelude::*;

verus! {

/// A run of `count` frames of a sprite sheet, starting at `first`.
#[derive(Clone, Copy, Debug, PartialEq, Eq, Structural)]
pub struct AnimationIndex {
    pub first: usize,
    pub count: usize,
}

impl AnimationIndex {
    pub fn new(first: usize, count: usize) -> (r: AnimationIndex)
        ensures
            r.first == first,
            r.count == count,
    {
        AnimationIndex { first, count }
    }

    /// The frame after `index`, wrapping from the last frame of the run back
    /// to the first.
    pub fn next_frame(&self, index: usize) -> (r: usize)
        requires
            self.count > 0,
            self.first <= index + 1 <= usize::MAX,
            self.first + self.count <= usize::MAX,
        ensures
            r == (index + 1 - self.first) % (self.count as int) + self.first,
            self.first <= r < self.first + self.count,
            index + 1 < self.first + self.count ==> r == index + 1,
    {
        proof {
            if index + 1 < self.first + self.count {
                vstd::arithmetic::div_mod::lemma_small_mod(
                    (index + 1 - self.first) as nat,
                    self.count as nat,
                );
            }
        }
        (index + 1 - self.first) % self.count + self.first
    }
}

} // verus!
