//! The capability that fills a frame with pixels.

use vstd::prelude::*;

verus! {

/// Pixel-generation logic, invoked once per frame with exclusive write
/// access to the frame's pixels.
///
/// An implementation may keep state of its own between calls; the
/// framebuffer neither resets nor inspects it.
pub trait Painter {
    type Pixel;

    /// What one call may do: the painter goes from `self` to `then`, and
    /// the pixels from `before` to `after`. A painter that promises nothing
    /// leaves this as it is.
    open spec fn fills(&self, before: Seq<Self::Pixel>, then: &Self, after: Seq<Self::Pixel>) -> bool {
        true
    }

    /// Fills `pixels`. The sequence keeps its length: a painter writes to
    /// the pixels it is given and to no others.
    fn paint(&mut self, pixels: &mut [Self::Pixel])
        ensures
            final(pixels)@.len() == old(pixels)@.len(),
            old(self).fills(old(pixels)@, final(self), final(pixels)@),
    ;
}

} // verus!
