//! The guard over a pixel buffer's mapped storage.

use vstd::prelude::*;
use crate::painter::Painter;
use crate::pixel_buffer::PixelBuffer;

verus! {

/// The storage of a pixel buffer while it is mapped: a writable sequence
/// of exactly as many pixels as the buffer holds.
///
/// A guard is taken only for a buffer whose storage is not mapped, and the
/// buffer is marked as mapped from then until the guard is released: at
/// most one guard per buffer is live at any time.
pub struct MMap<'ctx, Format> {
    pub pixels: &'ctx mut [Format],
}

impl<'ctx, Format> MMap<'ctx, Format> {
    /// The pixels as they are now.
    pub open spec fn view(&self) -> Seq<Format> {
        self.pixels@
    }

    /// Takes the storage that the driver mapped for `buffer`, and marks
    /// the buffer as mapped.
    ///
    /// There is no guard where the buffer is marked as mapped already, nor
    /// where the driver returned no address, nor where the storage does
    /// not hold exactly the buffer's pixels; the buffer is then left as it
    /// was.
    pub fn new(buffer: &mut PixelBuffer, mapped_memory: Option<&'ctx mut [Format]>) -> (guard:
        Option<Self>)
        ensures
            guard is Some <==> ({
                &&& !old(buffer).spec_mapped()
                &&& mapped_memory matches Some(memory)
                &&& memory@.len() == old(buffer).spec_len()
            }),
            *final(buffer) == old(buffer).spec_with_mapped(
                old(buffer).spec_mapped() || guard is Some,
            ),
            guard matches Some(g) ==> g@ == mapped_memory.unwrap()@,
            guard matches Some(g) ==> final(g.pixels)@ == final(mapped_memory.unwrap())@,
            guard is None ==> (mapped_memory matches Some(memory) ==> final(memory)@ == memory@),
    {
        if buffer.is_mapped() {
            return None;
        }
        match mapped_memory {
            Some(pixels) => {
                if pixels.len() == buffer.len() {
                    buffer.set_mapped(true);
                    Some(MMap { pixels })
                } else {
                    None
                }
            },
            None => None,
        }
    }

    pub fn len(&self) -> (length: usize)
        ensures
            length == self@.len(),
    {
        self.pixels.len()
    }

    /// Lets the painter fill the pixels, once. The guard shows as many
    /// pixels afterwards as before.
    pub fn paint<P: Painter<Pixel = Format>>(&mut self, painter: &mut P)
        ensures
            old(painter).fills(old(self)@, final(painter), final(self)@),
            final(self)@.len() == old(self)@.len(),
            final(final(self).pixels)@ == final(old(self).pixels)@,
    {
        painter.paint(self.as_mut());
    }

    /// Ends the guard: gives the storage back, which holds what the guard
    /// showed, and marks the buffer as not mapped.
    pub fn release(self, buffer: &mut PixelBuffer) -> (storage: &'ctx mut [Format])
        ensures
            storage@ == self@,
            final(storage)@ == final(self.pixels)@,
            *final(buffer) == old(buffer).spec_with_mapped(false),
    {
        buffer.set_mapped(false);
        self.pixels
    }

    /// Ends this guard and takes a fresh one over the same storage: the
    /// fresh guard shows the pixels that were written through this one.
    pub fn reacquire(self, buffer: &mut PixelBuffer) -> (fresh: Option<Self>)
        ensures
            fresh is Some <==> self@.len() == old(buffer).spec_len(),
            fresh matches Some(guard) ==> guard@ == self@,
            *final(buffer) == old(buffer).spec_with_mapped(fresh is Some),
    {
        let storage = self.release(buffer);
        Self::new(buffer, Some(storage))
    }

    /// The pixels, for a painter to fill.
    pub fn as_mut(&mut self) -> (pixels: &mut [Format])
        ensures
            pixels@ == old(self)@,
            final(self)@ == final(pixels)@,
            final(final(self).pixels)@ == final(old(self).pixels)@,
    {
        &mut *self.pixels
    }
}

} // verus!
