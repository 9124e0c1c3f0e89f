//! The framebuffer once it is built: it owns the GPU objects of a window
//! and leads each frame through its calls, in order.

use vstd::prelude::*;
use crate::calls::GlCall;
use crate::gl;
use crate::mmap::MMap;
use crate::painter::Painter;
use crate::pixel_buffer::{PixelBuffer, MAX_PIXELS};
use crate::protocol::{probe, spec_probe, Directive, FatalError, Request, WindowOp};
use crate::shader;
use crate::texture;

verus! {

/// The sizes that a framebuffer can have: neither side is zero, and the
/// bytes of the frame can be counted in the driver's signed 32-bit sizes.
pub open spec fn supported(width: usize, height: usize) -> bool {
    0 < width && 0 < height && width * height <= MAX_PIXELS
}

/// Where a frame stands: the request named is the one that is out.
#[derive(Clone, Copy, Debug, PartialEq, Eq)]
pub enum DrawStep {
    /// Between frames.
    Idle,
    /// Clearing the colour buffer.
    Clearing,
    /// Binding the pixel buffer, to map it.
    Binding,
    /// Mapping the pixel buffer.
    Mapping,
    /// The storage is mapped. Binding the pixel buffer again, to unmap
    /// it; `failure` is why the frame must end once that is done.
    Releasing { failure: Option<FatalError> },
    /// The storage is mapped. Unmapping it.
    Unmapping { failure: Option<FatalError> },
    /// Binding the texture.
    BindingTexture,
    /// Binding the pixel buffer as the source of the transfer.
    BindingSource,
    /// Copying the pixel buffer into the texture.
    Uploading,
    UsingProgram,
    BindingVertexArray,
    /// Drawing the quad.
    DrawingQuad,
    /// Presenting the surface.
    Presenting,
    /// The frame has failed. Nothing of it is left to do, and the storage
    /// is not mapped: another frame may begin.
    Failed(FatalError),
}

/// What came back from the shell.
pub enum DrawReply<'a> {
    /// Nothing yet: a frame is to begin.
    Begin,
    /// The call was made; `error` is the driver's error code after it.
    Gl { error: u32 },
    /// The mapping call was made; `pixels` is the storage, or `None` where
    /// the driver returned no address.
    Mapped { pixels: Option<&'a mut [[u8; 4]]>, error: u32 },
    /// The surface was presented, or could not be.
    Presented { ok: bool },
}

/// What the framebuffer reads of a reply.
pub enum DrawEvent {
    Begin,
    Gl { error: u32 },
    /// `length` is the number of pixels of the storage.
    Mapped { length: Option<nat>, error: u32 },
    Presented { ok: bool },
}

impl DrawEvent {
    /// The error code that came with the reply.
    pub open spec fn error(self) -> u32 {
        match self {
            DrawEvent::Gl { error } => error,
            DrawEvent::Mapped { error, .. } => error,
            _ => gl::NO_ERROR,
        }
    }
}

impl<'a> DrawReply<'a> {
    pub open spec fn event(&self) -> DrawEvent {
        match self {
            DrawReply::Begin => DrawEvent::Begin,
            DrawReply::Gl { error } => DrawEvent::Gl { error: *error },
            DrawReply::Mapped { pixels: Some(pixels), error } => DrawEvent::Mapped {
                length: Some(pixels@.len()),
                error: *error,
            },
            DrawReply::Mapped { pixels: None, error } => DrawEvent::Mapped {
                length: None,
                error: *error,
            },
            DrawReply::Presented { ok } => DrawEvent::Presented { ok: *ok },
        }
    }
}

/// A framebuffer that is ready to draw.
#[derive(Debug, PartialEq, Eq)]
pub struct Framebuffer {
    pub width: usize,
    pub height: usize,
    pub pixel_buffer: PixelBuffer,
    pub texture: glow::NativeTexture,
    pub vao: glow::NativeVertexArray,
    pub program: glow::NativeProgram,
    pub step: DrawStep,
}

impl Framebuffer {
    /// The pixel buffer holds exactly the pixels of the surface, and is
    /// marked as mapped at the steps at which its storage is.
    pub open spec fn wf(&self) -> bool {
        &&& supported(self.width, self.height)
        &&& self.pixel_buffer.wf()
        &&& self.pixel_buffer.spec_len() == self.width * self.height
        &&& self.pixel_buffer.spec_mapped() == self.mapping_live()
    }

    /// The storage of the pixel buffer is mapped at `step`.
    pub open spec fn spec_live(step: DrawStep) -> bool {
        step is Releasing || step is Unmapping
    }

    /// The storage of the pixel buffer is mapped: from the reply that
    /// brings it until the reply to the call that unmaps it.
    pub open spec fn mapping_live(&self) -> bool {
        Self::spec_live(self.step)
    }

    /// The request that is out at the step the frame stands at.
    pub open spec fn spec_request(&self) -> Request {
        match self.step {
            DrawStep::Idle => Request::Rest,
            DrawStep::Clearing => Request::Gl {
                call: GlCall::Clear { mask: gl::COLOR_BUFFER_BIT },
            },
            DrawStep::Binding => Request::Gl {
                call: self.pixel_buffer.spec_bind_call(),
            },
            DrawStep::Mapping => Request::Gl { call: self.pixel_buffer.spec_map_call() },
            DrawStep::Releasing { .. } => Request::Gl {
                call: self.pixel_buffer.spec_bind_call(),
            },
            DrawStep::Unmapping { .. } => Request::Gl {
                call: PixelBuffer::spec_unmap_call(),
            },
            DrawStep::BindingTexture => Request::Gl {
                call: texture::spec_bind_call(self.texture),
            },
            DrawStep::BindingSource => Request::Gl {
                call: self.pixel_buffer.spec_bind_call(),
            },
            DrawStep::Uploading => Request::Gl {
                call: texture::spec_upload_call(
                    self.texture,
                    self.width,
                    self.height,
                    self.pixel_buffer.spec_format(),
                ),
            },
            DrawStep::UsingProgram => Request::Gl {
                call: GlCall::UseProgram { program: self.program },
            },
            DrawStep::BindingVertexArray => Request::Gl {
                call: GlCall::BindVertexArray { vertex_array: self.vao },
            },
            DrawStep::DrawingQuad => Request::Gl { call: shader::spec_draw_quad_call() },
            DrawStep::Presenting => Request::Window(WindowOp::SwapBuffers),
            DrawStep::Failed(error) => Request::Fatal(error),
        }
    }

    /// The step that a reply leads to where it does not answer the
    /// request that is out: the frame ends, after the unmapping where
    /// storage is mapped.
    pub open spec fn spec_stray(step: DrawStep) -> DrawStep {
        match step {
            DrawStep::Failed(error) => DrawStep::Failed(error),
            DrawStep::Releasing { failure: Some(error) } => DrawStep::Releasing {
                failure: Some(error),
            },
            DrawStep::Releasing { failure: None } => DrawStep::Releasing {
                failure: Some(FatalError::UnexpectedReply),
            },
            DrawStep::Unmapping { failure: Some(error) } => DrawStep::Unmapping {
                failure: Some(error),
            },
            DrawStep::Unmapping { failure: None } => DrawStep::Unmapping {
                failure: Some(FatalError::UnexpectedReply),
            },
            _ => DrawStep::Failed(FatalError::UnexpectedReply),
        }
    }

    /// The step that follows once `event` has come back.
    ///
    /// A frame goes through its steps in one order and leaves none out.
    /// Storage that came back mapped is unmapped before anything else is
    /// done, whatever became of the frame.
    pub open spec fn spec_next_step(&self, event: DrawEvent) -> DrawStep {
        match (self.step, event) {
            (DrawStep::Idle, DrawEvent::Begin) => DrawStep::Clearing,
            (DrawStep::Failed(_), DrawEvent::Begin) => DrawStep::Clearing,
            (DrawStep::Clearing, DrawEvent::Gl { .. }) => DrawStep::Binding,
            (DrawStep::Binding, DrawEvent::Gl { .. }) => DrawStep::Mapping,
            (DrawStep::Mapping, DrawEvent::Mapped { length: Some(length), .. }) => {
                if length == self.pixel_buffer.spec_len() {
                    DrawStep::Releasing { failure: None }
                } else {
                    DrawStep::Releasing { failure: Some(FatalError::NoMapping) }
                }
            },
            (DrawStep::Mapping, DrawEvent::Mapped { length: None, .. }) => DrawStep::Failed(
                FatalError::NoMapping,
            ),
            (DrawStep::Releasing { failure }, DrawEvent::Gl { .. }) => DrawStep::Unmapping {
                failure,
            },
            (DrawStep::Unmapping { failure: None }, DrawEvent::Gl { .. }) => DrawStep::BindingTexture,
            (DrawStep::Unmapping { failure: Some(error) }, DrawEvent::Gl { .. }) => DrawStep::Failed(
                error,
            ),
            (DrawStep::BindingTexture, DrawEvent::Gl { .. }) => DrawStep::BindingSource,
            (DrawStep::BindingSource, DrawEvent::Gl { .. }) => DrawStep::Uploading,
            (DrawStep::Uploading, DrawEvent::Gl { .. }) => DrawStep::UsingProgram,
            (DrawStep::UsingProgram, DrawEvent::Gl { .. }) => DrawStep::BindingVertexArray,
            (DrawStep::BindingVertexArray, DrawEvent::Gl { .. }) => DrawStep::DrawingQuad,
            (DrawStep::DrawingQuad, DrawEvent::Gl { .. }) => DrawStep::Presenting,
            (DrawStep::Presenting, DrawEvent::Presented { ok: true }) => DrawStep::Idle,
            (DrawStep::Presenting, DrawEvent::Presented { ok: false }) => DrawStep::Failed(
                FatalError::PresentFailed,
            ),
            (step, _) => Self::spec_stray(step),
        }
    }

    /// The painter is run on `event`: it is the reply to the mapping, and
    /// brings storage that holds exactly the pixels of the pixel buffer.
    pub open spec fn paints_on(&self, event: DrawEvent) -> bool {
        &&& self.step is Mapping
        &&& event matches DrawEvent::Mapped { length: Some(length), .. }
        &&& length == self.pixel_buffer.spec_len()
    }

    /// The framebuffer at `step`: the pixel buffer is marked as mapped as
    /// the step has it, and nothing else changes.
    pub open spec fn spec_at(&self, step: DrawStep) -> Framebuffer {
        Framebuffer {
            step,
            pixel_buffer: self.pixel_buffer.spec_with_mapped(Self::spec_live(step)),
            ..*self
        }
    }

    /// The framebuffer after `event`.
    pub open spec fn spec_after(&self, event: DrawEvent) -> Framebuffer {
        self.spec_at(self.spec_next_step(event))
    }

    /// The step at which the painting stands once the reply to the
    /// mapping has been taken, before the painter runs: the frame is
    /// marked as failed by the painter, and stays so unless the painter
    /// returns.
    pub open spec fn spec_painting_step(&self, length: Option<nat>) -> DrawStep {
        match length {
            Some(length) => if length == self.pixel_buffer.spec_len() {
                DrawStep::Releasing { failure: Some(FatalError::PainterFailed) }
            } else {
                DrawStep::Releasing { failure: Some(FatalError::NoMapping) }
            },
            None => DrawStep::Failed(FatalError::NoMapping),
        }
    }

    /// The request that is out. After a painter has failed to return, this
    /// is where the frame is taken up again: the storage is still mapped,
    /// and the request is the first of the two that unmap it.
    pub fn request(&self) -> (request: Request)
        requires
            self.wf(),
        ensures
            request == self.spec_request(),
    {
        match self.step {
            DrawStep::Idle => Request::Rest,
            DrawStep::Clearing => Request::Gl {
                call: GlCall::Clear { mask: gl::COLOR_BUFFER_BIT },
            },
            DrawStep::Binding => Request::Gl { call: self.pixel_buffer.bind_call() },
            DrawStep::Mapping => Request::Gl { call: self.pixel_buffer.map_call() },
            DrawStep::Releasing { .. } => Request::Gl {
                call: self.pixel_buffer.bind_call(),
            },
            DrawStep::Unmapping { .. } => Request::Gl { call: PixelBuffer::unmap_call() },
            DrawStep::BindingTexture => Request::Gl {
                call: texture::bind_call(self.texture),
            },
            DrawStep::BindingSource => Request::Gl {
                call: self.pixel_buffer.bind_call(),
            },
            DrawStep::Uploading => {
                proof {
                    lemma_sides_fit(self.width, self.height);
                }
                Request::Gl {
                    call: texture::upload_call(
                        self.texture,
                        self.width,
                        self.height,
                        self.pixel_buffer.format(),
                    ),
                }
            },
            DrawStep::UsingProgram => Request::Gl {
                call: GlCall::UseProgram { program: self.program },
            },
            DrawStep::BindingVertexArray => Request::Gl {
                call: GlCall::BindVertexArray { vertex_array: self.vao },
            },
            DrawStep::DrawingQuad => Request::Gl { call: shader::draw_quad_call() },
            DrawStep::Presenting => Request::Window(WindowOp::SwapBuffers),
            DrawStep::Failed(error) => Request::Fatal(error),
        }
    }

    /// Whether the framebuffer is well formed.
    pub fn well_formed(&self) -> (yes: bool)
        ensures
            yes == self.wf(),
    {
        if self.width == 0 || self.height == 0 {
            return false;
        }
        let live = Self::is_live(self.step);
        match self.width.checked_mul(self.height) {
            Some(pixels) => pixels <= MAX_PIXELS && self.pixel_buffer.len() == pixels
                && self.pixel_buffer.is_mapped() == live,
            None => false,
        }
    }

    fn is_live(step: DrawStep) -> (live: bool)
        ensures
            live == Self::spec_live(step),
    {
        match step {
            DrawStep::Releasing { .. } => true,
            DrawStep::Unmapping { .. } => true,
            _ => false,
        }
    }

    fn stray(step: DrawStep) -> (next: DrawStep)
        ensures
            next == Self::spec_stray(step),
    {
        match step {
            DrawStep::Failed(error) => DrawStep::Failed(error),
            DrawStep::Releasing { failure: Some(error) } => DrawStep::Releasing {
                failure: Some(error),
            },
            DrawStep::Releasing { failure: None } => DrawStep::Releasing {
                failure: Some(FatalError::UnexpectedReply),
            },
            DrawStep::Unmapping { failure: Some(error) } => DrawStep::Unmapping {
                failure: Some(error),
            },
            DrawStep::Unmapping { failure: None } => DrawStep::Unmapping {
                failure: Some(FatalError::UnexpectedReply),
            },
            _ => DrawStep::Failed(FatalError::UnexpectedReply),
        }
    }

    /// Takes the storage that the reply to the mapping brought, and gives
    /// the guard over it for the painter to fill.
    ///
    /// When this returns with a guard the frame stands at the unmapping,
    /// marked as failed by the painter. It stays so while the painter
    /// runs, and until [`Framebuffer::end_paint`] takes the mark away:
    /// should the painter not return, [`Framebuffer::request`] leads
    /// through the unmapping and then ends the frame.
    ///
    /// There is no guard where the driver returned no address, which ends
    /// the frame, nor where the storage is of another extent than the
    /// pixel buffer, which ends it after the unmapping.
    pub fn begin_paint<'a>(&mut self, pixels: Option<&'a mut [[u8; 4]]>) -> (guard: Option<
        MMap<'a, [u8; 4]>,
    >)
        requires
            old(self).wf(),
            old(self).step is Mapping,
        ensures
            *final(self) == old(self).spec_at(
                old(self).spec_painting_step(
                    match pixels {
                        Some(pixels) => Some(pixels@.len()),
                        None => None,
                    },
                ),
            ),
            final(self).wf(),
            guard is Some <==> final(self).step == (DrawStep::Releasing {
                failure: Some(FatalError::PainterFailed),
            }),
            guard matches Some(g) ==> g@ == pixels.unwrap()@,
            guard matches Some(g) ==> final(g.pixels)@ == final(pixels.unwrap())@,
            guard is None ==> (pixels matches Some(memory) ==> final(memory)@ == memory@),
    {
        match pixels {
            Some(pixels) => {
                let guard = MMap::new(&mut self.pixel_buffer, Some(pixels));
                if guard.is_some() {
                    self.step = DrawStep::Releasing { failure: Some(FatalError::PainterFailed) };
                } else {
                    self.pixel_buffer.set_mapped(true);
                    self.step = DrawStep::Releasing { failure: Some(FatalError::NoMapping) };
                }
                guard
            },
            None => {
                self.step = DrawStep::Failed(FatalError::NoMapping);
                None
            },
        }
    }

    /// Ends the painting after the painter has returned: the guard is
    /// given up, and the frame is no longer marked as failed. The storage
    /// stays mapped until the driver has unmapped it.
    pub fn end_paint<'a>(&mut self, guard: MMap<'a, [u8; 4]>)
        requires
            old(self).wf(),
            old(self).step == (DrawStep::Releasing { failure: Some(FatalError::PainterFailed) }),
        ensures
            *final(self) == old(self).spec_at(DrawStep::Releasing { failure: None }),
            final(self).wf(),
            final(guard.pixels)@ == guard@,
    {
        self.step = DrawStep::Releasing { failure: None };
    }

    /// Takes the reply to the request that is out, and gives the next
    /// request with what the reply gave cause to report.
    ///
    /// Where the reply brings the mapped storage, and the storage holds
    /// exactly the pixels of the surface, the painter fills it here,
    /// between [`Framebuffer::begin_paint`] and [`Framebuffer::end_paint`],
    /// before the request to unmap is given.
    pub fn draw<'a, P: Painter<Pixel = [u8; 4]>>(
        &mut self,
        reply: DrawReply<'a>,
        painter: &mut P,
    ) -> (directive: Directive)
        requires
            old(self).wf(),
        ensures
            *final(self) == old(self).spec_after(reply.event()),
            final(self).wf(),
            directive.request == final(self).spec_request(),
            directive.report == spec_probe(old(self).spec_request(), reply.event().error()),
            directive.log is None,
            !old(self).paints_on(reply.event()) ==> *final(painter) == *old(painter),
            old(self).paints_on(reply.event()) ==> (reply matches DrawReply::Mapped {
                pixels: Some(pixels),
                ..
            } && old(painter).fills(pixels@, final(painter), final(pixels)@)),
            reply matches DrawReply::Mapped { pixels: Some(pixels), .. } ==> (final(pixels)@.len()
                == pixels@.len() && (!old(self).paints_on(reply.event()) ==> final(pixels)@
                == pixels@)),
    {
        let out = self.request();
        let step = self.step;
        let mut report = None;
        let next = match reply {
            DrawReply::Begin => match step {
                DrawStep::Idle => DrawStep::Clearing,
                DrawStep::Failed(_) => DrawStep::Clearing,
                other => Self::stray(other),
            },
            DrawReply::Gl { error } => {
                report = probe(&out, error);
                match step {
                    DrawStep::Clearing => DrawStep::Binding,
                    DrawStep::Binding => DrawStep::Mapping,
                    DrawStep::Releasing { failure } => DrawStep::Unmapping { failure },
                    DrawStep::Unmapping { failure: None } => DrawStep::BindingTexture,
                    DrawStep::Unmapping { failure: Some(error) } => DrawStep::Failed(error),
                    DrawStep::BindingTexture => DrawStep::BindingSource,
                    DrawStep::BindingSource => DrawStep::Uploading,
                    DrawStep::Uploading => DrawStep::UsingProgram,
                    DrawStep::UsingProgram => DrawStep::BindingVertexArray,
                    DrawStep::BindingVertexArray => DrawStep::DrawingQuad,
                    DrawStep::DrawingQuad => DrawStep::Presenting,
                    other => Self::stray(other),
                }
            },
            DrawReply::Mapped { pixels, error } => {
                report = probe(&out, error);
                match step {
                    DrawStep::Mapping => {
                        match self.begin_paint(pixels) {
                            Some(mut guard) => {
                                guard.paint(painter);
                                self.end_paint(guard);
                            },
                            None => {},
                        }
                        self.step
                    },
                    other => Self::stray(other),
                }
            },
            DrawReply::Presented { ok } => match step {
                DrawStep::Presenting => if ok {
                    DrawStep::Idle
                } else {
                    DrawStep::Failed(FatalError::PresentFailed)
                },
                other => Self::stray(other),
            },
        };
        self.step = next;
        self.pixel_buffer.set_mapped(Self::is_live(next));
        Directive { report, log: None, request: self.request() }
    }
}

impl Framebuffer {
    /// The requests of one frame, in the order in which they are made.
    pub open spec fn spec_frame(&self) -> Seq<Request> {
        seq![
            Request::Gl { call: GlCall::Clear { mask: gl::COLOR_BUFFER_BIT } },
            Request::Gl { call: self.pixel_buffer.spec_bind_call() },
            Request::Gl { call: self.pixel_buffer.spec_map_call() },
            Request::Gl { call: self.pixel_buffer.spec_bind_call() },
            Request::Gl { call: PixelBuffer::spec_unmap_call() },
            Request::Gl { call: texture::spec_bind_call(self.texture) },
            Request::Gl { call: self.pixel_buffer.spec_bind_call() },
            Request::Gl {
                call: texture::spec_upload_call(
                    self.texture,
                    self.width,
                    self.height,
                    self.pixel_buffer.spec_format(),
                ),
            },
            Request::Gl { call: GlCall::UseProgram { program: self.program } },
            Request::Gl { call: GlCall::BindVertexArray { vertex_array: self.vao } },
            Request::Gl { call: shader::spec_draw_quad_call() },
            Request::Window(WindowOp::SwapBuffers),
        ]
    }

    /// `event` says that `request` was carried out and succeeded: the
    /// mapping brought storage of the pixel buffer's extent, the surface
    /// was presented. The error code that the driver left is free.
    pub open spec fn spec_answers(&self, request: Request, event: DrawEvent) -> bool {
        match request {
            Request::Gl { call: GlCall::MapBufferRange { .. }, .. } => event matches DrawEvent::Mapped {
                length: Some(length),
                ..
            } && length == self.pixel_buffer.spec_len(),
            Request::Gl { .. } => event is Gl,
            Request::Window(_) => event == (DrawEvent::Presented { ok: true }),
            Request::Rest => event is Begin,
            Request::Fatal(_) => false,
        }
    }

    /// The framebuffer after the events have come back, one after another.
    pub open spec fn spec_run(&self, events: Seq<DrawEvent>) -> Framebuffer
        decreases events.len(),
    {
        if events.len() == 0 {
            *self
        } else {
            self.spec_run(events.drop_last()).spec_after(events.last())
        }
    }

    /// The frame has not failed, and is not marked to end after the
    /// unmapping.
    pub open spec fn on_course(&self) -> bool {
        match self.step {
            DrawStep::Failed(_) => false,
            DrawStep::Releasing { failure } => failure is None,
            DrawStep::Unmapping { failure } => failure is None,
            _ => true,
        }
    }
}

/// One more event takes the run one step further.
pub proof fn lemma_run_step(fb: Framebuffer, events: Seq<DrawEvent>, i: int)
    requires
        0 <= i < events.len(),
    ensures
        fb.spec_run(events.take(i + 1)) == fb.spec_run(events.take(i)).spec_after(events[i]),
{
    assert(events.take(i + 1).drop_last() == events.take(i));
    assert(events.take(i + 1).last() == events[i]);
}

/// As long as each request is answered, a frame does not fail.
pub proof fn lemma_answered_frame_stays_on_course(fb: Framebuffer, event: DrawEvent)
    requires
        fb.wf(),
        fb.on_course(),
        fb.spec_answers(fb.spec_request(), event),
    ensures
        fb.spec_after(event).on_course(),
        fb.spec_after(event).wf(),
{
}

/// A frame whose requests are all answered makes the twelve requests of
/// [`Framebuffer::spec_frame`], each once and in that order, and leaves
/// the framebuffer between frames and otherwise as it was, the pixel
/// buffer of the same length. This holds of the first frame and of a frame
/// that begins after one that failed.
pub proof fn lemma_frame_in_order(fb: Framebuffer, events: Seq<DrawEvent>)
    requires
        fb.wf(),
        fb.step is Idle || fb.step is Failed,
        events.len() == 13,
        events[0] is Begin,
        forall|i: int| 1 <= i < 13 ==> fb.spec_answers(fb.spec_frame()[i - 1], #[trigger] events[i]),
    ensures
        forall|i: int|
            0 <= i < 12 ==> (#[trigger] fb.spec_run(events.take(i + 1))).spec_request()
                == fb.spec_frame()[i],
        fb.spec_run(events) == (Framebuffer { step: DrawStep::Idle, ..fb }),
{
    let frame = fb.spec_frame();
    let f0 = fb.spec_run(events.take(0));
    assert(events.take(0).len() == 0);
    assert(f0 == fb);
    lemma_run_step(fb, events, 0);
    let f1 = fb.spec_run(events.take(1));
    assert(f1.step is Clearing);
    assert(fb.spec_answers(frame[0], events[1]));
    lemma_run_step(fb, events, 1);
    let f2 = fb.spec_run(events.take(2));
    assert(f2.step is Binding);
    assert(fb.spec_answers(frame[1], events[2]));
    lemma_run_step(fb, events, 2);
    let f3 = fb.spec_run(events.take(3));
    assert(f3.step is Mapping);
    assert(fb.spec_answers(frame[2], events[3]));
    lemma_run_step(fb, events, 3);
    let f4 = fb.spec_run(events.take(4));
    assert(f4.step == DrawStep::Releasing { failure: None });
    assert(fb.spec_answers(frame[3], events[4]));
    lemma_run_step(fb, events, 4);
    let f5 = fb.spec_run(events.take(5));
    assert(f5.step == DrawStep::Unmapping { failure: None });
    assert(fb.spec_answers(frame[4], events[5]));
    lemma_run_step(fb, events, 5);
    let f6 = fb.spec_run(events.take(6));
    assert(f6.step is BindingTexture);
    assert(fb.spec_answers(frame[5], events[6]));
    lemma_run_step(fb, events, 6);
    let f7 = fb.spec_run(events.take(7));
    assert(f7.step is BindingSource);
    assert(fb.spec_answers(frame[6], events[7]));
    lemma_run_step(fb, events, 7);
    let f8 = fb.spec_run(events.take(8));
    assert(f8.step is Uploading);
    assert(fb.spec_answers(frame[7], events[8]));
    lemma_run_step(fb, events, 8);
    let f9 = fb.spec_run(events.take(9));
    assert(f9.step is UsingProgram);
    assert(fb.spec_answers(frame[8], events[9]));
    lemma_run_step(fb, events, 9);
    let f10 = fb.spec_run(events.take(10));
    assert(f10.step is BindingVertexArray);
    assert(fb.spec_answers(frame[9], events[10]));
    lemma_run_step(fb, events, 10);
    let f11 = fb.spec_run(events.take(11));
    assert(f11.step is DrawingQuad);
    assert(fb.spec_answers(frame[10], events[11]));
    lemma_run_step(fb, events, 11);
    let f12 = fb.spec_run(events.take(12));
    assert(f12.step is Presenting);
    assert(fb.spec_answers(frame[11], events[12]));
    lemma_run_step(fb, events, 12);
    assert(events.take(13) == events);
    let f13 = fb.spec_run(events);
    assert(f13.step is Idle);
    assert forall|i: int| 0 <= i < 12 implies (#[trigger] fb.spec_run(
        events.take(i + 1),
    )).spec_request() == frame[i] by {
        if i == 0 {
        } else if i == 1 {
        } else if i == 2 {
        } else if i == 3 {
        } else if i == 4 {
        } else if i == 5 {
        } else if i == 6 {
        } else if i == 7 {
        } else if i == 8 {
        } else if i == 9 {
        } else if i == 10 {
        } else {
            assert(i == 11);
        }
    }
}

/// At most one mapping of the pixel buffer is live at any time.
///
/// The mapping is asked for at one step only, and no storage is mapped
/// then. Storage becomes mapped only by the reply to that request, and
/// stops being mapped only by the reply to the call that unmaps it. The
/// pixel buffer is marked as mapped exactly while it is.
pub proof fn lemma_one_mapping(fb: Framebuffer, event: DrawEvent)
    requires
        fb.wf(),
    ensures
        fb.pixel_buffer.spec_mapped() == fb.mapping_live(),
        fb.spec_after(event).pixel_buffer.spec_mapped() == fb.spec_after(event).mapping_live(),
        fb.spec_request() matches Request::Gl { call: GlCall::MapBufferRange { .. }, .. }
            <==> fb.step is Mapping,
        fb.step is Mapping ==> !fb.mapping_live(),
        !fb.mapping_live() && fb.spec_after(event).mapping_live() ==> fb.step is Mapping
            && event matches DrawEvent::Mapped { length: Some(_), .. },
        fb.mapping_live() && !fb.spec_after(event).mapping_live() ==> fb.step is Unmapping
            && event is Gl,
{
}

/// Storage that is mapped is unmapped before anything else is done,
/// whether the frame is on course or has failed: the next two requests
/// are the binding of the pixel buffer and the unmapping, each once, and
/// the storage is not mapped after the reply to the second.
pub proof fn lemma_live_mapping_ends(fb: Framebuffer, first: u32, second: u32)
    requires
        fb.wf(),
        fb.step is Releasing,
    ensures
        fb.spec_request() == (Request::Gl { call: fb.pixel_buffer.spec_bind_call() }),
        fb.spec_after(DrawEvent::Gl { error: first }).mapping_live(),
        fb.spec_after(DrawEvent::Gl { error: first }).spec_request() == (Request::Gl {
            call: PixelBuffer::spec_unmap_call(),
        }),
        !fb.spec_after(DrawEvent::Gl { error: first }).spec_after(
            DrawEvent::Gl { error: second },
        ).mapping_live(),
        !fb.spec_after(DrawEvent::Gl { error: first }).spec_after(
            DrawEvent::Gl { error: second },
        ).pixel_buffer.spec_mapped(),
{
}

/// A frame that has failed while the storage is mapped unmaps it all the
/// same, and ends only then: the pixel buffer is bound, then unmapped, and
/// the request after that is the failure. The framebuffer is fit for
/// another frame afterwards.
pub proof fn lemma_failed_frame_unmaps(
    fb: Framebuffer,
    failure: FatalError,
    first: u32,
    second: u32,
)
    requires
        fb.wf(),
        fb.step == (DrawStep::Releasing { failure: Some(failure) }),
    ensures
        fb.spec_request() == (Request::Gl { call: fb.pixel_buffer.spec_bind_call() }),
        fb.spec_after(DrawEvent::Gl { error: first }).spec_request() == (Request::Gl {
            call: PixelBuffer::spec_unmap_call(),
        }),
        fb.spec_after(DrawEvent::Gl { error: first }).spec_after(
            DrawEvent::Gl { error: second },
        ).spec_request() == Request::Fatal(failure),
        fb.spec_after(DrawEvent::Gl { error: first }).spec_after(
            DrawEvent::Gl { error: second },
        ).spec_after(DrawEvent::Begin).step is Clearing,
        !fb.spec_after(DrawEvent::Gl { error: first }).spec_after(
            DrawEvent::Gl { error: second },
        ).mapping_live(),
{
}

/// A painting that is begun and never ended, as when the painter does not
/// return, costs the frame and nothing more.
///
/// The framebuffer stands where [`Framebuffer::begin_paint`] left it, for
/// the painter is handed the pixels and nothing of the framebuffer. From
/// there the requests are the binding of the pixel buffer, the unmapping
/// and then the failure: nothing is copied into the texture, drawn or
/// presented. The storage is not mapped afterwards, and the frame that
/// begins next goes through all its requests and ends between frames, the
/// pixel buffer of the same length.
pub proof fn lemma_abandoned_painting_unmaps(
    fb: Framebuffer,
    first: u32,
    second: u32,
    events: Seq<DrawEvent>,
)
    requires
        fb.wf(),
        fb.step is Mapping,
        events.len() == 13,
        events[0] is Begin,
        forall|i: int| 1 <= i < 13 ==> fb.spec_answers(fb.spec_frame()[i - 1], #[trigger] events[i]),
    ensures
        ({
            let painting = fb.spec_at(fb.spec_painting_step(Some(fb.pixel_buffer.spec_len())));
            let unmapping = painting.spec_after(DrawEvent::Gl { error: first });
            let ended = unmapping.spec_after(DrawEvent::Gl { error: second });
            &&& painting.wf()
            &&& painting.step == (DrawStep::Releasing { failure: Some(FatalError::PainterFailed) })
            &&& painting.spec_request() == (Request::Gl { call: fb.pixel_buffer.spec_bind_call() })
            &&& unmapping.spec_request() == (Request::Gl { call: PixelBuffer::spec_unmap_call() })
            &&& ended.spec_request() == Request::Fatal(FatalError::PainterFailed)
            &&& !ended.pixel_buffer.spec_mapped()
            &&& ended.wf()
            &&& forall|i: int|
                0 <= i < 12 ==> (#[trigger] ended.spec_run(events.take(i + 1))).spec_request()
                    == fb.spec_frame()[i]
            &&& ended.spec_run(events).step is Idle
            &&& ended.spec_run(events).pixel_buffer == fb.pixel_buffer
        }),
{
    let painting = fb.spec_at(fb.spec_painting_step(Some(fb.pixel_buffer.spec_len())));
    let unmapping = painting.spec_after(DrawEvent::Gl { error: first });
    let ended = unmapping.spec_after(DrawEvent::Gl { error: second });
    assert(ended.spec_frame() == fb.spec_frame());
    lemma_frame_in_order(ended, events);
}

/// Each side of a supported size fits a signed 32-bit number.
pub proof fn lemma_sides_fit(width: usize, height: usize)
    requires
        supported(width, height),
    ensures
        width <= MAX_PIXELS,
        height <= MAX_PIXELS,
        width <= i32::MAX,
        height <= i32::MAX,
{
    assert(width <= width * height && height <= width * height) by (nonlinear_arith)
        requires
            0 < width,
            0 < height,
    ;
}

} // verus!
