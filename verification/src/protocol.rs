//! What passes between the framebuffer and the shell that makes its
//! calls: requests one way, replies the other.

use vstd::prelude::*;
use crate::calls::GlCall;
use crate::probe::ErrorTag;
use crate::shader::ShaderStage;

verus! {

/// An operation on the window system.
#[derive(Clone, Copy, Debug, PartialEq, Eq)]
pub enum WindowOp {
    /// Choose a configuration with an alpha channel of `alpha_size` bits
    /// among those that the display offers, and create a window whose
    /// inner size is `width` by `height` physical pixels.
    BuildDisplay { width: u32, height: u32, alpha_size: u8 },
    /// Create the drawing surface of the window.
    CreateSurface,
    /// Create a rendering context for the chosen configuration.
    CreateContext,
    /// Make the context current against the surface.
    MakeCurrent,
    /// Load the driver's functions through the current context.
    LoadFunctions,
    /// Present the surface.
    SwapBuffers,
}

/// Why the framebuffer cannot go on.
#[derive(Clone, Copy, Debug, PartialEq, Eq, Structural)]
pub enum FatalError {
    /// The width or the height is zero, or the frame has more pixels than
    /// the driver's sizes can count.
    UnsupportedSize,
    /// No compatible configuration, or no window.
    NoDisplay,
    NoSurface,
    NoContext,
    /// The context could not be made current.
    NotCurrent,
    NoShader,
    NoProgram,
    NoVertexArray,
    NoBuffer,
    NoTexture,
    /// The driver mapped no storage, or storage of another extent than
    /// the pixel buffer's.
    NoMapping,
    /// The painter did not return.
    PainterFailed,
    /// The surface could not be presented.
    PresentFailed,
    /// The reply does not answer the request that was made.
    UnexpectedReply,
}

/// What the shell does next.
#[derive(Clone, Copy, Debug, PartialEq, Eq)]
pub enum Request {
    Window(WindowOp),
    /// Make the call, then ask the driver for its error code and hand it
    /// back with the reply.
    Gl { call: GlCall },
    /// Nothing: no work is in progress.
    Rest,
    /// Nothing: the work has failed for good.
    Fatal(FatalError),
}

/// A line for the diagnostic channel. It never stops the work.
#[derive(Debug, PartialEq, Eq)]
pub enum Diagnostic {
    /// The driver recorded an error during `call`.
    GlError { code: u32, tag: ErrorTag, call: GlCall },
    /// A shader did not compile; `log` is the driver's account.
    CompilationFailed { stage: ShaderStage, log: String },
    /// The program did not link; `log` is the driver's account.
    LinkingFailed { log: String },
}

/// A request, together with what the reply before it gave cause to log.
#[derive(Debug, PartialEq, Eq)]
pub struct Directive {
    /// The error that the driver recorded during the call.
    pub report: Option<Diagnostic>,
    /// The driver's account of a compilation or a linking that failed,
    /// where the reply brought one.
    pub log: Option<Diagnostic>,
    pub request: Request,
}

/// What the error code after a call gives cause to report.
pub open spec fn spec_probe(request: Request, error: u32) -> Option<Diagnostic> {
    match request {
        Request::Gl { call } => match crate::probe::spec_decode(error) {
            Some(tag) => Some(Diagnostic::GlError { code: error, tag, call }),
            None => None,
        },
        _ => None,
    }
}

/// Decodes the error code that came back with the reply to `request`.
/// There is nothing to report where the request was no call, nor where the
/// driver recorded no error.
pub fn probe(request: &Request, error: u32) -> (report: Option<Diagnostic>)
    ensures
        report == spec_probe(*request, error),
{
    match request {
        Request::Gl { call } => match crate::probe::decode(error) {
            Some(tag) => Some(Diagnostic::GlError { code: error, tag, call: *call }),
            None => None,
        },
        _ => None,
    }
}

} // verus!
