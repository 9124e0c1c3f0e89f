//! The error-check probe: decoding what `glGetError` returned after a call.

use vstd::prelude::*;
use crate::gl;

verus! {

/// The error conditions that the driver can report.
#[derive(Clone, Copy, Debug, PartialEq, Eq, Structural)]
pub enum ErrorTag {
    InvalidEnum,
    InvalidValue,
    InvalidOperation,
    StackOverflow,
    StackUnderflow,
    OutOfMemory,
    InvalidFramebufferOperation,
    Unknown,
}

/// The tag of an error code; `None` for the code that means "no error".
pub open spec fn spec_decode(code: u32) -> Option<ErrorTag> {
    if code == gl::NO_ERROR {
        None
    } else if code == gl::INVALID_ENUM {
        Some(ErrorTag::InvalidEnum)
    } else if code == gl::INVALID_VALUE {
        Some(ErrorTag::InvalidValue)
    } else if code == gl::INVALID_OPERATION {
        Some(ErrorTag::InvalidOperation)
    } else if code == gl::STACK_OVERFLOW {
        Some(ErrorTag::StackOverflow)
    } else if code == gl::STACK_UNDERFLOW {
        Some(ErrorTag::StackUnderflow)
    } else if code == gl::OUT_OF_MEMORY {
        Some(ErrorTag::OutOfMemory)
    } else if code == gl::INVALID_FRAMEBUFFER_OPERATION {
        Some(ErrorTag::InvalidFramebufferOperation)
    } else {
        Some(ErrorTag::Unknown)
    }
}

/// Decodes the code that the driver reported after a call.
pub fn decode(code: u32) -> (tag: Option<ErrorTag>)
    ensures
        tag == spec_decode(code),
{
    if code == gl::NO_ERROR {
        None
    } else if code == gl::INVALID_ENUM {
        Some(ErrorTag::InvalidEnum)
    } else if code == gl::INVALID_VALUE {
        Some(ErrorTag::InvalidValue)
    } else if code == gl::INVALID_OPERATION {
        Some(ErrorTag::InvalidOperation)
    } else if code == gl::STACK_OVERFLOW {
        Some(ErrorTag::StackOverflow)
    } else if code == gl::STACK_UNDERFLOW {
        Some(ErrorTag::StackUnderflow)
    } else if code == gl::OUT_OF_MEMORY {
        Some(ErrorTag::OutOfMemory)
    } else if code == gl::INVALID_FRAMEBUFFER_OPERATION {
        Some(ErrorTag::InvalidFramebufferOperation)
    } else {
        Some(ErrorTag::Unknown)
    }
}

impl ErrorTag {
    /// The human-readable name of the tag.
    pub open spec fn spec_name(self) -> Seq<char> {
        match self {
            ErrorTag::InvalidEnum => "GL_INVALID_ENUM"@,
            ErrorTag::InvalidValue => "GL_INVALID_VALUE"@,
            ErrorTag::InvalidOperation => "GL_INVALID_OPERATION"@,
            ErrorTag::StackOverflow => "GL_STACK_OVERFLOW"@,
            ErrorTag::StackUnderflow => "GL_STACK_UNDERFLOW"@,
            ErrorTag::OutOfMemory => "GL_OUT_OF_MEMORY"@,
            ErrorTag::InvalidFramebufferOperation => "GL_INVALID_FRAMEBUFFER_OPERATION"@,
            ErrorTag::Unknown => "Unknown Error"@,
        }
    }

    pub fn name(&self) -> (text: &'static str)
        ensures
            text@ == self.spec_name(),
    {
        match self {
            ErrorTag::InvalidEnum => "GL_INVALID_ENUM",
            ErrorTag::InvalidValue => "GL_INVALID_VALUE",
            ErrorTag::InvalidOperation => "GL_INVALID_OPERATION",
            ErrorTag::StackOverflow => "GL_STACK_OVERFLOW",
            ErrorTag::StackUnderflow => "GL_STACK_UNDERFLOW",
            ErrorTag::OutOfMemory => "GL_OUT_OF_MEMORY",
            ErrorTag::InvalidFramebufferOperation => "GL_INVALID_FRAMEBUFFER_OPERATION",
            ErrorTag::Unknown => "Unknown Error",
        }
    }
}

} // verus!
