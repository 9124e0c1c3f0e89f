use cpf::gl;
use cpf::probe::{decode, ErrorTag};
use cpf::protocol::{probe, Diagnostic, Request, WindowOp};
use cpf::calls::GlCall;

#[test]
fn constants_are_those_of_glow() {
    assert_eq!(gl::NO_ERROR, glow::NO_ERROR);
    assert_eq!(gl::INVALID_ENUM, glow::INVALID_ENUM);
    assert_eq!(gl::INVALID_VALUE, glow::INVALID_VALUE);
    assert_eq!(gl::INVALID_OPERATION, glow::INVALID_OPERATION);
    assert_eq!(gl::STACK_OVERFLOW, glow::STACK_OVERFLOW);
    assert_eq!(gl::STACK_UNDERFLOW, glow::STACK_UNDERFLOW);
    assert_eq!(gl::OUT_OF_MEMORY, glow::OUT_OF_MEMORY);
    assert_eq!(gl::INVALID_FRAMEBUFFER_OPERATION, glow::INVALID_FRAMEBUFFER_OPERATION);
    assert_eq!(gl::PIXEL_UNPACK_BUFFER, glow::PIXEL_UNPACK_BUFFER);
    assert_eq!(gl::MAP_READ_BIT, glow::MAP_READ_BIT);
    assert_eq!(gl::MAP_WRITE_BIT, glow::MAP_WRITE_BIT);
    assert_eq!(gl::STREAM_DRAW, glow::STREAM_DRAW);
    assert_eq!(gl::VERTEX_SHADER, glow::VERTEX_SHADER);
    assert_eq!(gl::FRAGMENT_SHADER, glow::FRAGMENT_SHADER);
    assert_eq!(gl::TEXTURE_2D, glow::TEXTURE_2D);
    assert_eq!(gl::RGBA32F, glow::RGBA32F);
    assert_eq!(gl::TEXTURE_MIN_FILTER, glow::TEXTURE_MIN_FILTER);
    assert_eq!(gl::TEXTURE_MAG_FILTER, glow::TEXTURE_MAG_FILTER);
    assert_eq!(gl::NEAREST, glow::NEAREST);
    assert_eq!(gl::LINEAR, glow::LINEAR);
    assert_eq!(gl::COLOR_BUFFER_BIT, glow::COLOR_BUFFER_BIT);
    assert_eq!(gl::RGBA, glow::RGBA);
    assert_eq!(gl::UNSIGNED_BYTE, glow::UNSIGNED_BYTE);
    assert_eq!(gl::TRIANGLE_STRIP, glow::TRIANGLE_STRIP);
}

#[test]
fn no_error_decodes_to_nothing() {
    assert_eq!(decode(glow::NO_ERROR), None);
    assert_eq!(decode(0), None);
}

#[test]
fn each_error_code_has_its_tag() {
    assert_eq!(decode(glow::INVALID_ENUM), Some(ErrorTag::InvalidEnum));
    assert_eq!(decode(glow::INVALID_VALUE), Some(ErrorTag::InvalidValue));
    assert_eq!(decode(glow::INVALID_OPERATION), Some(ErrorTag::InvalidOperation));
    assert_eq!(decode(glow::STACK_OVERFLOW), Some(ErrorTag::StackOverflow));
    assert_eq!(decode(glow::STACK_UNDERFLOW), Some(ErrorTag::StackUnderflow));
    assert_eq!(decode(glow::OUT_OF_MEMORY), Some(ErrorTag::OutOfMemory));
    assert_eq!(
        decode(glow::INVALID_FRAMEBUFFER_OPERATION),
        Some(ErrorTag::InvalidFramebufferOperation)
    );
}

#[test]
fn other_codes_are_unknown() {
    assert_eq!(decode(1), Some(ErrorTag::Unknown));
    assert_eq!(decode(0x0507), Some(ErrorTag::Unknown));
    assert_eq!(decode(0x04ff), Some(ErrorTag::Unknown));
    assert_eq!(decode(u32::MAX), Some(ErrorTag::Unknown));
}

#[test]
fn tags_have_their_names() {
    assert_eq!(ErrorTag::InvalidEnum.name(), "GL_INVALID_ENUM");
    assert_eq!(ErrorTag::InvalidValue.name(), "GL_INVALID_VALUE");
    assert_eq!(ErrorTag::InvalidOperation.name(), "GL_INVALID_OPERATION");
    assert_eq!(ErrorTag::StackOverflow.name(), "GL_STACK_OVERFLOW");
    assert_eq!(ErrorTag::StackUnderflow.name(), "GL_STACK_UNDERFLOW");
    assert_eq!(ErrorTag::OutOfMemory.name(), "GL_OUT_OF_MEMORY");
    assert_eq!(
        ErrorTag::InvalidFramebufferOperation.name(),
        "GL_INVALID_FRAMEBUFFER_OPERATION"
    );
    assert_eq!(ErrorTag::Unknown.name(), "Unknown Error");
}

#[test]
fn error_after_a_call_is_reported_with_the_call() {
    let call = GlCall::Clear { mask: glow::COLOR_BUFFER_BIT };
    let request = Request::Gl { call };
    assert_eq!(
        probe(&request, glow::OUT_OF_MEMORY),
        Some(Diagnostic::GlError { code: 0x0505, tag: ErrorTag::OutOfMemory, call })
    );
}

#[test]
fn call_without_error_reports_nothing() {
    let request = Request::Gl { call: GlCall::CreateBuffer };
    assert_eq!(probe(&request, glow::NO_ERROR), None);
}

#[test]
fn replies_to_other_requests_report_nothing() {
    assert_eq!(probe(&Request::Window(WindowOp::SwapBuffers), glow::INVALID_VALUE), None);
    assert_eq!(probe(&Request::Rest, glow::INVALID_VALUE), None);
}
