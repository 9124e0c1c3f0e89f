//! Building a framebuffer: the window, the context, and the GPU objects,
//! one step at a time and each step once.

use vstd::prelude::*;
use crate::calls::GlCall;
use crate::framebuffer::{lemma_sides_fit, supported, DrawStep, Framebuffer};
use crate::gl;
use crate::pixel_buffer::{PixelBuffer, PixelFormat};
use crate::protocol::{probe, spec_probe, Diagnostic, Directive, FatalError, Request, WindowOp};
use crate::shader::ShaderStage;
use crate::texture;

verus! {

/// The bits of alpha that the configuration template asks for.
pub const ALPHA_SIZE: u8 = 8;

/// Options beyond the size.
#[derive(Clone, Copy, Debug, PartialEq, Eq)]
pub struct FramebufferConfigExt {
    /// The colour that each frame is cleared to: red, green, blue and
    /// alpha, each as the bit pattern of a single-precision number.
    pub clear_color: Option<[u32; 4]>,
}

/// Where the building stands: the request named is the one that is out.
#[derive(Clone, Copy, Debug, PartialEq, Eq)]
pub enum SetupStep {
    /// Nothing has been asked for yet.
    Uninitialized,
    BuildingDisplay,
    CreatingSurface,
    CreatingContext,
    MakingCurrent,
    LoadingFunctions,
    CreatingShader(ShaderStage),
    SettingSource(ShaderStage),
    Compiling(ShaderStage),
    CheckingCompile(ShaderStage),
    ReadingCompileLog(ShaderStage),
    CreatingProgram,
    AttachingShader(ShaderStage),
    Linking,
    CheckingLink,
    ReadingLinkLog,
    CreatingVertexArray,
    BindingVertexArray,
    CreatingBuffer,
    BindingBuffer,
    AllocatingBuffer,
    CreatingTexture,
    BindingTexture,
    AllocatingTexture,
    SettingMinFilter,
    SettingMagFilter,
    SettingClearColor,
    /// Everything is built.
    Ready,
    /// The building has failed; nothing is built.
    Failed(FatalError),
}

/// The states that a framebuffer goes through while it is built.
#[derive(Clone, Copy, Debug, PartialEq, Eq, Structural)]
pub enum InitState {
    Uninitialized,
    /// A configuration is chosen; the window and its surface exist.
    WindowCreated,
    /// The context exists and is current.
    ContextCurrent,
    /// The program, the vertex array, the pixel buffer and the texture
    /// exist.
    ResourcesBuilt,
    Ready,
    Failed,
}

impl InitState {
    /// The place of the state in the order in which a building goes
    /// through them; failure stands apart.
    pub open spec fn order(self) -> nat {
        match self {
            InitState::Uninitialized => 0,
            InitState::WindowCreated => 1,
            InitState::ContextCurrent => 2,
            InitState::ResourcesBuilt => 3,
            InitState::Ready => 4,
            InitState::Failed => 0,
        }
    }
}

/// What came back from the shell.
#[derive(Debug, PartialEq, Eq)]
pub enum SetupReply {
    /// Nothing yet: the building is to begin.
    Begin,
    /// The window-system operation was done, or could not be.
    Window { ok: bool },
    /// A call without a result was made.
    Gl { error: u32 },
    /// The calls that create an object bring its name, or `None` where the
    /// driver gave none.
    Shader { shader: Option<glow::NativeShader>, error: u32 },
    Program { program: Option<glow::NativeProgram>, error: u32 },
    VertexArray { vertex_array: Option<glow::NativeVertexArray>, error: u32 },
    Buffer { buffer: Option<glow::NativeBuffer>, error: u32 },
    Texture { texture: Option<glow::NativeTexture>, error: u32 },
    /// Whether the shader compiled, or the program linked.
    Status { ok: bool, error: u32 },
    /// The driver's account of a failed compilation or linking.
    InfoLog { log: String, error: u32 },
}

impl SetupReply {
    /// The driver's error code after the call; the code for "no error"
    /// where the reply answers no call.
    pub open spec fn spec_error(&self) -> u32 {
        match self {
            SetupReply::Begin => gl::NO_ERROR,
            SetupReply::Window { .. } => gl::NO_ERROR,
            SetupReply::Gl { error } => *error,
            SetupReply::Shader { error, .. } => *error,
            SetupReply::Program { error, .. } => *error,
            SetupReply::VertexArray { error, .. } => *error,
            SetupReply::Buffer { error, .. } => *error,
            SetupReply::Texture { error, .. } => *error,
            SetupReply::Status { error, .. } => *error,
            SetupReply::InfoLog { error, .. } => *error,
        }
    }

    pub fn error(&self) -> (error: u32)
        ensures
            error == self.spec_error(),
    {
        match self {
            SetupReply::Begin => gl::NO_ERROR,
            SetupReply::Window { .. } => gl::NO_ERROR,
            SetupReply::Gl { error } => *error,
            SetupReply::Shader { error, .. } => *error,
            SetupReply::Program { error, .. } => *error,
            SetupReply::VertexArray { error, .. } => *error,
            SetupReply::Buffer { error, .. } => *error,
            SetupReply::Texture { error, .. } => *error,
            SetupReply::Status { error, .. } => *error,
            SetupReply::InfoLog { error, .. } => *error,
        }
    }
}

/// A framebuffer that is being built.
#[derive(Debug, PartialEq, Eq)]
pub struct Setup {
    pub width: usize,
    pub height: usize,
    pub clear_color: [u32; 4],
    pub step: SetupStep,
    pub vertex_shader: Option<glow::NativeShader>,
    pub fragment_shader: Option<glow::NativeShader>,
    pub program: Option<glow::NativeProgram>,
    pub vao: Option<glow::NativeVertexArray>,
    pub pixel_buffer: Option<PixelBuffer>,
    pub texture: Option<glow::NativeTexture>,
}

/// The stage that is built after `stage`, if any.
pub open spec fn spec_after_shader(stage: ShaderStage) -> SetupStep {
    match stage {
        ShaderStage::Vertex => SetupStep::CreatingShader(ShaderStage::Fragment),
        ShaderStage::Fragment => SetupStep::CreatingProgram,
    }
}

impl SetupStep {
    /// The place of the step in the order of the building; a failed
    /// building has none.
    pub open spec fn rank(self) -> nat {
        match self {
            SetupStep::Uninitialized => 0,
            SetupStep::BuildingDisplay => 1,
            SetupStep::CreatingSurface => 2,
            SetupStep::CreatingContext => 3,
            SetupStep::MakingCurrent => 4,
            SetupStep::LoadingFunctions => 5,
            SetupStep::CreatingShader(ShaderStage::Vertex) => 6,
            SetupStep::SettingSource(ShaderStage::Vertex) => 7,
            SetupStep::Compiling(ShaderStage::Vertex) => 8,
            SetupStep::CheckingCompile(ShaderStage::Vertex) => 9,
            SetupStep::ReadingCompileLog(ShaderStage::Vertex) => 10,
            SetupStep::CreatingShader(ShaderStage::Fragment) => 11,
            SetupStep::SettingSource(ShaderStage::Fragment) => 12,
            SetupStep::Compiling(ShaderStage::Fragment) => 13,
            SetupStep::CheckingCompile(ShaderStage::Fragment) => 14,
            SetupStep::ReadingCompileLog(ShaderStage::Fragment) => 15,
            SetupStep::CreatingProgram => 16,
            SetupStep::AttachingShader(ShaderStage::Vertex) => 17,
            SetupStep::AttachingShader(ShaderStage::Fragment) => 18,
            SetupStep::Linking => 19,
            SetupStep::CheckingLink => 20,
            SetupStep::ReadingLinkLog => 21,
            SetupStep::CreatingVertexArray => 22,
            SetupStep::BindingVertexArray => 23,
            SetupStep::CreatingBuffer => 24,
            SetupStep::BindingBuffer => 25,
            SetupStep::AllocatingBuffer => 26,
            SetupStep::CreatingTexture => 27,
            SetupStep::BindingTexture => 28,
            SetupStep::AllocatingTexture => 29,
            SetupStep::SettingMinFilter => 30,
            SetupStep::SettingMagFilter => 31,
            SetupStep::SettingClearColor => 32,
            SetupStep::Ready => 33,
            SetupStep::Failed(_) => 0,
        }
    }

    /// The state that the framebuffer is in while the step's request is
    /// out.
    pub open spec fn state(self) -> InitState {
        if self is Failed {
            InitState::Failed
        } else if self.rank() < 3 {
            InitState::Uninitialized
        } else if self.rank() < 5 {
            InitState::WindowCreated
        } else if self.rank() < 32 {
            InitState::ContextCurrent
        } else if self.rank() < 33 {
            InitState::ResourcesBuilt
        } else {
            InitState::Ready
        }
    }
}

impl Setup {
    /// The objects that the steps behind have brought are there, and the
    /// pixel buffer holds exactly the pixels of the surface.
    pub open spec fn wf(&self) -> bool {
        let rank = self.step.rank();
        &&& rank >= 1 ==> supported(self.width, self.height)
        &&& rank >= 7 ==> self.vertex_shader is Some
        &&& rank >= 12 ==> self.fragment_shader is Some
        &&& rank >= 17 ==> self.program is Some
        &&& rank >= 23 ==> self.vao is Some
        &&& rank >= 25 ==> (self.pixel_buffer matches Some(buffer) && buffer.wf()
            && buffer.spec_len() == self.width * self.height && !buffer.spec_mapped())
        &&& rank >= 28 ==> self.texture is Some
    }

    /// The shader object of `stage`.
    pub open spec fn spec_shader(&self, stage: ShaderStage) -> Option<glow::NativeShader> {
        match stage {
            ShaderStage::Vertex => self.vertex_shader,
            ShaderStage::Fragment => self.fragment_shader,
        }
    }

    /// The request that is out at the step the building stands at.
    pub open spec fn spec_request(&self) -> Request {
        match self.step {
            SetupStep::Uninitialized => Request::Rest,
            SetupStep::BuildingDisplay => Request::Window(
                WindowOp::BuildDisplay {
                    width: self.width as u32,
                    height: self.height as u32,
                    alpha_size: ALPHA_SIZE,
                },
            ),
            SetupStep::CreatingSurface => Request::Window(WindowOp::CreateSurface),
            SetupStep::CreatingContext => Request::Window(WindowOp::CreateContext),
            SetupStep::MakingCurrent => Request::Window(WindowOp::MakeCurrent),
            SetupStep::LoadingFunctions => Request::Window(WindowOp::LoadFunctions),
            SetupStep::CreatingShader(stage) => Request::Gl {
                call: stage.spec_create_call(),
            },
            SetupStep::SettingSource(stage) => Request::Gl {
                call: stage.spec_source_call(self.spec_shader(stage).unwrap()),
            },
            SetupStep::Compiling(stage) => Request::Gl {
                call: GlCall::CompileShader { shader: self.spec_shader(stage).unwrap() },
            },
            SetupStep::CheckingCompile(stage) => Request::Gl {
                call: GlCall::GetShaderCompileStatus { shader: self.spec_shader(stage).unwrap() },
            },
            SetupStep::ReadingCompileLog(stage) => Request::Gl {
                call: GlCall::GetShaderInfoLog { shader: self.spec_shader(stage).unwrap() },
            },
            SetupStep::CreatingProgram => Request::Gl { call: GlCall::CreateProgram },
            SetupStep::AttachingShader(stage) => Request::Gl {
                call: GlCall::AttachShader {
                    program: self.program.unwrap(),
                    shader: self.spec_shader(stage).unwrap(),
                },
            },
            SetupStep::Linking => Request::Gl {
                call: GlCall::LinkProgram { program: self.program.unwrap() },
            },
            SetupStep::CheckingLink => Request::Gl {
                call: GlCall::GetProgramLinkStatus { program: self.program.unwrap() },
            },
            SetupStep::ReadingLinkLog => Request::Gl {
                call: GlCall::GetProgramInfoLog { program: self.program.unwrap() },
            },
            SetupStep::CreatingVertexArray => Request::Gl {
                call: GlCall::CreateVertexArray,
            },
            SetupStep::BindingVertexArray => Request::Gl {
                call: GlCall::BindVertexArray { vertex_array: self.vao.unwrap() },
            },
            SetupStep::CreatingBuffer => Request::Gl { call: GlCall::CreateBuffer },
            SetupStep::BindingBuffer => Request::Gl {
                call: self.pixel_buffer.unwrap().spec_bind_call(),
            },
            SetupStep::AllocatingBuffer => Request::Gl {
                call: self.pixel_buffer.unwrap().spec_allocate_call(),
            },
            SetupStep::CreatingTexture => Request::Gl { call: GlCall::CreateTexture },
            SetupStep::BindingTexture => Request::Gl {
                call: texture::spec_bind_call(self.texture.unwrap()),
            },
            SetupStep::AllocatingTexture => Request::Gl {
                call: texture::spec_storage_call(self.texture.unwrap(), self.width, self.height),
            },
            SetupStep::SettingMinFilter => Request::Gl {
                call: texture::spec_min_filter_call(self.texture.unwrap()),
            },
            SetupStep::SettingMagFilter => Request::Gl {
                call: texture::spec_mag_filter_call(self.texture.unwrap()),
            },
            SetupStep::SettingClearColor => Request::Gl {
                call: GlCall::ClearColor {
                    red: self.clear_color[0],
                    green: self.clear_color[1],
                    blue: self.clear_color[2],
                    alpha: self.clear_color[3],
                },
            },
            SetupStep::Ready => Request::Rest,
            SetupStep::Failed(error) => Request::Fatal(error),
        }
    }

    /// The step that follows once `reply` has come back.
    ///
    /// Each step is taken once and in one order. A window-system operation
    /// that could not be done, and an object that the driver did not
    /// create, end the building. A shader that does not compile and a
    /// program that does not link do not: the driver's account is read and
    /// the building goes on.
    pub open spec fn spec_next_step(&self, reply: SetupReply) -> SetupStep {
        match (self.step, reply) {
            (SetupStep::Uninitialized, SetupReply::Begin) => if supported(
                self.width,
                self.height,
            ) {
                SetupStep::BuildingDisplay
            } else {
                SetupStep::Failed(FatalError::UnsupportedSize)
            },
            (SetupStep::BuildingDisplay, SetupReply::Window { ok }) => if ok {
                SetupStep::CreatingSurface
            } else {
                SetupStep::Failed(FatalError::NoDisplay)
            },
            (SetupStep::CreatingSurface, SetupReply::Window { ok }) => if ok {
                SetupStep::CreatingContext
            } else {
                SetupStep::Failed(FatalError::NoSurface)
            },
            (SetupStep::CreatingContext, SetupReply::Window { ok }) => if ok {
                SetupStep::MakingCurrent
            } else {
                SetupStep::Failed(FatalError::NoContext)
            },
            (SetupStep::MakingCurrent, SetupReply::Window { ok }) => if ok {
                SetupStep::LoadingFunctions
            } else {
                SetupStep::Failed(FatalError::NotCurrent)
            },
            (SetupStep::LoadingFunctions, SetupReply::Window { ok: true }) => SetupStep::CreatingShader(
                ShaderStage::Vertex,
            ),
            (SetupStep::CreatingShader(stage), SetupReply::Shader { shader, .. }) => if shader is Some {
                SetupStep::SettingSource(stage)
            } else {
                SetupStep::Failed(FatalError::NoShader)
            },
            (SetupStep::SettingSource(stage), SetupReply::Gl { .. }) => SetupStep::Compiling(stage),
            (SetupStep::Compiling(stage), SetupReply::Gl { .. }) => SetupStep::CheckingCompile(
                stage,
            ),
            (SetupStep::CheckingCompile(stage), SetupReply::Status { ok, .. }) => if ok {
                spec_after_shader(stage)
            } else {
                SetupStep::ReadingCompileLog(stage)
            },
            (SetupStep::ReadingCompileLog(stage), SetupReply::InfoLog { .. }) => spec_after_shader(
                stage,
            ),
            (SetupStep::CreatingProgram, SetupReply::Program { program, .. }) => if program is Some {
                SetupStep::AttachingShader(ShaderStage::Vertex)
            } else {
                SetupStep::Failed(FatalError::NoProgram)
            },
            (
                SetupStep::AttachingShader(ShaderStage::Vertex),
                SetupReply::Gl { .. },
            ) => SetupStep::AttachingShader(ShaderStage::Fragment),
            (
                SetupStep::AttachingShader(ShaderStage::Fragment),
                SetupReply::Gl { .. },
            ) => SetupStep::Linking,
            (SetupStep::Linking, SetupReply::Gl { .. }) => SetupStep::CheckingLink,
            (SetupStep::CheckingLink, SetupReply::Status { ok, .. }) => if ok {
                SetupStep::CreatingVertexArray
            } else {
                SetupStep::ReadingLinkLog
            },
            (SetupStep::ReadingLinkLog, SetupReply::InfoLog { .. }) => SetupStep::CreatingVertexArray,
            (
                SetupStep::CreatingVertexArray,
                SetupReply::VertexArray { vertex_array, .. },
            ) => if vertex_array is Some {
                SetupStep::BindingVertexArray
            } else {
                SetupStep::Failed(FatalError::NoVertexArray)
            },
            (SetupStep::BindingVertexArray, SetupReply::Gl { .. }) => SetupStep::CreatingBuffer,
            (SetupStep::CreatingBuffer, SetupReply::Buffer { buffer, .. }) => if buffer is Some {
                SetupStep::BindingBuffer
            } else {
                SetupStep::Failed(FatalError::NoBuffer)
            },
            (SetupStep::BindingBuffer, SetupReply::Gl { .. }) => SetupStep::AllocatingBuffer,
            (SetupStep::AllocatingBuffer, SetupReply::Gl { .. }) => SetupStep::CreatingTexture,
            (SetupStep::CreatingTexture, SetupReply::Texture { texture, .. }) => if texture is Some {
                SetupStep::BindingTexture
            } else {
                SetupStep::Failed(FatalError::NoTexture)
            },
            (SetupStep::BindingTexture, SetupReply::Gl { .. }) => SetupStep::AllocatingTexture,
            (SetupStep::AllocatingTexture, SetupReply::Gl { .. }) => SetupStep::SettingMinFilter,
            (SetupStep::SettingMinFilter, SetupReply::Gl { .. }) => SetupStep::SettingMagFilter,
            (SetupStep::SettingMagFilter, SetupReply::Gl { .. }) => SetupStep::SettingClearColor,
            (SetupStep::SettingClearColor, SetupReply::Gl { .. }) => SetupStep::Ready,
            (step, _) => Self::spec_stray(step),
        }
    }

    /// The building after `reply`: the step moves on, and the object that
    /// the reply brings is kept.
    pub open spec fn spec_after(&self, reply: SetupReply) -> Setup {
        let next = self.spec_next_step(reply);
        match (self.step, reply) {
            (
                SetupStep::CreatingShader(ShaderStage::Vertex),
                SetupReply::Shader { shader: Some(shader), .. },
            ) => Setup { step: next, vertex_shader: Some(shader), ..*self },
            (
                SetupStep::CreatingShader(ShaderStage::Fragment),
                SetupReply::Shader { shader: Some(shader), .. },
            ) => Setup { step: next, fragment_shader: Some(shader), ..*self },
            (SetupStep::CreatingProgram, SetupReply::Program { program: Some(program), .. }) => Setup {
                step: next,
                program: Some(program),
                ..*self
            },
            (
                SetupStep::CreatingVertexArray,
                SetupReply::VertexArray { vertex_array: Some(vertex_array), .. },
            ) => Setup { step: next, vao: Some(vertex_array), ..*self },
            (SetupStep::CreatingBuffer, SetupReply::Buffer { buffer: Some(buffer), .. }) => Setup {
                step: next,
                pixel_buffer: Some(
                    PixelBuffer {
                        raw_buffer: buffer,
                        length: (self.width * self.height) as usize,
                        format: PixelFormat::Rgba8,
                        mapped: false,
                    },
                ),
                ..*self
            },
            (SetupStep::CreatingTexture, SetupReply::Texture { texture: Some(texture), .. }) => Setup {
                step: next,
                texture: Some(texture),
                ..*self
            },
            _ => Setup { step: next, ..*self },
        }
    }

    /// The error that the driver recorded during the call that `reply`
    /// answers.
    pub open spec fn spec_report(&self, reply: SetupReply) -> Option<Diagnostic> {
        spec_probe(self.spec_request(), reply.spec_error())
    }

    /// The driver's account of a compilation or a linking that failed,
    /// where `reply` brings it.
    pub open spec fn spec_log(&self, reply: SetupReply) -> Option<Diagnostic> {
        match (self.step, reply) {
            (SetupStep::ReadingCompileLog(stage), SetupReply::InfoLog { log, .. }) => Some(
                Diagnostic::CompilationFailed { stage, log },
            ),
            (SetupStep::ReadingLinkLog, SetupReply::InfoLog { log, .. }) => Some(
                Diagnostic::LinkingFailed { log },
            ),
            _ => None,
        }
    }
}

/// The stage that is built after `stage`, or the program after the last.
pub fn after_shader(stage: ShaderStage) -> (step: SetupStep)
    ensures
        step == spec_after_shader(stage),
{
    match stage {
        ShaderStage::Vertex => SetupStep::CreatingShader(ShaderStage::Fragment),
        ShaderStage::Fragment => SetupStep::CreatingProgram,
    }
}

impl Setup {
    fn shader(&self, stage: ShaderStage) -> (shader: Option<glow::NativeShader>)
        ensures
            shader == self.spec_shader(stage),
    {
        match stage {
            ShaderStage::Vertex => self.vertex_shader,
            ShaderStage::Fragment => self.fragment_shader,
        }
    }

    /// The request that is out.
    pub fn request(&self) -> (request: Request)
        requires
            self.wf(),
        ensures
            request == self.spec_request(),
    {
        proof {
            if self.step.rank() >= 1 {
                lemma_sides_fit(self.width, self.height);
            }
        }
        match self.step {
            SetupStep::Uninitialized => Request::Rest,
            SetupStep::BuildingDisplay => Request::Window(
                WindowOp::BuildDisplay {
                    width: self.width as u32,
                    height: self.height as u32,
                    alpha_size: ALPHA_SIZE,
                },
            ),
            SetupStep::CreatingSurface => Request::Window(WindowOp::CreateSurface),
            SetupStep::CreatingContext => Request::Window(WindowOp::CreateContext),
            SetupStep::MakingCurrent => Request::Window(WindowOp::MakeCurrent),
            SetupStep::LoadingFunctions => Request::Window(WindowOp::LoadFunctions),
            SetupStep::CreatingShader(stage) => Request::Gl {
                call: stage.create_call(),
            },
            SetupStep::SettingSource(stage) => Request::Gl {
                call: stage.source_call(self.shader(stage).unwrap()),
            },
            SetupStep::Compiling(stage) => Request::Gl {
                call: GlCall::CompileShader { shader: self.shader(stage).unwrap() },
            },
            SetupStep::CheckingCompile(stage) => Request::Gl {
                call: GlCall::GetShaderCompileStatus { shader: self.shader(stage).unwrap() },
            },
            SetupStep::ReadingCompileLog(stage) => Request::Gl {
                call: GlCall::GetShaderInfoLog { shader: self.shader(stage).unwrap() },
            },
            SetupStep::CreatingProgram => Request::Gl { call: GlCall::CreateProgram },
            SetupStep::AttachingShader(stage) => Request::Gl {
                call: GlCall::AttachShader {
                    program: self.program.unwrap(),
                    shader: self.shader(stage).unwrap(),
                },
            },
            SetupStep::Linking => Request::Gl {
                call: GlCall::LinkProgram { program: self.program.unwrap() },
            },
            SetupStep::CheckingLink => Request::Gl {
                call: GlCall::GetProgramLinkStatus { program: self.program.unwrap() },
            },
            SetupStep::ReadingLinkLog => Request::Gl {
                call: GlCall::GetProgramInfoLog { program: self.program.unwrap() },
            },
            SetupStep::CreatingVertexArray => Request::Gl {
                call: GlCall::CreateVertexArray,
            },
            SetupStep::BindingVertexArray => Request::Gl {
                call: GlCall::BindVertexArray { vertex_array: self.vao.unwrap() },
            },
            SetupStep::CreatingBuffer => Request::Gl { call: GlCall::CreateBuffer },
            SetupStep::BindingBuffer => Request::Gl {
                call: self.pixel_buffer.as_ref().unwrap().bind_call(),
            },
            SetupStep::AllocatingBuffer => Request::Gl {
                call: self.pixel_buffer.as_ref().unwrap().allocate_call(),
            },
            SetupStep::CreatingTexture => Request::Gl { call: GlCall::CreateTexture },
            SetupStep::BindingTexture => Request::Gl {
                call: texture::bind_call(self.texture.unwrap()),
            },
            SetupStep::AllocatingTexture => Request::Gl {
                call: texture::storage_call(self.texture.unwrap(), self.width, self.height),
            },
            SetupStep::SettingMinFilter => Request::Gl {
                call: texture::min_filter_call(self.texture.unwrap()),
            },
            SetupStep::SettingMagFilter => Request::Gl {
                call: texture::mag_filter_call(self.texture.unwrap()),
            },
            SetupStep::SettingClearColor => Request::Gl {
                call: GlCall::ClearColor {
                    red: self.clear_color[0],
                    green: self.clear_color[1],
                    blue: self.clear_color[2],
                    alpha: self.clear_color[3],
                },
            },
            SetupStep::Ready => Request::Rest,
            SetupStep::Failed(error) => Request::Fatal(error),
        }
    }
}

/// Whether a framebuffer can have this size.
pub fn supports(width: usize, height: usize) -> (yes: bool)
    ensures
        yes == supported(width, height),
{
    if width == 0 || height == 0 {
        return false;
    }
    match width.checked_mul(height) {
        Some(pixels) => pixels <= crate::pixel_buffer::MAX_PIXELS,
        None => false,
    }
}

/// The clear colour that the options ask for; all zero bits, which is
/// transparent black, where they name none.
pub open spec fn spec_clear_color(ext: Option<FramebufferConfigExt>) -> [u32; 4] {
    match ext {
        Some(FramebufferConfigExt { clear_color: Some(color) }) => color,
        _ => [0u32, 0u32, 0u32, 0u32],
    }
}

impl Framebuffer {
    /// The building of a framebuffer of `width` by `height` pixels, before
    /// its first step.
    pub open spec fn spec_init_with_ext(
        width: usize,
        height: usize,
        ext: Option<FramebufferConfigExt>,
    ) -> Setup {
        Setup {
            width,
            height,
            clear_color: spec_clear_color(ext),
            step: SetupStep::Uninitialized,
            vertex_shader: None,
            fragment_shader: None,
            program: None,
            vao: None,
            pixel_buffer: None,
            texture: None,
        }
    }

    /// Starts to build a framebuffer that is cleared to transparent black.
    pub fn init(width: usize, height: usize) -> (setup: Setup)
        ensures
            setup == Self::spec_init_with_ext(width, height, None),
            setup.wf(),
    {
        Self::init_with_ext(width, height, None)
    }

    /// Starts to build a framebuffer. Nothing is asked of the shell yet:
    /// the first request answers the reply that begins.
    pub fn init_with_ext(width: usize, height: usize, ext: Option<FramebufferConfigExt>) -> (setup:
        Setup)
        ensures
            setup == Self::spec_init_with_ext(width, height, ext),
            setup.wf(),
    {
        let clear_color = match ext {
            Some(FramebufferConfigExt { clear_color: Some(color) }) => color,
            _ => [0u32, 0u32, 0u32, 0u32],
        };
        Setup {
            width,
            height,
            clear_color,
            step: SetupStep::Uninitialized,
            vertex_shader: None,
            fragment_shader: None,
            program: None,
            vao: None,
            pixel_buffer: None,
            texture: None,
        }
    }
}

impl Setup {
    /// The step that a reply leads to where it does not answer the
    /// request that is out.
    pub open spec fn spec_stray(step: SetupStep) -> SetupStep {
        match step {
            SetupStep::Ready => SetupStep::Ready,
            SetupStep::Failed(error) => SetupStep::Failed(error),
            _ => SetupStep::Failed(FatalError::UnexpectedReply),
        }
    }

    fn stray(step: SetupStep) -> (next: SetupStep)
        ensures
            next == Self::spec_stray(step),
    {
        match step {
            SetupStep::Ready => SetupStep::Ready,
            SetupStep::Failed(error) => SetupStep::Failed(error),
            _ => SetupStep::Failed(FatalError::UnexpectedReply),
        }
    }

    /// The state that the framebuffer is in.
    pub fn state(&self) -> (state: InitState)
        ensures
            state == self.step.state(),
    {
        match self.step {
            SetupStep::Uninitialized
            | SetupStep::BuildingDisplay
            | SetupStep::CreatingSurface => InitState::Uninitialized,
            SetupStep::CreatingContext | SetupStep::MakingCurrent => InitState::WindowCreated,
            SetupStep::SettingClearColor => InitState::ResourcesBuilt,
            SetupStep::Ready => InitState::Ready,
            SetupStep::Failed(_) => InitState::Failed,
            _ => InitState::ContextCurrent,
        }
    }

    /// The framebuffer, once it is built.
    pub open spec fn spec_finish(&self) -> Option<Framebuffer> {
        if self.step is Ready {
            Some(
                Framebuffer {
                    width: self.width,
                    height: self.height,
                    pixel_buffer: self.pixel_buffer.unwrap(),
                    texture: self.texture.unwrap(),
                    vao: self.vao.unwrap(),
                    program: self.program.unwrap(),
                    step: DrawStep::Idle,
                },
            )
        } else {
            None
        }
    }

    /// The framebuffer, between frames, once everything is built; `None`
    /// before that and after a failure.
    pub fn finish(self) -> (framebuffer: Option<Framebuffer>)
        requires
            self.wf(),
        ensures
            framebuffer == self.spec_finish(),
            framebuffer matches Some(fb) ==> fb.wf(),
    {
        match self.step {
            SetupStep::Ready => Some(
                Framebuffer {
                    width: self.width,
                    height: self.height,
                    pixel_buffer: self.pixel_buffer.unwrap(),
                    texture: self.texture.unwrap(),
                    vao: self.vao.unwrap(),
                    program: self.program.unwrap(),
                    step: DrawStep::Idle,
                },
            ),
            _ => None,
        }
    }

    /// Takes the reply to the request that is out, and gives the next
    /// request with what the reply gave cause to report.
    pub fn advance(&mut self, reply: SetupReply) -> (directive: Directive)
        requires
            old(self).wf(),
        ensures
            *final(self) == old(self).spec_after(reply),
            final(self).wf(),
            directive.request == final(self).spec_request(),
            directive.report == old(self).spec_report(reply),
            directive.log == old(self).spec_log(reply),
    {
        let out = self.request();
        let step = self.step;
        let report = probe(&out, reply.error());
        let mut log = None;
        let next = match reply {
            SetupReply::Begin => match step {
                SetupStep::Uninitialized => if supports(self.width, self.height) {
                    SetupStep::BuildingDisplay
                } else {
                    SetupStep::Failed(FatalError::UnsupportedSize)
                },
                other => Self::stray(other),
            },
            SetupReply::Window { ok } => match step {
                SetupStep::BuildingDisplay => if ok {
                    SetupStep::CreatingSurface
                } else {
                    SetupStep::Failed(FatalError::NoDisplay)
                },
                SetupStep::CreatingSurface => if ok {
                    SetupStep::CreatingContext
                } else {
                    SetupStep::Failed(FatalError::NoSurface)
                },
                SetupStep::CreatingContext => if ok {
                    SetupStep::MakingCurrent
                } else {
                    SetupStep::Failed(FatalError::NoContext)
                },
                SetupStep::MakingCurrent => if ok {
                    SetupStep::LoadingFunctions
                } else {
                    SetupStep::Failed(FatalError::NotCurrent)
                },
                SetupStep::LoadingFunctions => if ok {
                    SetupStep::CreatingShader(ShaderStage::Vertex)
                } else {
                    SetupStep::Failed(FatalError::UnexpectedReply)
                },
                other => Self::stray(other),
            },
            SetupReply::Gl { .. } => match step {
                SetupStep::SettingSource(stage) => SetupStep::Compiling(stage),
                SetupStep::Compiling(stage) => SetupStep::CheckingCompile(stage),
                SetupStep::AttachingShader(ShaderStage::Vertex) => SetupStep::AttachingShader(
                    ShaderStage::Fragment,
                ),
                SetupStep::AttachingShader(ShaderStage::Fragment) => SetupStep::Linking,
                SetupStep::Linking => SetupStep::CheckingLink,
                SetupStep::BindingVertexArray => SetupStep::CreatingBuffer,
                SetupStep::BindingBuffer => SetupStep::AllocatingBuffer,
                SetupStep::AllocatingBuffer => SetupStep::CreatingTexture,
                SetupStep::BindingTexture => SetupStep::AllocatingTexture,
                SetupStep::AllocatingTexture => SetupStep::SettingMinFilter,
                SetupStep::SettingMinFilter => SetupStep::SettingMagFilter,
                SetupStep::SettingMagFilter => SetupStep::SettingClearColor,
                SetupStep::SettingClearColor => SetupStep::Ready,
                other => Self::stray(other),
            },
            SetupReply::Shader { shader, .. } => match step {
                SetupStep::CreatingShader(stage) => match shader {
                    Some(shader) => {
                        match stage {
                            ShaderStage::Vertex => {
                                self.vertex_shader = Some(shader);
                            },
                            ShaderStage::Fragment => {
                                self.fragment_shader = Some(shader);
                            },
                        }
                        SetupStep::SettingSource(stage)
                    },
                    None => SetupStep::Failed(FatalError::NoShader),
                },
                other => Self::stray(other),
            },
            SetupReply::Program { program, .. } => match step {
                SetupStep::CreatingProgram => match program {
                    Some(program) => {
                        self.program = Some(program);
                        SetupStep::AttachingShader(ShaderStage::Vertex)
                    },
                    None => SetupStep::Failed(FatalError::NoProgram),
                },
                other => Self::stray(other),
            },
            SetupReply::VertexArray { vertex_array, .. } => match step {
                SetupStep::CreatingVertexArray => match vertex_array {
                    Some(vertex_array) => {
                        self.vao = Some(vertex_array);
                        SetupStep::BindingVertexArray
                    },
                    None => SetupStep::Failed(FatalError::NoVertexArray),
                },
                other => Self::stray(other),
            },
            SetupReply::Buffer { buffer, .. } => match step {
                SetupStep::CreatingBuffer => match buffer {
                    Some(buffer) => {
                        self.pixel_buffer = PixelBuffer::new(buffer, self.width * self.height);
                        SetupStep::BindingBuffer
                    },
                    None => SetupStep::Failed(FatalError::NoBuffer),
                },
                other => Self::stray(other),
            },
            SetupReply::Texture { texture, .. } => match step {
                SetupStep::CreatingTexture => match texture {
                    Some(texture) => {
                        self.texture = Some(texture);
                        SetupStep::BindingTexture
                    },
                    None => SetupStep::Failed(FatalError::NoTexture),
                },
                other => Self::stray(other),
            },
            SetupReply::Status { ok, .. } => match step {
                SetupStep::CheckingCompile(stage) => if ok {
                    after_shader(stage)
                } else {
                    SetupStep::ReadingCompileLog(stage)
                },
                SetupStep::CheckingLink => if ok {
                    SetupStep::CreatingVertexArray
                } else {
                    SetupStep::ReadingLinkLog
                },
                other => Self::stray(other),
            },
            SetupReply::InfoLog { log: text, .. } => match step {
                SetupStep::ReadingCompileLog(stage) => {
                    log = Some(Diagnostic::CompilationFailed { stage, log: text });
                    after_shader(stage)
                },
                SetupStep::ReadingLinkLog => {
                    log = Some(Diagnostic::LinkingFailed { log: text });
                    SetupStep::CreatingVertexArray
                },
                other => Self::stray(other),
            },
        };
        self.step = next;
        Directive { report, log, request: self.request() }
    }
}

impl Setup {
    /// `reply` says that the request that is out was carried out and
    /// succeeded. Whether a shader compiled or the program linked is free,
    /// and so is the error code that the driver left.
    pub open spec fn spec_answers(&self, reply: SetupReply) -> bool {
        match (self.step, reply) {
            (SetupStep::Uninitialized, SetupReply::Begin) => true,
            (SetupStep::BuildingDisplay, SetupReply::Window { ok }) => ok,
            (SetupStep::CreatingSurface, SetupReply::Window { ok }) => ok,
            (SetupStep::CreatingContext, SetupReply::Window { ok }) => ok,
            (SetupStep::MakingCurrent, SetupReply::Window { ok }) => ok,
            (SetupStep::LoadingFunctions, SetupReply::Window { ok }) => ok,
            (SetupStep::CreatingShader(_), SetupReply::Shader { shader, .. }) => shader is Some,
            (SetupStep::CreatingProgram, SetupReply::Program { program, .. }) => program is Some,
            (
                SetupStep::CreatingVertexArray,
                SetupReply::VertexArray { vertex_array, .. },
            ) => vertex_array is Some,
            (SetupStep::CreatingBuffer, SetupReply::Buffer { buffer, .. }) => buffer is Some,
            (SetupStep::CreatingTexture, SetupReply::Texture { texture, .. }) => texture is Some,
            (SetupStep::CheckingCompile(_), SetupReply::Status { .. }) => true,
            (SetupStep::CheckingLink, SetupReply::Status { .. }) => true,
            (SetupStep::ReadingCompileLog(_), SetupReply::InfoLog { .. }) => true,
            (SetupStep::ReadingLinkLog, SetupReply::InfoLog { .. }) => true,
            (SetupStep::SettingSource(_), SetupReply::Gl { .. }) => true,
            (SetupStep::Compiling(_), SetupReply::Gl { .. }) => true,
            (SetupStep::AttachingShader(_), SetupReply::Gl { .. }) => true,
            (SetupStep::Linking, SetupReply::Gl { .. }) => true,
            (SetupStep::BindingVertexArray, SetupReply::Gl { .. }) => true,
            (SetupStep::BindingBuffer, SetupReply::Gl { .. }) => true,
            (SetupStep::AllocatingBuffer, SetupReply::Gl { .. }) => true,
            (SetupStep::BindingTexture, SetupReply::Gl { .. }) => true,
            (SetupStep::AllocatingTexture, SetupReply::Gl { .. }) => true,
            (SetupStep::SettingMinFilter, SetupReply::Gl { .. }) => true,
            (SetupStep::SettingMagFilter, SetupReply::Gl { .. }) => true,
            (SetupStep::SettingClearColor, SetupReply::Gl { .. }) => true,
            _ => false,
        }
    }

    /// The building after the replies have come back, one after another.
    pub open spec fn spec_run(&self, replies: Seq<SetupReply>) -> Setup
        decreases replies.len(),
    {
        if replies.len() == 0 {
            *self
        } else {
            self.spec_run(replies.drop_last()).spec_after(replies.last())
        }
    }
}

/// A reply that answers the request takes the building one step or more
/// further, and never to failure.
pub proof fn lemma_answered_setup_advances(setup: Setup, reply: SetupReply)
    requires
        setup.wf(),
        supported(setup.width, setup.height),
        setup.spec_answers(reply),
    ensures
        setup.spec_after(reply).wf(),
        !(setup.spec_after(reply).step is Failed),
        setup.spec_after(reply).step.rank() > setup.step.rank(),
        setup.spec_after(reply).width == setup.width,
        setup.spec_after(reply).height == setup.height,
{
}

/// A building goes through its states in one order: a reply that answers
/// the request leaves the state as it is or moves it to the next, and none
/// is left out.
pub proof fn lemma_states_in_order(setup: Setup, reply: SetupReply)
    requires
        setup.wf(),
        supported(setup.width, setup.height),
        setup.spec_answers(reply),
    ensures
        ({
            let before = setup.step.state().order();
            let after = setup.spec_after(reply).step.state().order();
            after == before || after == before + 1
        }),
{
}

/// A building of a supported size whose requests are all answered does
/// not fail, and each reply takes it further: it is ready after
/// thirty-three replies at most. The framebuffer that it gives is between
/// frames, and its pixel buffer holds `width * height` pixels.
pub proof fn lemma_setup_succeeds(
    width: usize,
    height: usize,
    ext: Option<FramebufferConfigExt>,
    replies: Seq<SetupReply>,
)
    requires
        supported(width, height),
        forall|i: int|
            0 <= i < replies.len() ==> (#[trigger] Framebuffer::spec_init_with_ext(
                width,
                height,
                ext,
            ).spec_run(replies.take(i))).spec_answers(replies[i]),
    ensures
        ({
            let setup = Framebuffer::spec_init_with_ext(width, height, ext).spec_run(replies);
            &&& setup.wf()
            &&& !(setup.step is Failed)
            &&& setup.step.rank() >= replies.len()
            &&& setup.width == width
            &&& setup.height == height
            &&& setup.step is Ready ==> (setup.spec_finish() matches Some(fb) && fb.wf()
                && fb.step is Idle && fb.pixel_buffer.spec_len() == width * height)
        }),
    decreases replies.len(),
{
    let init = Framebuffer::spec_init_with_ext(width, height, ext);
    if replies.len() > 0 {
        let before = replies.drop_last();
        assert forall|i: int| 0 <= i < before.len() implies (#[trigger] init.spec_run(
            before.take(i),
        )).spec_answers(before[i]) by {
            assert(before.take(i) == replies.take(i));
        }
        lemma_setup_succeeds(width, height, ext, before);
        let last = replies.len() - 1;
        assert(replies.take(last) == before);
        assert(init.spec_run(replies.take(last)).spec_answers(replies[last]));
        lemma_answered_setup_advances(init.spec_run(before), replies.last());
    }
}

/// A framebuffer of a supported size that is built and then draws one
/// frame, every request answered, fails at neither, and its pixel buffer
/// holds `width * height` pixels afterwards as before.
pub proof fn lemma_init_then_draw(
    width: usize,
    height: usize,
    ext: Option<FramebufferConfigExt>,
    replies: Seq<SetupReply>,
    events: Seq<crate::framebuffer::DrawEvent>,
)
    requires
        supported(width, height),
        forall|i: int|
            0 <= i < replies.len() ==> (#[trigger] Framebuffer::spec_init_with_ext(
                width,
                height,
                ext,
            ).spec_run(replies.take(i))).spec_answers(replies[i]),
        Framebuffer::spec_init_with_ext(width, height, ext).spec_run(replies).step is Ready,
        events.len() == 13,
        events[0] is Begin,
        ({
            let fb = Framebuffer::spec_init_with_ext(width, height, ext).spec_run(
                replies,
            ).spec_finish().unwrap();
            forall|i: int|
                1 <= i < 13 ==> fb.spec_answers(fb.spec_frame()[i - 1], #[trigger] events[i])
        }),
    ensures
        ({
            let fb = Framebuffer::spec_init_with_ext(width, height, ext).spec_run(
                replies,
            ).spec_finish().unwrap();
            &&& fb.pixel_buffer.spec_len() == width * height
            &&& forall|i: int|
                0 <= i <= 13 ==> !((#[trigger] fb.spec_run(events.take(i))).step is Failed)
            &&& fb.spec_run(events).step is Idle
            &&& fb.spec_run(events).pixel_buffer.spec_len() == width * height
        }),
{
    lemma_setup_succeeds(width, height, ext, replies);
    let fb = Framebuffer::spec_init_with_ext(width, height, ext).spec_run(
        replies,
    ).spec_finish().unwrap();
    crate::framebuffer::lemma_frame_in_order(fb, events);
    assert forall|i: int| 0 <= i <= 13 implies !((#[trigger] fb.spec_run(
        events.take(i),
    )).step is Failed) by {
        if i == 0 {
            assert(events.take(0).len() == 0);
        } else {
            let j = i - 1;
            assert(fb.spec_run(events.take(j + 1)).spec_request() == fb.spec_frame()[j] || i
                == 13) by {
                if j < 12 {
                    assert(fb.spec_run(events.take(j + 1)).spec_request() == fb.spec_frame()[j]);
                }
            }
            if i == 13 {
                assert(events.take(13) == events);
            }
        }
    }
}

} // verus!
