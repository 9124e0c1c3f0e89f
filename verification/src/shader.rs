//! The one program that the framebuffer draws with: a quad that covers
//! the surface, textured with the frame.

use vstd::prelude::*;
use crate::calls::GlCall;
use crate::gl;

verus! {

/// Emits the four corners of the surface as a triangle strip, with the
/// texture coordinates of each; it reads no vertex data.
pub const VERTEX_SHADER_SRC: &'static str = r#"
#version 330 core
out vec2 TexCoord;

void main()
{
    // Define the quad vertices directly
    vec3 vertices[4] = vec3[4] (
        vec3(-1.0, -1.0, 0.0),  // bottom-left  (0)
        vec3( 1.0, -1.0, 0.0),  // bottom-right (1)
        vec3(-1.0,  1.0, 0.0),  // top-left     (2)
        vec3( 1.0,  1.0, 0.0)   // top-right    (3)
    );

    // Texture coordinates corresponding to each vertex
    vec2 texCoords[4] = vec2[4](
        vec2(0.0, 1.0),
        vec2(1.0, 1.0),
        vec2(0.0, 0.0),
        vec2(1.0, 0.0) 
    );

    // Set gl_Position and pass the texture coordinates
    gl_Position = vec4(vertices[gl_VertexID].xyz, 1.0);
    TexCoord = texCoords[gl_VertexID];
}
"#;

/// Samples the bound texture, unmodified.
pub const FRAGMENT_SHADER_SRC: &'static str = r#"
#version 330 core
out vec4 FragColor;
in vec2 TexCoord;
uniform sampler2D texture1;
void main()
{
    FragColor = texture(texture1, TexCoord);
}
"#;

/// The number of vertices of the quad.
pub const QUAD_VERTICES: i32 = 4;

/// The two stages of the program.
#[derive(Clone, Copy, Debug, PartialEq, Eq, Structural)]
pub enum ShaderStage {
    Vertex,
    Fragment,
}

impl ShaderStage {
    /// The stage, as the driver names it.
    pub open spec fn spec_shader_type(self) -> u32 {
        match self {
            ShaderStage::Vertex => gl::VERTEX_SHADER,
            ShaderStage::Fragment => gl::FRAGMENT_SHADER,
        }
    }

    pub fn shader_type(&self) -> (shader_type: u32)
        ensures
            shader_type == self.spec_shader_type(),
    {
        match self {
            ShaderStage::Vertex => gl::VERTEX_SHADER,
            ShaderStage::Fragment => gl::FRAGMENT_SHADER,
        }
    }

    /// The fixed source text of the stage.
    pub open spec fn spec_source(self) -> &'static str {
        match self {
            ShaderStage::Vertex => VERTEX_SHADER_SRC,
            ShaderStage::Fragment => FRAGMENT_SHADER_SRC,
        }
    }

    pub fn source(&self) -> (source: &'static str)
        ensures
            source == self.spec_source(),
    {
        match self {
            ShaderStage::Vertex => VERTEX_SHADER_SRC,
            ShaderStage::Fragment => FRAGMENT_SHADER_SRC,
        }
    }

    /// Creates the shader object of the stage.
    pub open spec fn spec_create_call(self) -> GlCall {
        GlCall::CreateShader { shader_type: self.spec_shader_type() }
    }

    pub fn create_call(&self) -> (call: GlCall)
        ensures
            call == self.spec_create_call(),
    {
        GlCall::CreateShader { shader_type: self.shader_type() }
    }

    /// Hands the stage's source text to the shader object.
    pub open spec fn spec_source_call(self, shader: glow::NativeShader) -> GlCall {
        GlCall::ShaderSource { shader, source: self.spec_source() }
    }

    pub fn source_call(&self, shader: glow::NativeShader) -> (call: GlCall)
        ensures
            call == self.spec_source_call(shader),
    {
        GlCall::ShaderSource { shader, source: self.source() }
    }
}

/// Draws the quad: four vertices as a triangle strip.
pub open spec fn spec_draw_quad_call() -> GlCall {
    GlCall::DrawArrays { mode: gl::TRIANGLE_STRIP, first: 0, count: QUAD_VERTICES }
}

pub fn draw_quad_call() -> (call: GlCall)
    ensures
        call == spec_draw_quad_call(),
{
    GlCall::DrawArrays { mode: gl::TRIANGLE_STRIP, first: 0, count: QUAD_VERTICES }
}

} // verus!
