//! The GPU resource set: quad buffers, texture, shader program, and the one
//! draw call issued per frame.
//!
//! Constructed exactly once per live session, against the session's context;
//! destroyed with it; never used across contexts. `draw` computes the full
//! content of the presented frame: the clear color, the identity transform,
//! the quad and its strip indices, and the bound texture.

use crate::error::SetupError;
use crate::geometry::{quad_indices, quad_vertices, Vertex};
use crate::mat4::{identity_spec, mul_vec_spec, Mat4, Vec4};
use crate::texture::{copy_vec, decode_texture, texture_of, Texture, TextureView};
use vstd::prelude::*;

verus! {

/// GLSL for the vertex stage: multiplies the position by the uniform matrix
/// and passes the texture coordinate through.
pub open spec fn vertex_shader_source() -> Seq<char> {
    "
                #version 140

                uniform mat4 matrix;
                in vec2 position;
                in vec2 tex_coords;

                out vec2 v_tex_coords;

                void main() {
                    gl_Position = matrix * vec4(position, 0.0, 1.0);
                    v_tex_coords = tex_coords;
                }
            "@
}

/// GLSL for the fragment stage: samples the bound texture at the
/// interpolated coordinate and writes it unmodified.
pub open spec fn fragment_shader_source() -> Seq<char> {
    "
                #version 140

                uniform sampler2D tex;
                in vec2 v_tex_coords;

                out vec4 f_color;

                void main() {
                    f_color = texture(tex, v_tex_coords);
                }
            "@
}

/// The linked shader program, held as its two fixed GLSL sources; there is
/// no runtime shader variation.
#[derive(Debug, PartialEq, Eq)]
pub struct ShaderProgram {
    /// Vertex stage source, GLSL version 140.
    pub vertex_source: &'static str,
    /// Fragment stage source, GLSL version 140.
    pub fragment_source: &'static str,
}

/// The mathematical content of a `ShaderProgram`.
pub struct ShaderProgramView {
    pub vertex_source: Seq<char>,
    pub fragment_source: Seq<char>,
}

impl View for ShaderProgram {
    type V = ShaderProgramView;

    open spec fn view(&self) -> ShaderProgramView {
        ShaderProgramView {
            vertex_source: self.vertex_source@,
            fragment_source: self.fragment_source@,
        }
    }
}

/// The one program this design ever links.
pub open spec fn program_spec() -> ShaderProgramView {
    ShaderProgramView {
        vertex_source: vertex_shader_source(),
        fragment_source: fragment_shader_source(),
    }
}

/// Builds the shader program from the fixed sources.
pub fn compile_program() -> (p: ShaderProgram)
    ensures
        p@ == program_spec(),
{
    ShaderProgram {
        vertex_source: "
                #version 140

                uniform mat4 matrix;
                in vec2 position;
                in vec2 tex_coords;

                out vec2 v_tex_coords;

                void main() {
                    gl_Position = matrix * vec4(position, 0.0, 1.0);
                    v_tex_coords = tex_coords;
                }
            ",
        fragment_source: "
                #version 140

                uniform sampler2D tex;
                in vec2 v_tex_coords;

                out vec4 f_color;

                void main() {
                    f_color = texture(tex, v_tex_coords);
                }
            ",
    }
}

/// Builds the immutable geometry pair: the 4-vertex quad and the
/// triangle-strip index order `[1, 2, 0, 3]`.
pub fn rectangle_vertices() -> (r: (Vec<Vertex>, Vec<u16>))
    ensures
        r.0@ == quad_vertices(),
        r.1@ == quad_indices(),
{
    let vertex_buffer = vec![
        Vertex { position: (-1, -1), tex_coords: (0, 0) },
        Vertex { position: (-1, 1), tex_coords: (0, 1) },
        Vertex { position: (1, 1), tex_coords: (1, 1) },
        Vertex { position: (1, -1), tex_coords: (1, 0) },
    ];
    let index_buffer = vec![1u16, 2u16, 0u16, 3u16];
    assert(vertex_buffer@ =~= quad_vertices());
    assert(index_buffer@ =~= quad_indices());
    (vertex_buffer, index_buffer)
}

/// Decodes the bundled PNG bytes into the texture, rows bottom to top.
/// Fails, fatally for session construction, exactly when the bytes do not
/// decode.
pub fn load_texture(bytes: &[u8]) -> (r: Result<Texture, SetupError>)
    ensures
        r is Ok <==> texture_of(bytes@) is Some,
        r matches Ok(t) ==> texture_of(bytes@) == Some(t@) && t.wf(),
        r is Err ==> r == Err::<Texture, SetupError>(SetupError::TextureDecode),
{
    match decode_texture(bytes) {
        Some(t) => Ok(t),
        None => Err(SetupError::TextureDecode),
    }
}

/// The GPU resource set: everything needed to draw the one quad, owned by
/// exactly one session and destroyed with it.
#[derive(Debug, PartialEq, Eq)]
pub struct DrawTexture {
    /// The 4-vertex quad.
    pub vertex_buffer: Vec<Vertex>,
    /// The triangle-strip index order.
    pub index_buffer: Vec<u16>,
    /// The decoded, bottom-to-top texture.
    pub opengl_texture: Texture,
    /// The linked shader program.
    pub program: ShaderProgram,
}

/// The mathematical content of a `DrawTexture`.
pub struct DrawTextureView {
    pub vertex_buffer: Seq<Vertex>,
    pub index_buffer: Seq<u16>,
    pub opengl_texture: TextureView,
    pub program: ShaderProgramView,
}

impl View for DrawTexture {
    type V = DrawTextureView;

    open spec fn view(&self) -> DrawTextureView {
        DrawTextureView {
            vertex_buffer: self.vertex_buffer@,
            index_buffer: self.index_buffer@,
            opengl_texture: self.opengl_texture@,
            program: self.program@,
        }
    }
}

/// The resource set that the given PNG bytes construct, or `None` when they
/// do not decode. Construction is a function of the bytes alone.
pub open spec fn draw_texture_of(bytes: Seq<u8>) -> Option<DrawTextureView> {
    match texture_of(bytes) {
        Some(t) => Some(
            DrawTextureView {
                vertex_buffer: quad_vertices(),
                index_buffer: quad_indices(),
                opengl_texture: t,
                program: program_spec(),
            },
        ),
        None => None,
    }
}

impl DrawTexture {
    /// Well-formed: the fixed quad, the fixed strip order, the fixed
    /// program, and a size-consistent texture.
    pub open spec fn wf(self) -> bool {
        &&& self.vertex_buffer@ == quad_vertices()
        &&& self.index_buffer@ == quad_indices()
        &&& self.opengl_texture.wf()
        &&& self.program@ == program_spec()
    }

    /// Constructs the whole resource set once, for a fresh session. Succeeds
    /// exactly when the texture bytes decode; any failure aborts session
    /// construction rather than leaving a partial resource set.
    pub fn new(bytes: &[u8]) -> (r: Result<DrawTexture, SetupError>)
        ensures
            r is Ok <==> draw_texture_of(bytes@) is Some,
            r matches Ok(dt) ==> draw_texture_of(bytes@) == Some(dt@) && dt.wf(),
            r is Err ==> r == Err::<DrawTexture, SetupError>(SetupError::TextureDecode),
    {
        let opengl_texture = match load_texture(bytes) {
            Ok(t) => t,
            Err(e) => { return Err(e); },
        };
        let (vertex_buffer, index_buffer) = rectangle_vertices();
        let program = compile_program();
        Ok(DrawTexture { vertex_buffer, index_buffer, opengl_texture, program })
    }

    /// Issues the one frame: clear, a single indexed draw with the identity
    /// transform and the bound texture, then presentation. The returned
    /// value is the frame's entire content.
    pub fn draw(&self, frame: Frame) -> (out: PresentedFrame)
        ensures
            out@ == presented_of(self@, frame),
    {
        PresentedFrame {
            width: frame.width,
            height: frame.height,
            clear_color: (0, 0, 0, 0),
            matrix: Mat4::identity(),
            vertices: copy_vec(&self.vertex_buffer),
            indices: copy_vec(&self.index_buffer),
            texture: self.opengl_texture.duplicate(),
        }
    }
}

/// The drawable target for one frame: the surface's current size in pixels.
#[derive(Clone, Copy, Debug, PartialEq, Eq, Structural)]
pub struct Frame {
    pub width: u32,
    pub height: u32,
}

/// Everything one presented frame holds: the target size, the clear color,
/// the uniform transform, the geometry drawn, and the texture sampled.
#[derive(Debug, PartialEq, Eq)]
pub struct PresentedFrame {
    /// Target width in pixels.
    pub width: u32,
    /// Target height in pixels.
    pub height: u32,
    /// RGBA clear color; 0 stands for 0.0 and 255 for 1.0.
    pub clear_color: (u8, u8, u8, u8),
    /// The uniform 4x4 transform handed to the vertex stage.
    pub matrix: Mat4,
    /// The vertices handed to the draw call.
    pub vertices: Vec<Vertex>,
    /// The strip indices handed to the draw call.
    pub indices: Vec<u16>,
    /// The texture bound for sampling.
    pub texture: Texture,
}

/// The mathematical content of a `PresentedFrame`.
pub struct PresentedFrameView {
    pub width: u32,
    pub height: u32,
    pub clear_color: (u8, u8, u8, u8),
    pub matrix: Mat4,
    pub vertices: Seq<Vertex>,
    pub indices: Seq<u16>,
    pub texture: TextureView,
}

impl View for PresentedFrame {
    type V = PresentedFrameView;

    open spec fn view(&self) -> PresentedFrameView {
        PresentedFrameView {
            width: self.width,
            height: self.height,
            clear_color: self.clear_color,
            matrix: self.matrix,
            vertices: self.vertices@,
            indices: self.indices@,
            texture: self.texture@,
        }
    }
}

/// The frame that a resource set presents into a target of the given size:
/// cleared to fully transparent black, the quad drawn with the identity
/// transform and the set's texture. A function of the resource set and the
/// target size alone.
pub open spec fn presented_of(dt: DrawTextureView, frame: Frame) -> PresentedFrameView {
    PresentedFrameView {
        width: frame.width,
        height: frame.height,
        clear_color: (0u8, 0u8, 0u8, 0u8),
        matrix: identity_spec(),
        vertices: dt.vertex_buffer,
        indices: dt.index_buffer,
        texture: dt.opengl_texture,
    }
}

/// Where the vertex stage puts each vertex: the position lifted to
/// homogeneous coordinates `(x, y, 0, 1)` and multiplied by the matrix,
/// keeping the first two components.
pub open spec fn transformed_positions(m: Mat4, vs: Seq<Vertex>) -> Seq<(int, int)> {
    vs.map(
        |i: int, v: Vertex|
            {
                let h = mul_vec_spec(m, Vec4 { x: v.position.0, y: v.position.1, z: 0, w: 1 });
                (h.0, h.1)
            },
    )
}

/// Drawing with the identity transform is a no-op on the projected
/// coordinates: every vertex keeps exactly its input position.
pub proof fn lemma_identity_transform_is_noop(vs: Seq<Vertex>)
    ensures
        transformed_positions(identity_spec(), vs) =~= vs.map(
            |i: int, v: Vertex| (v.position.0 as int, v.position.1 as int),
        ),
{
    assert forall|i: int| 0 <= i < vs.len() implies transformed_positions(identity_spec(), vs)[i]
        == (vs[i].position.0 as int, vs[i].position.1 as int) by {
        crate::mat4::lemma_identity_mul_vec(
            Vec4 { x: vs[i].position.0, y: vs[i].position.1, z: 0, w: 1 },
        );
    }
}

} // verus!
