use vstd::prelude::*;
use crate::vertex::GL_FLOAT;
use crate::texture::GL_RGBA;

verus! {

/// OpenGL's half-float RGBA internal format `GL_RGBA16F`.
pub const GL_RGBA16F: u32 = 0x881A;

/// OpenGL's `GL_UNSIGNED_BYTE` component type.
pub const GL_UNSIGNED_BYTE: u32 = 0x1401;

/// OpenGL's `GL_COLOR_ATTACHMENT0`; the other colour attachments follow it.
pub const GL_COLOR_ATTACHMENT0: u32 = 0x8CE0;

/// OpenGL's `GL_TEXTURE0`; the other texture units follow it.
pub const GL_TEXTURE0: u32 = 0x84C0;

/// The colour targets of the G-buffer.
#[derive(Clone, Copy, Debug, PartialEq, Eq, Structural)]
pub enum GBufferTarget {
    /// World position, in half floats.
    Position,
    /// Surface normal, in half floats.
    Normal,
    /// Albedo with specular intensity in alpha, in bytes.
    AlbedoSpec,
}

/// Index of the target: its colour attachment and the texture unit that the
/// lighting pass reads it from.
pub open spec fn target_index(t: GBufferTarget) -> int {
    match t {
        GBufferTarget::Position => 0,
        GBufferTarget::Normal => 1,
        GBufferTarget::AlbedoSpec => 2,
    }
}

/// How a G-buffer target is stored and bound.
#[derive(Clone, Copy, Debug, PartialEq, Eq, Structural)]
pub struct TargetFormat {
    pub internal_format: u32,
    pub data_type: u32,
    pub attachment: u32,
    pub texture_unit: u32,
}

pub open spec fn target_format_spec(t: GBufferTarget) -> TargetFormat {
    let half = t is Position || t is Normal;
    TargetFormat {
        internal_format: if half { GL_RGBA16F } else { GL_RGBA },
        data_type: if half { GL_FLOAT } else { GL_UNSIGNED_BYTE },
        attachment: (GL_COLOR_ATTACHMENT0 + target_index(t)) as u32,
        texture_unit: (GL_TEXTURE0 + target_index(t)) as u32,
    }
}

/// The G-buffer's targets, in attachment order.
pub fn gbuffer_targets() -> (r: Vec<GBufferTarget>)
    ensures
        r@ == seq![GBufferTarget::Position, GBufferTarget::Normal, GBufferTarget::AlbedoSpec],
        forall|i: int| 0 <= i < r@.len() ==> target_index(#[trigger] r@[i]) == i,
{
    vec![GBufferTarget::Position, GBufferTarget::Normal, GBufferTarget::AlbedoSpec]
}

impl GBufferTarget {
    pub fn index(&self) -> (r: u32)
        ensures
            r == target_index(*self),
    {
        match self {
            GBufferTarget::Position => 0,
            GBufferTarget::Normal => 1,
            GBufferTarget::AlbedoSpec => 2,
        }
    }

    /// Storage, attachment and texture unit of the target: position and
    /// normal in half floats, albedo and specular in bytes, each attached
    /// and bound at its own index.
    pub fn format(&self) -> (r: TargetFormat)
        ensures
            r == target_format_spec(*self),
    {
        let i = self.index();
        let (internal_format, data_type) = match self {
            GBufferTarget::AlbedoSpec => (GL_RGBA, GL_UNSIGNED_BYTE),
            _ => (GL_RGBA16F, GL_FLOAT),
        };
        TargetFormat {
            internal_format,
            data_type,
            attachment: GL_COLOR_ATTACHMENT0 + i,
            texture_unit: GL_TEXTURE0 + i,
        }
    }

    /// The sampler uniform of the lighting shader that reads the target.
    pub fn sampler(&self) -> (r: Uniform)
        ensures
            r == match *self {
                GBufferTarget::Position => Uniform::GPosition,
                GBufferTarget::Normal => Uniform::GNormal,
                GBufferTarget::AlbedoSpec => Uniform::GAlbedoSpec,
            },
    {
        match self {
            GBufferTarget::Position => Uniform::GPosition,
            GBufferTarget::Normal => Uniform::GNormal,
            GBufferTarget::AlbedoSpec => Uniform::GAlbedoSpec,
        }
    }
}

/// The uniforms that the renderer sets; their names are shared with the
/// shader sources.
#[derive(Clone, Copy, Debug, PartialEq, Eq, Structural)]
pub enum Uniform {
    ProjectionView,
    Model,
    TextureDiffuse,
    GPosition,
    GNormal,
    GAlbedoSpec,
    ViewPos,
}

pub open spec fn uniform_name(u: Uniform) -> Seq<char> {
    match u {
        Uniform::ProjectionView => "projection_view"@,
        Uniform::Model => "model"@,
        Uniform::TextureDiffuse => "texture_diffuse"@,
        Uniform::GPosition => "g_position"@,
        Uniform::GNormal => "g_normal"@,
        Uniform::GAlbedoSpec => "g_albedo_spec"@,
        Uniform::ViewPos => "view_pos"@,
    }
}

impl Uniform {
    /// The name of the uniform in the shader sources.
    pub fn name(&self) -> (r: &'static str)
        ensures
            r@ == uniform_name(*self),
    {
        match self {
            Uniform::ProjectionView => "projection_view",
            Uniform::Model => "model",
            Uniform::TextureDiffuse => "texture_diffuse",
            Uniform::GPosition => "g_position",
            Uniform::GNormal => "g_normal",
            Uniform::GAlbedoSpec => "g_albedo_spec",
            Uniform::ViewPos => "view_pos",
        }
    }
}

} // verus!
