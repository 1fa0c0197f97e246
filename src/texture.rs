use vstd::prelude::*;

verus! {

/// OpenGL's single-channel pixel format `GL_RED`.
pub const GL_RED: u32 = 0x1903;

/// OpenGL's pixel format `GL_RGB`.
pub const GL_RGB: u32 = 0x1907;

/// OpenGL's pixel format `GL_RGBA`.
pub const GL_RGBA: u32 = 0x1908;

/// OpenGL's `GL_TEXTURE_CUBE_MAP_POSITIVE_X`; the other five faces follow it.
pub const GL_TEXTURE_CUBE_MAP_POSITIVE_X: u32 = 0x8515;

/// Number of faces of a cube map.
pub const CUBE_FACES: usize = 6;

/// The upload format for an image with `channels` channels: one channel is
/// red only, three are RGB, anything else is taken as RGBA.
pub open spec fn format_for(channels: int) -> u32 {
    if channels == 1 {
        GL_RED
    } else if channels == 3 {
        GL_RGB
    } else {
        GL_RGBA
    }
}

/// The upload format for an image with `channel_count` channels.
pub fn pixel_format(channel_count: u8) -> (r: u32)
    ensures
        r == format_for(channel_count as int),
{
    if channel_count == 1 {
        GL_RED
    } else if channel_count == 3 {
        GL_RGB
    } else {
        GL_RGBA
    }
}

/// The texture target of face `face` of a cube map; faces come in the order
/// +X, -X, +Y, -Y, +Z, -Z.
pub fn cube_face_target(face: usize) -> (r: u32)
    requires
        face < CUBE_FACES,
    ensures
        r == GL_TEXTURE_CUBE_MAP_POSITIVE_X + face,
{
    GL_TEXTURE_CUBE_MAP_POSITIVE_X + face as u32
}

/// The name of the image of face `face` of a sky box: right, left, top,
/// bottom, front, back, in the order of the cube map's faces.
pub open spec fn face_name_spec(face: int) -> Seq<char> {
    if face == 0 {
        "right"@
    } else if face == 1 {
        "left"@
    } else if face == 2 {
        "top"@
    } else if face == 3 {
        "bottom"@
    } else if face == 4 {
        "front"@
    } else {
        "back"@
    }
}

/// The name of the image of face `face` of a sky box.
pub fn cube_face_name(face: usize) -> (r: &'static str)
    requires
        face < CUBE_FACES,
    ensures
        r@ == face_name_spec(face as int),
{
    if face == 0 {
        "right"
    } else if face == 1 {
        "left"
    } else if face == 2 {
        "top"
    } else if face == 3 {
        "bottom"
    } else if face == 4 {
        "front"
    } else {
        "back"
    }
}

} // verus!
