use minerust::config::{AppBuilder, AppConfig};
use minerust::gbuffer::{gbuffer_targets, GBufferTarget, Uniform};
use minerust::texture::{cube_face_name, cube_face_target, pixel_format};

#[test]
fn default_config() {
    let config = AppConfig::default();
    assert_eq!(config.window_title(), "App");
    assert_eq!(config.window_width(), 1280);
    assert_eq!(config.window_height(), 720);
    assert_eq!(config.gl_context_version(), (3, 3));
    assert_eq!(config.window_center(), (640, 360));
}

#[test]
fn builder_sets_each_field() {
    let mut builder = AppBuilder::new();
    builder.window_title("Minerust").window_size(800, 601).gl_context_version(4, 1);
    let config = builder.config();
    assert_eq!(config.window_title(), "Minerust");
    assert_eq!(config.window_width(), 800);
    assert_eq!(config.window_height(), 601);
    assert_eq!(config.gl_context_version(), (4, 1));
    assert_eq!(config.window_center(), (400, 300));
    assert_eq!(AppBuilder::default().config().window_title(), "App");
}

#[test]
fn pixel_format_by_channels() {
    assert_eq!(pixel_format(1), glow::RED);
    assert_eq!(pixel_format(3), glow::RGB);
    assert_eq!(pixel_format(4), glow::RGBA);
    assert_eq!(pixel_format(2), glow::RGBA);
    assert_eq!(pixel_format(0), glow::RGBA);
}

#[test]
fn cube_faces_in_order() {
    let names: Vec<&str> = (0..6).map(cube_face_name).collect();
    assert_eq!(names, ["right", "left", "top", "bottom", "front", "back"]);
    assert_eq!(cube_face_target(0), glow::TEXTURE_CUBE_MAP_POSITIVE_X);
    assert_eq!(cube_face_target(1), glow::TEXTURE_CUBE_MAP_NEGATIVE_X);
    assert_eq!(cube_face_target(5), glow::TEXTURE_CUBE_MAP_NEGATIVE_Z);
}

#[test]
fn gbuffer_target_formats() {
    let targets = gbuffer_targets();
    assert_eq!(targets, vec![GBufferTarget::Position, GBufferTarget::Normal, GBufferTarget::AlbedoSpec]);
    let p = GBufferTarget::Position.format();
    assert_eq!((p.internal_format, p.data_type, p.attachment, p.texture_unit),
        (glow::RGBA16F, glow::FLOAT, glow::COLOR_ATTACHMENT0, glow::TEXTURE0));
    let n = GBufferTarget::Normal.format();
    assert_eq!((n.internal_format, n.data_type, n.attachment, n.texture_unit),
        (glow::RGBA16F, glow::FLOAT, glow::COLOR_ATTACHMENT1, glow::TEXTURE1));
    let a = GBufferTarget::AlbedoSpec.format();
    assert_eq!((a.internal_format, a.data_type, a.attachment, a.texture_unit),
        (glow::RGBA, glow::UNSIGNED_BYTE, glow::COLOR_ATTACHMENT2, glow::TEXTURE2));
}

#[test]
fn uniform_names() {
    assert_eq!(Uniform::ProjectionView.name(), "projection_view");
    assert_eq!(Uniform::Model.name(), "model");
    assert_eq!(Uniform::TextureDiffuse.name(), "texture_diffuse");
    assert_eq!(Uniform::ViewPos.name(), "view_pos");
    assert_eq!(GBufferTarget::Position.sampler().name(), "g_position");
    assert_eq!(GBufferTarget::Normal.sampler().name(), "g_normal");
    assert_eq!(GBufferTarget::AlbedoSpec.sampler().name(), "g_albedo_spec");
}

#[test]
fn config_clone_keeps_fields() {
    let mut builder = AppBuilder::new();
    builder.window_title("Copy").window_size(3, 4);
    let copy = builder.config().clone();
    assert_eq!(copy.window_title(), "Copy");
    assert_eq!((copy.window_width(), copy.window_height()), (3, 4));
    assert_eq!(copy.gl_context_version(), (3, 3));
}
