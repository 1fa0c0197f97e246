use std::num::NonZeroU32;

use minerust::cube::{CubeVertex, Sign3, TexCorner};
use minerust::mesh::{Mesh, Quad};
use minerust::model::{create_quad_indices, Model};
use minerust::vertex::{AttributePointer, VertexFormat, VertexLayout, VertextAttribute, GL_FLOAT};

fn handles() -> (glow::NativeVertexArray, glow::NativeBuffer, glow::NativeBuffer) {
    (
        glow::NativeVertexArray(NonZeroU32::new(1).unwrap()),
        glow::NativeBuffer(NonZeroU32::new(2).unwrap()),
        glow::NativeBuffer(NonZeroU32::new(3).unwrap()),
    )
}

#[test]
fn quad_indices_for_one_quad() {
    assert_eq!(create_quad_indices(4), vec![0, 1, 2, 2, 3, 0]);
}

#[test]
fn quad_indices_follow_pattern_per_quad() {
    let n = 5;
    let indices = create_quad_indices(4 * n);
    assert_eq!(indices.len(), 6 * n);
    for k in 0..n {
        let k32 = k as u32;
        assert_eq!(
            &indices[6 * k..6 * k + 6],
            &[4 * k32, 4 * k32 + 1, 4 * k32 + 2, 4 * k32 + 2, 4 * k32 + 3, 4 * k32]
        );
    }
}

#[test]
fn quad_indices_ignore_partial_quad() {
    assert_eq!(create_quad_indices(0), Vec::<u32>::new());
    assert_eq!(create_quad_indices(3), Vec::<u32>::new());
    assert_eq!(create_quad_indices(7), vec![0, 1, 2, 2, 3, 0]);
}

#[test]
fn cube_indices_count() {
    let indices = create_quad_indices(24);
    assert_eq!(indices.len(), 36);
    assert_eq!(&indices[30..36], &[20, 21, 22, 22, 23, 20]);
}

#[test]
fn mesh_push_and_push_quad() {
    let mut mesh: Mesh<u32> = Mesh::new();
    assert_eq!(mesh.len(), 0);
    mesh.push(9);
    mesh.push_quad(Quad::new(1, 2, 3, 4));
    assert_eq!(mesh.vertices(), &vec![9, 1, 2, 3, 4]);
    assert_eq!(mesh.len(), 5);
    mesh.clear();
    assert!(mesh.vertices().is_empty());
}

#[test]
fn mesh_with_vertices_keeps_order() {
    let mesh = Mesh::with_vertices(vec![3u8, 1, 2]);
    assert_eq!(mesh.vertices(), &vec![3, 1, 2]);
    let empty: Mesh<u8> = Mesh::with_capacity(16);
    assert_eq!(empty.len(), 0);
    let default: Mesh<u8> = Mesh::default();
    assert_eq!(default.len(), 0);
}

#[test]
fn cube_has_24_vertices_in_six_faces() {
    let cube = Mesh::from_cube();
    let v = cube.vertices();
    assert_eq!(v.len(), 24);
    let mut normals: Vec<Sign3> = Vec::new();
    for face in 0..6 {
        let n = v[4 * face].normal;
        for j in 0..4 {
            assert_eq!(v[4 * face + j].normal, n);
            let p = v[4 * face + j].position;
            assert_eq!(p.x * n.x + p.y * n.y + p.z * n.z, 1);
        }
        assert_eq!(n.x.abs() + n.y.abs() + n.z.abs(), 1);
        assert!(!normals.contains(&n));
        normals.push(n);
    }
}

#[test]
fn cube_first_face_is_minus_x() {
    let cube = Mesh::from_cube();
    let v = cube.vertices();
    let minus_x = Sign3 { x: -1, y: 0, z: 0 };
    assert_eq!(
        v[0],
        CubeVertex { position: Sign3 { x: -1, y: -1, z: -1 }, normal: minus_x, tex_coords: TexCorner { u: 0, v: 0 } }
    );
    assert_eq!(
        v[2],
        CubeVertex { position: Sign3 { x: -1, y: 1, z: 1 }, normal: minus_x, tex_coords: TexCorner { u: 1, v: 1 } }
    );
    assert_eq!(v[23].normal, Sign3 { x: 0, y: 0, z: 1 });
    assert_eq!(v[23].tex_coords, TexCorner { u: 0, v: 1 });
}

#[test]
fn model_of_one_quad_draws_six_indices() {
    let (vao, vbo, ebo) = handles();
    let mut mesh: Mesh<[f32; 3]> = Mesh::new();
    mesh.push_quad(Quad::new([-1.0, -1.0, 0.0], [1.0, -1.0, 0.0], [1.0, 1.0, 0.0], [-1.0, 1.0, 0.0]));
    let model = Model::new(vao, vbo, ebo, &mesh);
    assert_eq!(model.len(), 6);
    assert_eq!(model.vao(), vao);
    assert_eq!(model.vbo(), vbo);
    assert_eq!(model.ebo(), ebo);
}

#[test]
fn model_of_cube_draws_36_indices() {
    let (vao, vbo, ebo) = handles();
    let model = Model::new(vao, vbo, ebo, &Mesh::from_cube());
    assert_eq!(model.len(), 36);
}

#[test]
fn model_of_empty_mesh_draws_nothing() {
    let (vao, vbo, ebo) = handles();
    let model = Model::new(vao, vbo, ebo, &Mesh::<u8>::new());
    assert_eq!(model.len(), 0);
}

#[test]
fn vertex_format_sizes() {
    assert_eq!(VertexFormat::Float32.size(), (1, 4));
    assert_eq!(VertexFormat::Float32x2.size(), (2, 8));
    assert_eq!(VertexFormat::Float32x3.size(), (3, 12));
    assert_eq!(VertexFormat::Float32x4.size(), (4, 16));
    assert_eq!(VertexFormat::Float32x3.data_type(), glow::FLOAT);
    assert_eq!(GL_FLOAT, glow::FLOAT);
}

#[test]
fn layout_of_position_normal_uv() {
    let layout = VertexLayout {
        attributes: vec![
            VertextAttribute { format: VertexFormat::Float32x3 },
            VertextAttribute { format: VertexFormat::Float32x3 },
            VertextAttribute { format: VertexFormat::Float32x2 },
        ],
    };
    assert_eq!(layout.stride(), 32);
    let pointers = layout.attribute_pointers();
    let expected = [(0, 3, 0), (1, 3, 12), (2, 2, 24)];
    assert_eq!(pointers.len(), 3);
    for (p, (index, components, offset)) in pointers.iter().zip(expected) {
        assert_eq!(
            *p,
            AttributePointer { index, components, data_type: glow::FLOAT, stride: 32, offset }
        );
    }
}

#[test]
fn empty_layout_has_zero_stride() {
    let layout = VertexLayout { attributes: Vec::new() };
    assert_eq!(layout.stride(), 0);
    assert!(layout.attribute_pointers().is_empty());
}

#[test]
fn mesh_vertices_edit_in_place() {
    let mut mesh = Mesh::with_vertices(vec![1u8, 2, 3]);
    mesh.vertices_mut()[1] = 7;
    assert_eq!(mesh.vertices(), &vec![1, 7, 3]);
    mesh.vertices_mut_vec().push(4);
    assert_eq!(mesh.vertices(), &vec![1, 7, 3, 4]);
    assert_eq!(mesh.len(), 4);
}
