use town_links::camera::CameraUniform;
use town_links::mat4x4_uniform::{Mat4x4Uniform, ONE, UNIFORM_SIZE};
use town_links::model::ModelUniform;

fn bits(mat: [[f32; 4]; 4]) -> [[u32; 4]; 4] {
    let mut out = [[0u32; 4]; 4];
    for r in 0..4 {
        for c in 0..4 {
            out[r][c] = mat[r][c].to_bits();
        }
    }
    out
}

fn native_bytes(mat: [[f32; 4]; 4]) -> Vec<u8> {
    let mut out = Vec::new();
    for row in mat.iter() {
        for x in row.iter() {
            out.extend_from_slice(&x.to_ne_bytes());
        }
    }
    out
}

const SAMPLE: [[f32; 4]; 4] = [
    [1.5, -2.0, 0.25, 0.0],
    [3.0, 4.0, -5.5, 6.0],
    [0.1, 0.2, 0.3, 0.4],
    [100.0, -0.0, 7.0, 1.0],
];

const IDENTITY: [[f32; 4]; 4] = [
    [1.0, 0.0, 0.0, 0.0],
    [0.0, 1.0, 0.0, 0.0],
    [0.0, 0.0, 1.0, 0.0],
    [0.0, 0.0, 0.0, 1.0],
];

#[test]
fn one_is_the_pattern_of_one() {
    assert_eq!(ONE, 1.0f32.to_bits());
    assert_eq!(UNIFORM_SIZE, 64);
}

#[test]
fn default_block_is_the_identity() {
    let block = Mat4x4Uniform::default();
    assert_eq!(block.mat(), bits(IDENTITY));
    let identity: [[f32; 4]; 4] = cgmath::Matrix4::<f32>::from_scale(1.0).into();
    assert_eq!(block.mat(), bits(identity));
}

#[test]
fn update_mat_replaces_the_transform() {
    let mut block = Mat4x4Uniform::default();
    block.update_mat(bits(SAMPLE));
    assert_eq!(block.mat(), bits(SAMPLE));
    block.update_mat(bits(IDENTITY));
    assert_eq!(block.mat(), bits(IDENTITY));
}

#[test]
fn words_go_row_after_row() {
    let mut block = Mat4x4Uniform::default();
    block.update_mat([[1, 2, 3, 4], [5, 6, 7, 8], [9, 10, 11, 12], [13, 14, 15, 16]]);
    assert_eq!(block.words(), (1..=16).collect::<Vec<u32>>());
}

#[test]
fn contents_are_the_memory_of_the_matrix() {
    let mut block = Mat4x4Uniform::default();
    block.update_mat(bits(SAMPLE));
    let bytes = block.contents();
    assert_eq!(bytes.len(), 64);
    assert_eq!(bytes, native_bytes(SAMPLE));
}

#[test]
fn camera_uniform_takes_the_view_projection() {
    let mut uniform = CameraUniform::default();
    assert_eq!(uniform.contents(), native_bytes(IDENTITY));
    uniform.update_view_proj(bits(SAMPLE));
    assert_eq!(uniform.contents(), native_bytes(SAMPLE));
}

#[test]
fn model_uniform_takes_the_rotation() {
    let mut uniform = ModelUniform::default();
    assert_eq!(uniform.contents(), native_bytes(IDENTITY));
    let rotation: [[f32; 4]; 4] = cgmath::Matrix4::from_angle_x(cgmath::Deg(30.0f32)).into();
    uniform.update_model(bits(rotation));
    assert_eq!(uniform.contents(), native_bytes(rotation));
}
