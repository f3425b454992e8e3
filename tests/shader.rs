use obs_shell::graphics::shader::{
    triangle_clip_positions, vertex_clip_position, TRIANGLE_INSTANCE_COUNT, TRIANGLE_SHADER,
    TRIANGLE_VERTEX_COUNT,
};

#[test]
fn vertex_formula_gives_fixed_points() {
    assert_eq!(vertex_clip_position(0), (-1, -1));
    assert_eq!(vertex_clip_position(1), (0, 1));
    assert_eq!(vertex_clip_position(2), (1, -1));
}

#[test]
fn vertex_formula_beyond_the_triangle() {
    assert_eq!(vertex_clip_position(3), (2, 1));
    assert_eq!(vertex_clip_position(4), (3, -1));
}

#[test]
fn triangle_points_in_vertex_order() {
    assert_eq!(triangle_clip_positions(), vec![(-1, -1), (0, 1), (1, -1)]);
    assert_eq!(TRIANGLE_VERTEX_COUNT, 3);
    assert_eq!(TRIANGLE_INSTANCE_COUNT, 1);
}

#[test]
fn shader_source_has_both_stages() {
    assert!(TRIANGLE_SHADER.contains("fn vs_main"));
    assert!(TRIANGLE_SHADER.contains("fn fs_main"));
    assert!(TRIANGLE_SHADER.contains("i32(in_vertex_index) - 1"));
}
