//! The fixed shader program of the preview surface.
use vstd::prelude::*;

verus! {

/// Number of vertices issued by the one draw call of a frame.
pub const TRIANGLE_VERTEX_COUNT: u32 = 3;

/// Number of instances issued by the one draw call of a frame.
pub const TRIANGLE_INSTANCE_COUNT: u32 = 1;

/// WGSL source of the preview pipeline: a vertex stage whose position is a
/// function of the vertex index alone, and a fragment stage of one colour.
pub const TRIANGLE_SHADER: &'static str = "
@vertex
fn vs_main(@builtin(vertex_index) in_vertex_index: u32) -> @builtin(position) vec4<f32> {
    let x = f32(i32(in_vertex_index) - 1);
    let y = f32(i32(in_vertex_index & 1u) * 2 - 1);
    return vec4<f32>(x, y, 0.0, 1.0);
}

@fragment
fn fs_main() -> @location(0) vec4<f32> {
    return vec4<f32>(1.0, 0.0, 0.0, 1.0);
}
";

/// Entry point of the vertex stage in `TRIANGLE_SHADER`.
pub const VERTEX_ENTRY: &'static str = "vs_main";

/// Entry point of the fragment stage in `TRIANGLE_SHADER`.
pub const FRAGMENT_ENTRY: &'static str = "fs_main";

/// Clip-space x of a vertex: `vertex_index - 1`.
pub open spec fn clip_x(vertex_index: int) -> int {
    vertex_index - 1
}

/// Clip-space y of a vertex: `(vertex_index & 1) * 2 - 1`.
pub open spec fn clip_y(vertex_index: int) -> int {
    (vertex_index % 2) * 2 - 1
}

/// The clip-space position that the vertex stage computes for a vertex index,
/// as integers (the stage converts them to floats unchanged).
pub fn vertex_clip_position(vertex_index: u32) -> (r: (i32, i32))
    requires
        vertex_index <= i32::MAX,
    ensures
        r.0 == clip_x(vertex_index as int),
        r.1 == clip_y(vertex_index as int),
{
    let low: u32 = vertex_index & 1;
    assert(low == vertex_index % 2) by (bit_vector)
        requires
            low == vertex_index & 1,
    ;
    let x: i32 = vertex_index as i32 - 1;
    let y: i32 = low as i32 * 2 - 1;
    (x, y)
}

/// The three clip-space points of the preview triangle, in vertex order.
pub fn triangle_clip_positions() -> (r: Vec<(i32, i32)>)
    ensures
        r@.len() == TRIANGLE_VERTEX_COUNT,
        forall|i: int| 0 <= i < r@.len() ==> r@[i] == (clip_x(i) as i32, clip_y(i) as i32),
{
    let mut r: Vec<(i32, i32)> = Vec::new();
    let mut i: u32 = 0;
    while i < TRIANGLE_VERTEX_COUNT
        invariant
            i <= TRIANGLE_VERTEX_COUNT,
            r@.len() == i,
            forall|j: int| 0 <= j < i ==> r@[j] == (clip_x(j) as i32, clip_y(j) as i32),
        decreases TRIANGLE_VERTEX_COUNT - i,
    {
        let p = vertex_clip_position(i);
        r.push(p);
        i = i + 1;
    }
    r
}

/// The triangle's clip-space points do not depend on the surface: each is a
/// fixed literal, `(-1, -1)`, `(0, 1)` and `(1, -1)` for vertices 0, 1 and 2.
pub proof fn lemma_triangle_is_fixed()
    ensures
        clip_x(0) == -1 && clip_y(0) == -1,
        clip_x(1) == 0 && clip_y(1) == 1,
        clip_x(2) == 1 && clip_y(2) == -1,
{
}

} // verus!
