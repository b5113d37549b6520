use amazintosh_rs::buffer::{BufferType, BufferUsage};
use amazintosh_rs::mesh::{Mesh, MeshError, MeshMode};
use amazintosh_rs::render::{GlCall, UNSIGNED_INT, UNSIGNED_SHORT};
use amazintosh_rs::trace::TraceGl;
use amazintosh_rs::vertex::{Vertex, VertexAttribPointer};

/// A 24-byte vertex record with two three-component attributes, the
/// second at byte offset 12.
#[derive(Debug, Copy, Clone)]
struct TwoSlotVertex {
    position: [u32; 3],
    color: [u32; 3],
}

impl Vertex for TwoSlotVertex {
    fn attrib_pointers() -> Vec<VertexAttribPointer> {
        vec![
            VertexAttribPointer::new::<u32>(0, 3, false, 0),
            VertexAttribPointer::new::<u32>(1, 3, false, 12),
        ]
    }
}

/// A vertex type whose only descriptor's offset lies outside one record.
#[derive(Debug, Copy, Clone)]
struct BadOffsetVertex {
    position: [u32; 2],
}

impl Vertex for BadOffsetVertex {
    fn attrib_pointers() -> Vec<VertexAttribPointer> {
        vec![VertexAttribPointer::new::<u32>(0, 2, false, 8)]
    }
}

fn vert(x: u32) -> TwoSlotVertex {
    TwoSlotVertex {
        position: [x, 0, 0],
        color: [0, x, 0],
    }
}

#[test]
fn new_registers_the_exact_layout() {
    let mut gl = TraceGl::new();
    let _mesh = Mesh::<TwoSlotVertex, u16>::new(&mut gl).unwrap();
    assert_eq!(
        gl.recorded().as_slice(),
        &[
            GlCall::GenVertexArray { handle: 1 },
            GlCall::GenBuffer { handle: 2 },
            GlCall::GenBuffer { handle: 3 },
            GlCall::BindVertexArray { handle: 1 },
            GlCall::BindBuffer {
                target: BufferType::ArrayBuffer,
                handle: 2,
            },
            GlCall::AttribPointer {
                index: 0,
                size: 3,
                data_type: UNSIGNED_INT,
                normalized: false,
                stride: 24,
                offset: 0,
            },
            GlCall::AttribPointer {
                index: 1,
                size: 3,
                data_type: UNSIGNED_INT,
                normalized: false,
                stride: 24,
                offset: 12,
            },
        ]
    );
}

#[test]
fn layout_is_unmodified_by_record_count_and_policy() {
    let mut gl = TraceGl::new();
    let mesh = Mesh::<TwoSlotVertex, u16>::new(&mut gl).unwrap();
    let registered: Vec<GlCall> = gl
        .recorded()
        .iter()
        .filter(|c| matches!(c, GlCall::AttribPointer { .. }))
        .cloned()
        .collect();
    let before = gl.recorded().len();
    mesh.set_vertices(&mut gl, vec![vert(1)], BufferUsage::StaticDraw)
        .unwrap();
    mesh.set_vertices(
        &mut gl,
        vec![vert(1), vert(2), vert(3)],
        BufferUsage::StaticDraw,
    )
    .unwrap();
    // No upload re-registers or alters an attribute pointer.
    assert!(gl.recorded()[before..]
        .iter()
        .all(|c| !matches!(c, GlCall::AttribPointer { .. })));
    assert_eq!(
        registered,
        vec![
            GlCall::AttribPointer {
                index: 0,
                size: 3,
                data_type: UNSIGNED_INT,
                normalized: false,
                stride: 24,
                offset: 0,
            },
            GlCall::AttribPointer {
                index: 1,
                size: 3,
                data_type: UNSIGNED_INT,
                normalized: false,
                stride: 24,
                offset: 12,
            },
        ]
    );
}

#[test]
fn set_indices_replaces_element_count() {
    let mut gl = TraceGl::new();
    let mut mesh = Mesh::<TwoSlotVertex, u16>::new(&mut gl).unwrap();
    mesh.set_indices(&mut gl, vec![0u16, 1, 2], BufferUsage::StaticDraw)
        .unwrap();
    assert_eq!(mesh.element_count(), 3);
    mesh.set_indices(&mut gl, vec![0u16, 1, 2, 1, 3], BufferUsage::StaticDraw)
        .unwrap();
    // The new count replaces the old one; nothing accumulates.
    assert_eq!(mesh.element_count(), 5);
    mesh.render(&mut gl);
    let draws: Vec<&GlCall> = gl
        .recorded()
        .iter()
        .filter(|c| matches!(c, GlCall::DrawElements { .. }))
        .collect();
    assert_eq!(
        draws,
        vec![&GlCall::DrawElements {
            mode: MeshMode::Triangles,
            count: 5,
            index_type: UNSIGNED_SHORT,
        }]
    );
}

#[test]
fn render_with_zero_elements_issues_no_calls() {
    let mut gl = TraceGl::new();
    let mesh = Mesh::<TwoSlotVertex, u16>::new(&mut gl).unwrap();
    let before = gl.recorded().len();
    mesh.render(&mut gl);
    assert_eq!(gl.recorded().len(), before);
    assert!(!gl
        .recorded()
        .iter()
        .any(|c| matches!(c, GlCall::DrawElements { .. })));
    assert!(!gl
        .recorded()
        .iter()
        .any(|c| matches!(c, GlCall::EnableAttrib { .. } | GlCall::DisableAttrib { .. })));
}

#[test]
fn render_enables_draws_and_disables_in_matching_order() {
    let mut gl = TraceGl::new();
    let mut mesh = Mesh::<TwoSlotVertex, u16>::new(&mut gl).unwrap();
    mesh.set_indices(&mut gl, vec![0u16, 1, 2], BufferUsage::StaticDraw)
        .unwrap();
    let before = gl.recorded().len();
    mesh.render(&mut gl);
    assert_eq!(
        &gl.recorded()[before..],
        &[
            GlCall::BindVertexArray { handle: 1 },
            GlCall::BindBuffer {
                target: BufferType::ElementArrayBuffer,
                handle: 3,
            },
            GlCall::EnableAttrib { index: 0 },
            GlCall::EnableAttrib { index: 1 },
            GlCall::DrawElements {
                mode: MeshMode::Triangles,
                count: 3,
                index_type: UNSIGNED_SHORT,
            },
            GlCall::DisableAttrib { index: 0 },
            GlCall::DisableAttrib { index: 1 },
        ]
    );
}

#[test]
fn set_vertices_binds_then_uploads() {
    let mut gl = TraceGl::new();
    let mesh = Mesh::<TwoSlotVertex, u16>::new(&mut gl).unwrap();
    let before = gl.recorded().len();
    mesh.set_vertices(&mut gl, vec![vert(1), vert(2)], BufferUsage::StaticDraw)
        .unwrap();
    assert_eq!(
        &gl.recorded()[before..],
        &[
            GlCall::BindVertexArray { handle: 1 },
            GlCall::BindBuffer {
                target: BufferType::ArrayBuffer,
                handle: 2,
            },
            GlCall::BufferData {
                target: BufferType::ArrayBuffer,
                usage: BufferUsage::StaticDraw,
                size_bytes: 48,
                filled: false,
            },
            GlCall::BufferData {
                target: BufferType::ArrayBuffer,
                usage: BufferUsage::StaticDraw,
                size_bytes: 48,
                filled: true,
            },
        ]
    );
}

#[test]
fn invalid_attribute_offset_is_rejected_before_allocation() {
    let mut gl = TraceGl::new();
    let result = Mesh::<BadOffsetVertex, u16>::new(&mut gl);
    assert_eq!(result.err(), Some(MeshError::FailedToSetupAttribs));
    assert!(gl.recorded().is_empty());
}

#[test]
fn allocation_failure_at_layout_object() {
    let mut gl = TraceGl::new();
    gl.script_alloc_failure(0);
    let result = Mesh::<TwoSlotVertex, u16>::new(&mut gl);
    assert_eq!(result.err(), Some(MeshError::AllocationFailed));
    assert_eq!(
        gl.recorded().as_slice(),
        &[GlCall::GenVertexArray { handle: 0 }]
    );
}

#[test]
fn allocation_failure_at_vertex_buffer_releases_layout_object() {
    let mut gl = TraceGl::new();
    gl.script_alloc_failure(1);
    let result = Mesh::<TwoSlotVertex, u16>::new(&mut gl);
    assert_eq!(result.err(), Some(MeshError::AllocationFailed));
    assert_eq!(
        gl.recorded().as_slice(),
        &[
            GlCall::GenVertexArray { handle: 1 },
            GlCall::GenBuffer { handle: 0 },
            GlCall::DeleteVertexArray { handle: 1 },
        ]
    );
}

#[test]
fn allocation_failure_at_index_buffer_releases_earlier_handles() {
    let mut gl = TraceGl::new();
    gl.script_alloc_failure(2);
    let result = Mesh::<TwoSlotVertex, u16>::new(&mut gl);
    assert_eq!(result.err(), Some(MeshError::AllocationFailed));
    assert_eq!(
        gl.recorded().as_slice(),
        &[
            GlCall::GenVertexArray { handle: 1 },
            GlCall::GenBuffer { handle: 2 },
            GlCall::GenBuffer { handle: 0 },
            GlCall::DeleteBuffer { handle: 2 },
            GlCall::DeleteVertexArray { handle: 1 },
        ]
    );
}

#[test]
fn delete_releases_buffers_then_layout_object() {
    let mut gl = TraceGl::new();
    let mesh = Mesh::<TwoSlotVertex, u16>::new(&mut gl).unwrap();
    let before = gl.recorded().len();
    mesh.delete(&mut gl);
    assert_eq!(
        &gl.recorded()[before..],
        &[
            GlCall::DeleteBuffer { handle: 2 },
            GlCall::DeleteBuffer { handle: 3 },
            GlCall::DeleteVertexArray { handle: 1 },
        ]
    );
}
