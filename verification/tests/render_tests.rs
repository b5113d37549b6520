use amazintosh_rs::buffer::{BufferType, BufferUsage};
use amazintosh_rs::mesh::MeshMode;
use amazintosh_rs::render::{
    clear_mask, GlCall, GlDataType, GlType, ARRAY_BUFFER, COLOR_BUFFER_BIT, DEPTH_BUFFER_BIT,
    ELEMENT_ARRAY_BUFFER, STATIC_DRAW, TRIANGLES, UNSIGNED_INT, UNSIGNED_SHORT,
};
use amazintosh_rs::trace::TraceGl;

#[test]
fn buffer_type_tags() {
    assert_eq!(BufferType::ArrayBuffer.gl_type(), ARRAY_BUFFER);
    assert_eq!(BufferType::ElementArrayBuffer.gl_type(), ELEMENT_ARRAY_BUFFER);
    assert_eq!(ARRAY_BUFFER, 0x8892);
    assert_eq!(ELEMENT_ARRAY_BUFFER, 0x8893);
}

#[test]
fn usage_and_mode_tags() {
    assert_eq!(BufferUsage::StaticDraw.gl_type(), STATIC_DRAW);
    assert_eq!(MeshMode::Triangles.gl_type(), TRIANGLES);
    assert_eq!(STATIC_DRAW, 0x88E4);
    assert_eq!(TRIANGLES, 0x0004);
}

#[test]
fn data_type_tags() {
    assert_eq!(u16::gl_data_type(), UNSIGNED_SHORT);
    assert_eq!(u32::gl_data_type(), UNSIGNED_INT);
    assert_eq!(UNSIGNED_SHORT, 0x1403);
    assert_eq!(UNSIGNED_INT, 0x1405);
}

#[test]
fn clear_mask_selects_the_requested_buffers() {
    assert_eq!(clear_mask(false, false), 0);
    assert_eq!(clear_mask(true, false), COLOR_BUFFER_BIT);
    assert_eq!(clear_mask(false, true), DEPTH_BUFFER_BIT);
    assert_eq!(clear_mask(true, true), COLOR_BUFFER_BIT | DEPTH_BUFFER_BIT);
}

#[test]
fn clear_with_no_buffer_selected_is_a_noop() {
    let mut gl = TraceGl::new();
    gl.clear(false, false);
    assert!(gl.recorded().is_empty());
    gl.clear(true, false);
    gl.clear(false, true);
    gl.clear(true, true);
    assert_eq!(
        gl.recorded().as_slice(),
        &[
            GlCall::Clear {
                mask: COLOR_BUFFER_BIT
            },
            GlCall::Clear {
                mask: DEPTH_BUFFER_BIT
            },
            GlCall::Clear {
                mask: COLOR_BUFFER_BIT | DEPTH_BUFFER_BIT
            },
        ]
    );
}
