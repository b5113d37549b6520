use amazintosh_rs::buffer::{Buffer, BufferError, BufferType, BufferUsage};
use amazintosh_rs::render::GlCall;
use amazintosh_rs::trace::TraceGl;

#[test]
fn upload_size_matches_record_count() {
    let mut gl = TraceGl::new();
    let buffer = Buffer::<u16>::new(&mut gl, BufferType::ArrayBuffer).unwrap();
    buffer
        .buffer_data(&mut gl, vec![1u16, 2, 3, 4, 5], BufferUsage::StaticDraw)
        .unwrap();
    assert_eq!(
        gl.recorded().as_slice(),
        &[
            GlCall::GenBuffer { handle: 1 },
            GlCall::BindBuffer {
                target: BufferType::ArrayBuffer,
                handle: 1,
            },
            GlCall::BufferData {
                target: BufferType::ArrayBuffer,
                usage: BufferUsage::StaticDraw,
                size_bytes: 10,
                filled: false,
            },
            GlCall::BufferData {
                target: BufferType::ArrayBuffer,
                usage: BufferUsage::StaticDraw,
                size_bytes: 10,
                filled: true,
            },
        ]
    );
}

#[test]
fn upload_zero_records_submits_zero_bytes() {
    let mut gl = TraceGl::new();
    let buffer = Buffer::<u32>::new(&mut gl, BufferType::ElementArrayBuffer).unwrap();
    buffer
        .buffer_data(&mut gl, Vec::new(), BufferUsage::StaticDraw)
        .unwrap();
    let calls = gl.recorded();
    assert_eq!(calls.len(), 4);
    assert_eq!(
        calls[2],
        GlCall::BufferData {
            target: BufferType::ElementArrayBuffer,
            usage: BufferUsage::StaticDraw,
            size_bytes: 0,
            filled: false,
        }
    );
    assert_eq!(
        calls[3],
        GlCall::BufferData {
            target: BufferType::ElementArrayBuffer,
            usage: BufferUsage::StaticDraw,
            size_bytes: 0,
            filled: true,
        }
    );
}

#[test]
fn invalidate_size_always_equals_fill_size() {
    for count in [0usize, 1, 2, 7, 100] {
        let mut gl = TraceGl::new();
        let buffer = Buffer::<u32>::new(&mut gl, BufferType::ArrayBuffer).unwrap();
        buffer
            .buffer_data(&mut gl, vec![9u32; count], BufferUsage::StaticDraw)
            .unwrap();
        let calls = gl.recorded();
        match (&calls[2], &calls[3]) {
            (
                GlCall::BufferData {
                    size_bytes: invalidate,
                    filled: false,
                    ..
                },
                GlCall::BufferData {
                    size_bytes: fill,
                    filled: true,
                    ..
                },
            ) => {
                assert_eq!(invalidate, fill);
                assert_eq!(*fill, count * 4);
            }
            other => panic!("unexpected upload calls: {:?}", other),
        }
    }
}

#[test]
fn buffer_allocation_failure_is_surfaced() {
    let mut gl = TraceGl::new();
    gl.script_alloc_failure(0);
    let result = Buffer::<u16>::new(&mut gl, BufferType::ArrayBuffer);
    assert_eq!(result.err(), Some(BufferError::AllocationFailure));
    assert_eq!(
        gl.recorded().as_slice(),
        &[GlCall::GenBuffer { handle: 0 }]
    );
}

#[test]
fn bind_makes_the_kind_slot_current() {
    let mut gl = TraceGl::new();
    let buffer = Buffer::<u16>::new(&mut gl, BufferType::ElementArrayBuffer).unwrap();
    buffer.bind(&mut gl);
    assert_eq!(
        gl.recorded()[1],
        GlCall::BindBuffer {
            target: BufferType::ElementArrayBuffer,
            handle: 1,
        }
    );
}

#[test]
fn delete_releases_the_handle_once() {
    let mut gl = TraceGl::new();
    let buffer = Buffer::<u16>::new(&mut gl, BufferType::ArrayBuffer).unwrap();
    buffer.delete(&mut gl);
    assert_eq!(
        gl.recorded().as_slice(),
        &[
            GlCall::GenBuffer { handle: 1 },
            GlCall::DeleteBuffer { handle: 1 },
        ]
    );
}
