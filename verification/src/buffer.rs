//! GPU data buffers: each [`Buffer`] owns exactly one backend buffer handle
//! of a fixed kind and uploads records with an invalidate-then-fill policy.

use crate::render::{GlCall, GlCalls};
use vstd::layout::size_of;
use vstd::prelude::*;

verus! {

/// The kind of a buffer: vertex data or index data. Fixed at construction.
#[derive(Debug, Copy, Clone, PartialEq, Eq, Hash)]
pub enum BufferType {
    ArrayBuffer,
    ElementArrayBuffer,
}

/// Advisory upload policy hint passed to the backend.
#[derive(Debug, Copy, Clone, PartialEq, Eq, Hash)]
pub enum BufferUsage {
    StaticDraw,
}

/// Failure of a buffer operation.
#[derive(Debug, Copy, Clone, PartialEq, Eq)]
pub enum BufferError {
    /// The backend refused to allocate a handle (it returned the invalid
    /// sentinel 0).
    AllocationFailure,
    /// The byte size of an upload would exceed the backend's maximum
    /// representable size.
    SizeOverflow,
}

/// The two raw upload calls a data upload performs: first an invalidating
/// allocation of the full byte size with no payload, then the real payload
/// of the same size. Both calls always carry the same byte size.
pub open spec fn upload_calls(target: BufferType, usage: BufferUsage, size_bytes: usize) -> Seq<
    GlCall,
> {
    seq![
        GlCall::BufferData { target, usage, size_bytes, filled: false },
        GlCall::BufferData { target, usage, size_bytes, filled: true },
    ]
}

/// For every record count and record size, an upload is exactly two raw
/// calls: an invalidating one and a filling one, and the byte size of the
/// invalidate call always equals the byte size of the fill call. Together
/// with the contract of [`Buffer::buffer_data`] — whose trace ends in
/// `upload_calls` with `size_bytes == n * size_of::<DataType>()` — this
/// pins the byte size submitted to the backend for any upload of `n`
/// records.
pub proof fn lemma_upload_invalidate_then_fill(
    target: BufferType,
    usage: BufferUsage,
    size_bytes: usize,
)
    ensures
        upload_calls(target, usage, size_bytes).len() == 2,
        upload_calls(target, usage, size_bytes)[0] == (GlCall::BufferData {
            target,
            usage,
            size_bytes,
            filled: false,
        }),
        upload_calls(target, usage, size_bytes)[1] == (GlCall::BufferData {
            target,
            usage,
            size_bytes,
            filled: true,
        }),
{
}

/// Capability contract for buffer management. An implementation performs
/// the named backend call and records it in its trace; nothing else.
pub trait BufferHandler: GlCalls {
    /// Allocates one buffer handle; 0 signals allocation failure.
    fn gen_buffer(&mut self) -> (h: u32)
        ensures
            final(self).trace() == old(self).trace().push(GlCall::GenBuffer { handle: h }),
    ;

    /// Makes `handle` current in the binding slot of `buffer_type`.
    fn bind_buffer(&mut self, buffer_type: BufferType, handle: u32)
        ensures
            final(self).trace() == old(self).trace().push(
                GlCall::BindBuffer { target: buffer_type, handle },
            ),
    ;

    /// Uploads `data` to the currently bound buffer of `buffer_type`,
    /// invalidating the backend-side storage first. The byte size of both
    /// raw calls is exactly `data.len() * size_of::<DataType>()`.
    fn buffer_data<DataType: Sized>(
        &mut self,
        buffer_type: BufferType,
        usage: BufferUsage,
        data: &[DataType],
    )
        requires
            data@.len() * size_of::<DataType>() <= isize::MAX as int,
        ensures
            final(self).trace() == old(self).trace() + upload_calls(
                buffer_type,
                usage,
                (data@.len() * size_of::<DataType>()) as usize,
            ),
    ;

    /// Releases one buffer handle.
    fn delete_buffer(&mut self, handle: u32)
        ensures
            final(self).trace() == old(self).trace().push(GlCall::DeleteBuffer { handle }),
    ;
}

/// Owns one backend buffer handle of a fixed kind, holding records of type
/// `DataType`.
pub struct Buffer<DataType: Sized> {
    buffer_type: BufferType,
    handle: u32,
    _phantom: core::marker::PhantomData<DataType>,
}

impl<DataType: Sized> Buffer<DataType> {
    /// The backend handle this buffer owns.
    pub closed spec fn spec_handle(&self) -> u32 {
        self.handle
    }

    /// The kind this buffer was created with.
    pub closed spec fn spec_buffer_type(&self) -> BufferType {
        self.buffer_type
    }

    /// A buffer is well-formed when it owns a valid (non-sentinel) handle;
    /// construction only succeeds with such a handle.
    pub open spec fn wf(&self) -> bool {
        self.spec_handle() != 0
    }

    /// Allocates exactly one backend handle of the given kind. Fails if and
    /// only if the backend signals allocation failure by returning handle 0;
    /// the failure is surfaced, never silently ignored.
    pub fn new<H: BufferHandler>(gl: &mut H, buffer_type: BufferType) -> (r: Result<
        Self,
        BufferError,
    >)
        ensures
            (match r {
                Ok(b) => b.wf() && b.spec_buffer_type() == buffer_type && final(gl).trace() == old(gl).trace().push(GlCall::GenBuffer { handle: b.spec_handle() }),
                Err(e) => e == BufferError::AllocationFailure && final(gl).trace() == old(gl).trace().push(GlCall::GenBuffer { handle: 0u32 }),
            }),
    {
        let handle = gl.gen_buffer();
        if handle == 0 {
            return Err(BufferError::AllocationFailure);
        }
        Ok(
            Buffer {
                buffer_type,
                handle,
                _phantom: core::marker::PhantomData,
            },
        )
    }

    /// Makes this buffer current in its kind's binding slot.
    pub fn bind<H: BufferHandler>(&self, gl: &mut H)
        ensures
            final(gl).trace() == old(gl).trace().push(
                GlCall::BindBuffer { target: self.spec_buffer_type(), handle: self.spec_handle() },
            ),
    {
        gl.bind_buffer(self.buffer_type, self.handle);
    }

    /// Binds this buffer, then uploads `data` with the invalidate-then-fill
    /// policy: the backend sees the bind, an unfilled allocation of
    /// `data.len() * size_of::<DataType>()` bytes, and a filled upload of
    /// the same size. A byte size beyond the backend's maximum representable
    /// size is reported as [`BufferError::SizeOverflow`], with no backend
    /// call made.
    pub fn buffer_data<H: BufferHandler>(
        &self,
        gl: &mut H,
        data: Vec<DataType>,
        usage: BufferUsage,
    ) -> (r: Result<(), BufferError>)
        ensures
            (match r {
                Ok(()) => data@.len() * size_of::<DataType>() <= isize::MAX as int && final(gl).trace() == old(gl).trace().push(
                    GlCall::BindBuffer {
                        target: self.spec_buffer_type(),
                        handle: self.spec_handle(),
                    },
                ) + upload_calls(
                    self.spec_buffer_type(),
                    usage,
                    (data@.len() * size_of::<DataType>()) as usize,
                ),
                Err(e) => e == BufferError::SizeOverflow && data@.len() * size_of::<DataType>()
                    > isize::MAX as int && final(gl).trace() == old(gl).trace(),
            }),
    {
        let record_size = core::mem::size_of::<DataType>();
        match data.len().checked_mul(record_size) {
            Some(bytes) => {
                if bytes <= isize::MAX as usize {
                    self.bind(gl);
                    gl.buffer_data(self.buffer_type, usage, data.as_slice());
                    Ok(())
                } else {
                    Err(BufferError::SizeOverflow)
                }
            },
            None => Err(BufferError::SizeOverflow),
        }
    }

    /// Releases the owned handle. Consuming the buffer makes this the one
    /// and only release.
    pub fn delete<H: BufferHandler>(self, gl: &mut H)
        ensures
            final(gl).trace() == old(gl).trace().push(
                GlCall::DeleteBuffer { handle: self.spec_handle() },
            ),
    {
        gl.delete_buffer(self.handle);
    }
}

} // verus!
