//! Drawable objects: a [`Mesh`] composes one vertex-layout object handle,
//! one vertex buffer, one index buffer and an element count, and owns the
//! full GPU-side representation of one drawable.

use crate::buffer::{upload_calls, Buffer, BufferType, BufferUsage};
use crate::render::{GlCall, GlCalls, GlDataType, RenderHandler};
use crate::vertex::{attribs_valid, check_attribs, Vertex, VertexAttribPointer};
use vstd::layout::size_of;
use vstd::prelude::*;

verus! {

/// The draw primitive kind for an indexed draw call.
#[derive(Debug, Copy, Clone, PartialEq, Eq, Hash)]
pub enum MeshMode {
    Triangles,
}

/// Failure of a mesh operation.
#[derive(Debug, Copy, Clone, PartialEq, Eq)]
pub enum MeshError {
    FailedToUpdateData,
    /// A data upload was refused (its byte size is not representable).
    FailedToBufferData,
    /// The vertex type's attribute descriptors are invalid (a component
    /// count outside 1..=4, or an offset outside one record).
    FailedToSetupAttribs,
    /// The backend refused to allocate a handle during construction; every
    /// handle acquired before the failure has been released again.
    AllocationFailed,
}

/// Capability contract for vertex-layout objects and draw calls. An
/// implementation performs the named backend call and records it in its
/// trace; nothing else.
pub trait MeshHandler: GlCalls {
    /// Allocates one vertex-layout object handle; 0 signals failure.
    fn gen_vertex_array(&mut self) -> (h: u32)
        ensures
            final(self).trace() == old(self).trace().push(GlCall::GenVertexArray { handle: h }),
    ;

    /// Releases one vertex-layout object handle.
    fn delete_vertex_array(&mut self, handle: u32)
        ensures
            final(self).trace() == old(self).trace().push(GlCall::DeleteVertexArray { handle }),
    ;

    /// Registers one attribute pointer against the bound layout object,
    /// with the record stride taken from `VertexType`'s memory layout.
    fn vertex_attrib_pointer<VertexType: Vertex>(&mut self, pointer: &VertexAttribPointer)
        ensures
            final(self).trace() == old(self).trace().push(
                attrib_call(*pointer, size_of::<VertexType>() as usize),
            ),
    ;

    /// Enables one attribute slot.
    fn enable_attrib_array(&mut self, index: usize)
        ensures
            final(self).trace() == old(self).trace().push(GlCall::EnableAttrib { index }),
    ;

    /// Disables one attribute slot.
    fn disable_attrib_array(&mut self, index: usize)
        ensures
            final(self).trace() == old(self).trace().push(GlCall::DisableAttrib { index }),
    ;

    /// Makes `handle` the current vertex-layout object.
    fn bind_vertex_array(&mut self, handle: u32)
        ensures
            final(self).trace() == old(self).trace().push(GlCall::BindVertexArray { handle }),
    ;

    /// Issues one indexed draw call reading `indices` elements whose
    /// numeric type is `IndexType`.
    fn draw_elements<IndexType: GlDataType>(&mut self, mode: MeshMode, indices: usize)
        ensures
            final(self).trace() == old(self).trace().push(
                GlCall::DrawElements {
                    mode,
                    count: indices,
                    index_type: IndexType::spec_gl_data_type(),
                },
            ),
    ;
}

/// The backend call that registers one attribute pointer with a given
/// record stride.
pub open spec fn attrib_call(p: VertexAttribPointer, stride: usize) -> GlCall {
    GlCall::AttribPointer {
        index: p.index,
        size: p.size,
        data_type: p.data_type,
        normalized: p.normalized,
        stride,
        offset: p.offset,
    }
}

/// The calls that register a whole descriptor list, in order, all with the
/// same stride: each descriptor's slot, component count, type tag,
/// normalization flag and offset are passed through unmodified.
pub open spec fn attrib_calls(ptrs: Seq<VertexAttribPointer>, stride: usize) -> Seq<GlCall> {
    ptrs.map_values(|p: VertexAttribPointer| attrib_call(p, stride))
}

/// The calls that enable each descriptor's attribute slot, in order.
pub open spec fn enable_calls(ptrs: Seq<VertexAttribPointer>) -> Seq<GlCall> {
    ptrs.map_values(|p: VertexAttribPointer| GlCall::EnableAttrib { index: p.index })
}

/// The calls that disable each descriptor's attribute slot, in order.
pub open spec fn disable_calls(ptrs: Seq<VertexAttribPointer>) -> Seq<GlCall> {
    ptrs.map_values(|p: VertexAttribPointer| GlCall::DisableAttrib { index: p.index })
}

/// The full call sequence of a successful mesh construction: allocate the
/// layout object and both buffers, bind the layout object and the vertex
/// buffer, then register every attribute pointer of the vertex type.
pub open spec fn mesh_setup_calls(
    vao: u32,
    vbo: u32,
    ebo: u32,
    ptrs: Seq<VertexAttribPointer>,
    stride: usize,
) -> Seq<GlCall> {
    seq![
        GlCall::GenVertexArray { handle: vao },
        GlCall::GenBuffer { handle: vbo },
        GlCall::GenBuffer { handle: ebo },
        GlCall::BindVertexArray { handle: vao },
        GlCall::BindBuffer { target: BufferType::ArrayBuffer, handle: vbo },
    ] + attrib_calls(ptrs, stride)
}

/// The trace of a construction on which the vertex-buffer allocation was
/// refused: the layout object had been acquired and is released again.
pub open spec fn alloc_failure_at_vbo(t0: Seq<GlCall>, t1: Seq<GlCall>, vao: u32) -> bool {
    vao != 0 && t1 == t0 + seq![
        GlCall::GenVertexArray { handle: vao },
        GlCall::GenBuffer { handle: 0u32 },
        GlCall::DeleteVertexArray { handle: vao },
    ]
}

/// The trace of a construction on which the index-buffer allocation was
/// refused: the layout object and the vertex buffer had been acquired and
/// are released again, the buffer before the layout object.
pub open spec fn alloc_failure_at_ebo(t0: Seq<GlCall>, t1: Seq<GlCall>, vao: u32, vbo: u32) -> bool {
    vao != 0 && vbo != 0 && t1 == t0 + seq![
        GlCall::GenVertexArray { handle: vao },
        GlCall::GenBuffer { handle: vbo },
        GlCall::GenBuffer { handle: 0u32 },
        GlCall::DeleteBuffer { handle: vbo },
        GlCall::DeleteVertexArray { handle: vao },
    ]
}

/// The possible traces of a mesh construction on which the backend refused
/// an allocation: whatever had been acquired before the refusal is released
/// again, buffers before the layout object.
pub open spec fn mesh_alloc_failure(t0: Seq<GlCall>, t1: Seq<GlCall>) -> bool {
    ||| t1 == t0.push(GlCall::GenVertexArray { handle: 0u32 })
    ||| (exists|vao: u32| #[trigger] alloc_failure_at_vbo(t0, t1, vao))
    ||| (exists|vao: u32, vbo: u32| #[trigger] alloc_failure_at_ebo(t0, t1, vao, vbo))
}

/// The full call sequence of a render: bind the layout object and the index
/// buffer, enable every attribute slot, issue exactly one indexed draw
/// call, then disable every slot in matching order.
pub open spec fn render_calls(
    vao: u32,
    ebo: u32,
    ptrs: Seq<VertexAttribPointer>,
    count: usize,
    index_type: u32,
) -> Seq<GlCall> {
    seq![
        GlCall::BindVertexArray { handle: vao },
        GlCall::BindBuffer { target: BufferType::ElementArrayBuffer, handle: ebo },
    ] + enable_calls(ptrs) + seq![
        GlCall::DrawElements { mode: MeshMode::Triangles, count, index_type },
    ] + disable_calls(ptrs)
}

/// The layout registered with the backend reproduces each descriptor
/// exactly: the calls of `attrib_calls` pass every descriptor's slot,
/// component count, type tag, normalization flag and byte offset through
/// unmodified, one call per descriptor in order, all with the same record
/// stride — whatever the record count or upload policy elsewhere.
pub proof fn lemma_attrib_calls_exact(ptrs: Seq<VertexAttribPointer>, stride: usize)
    ensures
        attrib_calls(ptrs, stride).len() == ptrs.len(),
        forall|i: int|
            0 <= i < ptrs.len() ==> attrib_calls(ptrs, stride)[i] == (GlCall::AttribPointer {
                index: ptrs[i].index,
                size: ptrs[i].size,
                data_type: ptrs[i].data_type,
                normalized: ptrs[i].normalized,
                stride,
                offset: ptrs[i].offset,
            }),
{
}

/// The shape of a non-empty render: exactly one indexed draw call stands
/// in the trace, preceded by one enable call per attribute slot and
/// followed by one disable call per slot, in matching order. Together with
/// the contract of [`Mesh::render`] — which appends nothing at all when
/// the element count is 0 — this pins the draw and enable/disable calls a
/// render issues.
pub proof fn lemma_render_calls_shape(
    vao: u32,
    ebo: u32,
    ptrs: Seq<VertexAttribPointer>,
    count: usize,
    index_type: u32,
)
    ensures
        render_calls(vao, ebo, ptrs, count, index_type).len() == 3 + 2 * ptrs.len(),
        forall|i: int|
            0 <= i < render_calls(vao, ebo, ptrs, count, index_type).len() ==> ((render_calls(
                vao,
                ebo,
                ptrs,
                count,
                index_type,
            )[i] is DrawElements) <==> i == 2 + ptrs.len()),
        forall|j: int|
            0 <= j < ptrs.len() ==> render_calls(vao, ebo, ptrs, count, index_type)[2 + j]
                == (GlCall::EnableAttrib { index: ptrs[j].index }),
        forall|j: int|
            0 <= j < ptrs.len() ==> render_calls(vao, ebo, ptrs, count, index_type)[3 + ptrs.len()
                + j] == (GlCall::DisableAttrib { index: ptrs[j].index }),
{
    let calls = render_calls(vao, ebo, ptrs, count, index_type);
    assert forall|i: int| 0 <= i < calls.len() implies ((calls[i] is DrawElements) <==> i == 2
        + ptrs.len()) by {
        if i < 2 {
        } else if i < 2 + ptrs.len() {
            assert(calls[i] == enable_calls(ptrs)[i - 2]);
        } else if i == 2 + ptrs.len() {
        } else {
            assert(calls[i] == disable_calls(ptrs)[i - 3 - ptrs.len()]);
        }
    }
}

/// Owns the full GPU-side representation of one drawable: a vertex-layout
/// object, a vertex buffer, an index buffer and the element count of the
/// most recent index upload.
pub struct Mesh<VertexType: Vertex, IndexType: GlDataType> {
    vao: u32,
    vbo: Buffer<VertexType>,
    ebo: Buffer<IndexType>,
    elements: usize,
}

impl<VertexType: Vertex, IndexType: GlDataType> Mesh<VertexType, IndexType> {
    /// The layout-object handle this mesh owns.
    pub closed spec fn spec_vao(&self) -> u32 {
        self.vao
    }

    /// The handle of the owned vertex buffer.
    pub closed spec fn spec_vbo_handle(&self) -> u32 {
        self.vbo.spec_handle()
    }

    /// The handle of the owned index buffer.
    pub closed spec fn spec_ebo_handle(&self) -> u32 {
        self.ebo.spec_handle()
    }

    /// The element count: always the number of indices most recently
    /// uploaded, 0 before any upload.
    pub closed spec fn spec_elements(&self) -> usize {
        self.elements
    }

    /// The kind of the owned vertex buffer; always
    /// [`BufferType::ArrayBuffer`] on a well-formed mesh.
    pub closed spec fn spec_vbo_type(&self) -> BufferType {
        self.vbo.spec_buffer_type()
    }

    /// The kind of the owned index buffer; always
    /// [`BufferType::ElementArrayBuffer`] on a well-formed mesh.
    pub closed spec fn spec_ebo_type(&self) -> BufferType {
        self.ebo.spec_buffer_type()
    }

    /// A mesh is well-formed when it owns valid handles, its vertex buffer
    /// is a vertex-data buffer, its index buffer an index-data buffer, and
    /// its vertex type's descriptors are valid.
    pub open spec fn wf(&self) -> bool {
        &&& self.spec_vao() != 0
        &&& self.spec_vbo_handle() != 0
        &&& self.spec_ebo_handle() != 0
        &&& self.spec_vbo_type() == BufferType::ArrayBuffer
        &&& self.spec_ebo_type() == BufferType::ElementArrayBuffer
        &&& attribs_valid::<VertexType>()
    }

    /// Allocates the layout object and both buffers, then registers the
    /// vertex type's attribute layout so that binding the layout object
    /// alone suffices at draw time. The registered layout reproduces each
    /// descriptor's slot, component count, type tag, normalization flag and
    /// offset exactly, with the record stride of `VertexType`. Invalid
    /// descriptors are rejected before anything is allocated; an allocation
    /// refusal releases every handle acquired before it.
    pub fn new<H: RenderHandler>(gl: &mut H) -> (r: Result<Self, MeshError>)
        ensures
            (match r {
                Ok(m) => m.wf() && m.spec_elements() == 0 && final(gl).trace() == old(gl).trace()
                    + mesh_setup_calls(
                    m.spec_vao(),
                    m.spec_vbo_handle(),
                    m.spec_ebo_handle(),
                    VertexType::spec_attribs(),
                    size_of::<VertexType>() as usize,
                ),
                Err(MeshError::FailedToSetupAttribs) => !attribs_valid::<VertexType>() && final(gl).trace() == old(gl).trace(),
                Err(MeshError::AllocationFailed) => attribs_valid::<VertexType>()
                    && mesh_alloc_failure(old(gl).trace(), final(gl).trace()),
                Err(_) => false,
            }),
    {
        let ptrs = VertexType::attrib_pointers();
        if !check_attribs::<VertexType>(&ptrs) {
            return Err(MeshError::FailedToSetupAttribs);
        }
        let vao = gl.gen_vertex_array();
        if vao == 0 {
            return Err(MeshError::AllocationFailed);
        }
        let vbo = match Buffer::<VertexType>::new(gl, BufferType::ArrayBuffer) {
            Ok(b) => b,
            Err(_) => {
                gl.delete_vertex_array(vao);
                proof {
                    assert(gl.trace() =~= old(gl).trace() + seq![
                        GlCall::GenVertexArray { handle: vao },
                        GlCall::GenBuffer { handle: 0u32 },
                        GlCall::DeleteVertexArray { handle: vao },
                    ]);
                    assert(alloc_failure_at_vbo(old(gl).trace(), gl.trace(), vao));
                }
                return Err(MeshError::AllocationFailed);
            },
        };
        let ebo = match Buffer::<IndexType>::new(gl, BufferType::ElementArrayBuffer) {
            Ok(b) => b,
            Err(_) => {
                let ghost vbo_handle = vbo.spec_handle();
                vbo.delete(gl);
                gl.delete_vertex_array(vao);
                proof {
                    assert(gl.trace() =~= old(gl).trace() + seq![
                        GlCall::GenVertexArray { handle: vao },
                        GlCall::GenBuffer { handle: vbo_handle },
                        GlCall::GenBuffer { handle: 0u32 },
                        GlCall::DeleteBuffer { handle: vbo_handle },
                        GlCall::DeleteVertexArray { handle: vao },
                    ]);
                    assert(alloc_failure_at_ebo(old(gl).trace(), gl.trace(), vao, vbo_handle));
                }
                return Err(MeshError::AllocationFailed);
            },
        };
        let mesh = Mesh { vao, vbo, ebo, elements: 0 };
        gl.bind_vertex_array(mesh.vao);
        mesh.vbo.bind(gl);
        let ghost t_base = gl.trace();
        let stride = core::mem::size_of::<VertexType>();
        let mut i: usize = 0;
        while i < ptrs.len()
            invariant
                ptrs@ == VertexType::spec_attribs(),
                0 <= i <= ptrs@.len(),
                stride == size_of::<VertexType>(),
                gl.trace() == t_base + attrib_calls(ptrs@.take(i as int), stride),
            decreases ptrs@.len() - i,
        {
            gl.vertex_attrib_pointer::<VertexType>(&ptrs[i]);
            proof {
                assert(ptrs@.take(i + 1).map_values(
                    |p: VertexAttribPointer| attrib_call(p, stride),
                ) =~= ptrs@.take(i as int).map_values(
                    |p: VertexAttribPointer| attrib_call(p, stride),
                ).push(attrib_call(ptrs@[i as int], stride)));
            }
            i = i + 1;
        }
        proof {
            assert(ptrs@.take(ptrs@.len() as int) =~= ptrs@);
            assert(gl.trace() =~= old(gl).trace() + mesh_setup_calls(
                mesh.spec_vao(),
                mesh.spec_vbo_handle(),
                mesh.spec_ebo_handle(),
                VertexType::spec_attribs(),
                size_of::<VertexType>() as usize,
            ));
        }
        Ok(mesh)
    }

    /// Makes this mesh's layout object current.
    pub fn bind<H: RenderHandler>(&self, gl: &mut H)
        ensures
            final(gl).trace() == old(gl).trace().push(
                GlCall::BindVertexArray { handle: self.spec_vao() },
            ),
    {
        gl.bind_vertex_array(self.vao);
    }

    /// Re-binds the layout object, then uploads the vertex records through
    /// the owned vertex buffer with the invalidate-then-fill policy. An
    /// unrepresentable byte size is reported as
    /// [`MeshError::FailedToBufferData`] after the bind, with no upload
    /// call made.
    pub fn set_vertices<H: RenderHandler>(
        &self,
        gl: &mut H,
        vertices: Vec<VertexType>,
        usage: BufferUsage,
    ) -> (r: Result<(), MeshError>)
        requires
            self.wf(),
        ensures
            (match r {
                Ok(()) => vertices@.len() * size_of::<VertexType>() <= isize::MAX as int && final(gl).trace() == old(gl).trace() + seq![
                    GlCall::BindVertexArray { handle: self.spec_vao() },
                    GlCall::BindBuffer {
                        target: BufferType::ArrayBuffer,
                        handle: self.spec_vbo_handle(),
                    },
                ] + upload_calls(
                    BufferType::ArrayBuffer,
                    usage,
                    (vertices@.len() * size_of::<VertexType>()) as usize,
                ),
                Err(MeshError::FailedToBufferData) => vertices@.len() * size_of::<VertexType>()
                    > isize::MAX as int && final(gl).trace() == old(gl).trace().push(
                    GlCall::BindVertexArray { handle: self.spec_vao() },
                ),
                Err(_) => false,
            }),
    {
        self.bind(gl);
        let r = self.vbo.buffer_data(gl, vertices, usage);
        match r {
            Ok(()) => {
                proof {
                    assert(gl.trace() =~= old(gl).trace() + seq![
                        GlCall::BindVertexArray { handle: self.spec_vao() },
                        GlCall::BindBuffer {
                            target: BufferType::ArrayBuffer,
                            handle: self.spec_vbo_handle(),
                        },
                    ] + upload_calls(
                        BufferType::ArrayBuffer,
                        usage,
                        (vertices@.len() * size_of::<VertexType>()) as usize,
                    ));
                }
                Ok(())
            },
            Err(_) => Err(MeshError::FailedToBufferData),
        }
    }

    /// Re-binds the layout object, uploads the index records through the
    /// owned index buffer, and records the new element count, replacing any
    /// prior count — there is no accumulation across calls. On failure the
    /// mesh, its element count included, is unchanged.
    pub fn set_indices<H: RenderHandler>(
        &mut self,
        gl: &mut H,
        indices: Vec<IndexType>,
        usage: BufferUsage,
    ) -> (r: Result<(), MeshError>)
        requires
            old(self).wf(),
        ensures
            final(self).spec_vao() == old(self).spec_vao(),
            final(self).spec_vbo_handle() == old(self).spec_vbo_handle(),
            final(self).spec_ebo_handle() == old(self).spec_ebo_handle(),
            final(self).wf(),
            (match r {
                Ok(()) => final(self).spec_elements() == indices@.len() && indices@.len() * size_of::<
                    IndexType,
                >() <= isize::MAX as int && final(gl).trace() == old(gl).trace() + seq![
                    GlCall::BindVertexArray { handle: old(self).spec_vao() },
                    GlCall::BindBuffer {
                        target: BufferType::ElementArrayBuffer,
                        handle: old(self).spec_ebo_handle(),
                    },
                ] + upload_calls(
                    BufferType::ElementArrayBuffer,
                    usage,
                    (indices@.len() * size_of::<IndexType>()) as usize,
                ),
                Err(MeshError::FailedToBufferData) => final(self).spec_elements() == old(self).spec_elements() && indices@.len() * size_of::<IndexType>() > isize::MAX as int
                    && final(gl).trace() == old(gl).trace().push(
                    GlCall::BindVertexArray { handle: old(self).spec_vao() },
                ),
                Err(_) => false,
            }),
    {
        self.bind(gl);
        let element_count = indices.len();
        let r = self.ebo.buffer_data(gl, indices, usage);
        match r {
            Ok(()) => {
                self.elements = element_count;
                proof {
                    assert(gl.trace() =~= old(gl).trace() + seq![
                        GlCall::BindVertexArray { handle: old(self).spec_vao() },
                        GlCall::BindBuffer {
                            target: BufferType::ElementArrayBuffer,
                            handle: old(self).spec_ebo_handle(),
                        },
                    ] + upload_calls(
                        BufferType::ElementArrayBuffer,
                        usage,
                        (indices@.len() * size_of::<IndexType>()) as usize,
                    ));
                }
                Ok(())
            },
            Err(_) => Err(MeshError::FailedToBufferData),
        }
    }

    /// Renders the mesh: with element count 0 this issues no backend call
    /// at all; otherwise it binds the layout object and the index buffer,
    /// enables each attribute slot, issues exactly one indexed draw call
    /// whose index type matches the index buffer's element type, and
    /// disables each slot again in matching order.
    pub fn render<H: RenderHandler>(&self, gl: &mut H)
        requires
            self.wf(),
        ensures
            (if self.spec_elements() == 0 {
                final(gl).trace() == old(gl).trace()
            } else {
                final(gl).trace() == old(gl).trace() + render_calls(
                    self.spec_vao(),
                    self.spec_ebo_handle(),
                    VertexType::spec_attribs(),
                    self.spec_elements(),
                    IndexType::spec_gl_data_type(),
                )
            }),
    {
        if self.elements < 1 {
            return ;
        }
        self.bind(gl);
        self.ebo.bind(gl);
        let ghost t_base = gl.trace();
        proof {
            assert(t_base =~= old(gl).trace() + seq![
                GlCall::BindVertexArray { handle: self.spec_vao() },
                GlCall::BindBuffer {
                    target: BufferType::ElementArrayBuffer,
                    handle: self.spec_ebo_handle(),
                },
            ]);
        }
        let ptrs = VertexType::attrib_pointers();
        let mut i: usize = 0;
        while i < ptrs.len()
            invariant
                ptrs@ == VertexType::spec_attribs(),
                0 <= i <= ptrs@.len(),
                gl.trace() == t_base + enable_calls(ptrs@.take(i as int)),
            decreases ptrs@.len() - i,
        {
            gl.enable_attrib_array(ptrs[i].index);
            proof {
                assert(ptrs@.take(i + 1).map_values(
                    |p: VertexAttribPointer| GlCall::EnableAttrib { index: p.index },
                ) =~= ptrs@.take(i as int).map_values(
                    |p: VertexAttribPointer| GlCall::EnableAttrib { index: p.index },
                ).push(GlCall::EnableAttrib { index: ptrs@[i as int].index }));
            }
            i = i + 1;
        }
        proof {
            assert(ptrs@.take(ptrs@.len() as int) =~= ptrs@);
            assert(gl.trace() == t_base + enable_calls(ptrs@));
        }
        gl.draw_elements::<IndexType>(MeshMode::Triangles, self.elements);
        let ghost t_draw = gl.trace();
        proof {
            assert(t_draw =~= t_base + enable_calls(ptrs@) + seq![
                GlCall::DrawElements {
                    mode: MeshMode::Triangles,
                    count: self.spec_elements(),
                    index_type: IndexType::spec_gl_data_type(),
                },
            ]);
        }
        let mut j: usize = 0;
        while j < ptrs.len()
            invariant
                ptrs@ == VertexType::spec_attribs(),
                0 <= j <= ptrs@.len(),
                gl.trace() == t_draw + disable_calls(ptrs@.take(j as int)),
            decreases ptrs@.len() - j,
        {
            gl.disable_attrib_array(ptrs[j].index);
            proof {
                assert(ptrs@.take(j + 1).map_values(
                    |p: VertexAttribPointer| GlCall::DisableAttrib { index: p.index },
                ) =~= ptrs@.take(j as int).map_values(
                    |p: VertexAttribPointer| GlCall::DisableAttrib { index: p.index },
                ).push(GlCall::DisableAttrib { index: ptrs@[j as int].index }));
            }
            j = j + 1;
        }
        proof {
            assert(ptrs@.take(ptrs@.len() as int) =~= ptrs@);
            assert(gl.trace() == t_draw + disable_calls(ptrs@));
            assert(gl.trace() =~= old(gl).trace() + render_calls(
                self.spec_vao(),
                self.spec_ebo_handle(),
                VertexType::spec_attribs(),
                self.spec_elements(),
                IndexType::spec_gl_data_type(),
            ));
        }
    }

    /// The element count: the number of indices most recently uploaded.
    pub fn element_count(&self) -> (n: usize)
        ensures
            n == self.spec_elements(),
    {
        self.elements
    }

    /// Releases everything the mesh owns, exactly once: the two buffers
    /// first, then the layout object.
    pub fn delete<H: RenderHandler>(self, gl: &mut H)
        ensures
            final(gl).trace() == old(gl).trace() + seq![
                GlCall::DeleteBuffer { handle: self.spec_vbo_handle() },
                GlCall::DeleteBuffer { handle: self.spec_ebo_handle() },
                GlCall::DeleteVertexArray { handle: self.spec_vao() },
            ],
    {
        let Mesh { vao, vbo, ebo, elements: _ } = self;
        vbo.delete(gl);
        ebo.delete(gl);
        gl.delete_vertex_array(vao);
    }
}

} // verus!
