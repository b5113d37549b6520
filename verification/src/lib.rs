//! A safety layer over a stateful, handle-based graphics backend: owned,
//! lifetime-scoped GPU resource objects (buffers, meshes, shaders, programs)
//! whose backend interaction is specified — and verified — as an exact
//! sequence of capability calls, plus a windowing capability and a frame
//! loop that sequences rendering with event delivery.
//!
//! Every resource object is generic over a capability trait
//! ([`buffer::BufferHandler`], [`mesh::MeshHandler`], [`shader::ShaderHandler`],
//! [`render::RenderHandler`]) whose methods carry contracts over an abstract
//! call trace ([`render::GlCalls::trace`]). The [`trace`] module provides a
//! recording implementation of these capabilities, against which the
//! contracts are both proved and testable; a real backend implements the
//! same traits outside this crate.

pub mod buffer;
pub mod mesh;
pub mod render;
pub mod shader;
pub mod text;
pub mod trace;
pub mod vertex;
pub mod window;
