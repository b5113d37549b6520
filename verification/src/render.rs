//! The graphics-backend capability contract: the alphabet of backend calls
//! ([`GlCall`]), the numeric tags the backend expects for enumerated
//! arguments, and the trace abstraction ([`GlCalls`]) that every capability
//! trait's contract is stated over.

use crate::buffer::{BufferHandler, BufferType, BufferUsage};
use crate::mesh::{MeshHandler, MeshMode};
use crate::shader::{LogObject, ShaderType};
use vstd::prelude::*;

verus! {

/// Numeric tag for a vertex-data buffer binding target.
pub const ARRAY_BUFFER: u32 = 0x8892;

/// Numeric tag for an index-data buffer binding target.
pub const ELEMENT_ARRAY_BUFFER: u32 = 0x8893;

/// Numeric tag for the static upload policy hint.
pub const STATIC_DRAW: u32 = 0x88E4;

/// Numeric tag for the triangle-list draw primitive.
pub const TRIANGLES: u32 = 0x0004;

/// Numeric tag for 32-bit floating-point attribute components.
pub const FLOAT: u32 = 0x1406;

/// Numeric tag for unsigned 16-bit data.
pub const UNSIGNED_SHORT: u32 = 0x1403;

/// Numeric tag for unsigned 32-bit data.
pub const UNSIGNED_INT: u32 = 0x1405;

/// Numeric tag for a vertex shader stage.
pub const VERTEX_SHADER: u32 = 0x8B31;

/// Numeric tag for a geometry shader stage.
pub const GEOMETRY_SHADER: u32 = 0x8DD9;

/// Numeric tag for a fragment shader stage.
pub const FRAGMENT_SHADER: u32 = 0x8B30;

/// Mask bit selecting the color buffer in a clear call.
pub const COLOR_BUFFER_BIT: u32 = 0x4000;

/// Mask bit selecting the depth buffer in a clear call.
pub const DEPTH_BUFFER_BIT: u32 = 0x0100;

/// One call into the graphics backend, as observed at the capability
/// boundary. The contracts of the capability traits describe every
/// operation as the exact sequence of `GlCall`s it appends to the
/// backend's trace.
#[derive(Debug, Clone, PartialEq, Eq)]
pub enum GlCall {
    GenBuffer { handle: u32 },
    BindBuffer { target: BufferType, handle: u32 },
    BufferData { target: BufferType, usage: BufferUsage, size_bytes: usize, filled: bool },
    DeleteBuffer { handle: u32 },
    GenVertexArray { handle: u32 },
    BindVertexArray { handle: u32 },
    DeleteVertexArray { handle: u32 },
    AttribPointer {
        index: usize,
        size: usize,
        data_type: u32,
        normalized: bool,
        stride: usize,
        offset: usize,
    },
    EnableAttrib { index: usize },
    DisableAttrib { index: usize },
    DrawElements { mode: MeshMode, count: usize, index_type: u32 },
    CreateShader { shader_type: ShaderType, handle: u32 },
    ShaderSource { handle: u32 },
    CompileShader { handle: u32 },
    DeleteShader { handle: u32 },
    CreateProgram { handle: u32 },
    AttachShader { program: u32, shader: u32 },
    DetachShader { program: u32, shader: u32 },
    LinkProgram { handle: u32 },
    ValidateProgram { handle: u32 },
    UseProgram { handle: u32 },
    DeleteProgram { handle: u32 },
    GetLogLength { object: LogObject, handle: u32, len: i32 },
    GetInfoLog { object: LogObject, handle: u32, log: String },
    Clear { mask: u32 },
}

/// Abstract view of a backend as the sequence of calls made on it so far.
/// Every capability trait refines this, so that resource objects can state
/// exactly which calls an operation performs. The default model is the
/// empty trace; a backend whose calls are reasoned about overrides it.
pub trait GlCalls: Sized {
    open spec fn trace(&self) -> Seq<GlCall> {
        Seq::empty()
    }
}

/// A backend that can serve both buffer and mesh operations; the bound a
/// drawable object requires of its backend.
pub trait RenderHandler: BufferHandler + MeshHandler {
}

/// Values whose backend representation carries a numeric type tag.
pub trait GlType {
    spec fn spec_gl_type(&self) -> u32;

    fn gl_type(&self) -> (t: u32)
        ensures
            t == self.spec_gl_type(),
    ;
}

impl GlType for BufferType {
    open spec fn spec_gl_type(&self) -> u32 {
        match self {
            BufferType::ArrayBuffer => ARRAY_BUFFER,
            BufferType::ElementArrayBuffer => ELEMENT_ARRAY_BUFFER,
        }
    }

    fn gl_type(&self) -> u32 {
        match self {
            BufferType::ArrayBuffer => ARRAY_BUFFER,
            BufferType::ElementArrayBuffer => ELEMENT_ARRAY_BUFFER,
        }
    }
}

impl GlType for BufferUsage {
    open spec fn spec_gl_type(&self) -> u32 {
        match self {
            BufferUsage::StaticDraw => STATIC_DRAW,
        }
    }

    fn gl_type(&self) -> u32 {
        match self {
            BufferUsage::StaticDraw => STATIC_DRAW,
        }
    }
}

impl GlType for MeshMode {
    open spec fn spec_gl_type(&self) -> u32 {
        match self {
            MeshMode::Triangles => TRIANGLES,
        }
    }

    fn gl_type(&self) -> u32 {
        match self {
            MeshMode::Triangles => TRIANGLES,
        }
    }
}

/// Data types that may be fed to the backend as attribute components or
/// index elements; each carries the backend's numeric tag for it.
pub trait GlDataType {
    spec fn spec_gl_data_type() -> u32;

    fn gl_data_type() -> (t: u32)
        ensures
            t == Self::spec_gl_data_type(),
    ;
}

impl GlDataType for u16 {
    open spec fn spec_gl_data_type() -> u32 {
        UNSIGNED_SHORT
    }

    fn gl_data_type() -> u32 {
        UNSIGNED_SHORT
    }
}

impl GlDataType for u32 {
    open spec fn spec_gl_data_type() -> u32 {
        UNSIGNED_INT
    }

    fn gl_data_type() -> u32 {
        UNSIGNED_INT
    }
}

/// The clear mask that selects the color and/or depth buffer; a mask of 0
/// means the clear call is a guaranteed no-op and must not be issued.
pub open spec fn spec_clear_mask(color: bool, depth: bool) -> u32 {
    if color && depth {
        0x4100
    } else if color {
        0x4000
    } else if depth {
        0x0100
    } else {
        0
    }
}

/// Computes the mask a clear call must pass to the backend. The mask is 0
/// exactly when neither buffer is selected, in which case the backend call
/// must be skipped entirely.
pub fn clear_mask(color: bool, depth: bool) -> (mask: u32)
    ensures
        mask == spec_clear_mask(color, depth),
        (mask == 0) == (!color && !depth),
{
    if color && depth {
        0x4100
    } else if color {
        0x4000
    } else if depth {
        0x0100
    } else {
        0
    }
}

} // verus!
