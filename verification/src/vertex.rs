//! The vertex-layout capability: the ordered attribute descriptors a vertex
//! payload type must supply, describing how one record is packed in memory.

use crate::render::GlDataType;
use vstd::layout::size_of;
use vstd::prelude::*;

verus! {

/// One attribute descriptor: which slot the attribute feeds, how many
/// components it has, the backend tag of the component type, whether the
/// backend should normalize it, and its byte offset within one record.
#[derive(Debug, Copy, Clone, PartialEq, Eq)]
pub struct VertexAttribPointer {
    pub index: usize,
    pub size: usize,
    pub data_type: u32,
    pub normalized: bool,
    pub offset: usize,
}

impl VertexAttribPointer {
    /// Builds a descriptor whose component-type tag is taken from
    /// `DataType`.
    pub fn new<DataType: GlDataType>(
        index: usize,
        size: usize,
        normalized: bool,
        offset: usize,
    ) -> (p: Self)
        ensures
            p == (VertexAttribPointer {
                index,
                size,
                data_type: DataType::spec_gl_data_type(),
                normalized,
                offset,
            }),
    {
        VertexAttribPointer { index, size, data_type: DataType::gl_data_type(), normalized, offset }
    }
}

/// The capability a vertex payload type supplies: its ordered list of
/// attribute descriptors. The list is an invariant of the type — it must
/// match the type's memory layout and never change.
pub trait Vertex: Sized {
    /// The type's attribute descriptors, as an abstract sequence. The
    /// default is the empty list; a vertex type whose layout is reasoned
    /// about overrides it.
    open spec fn spec_attribs() -> Seq<VertexAttribPointer> {
        Seq::empty()
    }

    /// The type's attribute descriptors; always exactly
    /// [`Vertex::spec_attribs`].
    fn attrib_pointers() -> (ptrs: Vec<VertexAttribPointer>)
        ensures
            ptrs@ == Self::spec_attribs(),
    ;
}

/// A vertex type's descriptors are valid when every component count is
/// between 1 and 4 and every byte offset lies inside one record.
pub open spec fn attribs_valid<VertexType: Vertex>() -> bool {
    forall|i: int|
        0 <= i < VertexType::spec_attribs().len() ==> {
            let p = #[trigger] VertexType::spec_attribs()[i];
            1 <= p.size <= 4 && (p.offset as int) < size_of::<VertexType>()
        }
}

/// Checks the descriptor list of `VertexType` against [`attribs_valid`].
pub fn check_attribs<VertexType: Vertex>(ptrs: &Vec<VertexAttribPointer>) -> (ok: bool)
    requires
        ptrs@ == VertexType::spec_attribs(),
    ensures
        ok == attribs_valid::<VertexType>(),
{
    let record_size = core::mem::size_of::<VertexType>();
    let mut i: usize = 0;
    while i < ptrs.len()
        invariant
            ptrs@ == VertexType::spec_attribs(),
            0 <= i <= ptrs@.len(),
            record_size == size_of::<VertexType>(),
            forall|j: int|
                0 <= j < i ==> {
                    let p = #[trigger] VertexType::spec_attribs()[j];
                    1 <= p.size <= 4 && (p.offset as int) < size_of::<VertexType>()
                },
        decreases ptrs@.len() - i,
    {
        let p = ptrs[i];
        if p.size < 1 || p.size > 4 || p.offset >= record_size {
            return false;
        }
        i = i + 1;
    }
    true
}

} // verus!
