//! The read-only capability contract that every mesh and fixed shape offers
//! to a renderer: a vertex layout descriptor, the packed vertex bytes, the
//! packed index bytes, the index encoding and the logical index count.

use vstd::prelude::*;

verus! {

/// The two supported index-buffer encodings, by element width.
#[derive(Clone, Copy, PartialEq, Eq, Structural, Debug)]
pub enum IndexFormat {
    Uint16,
    Uint32,
}

/// Why a mesh could not be constructed, or a transform rejected.
#[derive(Clone, Copy, PartialEq, Eq, Structural, Debug)]
pub enum GeometryError {
    /// The position and attribute lists have different lengths.
    LengthMismatch,
    /// A logical index does not fit in the chosen index encoding.
    IndexOutOfRange,
    /// A perspective divide would divide by a zero weight.
    DegenerateTransform,
}

/// One attribute slot of a vertex record: `components` single-precision
/// floats starting at byte `offset` within the record, bound to a shader
/// input location.
#[derive(Clone, Copy, PartialEq, Eq, Structural, Debug)]
pub struct AttributeSlot {
    pub offset: usize,
    pub components: u32,
    pub shader_location: u32,
}

/// The byte layout of one vertex record: its total byte stride and the
/// ordered attribute slots inside it.
#[derive(Clone, Debug)]
pub struct VertexLayout {
    pub stride: usize,
    pub slots: Vec<AttributeSlot>,
}

/// Slots of a record holding a 3-float position and a 2-float attribute.
pub open spec fn layout2_slots() -> Seq<AttributeSlot> {
    seq![
        (AttributeSlot { offset: 0, components: 3, shader_location: 0 }),
        (AttributeSlot { offset: 12, components: 2, shader_location: 1 }),
    ]
}

/// Slots of a record holding a 3-float position and a 3-float attribute.
pub open spec fn layout3_slots() -> Seq<AttributeSlot> {
    seq![
        (AttributeSlot { offset: 0, components: 3, shader_location: 0 }),
        (AttributeSlot { offset: 12, components: 3, shader_location: 1 }),
    ]
}

/// The uniform read-only contract of every geometry variant.  All queries are
/// pure: each result is pinned to a spec-level function of the value alone,
/// so repeated queries return identical bytes.
pub trait Geometry: Sized {
    /// Byte stride of one vertex record.
    spec fn spec_stride(&self) -> nat;

    /// Ordered attribute slots of one vertex record.
    spec fn spec_slots(&self) -> Seq<AttributeSlot>;

    /// The packed vertex buffer, byte for byte.
    spec fn spec_vertex_bytes(&self) -> Seq<u8>;

    /// The packed index buffer, byte for byte.
    spec fn spec_index_bytes(&self) -> Seq<u8>;

    /// The index encoding in use.
    spec fn spec_index_format(&self) -> IndexFormat;

    /// The logical index count, independent of the encoding width.
    spec fn spec_num_indices(&self) -> nat;

    /// The vertex record layout the packed bytes follow.
    fn vertex_desc(&self) -> (r: VertexLayout)
        ensures
            r.stride as nat == self.spec_stride(),
            r.slots@ == self.spec_slots(),
    ;

    /// The packed vertex bytes, ready for upload.
    fn get_vertex_raw(&self) -> (r: Vec<u8>)
        ensures
            r@ == self.spec_vertex_bytes(),
    ;

    /// The packed index bytes in the chosen encoding.
    fn get_index_raw(&self) -> (r: Vec<u8>)
        ensures
            r@ == self.spec_index_bytes(),
    ;

    /// The encoding the index bytes use.
    fn get_index_format(&self) -> (r: IndexFormat)
        ensures
            r == self.spec_index_format(),
    ;

    /// How many indices the draw call should consume.
    fn get_num_indices(&self) -> (r: usize)
        ensures
            r as nat == self.spec_num_indices(),
    ;
}

} // verus!
