//! Generic indexed triangle meshes: vertex packing, adaptive index-width
//! encoding, and the proved byte layout of both buffers.
//!
//! Positions and attributes arrive as IEEE-754 single-precision bit patterns
//! (`u32`), already transformed; this module zips them into fixed-layout
//! vertex records, narrows the logical index list into the chosen width, and
//! answers the geometry capability queries.

use vstd::prelude::*;

use crate::bytes::{
    le32_bytes, pack_u16s_le, pack_u32s_le, push_le32, u16s_le_bytes, u32s_le_bytes,
    lemma_u16s_le_bytes_len, lemma_u32s_le_bytes_len,
};
use crate::geometry::{
    layout2_slots, layout3_slots, AttributeSlot, Geometry, GeometryError, IndexFormat,
    VertexLayout,
};

verus! {

/// A position as the bit patterns of three single-precision floats.
#[derive(Clone, Copy, PartialEq, Eq, Structural, Debug)]
pub struct Pos3 {
    pub x: u32,
    pub y: u32,
    pub z: u32,
}

/// A two-component attribute (texture-coordinate style) as bit patterns.
#[derive(Clone, Copy, PartialEq, Eq, Structural, Debug)]
pub struct Attr2 {
    pub u: u32,
    pub v: u32,
}

/// A three-component attribute (normal style) as bit patterns.
#[derive(Clone, Copy, PartialEq, Eq, Structural, Debug)]
pub struct Attr3 {
    pub x: u32,
    pub y: u32,
    pub z: u32,
}

/// A packed vertex record: 3-float position, 2-float attribute; 20 bytes.
#[derive(Clone, Copy, PartialEq, Eq, Structural, Debug)]
pub struct Vertex2 {
    pub position: Pos3,
    pub attrib: Attr2,
}

/// A packed vertex record: 3-float position, 3-float attribute; 24 bytes.
#[derive(Clone, Copy, PartialEq, Eq, Structural, Debug)]
pub struct Vertex3 {
    pub position: Pos3,
    pub attrib: Attr3,
}

/// An index buffer in exactly one of the two encodings.
pub enum IndexData {
    Uint16(Vec<u16>),
    Uint32(Vec<u32>),
}

impl IndexData {
    /// The format tag this encoding carries.
    pub open spec fn spec_format(&self) -> IndexFormat {
        match self {
            IndexData::Uint16(_) => IndexFormat::Uint16,
            IndexData::Uint32(_) => IndexFormat::Uint32,
        }
    }

    /// The logical index values, independent of the encoding width.
    pub open spec fn spec_values(&self) -> Seq<nat> {
        match self {
            IndexData::Uint16(v) => v@.map_values(|x: u16| x as nat),
            IndexData::Uint32(v) => v@.map_values(|x: u32| x as nat),
        }
    }

    /// The packed little-endian bytes of the encoding.
    pub open spec fn spec_bytes(&self) -> Seq<u8> {
        match self {
            IndexData::Uint16(v) => u16s_le_bytes(v@),
            IndexData::Uint32(v) => u32s_le_bytes(v@),
        }
    }
}

/// The encoding width that can address `vertex_count` vertices: 16-bit
/// exactly when every vertex number fits in 16 bits, else 32-bit.
pub open spec fn spec_format_for(vertex_count: nat) -> IndexFormat {
    if vertex_count <= 0xFFFF {
        IndexFormat::Uint16
    } else {
        IndexFormat::Uint32
    }
}

/// Whether one logical index value is representable in the encoding.
pub open spec fn index_fits(value: nat, f: IndexFormat) -> bool {
    match f {
        IndexFormat::Uint16 => value <= 0xFFFF,
        IndexFormat::Uint32 => value <= 0xFFFFFFFF,
    }
}

/// Whether every logical index is representable in the encoding.
pub open spec fn all_indices_fit(indices: Seq<usize>, f: IndexFormat) -> bool {
    forall|i: int| 0 <= i < indices.len() ==> index_fits(indices[i] as nat, f)
}

/// The logical index list as mathematical values.
pub open spec fn index_values_of(indices: Seq<usize>) -> Seq<nat> {
    indices.map_values(|x: usize| x as nat)
}

/// The index list narrowed to 16-bit words.
pub open spec fn narrow16(indices: Seq<usize>) -> Seq<u16> {
    indices.map_values(|x: usize| x as u16)
}

/// The index list narrowed to 32-bit words.
pub open spec fn narrow32(indices: Seq<usize>) -> Seq<u32> {
    indices.map_values(|x: usize| x as u32)
}

/// The packed index bytes that encoding `indices` for `vertex_count`
/// vertices must produce.
pub open spec fn spec_index_bytes_for(indices: Seq<usize>, vertex_count: nat) -> Seq<u8> {
    if spec_format_for(vertex_count) == IndexFormat::Uint16 {
        u16s_le_bytes(narrow16(indices))
    } else {
        u32s_le_bytes(narrow32(indices))
    }
}

/// Position `i` zipped with attribute `i`, for every `i` in input order.
pub open spec fn paired_vertices2(positions: Seq<Pos3>, attribs: Seq<Attr2>) -> Seq<Vertex2> {
    Seq::new(positions.len(), |i: int| (Vertex2 { position: positions[i], attrib: attribs[i] }))
}

/// Position `i` zipped with attribute `i`, for every `i` in input order.
pub open spec fn paired_vertices3(positions: Seq<Pos3>, attribs: Seq<Attr3>) -> Seq<Vertex3> {
    Seq::new(positions.len(), |i: int| (Vertex3 { position: positions[i], attrib: attribs[i] }))
}

/// The 20 bytes of one record: position floats, then attribute floats,
/// tightly packed, each little-endian.
pub open spec fn vertex2_bytes(v: Vertex2) -> Seq<u8> {
    le32_bytes(v.position.x) + le32_bytes(v.position.y) + le32_bytes(v.position.z)
        + le32_bytes(v.attrib.u) + le32_bytes(v.attrib.v)
}

/// The 24 bytes of one record: position floats, then attribute floats.
pub open spec fn vertex3_bytes(v: Vertex3) -> Seq<u8> {
    le32_bytes(v.position.x) + le32_bytes(v.position.y) + le32_bytes(v.position.z)
        + le32_bytes(v.attrib.x) + le32_bytes(v.attrib.y) + le32_bytes(v.attrib.z)
}

/// A whole vertex buffer of 2-attribute records, back to back.
pub open spec fn vertex2_seq_bytes(s: Seq<Vertex2>) -> Seq<u8>
    decreases s.len(),
{
    if s.len() == 0 {
        Seq::empty()
    } else {
        vertex2_seq_bytes(s.drop_last()) + vertex2_bytes(s.last())
    }
}

/// A whole vertex buffer of 3-attribute records, back to back.
pub open spec fn vertex3_seq_bytes(s: Seq<Vertex3>) -> Seq<u8>
    decreases s.len(),
{
    if s.len() == 0 {
        Seq::empty()
    } else {
        vertex3_seq_bytes(s.drop_last()) + vertex3_bytes(s.last())
    }
}

/// Narrows the logical index list into the width selected for
/// `vertex_count` vertices, rejecting any index that the width cannot
/// represent.
pub fn encode_indices(indices: &Vec<usize>, vertex_count: usize) -> (r: Result<
    IndexData,
    GeometryError,
>)
    ensures
        r is Ok <==> all_indices_fit(indices@, spec_format_for(vertex_count as nat)),
        match r {
            Ok(d) => {
                &&& d.spec_format() == spec_format_for(vertex_count as nat)
                &&& d.spec_values() == index_values_of(indices@)
                &&& d.spec_bytes() == spec_index_bytes_for(indices@, vertex_count as nat)
                &&& d.spec_values().len() == indices@.len()
            },
            Err(e) => e == GeometryError::IndexOutOfRange,
        },
{
    if vertex_count <= 0xFFFF {
        let mut out: Vec<u16> = Vec::new();
        let mut i: usize = 0;
        while i < indices.len()
            invariant
                i <= indices@.len(),
                vertex_count <= 0xFFFF,
                out@.len() == i,
                forall|j: int| 0 <= j < i ==> indices@[j] <= 0xFFFF,
                forall|j: int| 0 <= j < i ==> out@[j] == indices@[j] as u16,
            decreases indices@.len() - i,
        {
            let v = indices[i];
            if v > 0xFFFF {
                proof {
                    assert(!index_fits(indices@[i as int] as nat, IndexFormat::Uint16));
                }
                return Err(GeometryError::IndexOutOfRange);
            }
            out.push(v as u16);
            i = i + 1;
        }
        proof {
            assert(out@ =~= narrow16(indices@));
            assert(out@.map_values(|x: u16| x as nat) =~= index_values_of(indices@));
        }
        Ok(IndexData::Uint16(out))
    } else {
        let mut out: Vec<u32> = Vec::new();
        let mut i: usize = 0;
        while i < indices.len()
            invariant
                i <= indices@.len(),
                vertex_count > 0xFFFF,
                out@.len() == i,
                forall|j: int| 0 <= j < i ==> indices@[j] <= 0xFFFFFFFF,
                forall|j: int| 0 <= j < i ==> out@[j] == indices@[j] as u32,
            decreases indices@.len() - i,
        {
            let v = indices[i];
            if v > (u32::MAX as usize) {
                proof {
                    assert(!index_fits(indices@[i as int] as nat, IndexFormat::Uint32));
                }
                return Err(GeometryError::IndexOutOfRange);
            }
            out.push(v as u32);
            i = i + 1;
        }
        proof {
            assert(out@ =~= narrow32(indices@));
            assert(out@.map_values(|x: u32| x as nat) =~= index_values_of(indices@));
        }
        Ok(IndexData::Uint32(out))
    }
}

/// Zips positions with attributes, one record per input position, in order.
fn pack_vertex2(positions: &Vec<Pos3>, attribs: &Vec<Attr2>) -> (r: Vec<Vertex2>)
    requires
        positions@.len() == attribs@.len(),
    ensures
        r@ == paired_vertices2(positions@, attribs@),
{
    let mut out: Vec<Vertex2> = Vec::new();
    let mut i: usize = 0;
    while i < positions.len()
        invariant
            i <= positions@.len(),
            positions@.len() == attribs@.len(),
            out@.len() == i,
            forall|j: int| 0 <= j < i ==> out@[j] == (Vertex2 {
                position: positions@[j],
                attrib: attribs@[j],
            }),
        decreases positions@.len() - i,
    {
        out.push(Vertex2 { position: positions[i], attrib: attribs[i] });
        i = i + 1;
    }
    proof {
        assert(out@ =~= paired_vertices2(positions@, attribs@));
    }
    out
}

/// Zips positions with attributes, one record per input position, in order.
fn pack_vertex3(positions: &Vec<Pos3>, attribs: &Vec<Attr3>) -> (r: Vec<Vertex3>)
    requires
        positions@.len() == attribs@.len(),
    ensures
        r@ == paired_vertices3(positions@, attribs@),
{
    let mut out: Vec<Vertex3> = Vec::new();
    let mut i: usize = 0;
    while i < positions.len()
        invariant
            i <= positions@.len(),
            positions@.len() == attribs@.len(),
            out@.len() == i,
            forall|j: int| 0 <= j < i ==> out@[j] == (Vertex3 {
                position: positions@[j],
                attrib: attribs@[j],
            }),
        decreases positions@.len() - i,
    {
        out.push(Vertex3 { position: positions[i], attrib: attribs[i] });
        i = i + 1;
    }
    proof {
        assert(out@ =~= paired_vertices3(positions@, attribs@));
    }
    out
}

/// Serialises a vertex buffer of 2-attribute records.
pub fn pack_vertex2_bytes(vs: &Vec<Vertex2>) -> (r: Vec<u8>)
    ensures
        r@ == vertex2_seq_bytes(vs@),
{
    let mut out: Vec<u8> = Vec::new();
    let mut i: usize = 0;
    while i < vs.len()
        invariant
            i <= vs@.len(),
            out@ == vertex2_seq_bytes(vs@.take(i as int)),
        decreases vs@.len() - i,
    {
        let v = vs[i];
        push_le32(&mut out, v.position.x);
        push_le32(&mut out, v.position.y);
        push_le32(&mut out, v.position.z);
        push_le32(&mut out, v.attrib.u);
        push_le32(&mut out, v.attrib.v);
        proof {
            assert(vs@.take(i as int + 1).drop_last() =~= vs@.take(i as int));
            assert(vs@.take(i as int + 1).last() == vs@[i as int]);
            assert(out@ =~= vertex2_seq_bytes(vs@.take(i as int + 1)));
        }
        i = i + 1;
    }
    proof {
        assert(vs@.take(vs@.len() as int) =~= vs@);
    }
    out
}

/// Serialises a vertex buffer of 3-attribute records.
pub fn pack_vertex3_bytes(vs: &Vec<Vertex3>) -> (r: Vec<u8>)
    ensures
        r@ == vertex3_seq_bytes(vs@),
{
    let mut out: Vec<u8> = Vec::new();
    let mut i: usize = 0;
    while i < vs.len()
        invariant
            i <= vs@.len(),
            out@ == vertex3_seq_bytes(vs@.take(i as int)),
        decreases vs@.len() - i,
    {
        let v = vs[i];
        push_le32(&mut out, v.position.x);
        push_le32(&mut out, v.position.y);
        push_le32(&mut out, v.position.z);
        push_le32(&mut out, v.attrib.x);
        push_le32(&mut out, v.attrib.y);
        push_le32(&mut out, v.attrib.z);
        proof {
            assert(vs@.take(i as int + 1).drop_last() =~= vs@.take(i as int));
            assert(vs@.take(i as int + 1).last() == vs@[i as int]);
            assert(out@ =~= vertex3_seq_bytes(vs@.take(i as int + 1)));
        }
        i = i + 1;
    }
    proof {
        assert(vs@.take(vs@.len() as int) =~= vs@);
    }
    out
}

/// An immutable indexed triangle mesh with 2-float attributes.
pub struct Mesh2 {
    vertices: Vec<Vertex2>,
    indices: IndexData,
    num_indices: usize,
}

impl Mesh2 {
    /// The ordered vertex records.
    pub closed spec fn spec_vertices(&self) -> Seq<Vertex2> {
        self.vertices@
    }

    /// The owned index encoding.
    pub closed spec fn spec_index_data(&self) -> IndexData {
        self.indices
    }

    /// The stored logical index count.
    pub closed spec fn spec_count(&self) -> nat {
        self.num_indices as nat
    }

    /// The logical index values, independent of the encoding width.
    pub open spec fn spec_index_values(&self) -> Seq<nat> {
        self.spec_index_data().spec_values()
    }

    /// Well-formedness: the stored count equals the number of entries in
    /// the owned encoding.
    pub open spec fn wf(&self) -> bool {
        self.spec_count() == self.spec_index_values().len()
    }

    /// Builds a mesh from transformed positions, a same-length attribute
    /// list, and a logical index list.  Fails, and builds nothing, when the
    /// lengths disagree or an index does not fit the chosen width.
    pub fn new(positions: &Vec<Pos3>, indices: &Vec<usize>, attribs_2d: &Vec<Attr2>) -> (r:
        Result<Mesh2, GeometryError>)
        ensures
            r is Ok <==> (positions@.len() == attribs_2d@.len() && all_indices_fit(
                indices@,
                spec_format_for(positions@.len()),
            )),
            match r {
                Ok(m) => {
                    &&& m.wf()
                    &&& m.spec_vertices() == paired_vertices2(positions@, attribs_2d@)
                    &&& m.spec_vertex_bytes() == vertex2_seq_bytes(
                        paired_vertices2(positions@, attribs_2d@),
                    )
                    &&& m.spec_num_indices() == indices@.len()
                    &&& m.spec_index_format() == spec_format_for(positions@.len())
                    &&& m.spec_index_values() == index_values_of(indices@)
                    &&& m.spec_index_bytes() == spec_index_bytes_for(indices@, positions@.len())
                },
                Err(e) => {
                    &&& (e == GeometryError::LengthMismatch <==> positions@.len()
                        != attribs_2d@.len())
                    &&& (e == GeometryError::IndexOutOfRange <==> (positions@.len()
                        == attribs_2d@.len() && !all_indices_fit(
                        indices@,
                        spec_format_for(positions@.len()),
                    )))
                },
            },
    {
        if positions.len() != attribs_2d.len() {
            return Err(GeometryError::LengthMismatch);
        }
        let data = match encode_indices(indices, positions.len()) {
            Ok(d) => d,
            Err(e) => {
                return Err(e);
            },
        };
        let packed = pack_vertex2(positions, attribs_2d);
        let n = indices.len();
        Ok(Mesh2 { vertices: packed, indices: data, num_indices: n })
    }
}

impl Geometry for Mesh2 {
    open spec fn spec_stride(&self) -> nat {
        20
    }

    open spec fn spec_slots(&self) -> Seq<AttributeSlot> {
        layout2_slots()
    }

    open spec fn spec_vertex_bytes(&self) -> Seq<u8> {
        vertex2_seq_bytes(self.spec_vertices())
    }

    open spec fn spec_index_bytes(&self) -> Seq<u8> {
        self.spec_index_data().spec_bytes()
    }

    open spec fn spec_index_format(&self) -> IndexFormat {
        self.spec_index_data().spec_format()
    }

    open spec fn spec_num_indices(&self) -> nat {
        self.spec_count()
    }

    fn vertex_desc(&self) -> (r: VertexLayout) {
        let mut slots: Vec<AttributeSlot> = Vec::new();
        slots.push(AttributeSlot { offset: 0, components: 3, shader_location: 0 });
        slots.push(AttributeSlot { offset: 12, components: 2, shader_location: 1 });
        proof {
            assert(slots@ =~= layout2_slots());
        }
        VertexLayout { stride: 20, slots }
    }

    fn get_vertex_raw(&self) -> (r: Vec<u8>) {
        pack_vertex2_bytes(&self.vertices)
    }

    fn get_index_raw(&self) -> (r: Vec<u8>) {
        match &self.indices {
            IndexData::Uint16(v) => pack_u16s_le(v),
            IndexData::Uint32(v) => pack_u32s_le(v),
        }
    }

    fn get_index_format(&self) -> (r: IndexFormat) {
        match &self.indices {
            IndexData::Uint16(_) => IndexFormat::Uint16,
            IndexData::Uint32(_) => IndexFormat::Uint32,
        }
    }

    fn get_num_indices(&self) -> (r: usize) {
        self.num_indices
    }
}

/// An immutable indexed triangle mesh with 3-float attributes.
pub struct Mesh3 {
    vertices: Vec<Vertex3>,
    indices: IndexData,
    num_indices: usize,
}

impl Mesh3 {
    /// The ordered vertex records.
    pub closed spec fn spec_vertices(&self) -> Seq<Vertex3> {
        self.vertices@
    }

    /// The owned index encoding.
    pub closed spec fn spec_index_data(&self) -> IndexData {
        self.indices
    }

    /// The stored logical index count.
    pub closed spec fn spec_count(&self) -> nat {
        self.num_indices as nat
    }

    /// The logical index values, independent of the encoding width.
    pub open spec fn spec_index_values(&self) -> Seq<nat> {
        self.spec_index_data().spec_values()
    }

    /// Well-formedness: the stored count equals the number of entries in
    /// the owned encoding.
    pub open spec fn wf(&self) -> bool {
        self.spec_count() == self.spec_index_values().len()
    }

    /// Builds a mesh from transformed positions, a same-length attribute
    /// list, and a logical index list.  Fails, and builds nothing, when the
    /// lengths disagree or an index does not fit the chosen width.
    pub fn new(positions: &Vec<Pos3>, indices: &Vec<usize>, attribs_3d: &Vec<Attr3>) -> (r:
        Result<Mesh3, GeometryError>)
        ensures
            r is Ok <==> (positions@.len() == attribs_3d@.len() && all_indices_fit(
                indices@,
                spec_format_for(positions@.len()),
            )),
            match r {
                Ok(m) => {
                    &&& m.wf()
                    &&& m.spec_vertices() == paired_vertices3(positions@, attribs_3d@)
                    &&& m.spec_vertex_bytes() == vertex3_seq_bytes(
                        paired_vertices3(positions@, attribs_3d@),
                    )
                    &&& m.spec_num_indices() == indices@.len()
                    &&& m.spec_index_format() == spec_format_for(positions@.len())
                    &&& m.spec_index_values() == index_values_of(indices@)
                    &&& m.spec_index_bytes() == spec_index_bytes_for(indices@, positions@.len())
                },
                Err(e) => {
                    &&& (e == GeometryError::LengthMismatch <==> positions@.len()
                        != attribs_3d@.len())
                    &&& (e == GeometryError::IndexOutOfRange <==> (positions@.len()
                        == attribs_3d@.len() && !all_indices_fit(
                        indices@,
                        spec_format_for(positions@.len()),
                    )))
                },
            },
    {
        if positions.len() != attribs_3d.len() {
            return Err(GeometryError::LengthMismatch);
        }
        let data = match encode_indices(indices, positions.len()) {
            Ok(d) => d,
            Err(e) => {
                return Err(e);
            },
        };
        let packed = pack_vertex3(positions, attribs_3d);
        let n = indices.len();
        Ok(Mesh3 { vertices: packed, indices: data, num_indices: n })
    }
}

impl Geometry for Mesh3 {
    open spec fn spec_stride(&self) -> nat {
        24
    }

    open spec fn spec_slots(&self) -> Seq<AttributeSlot> {
        layout3_slots()
    }

    open spec fn spec_vertex_bytes(&self) -> Seq<u8> {
        vertex3_seq_bytes(self.spec_vertices())
    }

    open spec fn spec_index_bytes(&self) -> Seq<u8> {
        self.spec_index_data().spec_bytes()
    }

    open spec fn spec_index_format(&self) -> IndexFormat {
        self.spec_index_data().spec_format()
    }

    open spec fn spec_num_indices(&self) -> nat {
        self.spec_count()
    }

    fn vertex_desc(&self) -> (r: VertexLayout) {
        let mut slots: Vec<AttributeSlot> = Vec::new();
        slots.push(AttributeSlot { offset: 0, components: 3, shader_location: 0 });
        slots.push(AttributeSlot { offset: 12, components: 3, shader_location: 1 });
        proof {
            assert(slots@ =~= layout3_slots());
        }
        VertexLayout { stride: 24, slots }
    }

    fn get_vertex_raw(&self) -> (r: Vec<u8>) {
        pack_vertex3_bytes(&self.vertices)
    }

    fn get_index_raw(&self) -> (r: Vec<u8>) {
        match &self.indices {
            IndexData::Uint16(v) => pack_u16s_le(v),
            IndexData::Uint32(v) => pack_u32s_le(v),
        }
    }

    fn get_index_format(&self) -> (r: IndexFormat) {
        match &self.indices {
            IndexData::Uint16(_) => IndexFormat::Uint16,
            IndexData::Uint32(_) => IndexFormat::Uint32,
        }
    }

    fn get_num_indices(&self) -> (r: usize) {
        self.num_indices
    }
}

/// Width-selection law: a vertex count addressable in 16 bits selects the
/// 16-bit encoding, and any larger count selects the 32-bit encoding.
pub proof fn lemma_format_selection(vertex_count: nat)
    ensures
        vertex_count <= 0xFFFF ==> spec_format_for(vertex_count) == IndexFormat::Uint16,
        vertex_count > 0xFFFF ==> spec_format_for(vertex_count) == IndexFormat::Uint32,
{
}

/// Order-preservation law: record `i` of a packed 2-attribute buffer holds
/// exactly position `i` and attribute `i` of the inputs.
pub proof fn lemma_pairing_preserves_order2(positions: Seq<Pos3>, attribs: Seq<Attr2>, i: int)
    requires
        positions.len() == attribs.len(),
        0 <= i < positions.len(),
    ensures
        paired_vertices2(positions, attribs)[i].position == positions[i],
        paired_vertices2(positions, attribs)[i].attrib == attribs[i],
{
}

/// Order-preservation law: record `i` of a packed 3-attribute buffer holds
/// exactly position `i` and attribute `i` of the inputs.
pub proof fn lemma_pairing_preserves_order3(positions: Seq<Pos3>, attribs: Seq<Attr3>, i: int)
    requires
        positions.len() == attribs.len(),
        0 <= i < positions.len(),
    ensures
        paired_vertices3(positions, attribs)[i].position == positions[i],
        paired_vertices3(positions, attribs)[i].attrib == attribs[i],
{
}

/// Stride law: a packed 2-attribute vertex buffer takes exactly 20 bytes
/// per record.
pub proof fn lemma_vertex2_bytes_len(s: Seq<Vertex2>)
    ensures
        vertex2_seq_bytes(s).len() == 20 * s.len(),
    decreases s.len(),
{
    if s.len() > 0 {
        lemma_vertex2_bytes_len(s.drop_last());
    }
}

/// Stride law: a packed 3-attribute vertex buffer takes exactly 24 bytes
/// per record.
pub proof fn lemma_vertex3_bytes_len(s: Seq<Vertex3>)
    ensures
        vertex3_seq_bytes(s).len() == 24 * s.len(),
    decreases s.len(),
{
    if s.len() > 0 {
        lemma_vertex3_bytes_len(s.drop_last());
    }
}

/// Count law: the packed index bytes of a well-formed mesh take exactly the
/// element width times the logical index count, whatever the encoding.
pub proof fn lemma_mesh2_index_bytes_len(m: Mesh2)
    requires
        m.wf(),
    ensures
        m.spec_index_bytes().len() == (match m.spec_index_format() {
            IndexFormat::Uint16 => 2nat,
            IndexFormat::Uint32 => 4nat,
        }) * m.spec_num_indices(),
{
    match m.spec_index_data() {
        IndexData::Uint16(v) => {
            lemma_u16s_le_bytes_len(v@);
        },
        IndexData::Uint32(v) => {
            lemma_u32s_le_bytes_len(v@);
        },
    }
}

/// Count law: the packed index bytes of a well-formed mesh take exactly the
/// element width times the logical index count, whatever the encoding.
pub proof fn lemma_mesh3_index_bytes_len(m: Mesh3)
    requires
        m.wf(),
    ensures
        m.spec_index_bytes().len() == (match m.spec_index_format() {
            IndexFormat::Uint16 => 2nat,
            IndexFormat::Uint32 => 4nat,
        }) * m.spec_num_indices(),
{
    match m.spec_index_data() {
        IndexData::Uint16(v) => {
            lemma_u16s_le_bytes_len(v@);
        },
        IndexData::Uint32(v) => {
            lemma_u32s_le_bytes_len(v@);
        },
    }
}

} // verus!
