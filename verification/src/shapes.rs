//! Fixed primitive shapes: a pentagon and a cube with compiled-in constant
//! data, and a rectangle built by delegating to a generic mesh.
//!
//! The constant coordinates and attribute values are carried as the bit
//! patterns of the single-precision floats they denote, so every byte the
//! shapes hand out is reproduced exactly.

use vstd::prelude::*;

use crate::bytes::{pack_u16s_le, u16s_le_bytes};
use crate::geometry::{layout2_slots, AttributeSlot, Geometry, IndexFormat, VertexLayout};
use crate::mesh::{
    all_indices_fit, narrow16, paired_vertices2, pack_vertex2_bytes, spec_format_for,
    vertex2_seq_bytes, Attr2, Mesh2, Pos3, Vertex2,
};

verus! {

/// A five-sided convenience shape with fixed, pre-validated data.
pub struct Pentagon;

/// The pentagon's five vertex records.
pub open spec fn pentagon_vertices() -> Seq<Vertex2> {
    seq![
        (Vertex2 {
            position: Pos3 { x: 0xBDB1D0D5, y: 0x3EFC1C5C, z: 0x00000000 },
            attrib: Attr2 { u: 0x3ED38BCB, v: 0x3BF8E90A },
        }),
        (Vertex2 {
            position: Pos3 { x: 0xBEFD8236, y: 0x3D8E835A, z: 0x00000000 },
            attrib: Attr2 { u: 0x3B9F7280, v: 0x3EDC5F2A },
        }),
        (Vertex2 {
            position: Pos3 { x: 0xBE607229, y: 0xBEE6175F, z: 0x00000000 },
            attrib: Attr2 { u: 0x3E8FC6EC, v: 0x3F730BAF },
        }),
        (Vertex2 {
            position: Pos3 { x: 0x3EB826AA, y: 0xBEB1D51F, z: 0x00000000 },
            attrib: Attr2 { u: 0x3F5C1355, v: 0x3F58EA90 },
        }),
        (Vertex2 {
            position: Pos3 { x: 0x3EE208D8, y: 0x3E705E9C, z: 0x00000000 },
            attrib: Attr2 { u: 0x3F71046C, v: 0x3E87D0B2 },
        }),
    ]
}

/// The pentagon's index list: three fans around vertex 4.
pub open spec fn pentagon_indices() -> Seq<u16> {
    seq![0u16, 1, 4, 1, 2, 4, 2, 3, 4]
}

fn pentagon_vertex_vec() -> (r: Vec<Vertex2>)
    ensures
        r@ == pentagon_vertices(),
{
    let mut out: Vec<Vertex2> = Vec::new();
    out.push(Vertex2 {
        position: Pos3 { x: 0xBDB1D0D5, y: 0x3EFC1C5C, z: 0x00000000 },
        attrib: Attr2 { u: 0x3ED38BCB, v: 0x3BF8E90A },
    });
    out.push(Vertex2 {
        position: Pos3 { x: 0xBEFD8236, y: 0x3D8E835A, z: 0x00000000 },
        attrib: Attr2 { u: 0x3B9F7280, v: 0x3EDC5F2A },
    });
    out.push(Vertex2 {
        position: Pos3 { x: 0xBE607229, y: 0xBEE6175F, z: 0x00000000 },
        attrib: Attr2 { u: 0x3E8FC6EC, v: 0x3F730BAF },
    });
    out.push(Vertex2 {
        position: Pos3 { x: 0x3EB826AA, y: 0xBEB1D51F, z: 0x00000000 },
        attrib: Attr2 { u: 0x3F5C1355, v: 0x3F58EA90 },
    });
    out.push(Vertex2 {
        position: Pos3 { x: 0x3EE208D8, y: 0x3E705E9C, z: 0x00000000 },
        attrib: Attr2 { u: 0x3F71046C, v: 0x3E87D0B2 },
    });
    proof {
        assert(out@ =~= pentagon_vertices());
    }
    out
}

fn pentagon_index_vec() -> (r: Vec<u16>)
    ensures
        r@ == pentagon_indices(),
{
    let mut out: Vec<u16> = Vec::new();
    out.push(0);
    out.push(1);
    out.push(4);
    out.push(1);
    out.push(2);
    out.push(4);
    out.push(2);
    out.push(3);
    out.push(4);
    proof {
        assert(out@ =~= pentagon_indices());
    }
    out
}

impl Geometry for Pentagon {
    open spec fn spec_stride(&self) -> nat {
        20
    }

    open spec fn spec_slots(&self) -> Seq<AttributeSlot> {
        layout2_slots()
    }

    open spec fn spec_vertex_bytes(&self) -> Seq<u8> {
        vertex2_seq_bytes(pentagon_vertices())
    }

    open spec fn spec_index_bytes(&self) -> Seq<u8> {
        u16s_le_bytes(pentagon_indices())
    }

    open spec fn spec_index_format(&self) -> IndexFormat {
        IndexFormat::Uint16
    }

    open spec fn spec_num_indices(&self) -> nat {
        9
    }

    fn vertex_desc(&self) -> (r: VertexLayout) {
        let mut slots: Vec<AttributeSlot> = Vec::new();
        slots.push(AttributeSlot { offset: 0, components: 3, shader_location: 0 });
        slots.push(AttributeSlot { offset: 12, components: 2, shader_location: 1 });
        proof {
            assert(slots@ =~= layout2_slots());
        }
        VertexLayout { stride: 20, slots }
    }

    fn get_vertex_raw(&self) -> (r: Vec<u8>) {
        let vs = pentagon_vertex_vec();
        pack_vertex2_bytes(&vs)
    }

    fn get_index_raw(&self) -> (r: Vec<u8>) {
        let idxs = pentagon_index_vec();
        pack_u16s_le(&idxs)
    }

    fn get_index_format(&self) -> (r: IndexFormat) {
        IndexFormat::Uint16
    }

    fn get_num_indices(&self) -> (r: usize) {
        9
    }
}

/// A rectangle that owns and delegates to an internally built generic mesh
/// rather than duplicating the packing logic.
pub struct Rectangle {
    mesh: Mesh2,
}

/// The rectangle's index list: two triangles over four corners.
pub open spec fn rectangle_indices() -> Seq<usize> {
    seq![0usize, 1, 2, 0, 2, 3]
}

/// Corner positions of the rectangle spanning [-1, 1] in x and y, after the
/// clip-space conversion of a zero depth, which is one half.
pub open spec fn standard_rectangle_positions() -> Seq<Pos3> {
    seq![
        (Pos3 { x: 0xBF800000, y: 0xBF800000, z: 0x3F000000 }),
        (Pos3 { x: 0x3F800000, y: 0xBF800000, z: 0x3F000000 }),
        (Pos3 { x: 0x3F800000, y: 0x3F800000, z: 0x3F000000 }),
        (Pos3 { x: 0xBF800000, y: 0x3F800000, z: 0x3F000000 }),
    ]
}

/// Corner positions of the rectangle spanning [0, 1] in x and y, after the
/// clip-space conversion of a zero depth, which is one half.
pub open spec fn unit_rectangle_positions() -> Seq<Pos3> {
    seq![
        (Pos3 { x: 0x00000000, y: 0x00000000, z: 0x3F000000 }),
        (Pos3 { x: 0x3F800000, y: 0x00000000, z: 0x3F000000 }),
        (Pos3 { x: 0x3F800000, y: 0x3F800000, z: 0x3F000000 }),
        (Pos3 { x: 0x00000000, y: 0x3F800000, z: 0x3F000000 }),
    ]
}

/// Texture coordinates of the four corners.
pub open spec fn rectangle_attribs() -> Seq<Attr2> {
    seq![
        (Attr2 { u: 0x00000000, v: 0x3F800000 }),
        (Attr2 { u: 0x3F800000, v: 0x3F800000 }),
        (Attr2 { u: 0x3F800000, v: 0x00000000 }),
        (Attr2 { u: 0x00000000, v: 0x00000000 }),
    ]
}

fn rectangle_index_vec() -> (r: Vec<usize>)
    ensures
        r@ == rectangle_indices(),
{
    let mut out: Vec<usize> = Vec::new();
    out.push(0);
    out.push(1);
    out.push(2);
    out.push(0);
    out.push(2);
    out.push(3);
    proof {
        assert(out@ =~= rectangle_indices());
    }
    out
}

fn rectangle_attrib_vec() -> (r: Vec<Attr2>)
    ensures
        r@ == rectangle_attribs(),
{
    let mut out: Vec<Attr2> = Vec::new();
    out.push(Attr2 { u: 0x00000000, v: 0x3F800000 });
    out.push(Attr2 { u: 0x3F800000, v: 0x3F800000 });
    out.push(Attr2 { u: 0x3F800000, v: 0x00000000 });
    out.push(Attr2 { u: 0x00000000, v: 0x00000000 });
    proof {
        assert(out@ =~= rectangle_attribs());
    }
    out
}

impl Rectangle {
    /// The internally constructed mesh the rectangle delegates to.
    pub closed spec fn spec_mesh(&self) -> Mesh2 {
        self.mesh
    }

    /// The rectangle spanning [-1, 1] in x and y.  Its constant data is
    /// pre-validated, so construction cannot fail.
    pub fn new_standard_rectangle() -> (r: Rectangle)
        ensures
            r.spec_mesh().wf(),
            r.spec_mesh().spec_vertices() == paired_vertices2(
                standard_rectangle_positions(),
                rectangle_attribs(),
            ),
            r.spec_vertex_bytes() == vertex2_seq_bytes(
                paired_vertices2(standard_rectangle_positions(), rectangle_attribs()),
            ),
            r.spec_index_format() == IndexFormat::Uint16,
            r.spec_num_indices() == 6,
            r.spec_index_bytes() == u16s_le_bytes(narrow16(rectangle_indices())),
    {
        let mut pos: Vec<Pos3> = Vec::new();
        pos.push(Pos3 { x: 0xBF800000, y: 0xBF800000, z: 0x3F000000 });
        pos.push(Pos3 { x: 0x3F800000, y: 0xBF800000, z: 0x3F000000 });
        pos.push(Pos3 { x: 0x3F800000, y: 0x3F800000, z: 0x3F000000 });
        pos.push(Pos3 { x: 0xBF800000, y: 0x3F800000, z: 0x3F000000 });
        proof {
            assert(pos@ =~= standard_rectangle_positions());
        }
        let attribs = rectangle_attrib_vec();
        let indices = rectangle_index_vec();
        proof {
            assert forall|j: int| 0 <= j < indices@.len() implies indices@[j] <= 3 by {
                assert(j == 0 || j == 1 || j == 2 || j == 3 || j == 4 || j == 5);
            }
            assert(all_indices_fit(indices@, spec_format_for(pos@.len())));
        }
        match Mesh2::new(&pos, &indices, &attribs) {
            Ok(m) => Rectangle { mesh: m },
            Err(_) => unreached(),
        }
    }

    /// The rectangle spanning [0, 1] in x and y.  Its constant data is
    /// pre-validated, so construction cannot fail.
    pub fn new_unit_rectangle() -> (r: Rectangle)
        ensures
            r.spec_mesh().wf(),
            r.spec_mesh().spec_vertices() == paired_vertices2(
                unit_rectangle_positions(),
                rectangle_attribs(),
            ),
            r.spec_vertex_bytes() == vertex2_seq_bytes(
                paired_vertices2(unit_rectangle_positions(), rectangle_attribs()),
            ),
            r.spec_index_format() == IndexFormat::Uint16,
            r.spec_num_indices() == 6,
            r.spec_index_bytes() == u16s_le_bytes(narrow16(rectangle_indices())),
    {
        let mut pos: Vec<Pos3> = Vec::new();
        pos.push(Pos3 { x: 0x00000000, y: 0x00000000, z: 0x3F000000 });
        pos.push(Pos3 { x: 0x3F800000, y: 0x00000000, z: 0x3F000000 });
        pos.push(Pos3 { x: 0x3F800000, y: 0x3F800000, z: 0x3F000000 });
        pos.push(Pos3 { x: 0x00000000, y: 0x3F800000, z: 0x3F000000 });
        proof {
            assert(pos@ =~= unit_rectangle_positions());
        }
        let attribs = rectangle_attrib_vec();
        let indices = rectangle_index_vec();
        proof {
            assert forall|j: int| 0 <= j < indices@.len() implies indices@[j] <= 3 by {
                assert(j == 0 || j == 1 || j == 2 || j == 3 || j == 4 || j == 5);
            }
            assert(all_indices_fit(indices@, spec_format_for(pos@.len())));
        }
        match Mesh2::new(&pos, &indices, &attribs) {
            Ok(m) => Rectangle { mesh: m },
            Err(_) => unreached(),
        }
    }
}

impl Geometry for Rectangle {
    open spec fn spec_stride(&self) -> nat {
        self.spec_mesh().spec_stride()
    }

    open spec fn spec_slots(&self) -> Seq<AttributeSlot> {
        self.spec_mesh().spec_slots()
    }

    open spec fn spec_vertex_bytes(&self) -> Seq<u8> {
        self.spec_mesh().spec_vertex_bytes()
    }

    open spec fn spec_index_bytes(&self) -> Seq<u8> {
        self.spec_mesh().spec_index_bytes()
    }

    open spec fn spec_index_format(&self) -> IndexFormat {
        self.spec_mesh().spec_index_format()
    }

    open spec fn spec_num_indices(&self) -> nat {
        self.spec_mesh().spec_num_indices()
    }

    fn vertex_desc(&self) -> (r: VertexLayout) {
        self.mesh.vertex_desc()
    }

    fn get_vertex_raw(&self) -> (r: Vec<u8>) {
        self.mesh.get_vertex_raw()
    }

    fn get_index_raw(&self) -> (r: Vec<u8>) {
        self.mesh.get_index_raw()
    }

    fn get_index_format(&self) -> (r: IndexFormat) {
        self.mesh.get_index_format()
    }

    fn get_num_indices(&self) -> (r: usize) {
        self.mesh.get_num_indices()
    }
}

/// A cube of side length one half around the origin, with fixed,
/// pre-validated data.
pub struct Cube;

/// The cube's eight corner records; the attribute is a texture coordinate.
pub open spec fn cube_vertices() -> Seq<Vertex2> {
    seq![
        (Vertex2 {
            position: Pos3 { x: 0xBF000000, y: 0xBF000000, z: 0x3F000000 },
            attrib: Attr2 { u: 0x00000000, v: 0x00000000 },
        }),
        (Vertex2 {
            position: Pos3 { x: 0x3F000000, y: 0xBF000000, z: 0x3F000000 },
            attrib: Attr2 { u: 0x00000000, v: 0x3F800000 },
        }),
        (Vertex2 {
            position: Pos3 { x: 0x3F000000, y: 0x3F000000, z: 0x3F000000 },
            attrib: Attr2 { u: 0x3F800000, v: 0x00000000 },
        }),
        (Vertex2 {
            position: Pos3 { x: 0xBF000000, y: 0x3F000000, z: 0x3F000000 },
            attrib: Attr2 { u: 0x3F800000, v: 0x3F800000 },
        }),
        (Vertex2 {
            position: Pos3 { x: 0xBF000000, y: 0xBF000000, z: 0xBF000000 },
            attrib: Attr2 { u: 0x00000000, v: 0x00000000 },
        }),
        (Vertex2 {
            position: Pos3 { x: 0x3F000000, y: 0xBF000000, z: 0xBF000000 },
            attrib: Attr2 { u: 0x00000000, v: 0x3F800000 },
        }),
        (Vertex2 {
            position: Pos3 { x: 0x3F000000, y: 0x3F000000, z: 0xBF000000 },
            attrib: Attr2 { u: 0x3F800000, v: 0x00000000 },
        }),
        (Vertex2 {
            position: Pos3 { x: 0xBF000000, y: 0x3F000000, z: 0xBF000000 },
            attrib: Attr2 { u: 0x3F800000, v: 0x3F800000 },
        }),
    ]
}

/// The cube's index list: two triangles for each of the six faces.
pub open spec fn cube_indices() -> Seq<u16> {
    seq![
        0u16, 1, 3, 3, 1, 2,
        2, 1, 5, 2, 5, 6,
        3, 2, 7, 7, 2, 6,
        4, 0, 3, 4, 3, 7,
        4, 1, 0, 4, 5, 1,
        7, 6, 5, 7, 5, 4,
    ]
}

fn cube_vertex_vec() -> (r: Vec<Vertex2>)
    ensures
        r@ == cube_vertices(),
{
    let mut out: Vec<Vertex2> = Vec::new();
    out.push(Vertex2 {
        position: Pos3 { x: 0xBF000000, y: 0xBF000000, z: 0x3F000000 },
        attrib: Attr2 { u: 0x00000000, v: 0x00000000 },
    });
    out.push(Vertex2 {
        position: Pos3 { x: 0x3F000000, y: 0xBF000000, z: 0x3F000000 },
        attrib: Attr2 { u: 0x00000000, v: 0x3F800000 },
    });
    out.push(Vertex2 {
        position: Pos3 { x: 0x3F000000, y: 0x3F000000, z: 0x3F000000 },
        attrib: Attr2 { u: 0x3F800000, v: 0x00000000 },
    });
    out.push(Vertex2 {
        position: Pos3 { x: 0xBF000000, y: 0x3F000000, z: 0x3F000000 },
        attrib: Attr2 { u: 0x3F800000, v: 0x3F800000 },
    });
    out.push(Vertex2 {
        position: Pos3 { x: 0xBF000000, y: 0xBF000000, z: 0xBF000000 },
        attrib: Attr2 { u: 0x00000000, v: 0x00000000 },
    });
    out.push(Vertex2 {
        position: Pos3 { x: 0x3F000000, y: 0xBF000000, z: 0xBF000000 },
        attrib: Attr2 { u: 0x00000000, v: 0x3F800000 },
    });
    out.push(Vertex2 {
        position: Pos3 { x: 0x3F000000, y: 0x3F000000, z: 0xBF000000 },
        attrib: Attr2 { u: 0x3F800000, v: 0x00000000 },
    });
    out.push(Vertex2 {
        position: Pos3 { x: 0xBF000000, y: 0x3F000000, z: 0xBF000000 },
        attrib: Attr2 { u: 0x3F800000, v: 0x3F800000 },
    });
    proof {
        assert(out@ =~= cube_vertices());
    }
    out
}

fn cube_index_vec() -> (r: Vec<u16>)
    ensures
        r@ == cube_indices(),
{
    let mut out: Vec<u16> = Vec::new();
    out.push(0);
    out.push(1);
    out.push(3);
    out.push(3);
    out.push(1);
    out.push(2);
    out.push(2);
    out.push(1);
    out.push(5);
    out.push(2);
    out.push(5);
    out.push(6);
    out.push(3);
    out.push(2);
    out.push(7);
    out.push(7);
    out.push(2);
    out.push(6);
    out.push(4);
    out.push(0);
    out.push(3);
    out.push(4);
    out.push(3);
    out.push(7);
    out.push(4);
    out.push(1);
    out.push(0);
    out.push(4);
    out.push(5);
    out.push(1);
    out.push(7);
    out.push(6);
    out.push(5);
    out.push(7);
    out.push(5);
    out.push(4);
    proof {
        assert(out@ =~= cube_indices());
    }
    out
}

impl Geometry for Cube {
    open spec fn spec_stride(&self) -> nat {
        20
    }

    open spec fn spec_slots(&self) -> Seq<AttributeSlot> {
        layout2_slots()
    }

    open spec fn spec_vertex_bytes(&self) -> Seq<u8> {
        vertex2_seq_bytes(cube_vertices())
    }

    open spec fn spec_index_bytes(&self) -> Seq<u8> {
        u16s_le_bytes(cube_indices())
    }

    open spec fn spec_index_format(&self) -> IndexFormat {
        IndexFormat::Uint16
    }

    open spec fn spec_num_indices(&self) -> nat {
        36
    }

    fn vertex_desc(&self) -> (r: VertexLayout) {
        let mut slots: Vec<AttributeSlot> = Vec::new();
        slots.push(AttributeSlot { offset: 0, components: 3, shader_location: 0 });
        slots.push(AttributeSlot { offset: 12, components: 2, shader_location: 1 });
        proof {
            assert(slots@ =~= layout2_slots());
        }
        VertexLayout { stride: 20, slots }
    }

    fn get_vertex_raw(&self) -> (r: Vec<u8>) {
        let vs = cube_vertex_vec();
        pack_vertex2_bytes(&vs)
    }

    fn get_index_raw(&self) -> (r: Vec<u8>) {
        let idxs = cube_index_vec();
        pack_u16s_le(&idxs)
    }

    fn get_index_format(&self) -> (r: IndexFormat) {
        IndexFormat::Uint16
    }

    fn get_num_indices(&self) -> (r: usize) {
        36
    }
}

} // verus!
