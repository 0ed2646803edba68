//! The vertex layout descriptor.
//!
//! A declarative schema of the wire format vertices are uploaded in: for
//! each field of the vertex record its name (matched against the shader's
//! input names), byte offset, component count and numeric encoding. Built
//! once at initialization and used to plan the attribute bindings of a
//! linked program.

use vstd::prelude::*;

use crate::types::Vertex;

verus! {

/// The numeric encoding of one vertex attribute's components.
#[derive(Clone, Copy, Debug, PartialEq, Eq, Structural)]
pub enum GlTypeEnum {
    Byte,
    UnsignedByte,
    Short,
    UnsignedShort,
    Float,
}

/// The size of one component of the given encoding, in bytes.
pub open spec fn kind_size(k: GlTypeEnum) -> int {
    match k {
        GlTypeEnum::Byte => 1,
        GlTypeEnum::UnsignedByte => 1,
        GlTypeEnum::Short => 2,
        GlTypeEnum::UnsignedShort => 2,
        GlTypeEnum::Float => 4,
    }
}

/// One field of the vertex record: where it sits in the record, how many
/// components it has, how they are encoded, and whether the GPU normalizes
/// them (maps the integer range onto 0.0 ..= 1.0).
#[derive(Clone, Copy, Debug, PartialEq)]
pub struct FieldInfo {
    pub name: &'static str,
    pub offset: usize,
    pub count: usize,
    pub kind: GlTypeEnum,
    pub normalized: bool,
}

/// The layout of [`crate::types::Vertex`] on the wire, densely packed:
/// the pixel position as two signed 16-bit components, the color as four
/// normalized bytes, the texture coordinate as two normalized unsigned
/// 16-bit components.
pub fn vertex_layout() -> (r: Vec<FieldInfo>)
    ensures
        r@.len() == 3,
        r@[0] == (FieldInfo {
            name: "pos",
            offset: 0,
            count: 2,
            kind: GlTypeEnum::Short,
            normalized: false,
        }),
        r@[1] == (FieldInfo {
            name: "col",
            offset: 4,
            count: 4,
            kind: GlTypeEnum::UnsignedByte,
            normalized: true,
        }),
        r@[2] == (FieldInfo {
            name: "texc",
            offset: 8,
            count: 2,
            kind: GlTypeEnum::UnsignedShort,
            normalized: true,
        }),
        forall|i: int| #![auto] 0 <= i < 2 ==> r@[i + 1].offset == r@[i].offset + r@[i].count
            * kind_size(r@[i].kind),
{
    let mut r: Vec<FieldInfo> = Vec::new();
    r.push(FieldInfo {
        name: "pos",
        offset: 0,
        count: 2,
        kind: GlTypeEnum::Short,
        normalized: false,
    });
    r.push(FieldInfo {
        name: "col",
        offset: 4,
        count: 4,
        kind: GlTypeEnum::UnsignedByte,
        normalized: true,
    });
    r.push(FieldInfo {
        name: "texc",
        offset: 8,
        count: 2,
        kind: GlTypeEnum::UnsignedShort,
        normalized: true,
    });
    r
}

/// The size of one vertex record on the wire, in bytes: the end of its
/// last field.
pub fn vertex_stride() -> (r: usize)
    ensures
        r == 12,
{
    12
}

/// The low byte of a 16-bit value, as little-endian encoding writes it
/// first.
pub open spec fn le_lo(x: u16) -> u8 {
    (x & 0xff) as u8
}

/// The high byte of a 16-bit value.
pub open spec fn le_hi(x: u16) -> u8 {
    (x >> 8) as u8
}

/// One vertex record in the wire format [`vertex_layout`] declares: the
/// two position shorts little-endian at offset 0, the four color bytes at
/// offset 4, the two texture-coordinate shorts little-endian at offset 8.
pub open spec fn vertex_bytes(v: Vertex) -> Seq<u8> {
    seq![
        le_lo(v.x as u16),
        le_hi(v.x as u16),
        le_lo(v.y as u16),
        le_hi(v.y as u16),
        v.col.r,
        v.col.g,
        v.col.b,
        v.col.a,
        le_lo(v.u),
        le_hi(v.u),
        le_lo(v.v),
        le_hi(v.v),
    ]
}

/// A whole vertex run on the wire: each record's 12 bytes, in order.
pub open spec fn encoded_vertices(verts: Seq<Vertex>) -> Seq<u8>
    decreases verts.len(),
{
    if verts.len() == 0 {
        Seq::<u8>::empty()
    } else {
        encoded_vertices(verts.drop_last()) + vertex_bytes(verts.last())
    }
}

pub proof fn lemma_encoded_vertices_len(verts: Seq<Vertex>)
    ensures
        encoded_vertices(verts).len() == 12 * verts.len(),
    decreases verts.len(),
{
    if verts.len() > 0 {
        lemma_encoded_vertices_len(verts.drop_last());
    }
}

/// Serializes vertices into the wire format, 12 bytes per record, exactly
/// as [`vertex_layout`] places the fields.
pub fn encode_vertices(verts: &Vec<Vertex>) -> (r: Vec<u8>)
    ensures
        r@ == encoded_vertices(verts@),
        r@.len() == 12 * verts@.len(),
{
    let n = verts.len();
    let mut r: Vec<u8> = Vec::new();
    let mut i: usize = 0;
    while i < n
        invariant
            i <= n,
            n == verts@.len(),
            r@ == encoded_vertices(verts@.take(i as int)),
            r@.len() == 12 * i,
        decreases n - i,
    {
        let v = verts[i];
        let x = v.x as u16;
        let y = v.y as u16;
        r.push((x & 0xff) as u8);
        r.push((x >> 8) as u8);
        r.push((y & 0xff) as u8);
        r.push((y >> 8) as u8);
        r.push(v.col.r);
        r.push(v.col.g);
        r.push(v.col.b);
        r.push(v.col.a);
        r.push((v.u & 0xff) as u8);
        r.push((v.u >> 8) as u8);
        r.push((v.v & 0xff) as u8);
        r.push((v.v >> 8) as u8);
        i = i + 1;
        proof {
            assert(verts@.take(i as int).drop_last() =~= verts@.take(i - 1));
            assert(verts@.take(i as int).last() == verts@[i - 1]);
            assert(r@ =~= encoded_vertices(verts@.take(i - 1)) + vertex_bytes(verts@[i - 1]));
        }
    }
    proof {
        assert(verts@.take(n as int) =~= verts@);
        lemma_encoded_vertices_len(verts@);
    }
    r
}

/// One planned attribute binding: a vertex field together with the input
/// location the linked program assigned to its name.
#[derive(Clone, Copy, Debug, PartialEq)]
pub struct AttributeBinding {
    pub location: u32,
    pub field: FieldInfo,
}

/// Pairs every vertex field with the location the program gave its name
/// (`locations[i]` answers for `layout[i]`). A field whose name has no
/// location in the program is a configuration error, fatal at
/// initialization: the result is the index of the first such field, and
/// the renderer cannot start.
pub fn plan_attribute_bindings(layout: &Vec<FieldInfo>, locations: &Vec<Option<u32>>) -> (r: Result<
    Vec<AttributeBinding>,
    usize,
>)
    requires
        locations@.len() == layout@.len(),
    ensures
        match r {
            Ok(bindings) => {
                &&& bindings@.len() == layout@.len()
                &&& forall|i: int| #![auto] 0 <= i < layout@.len() ==> bindings@[i].field
                    == layout@[i] && locations@[i] == Some(bindings@[i].location)
            },
            Err(bad) => {
                &&& 0 <= bad < layout@.len()
                &&& locations@[bad as int] is None
                &&& forall|j: int| 0 <= j < bad ==> (#[trigger] locations@[j]) is Some
            },
        },
{
    let n = layout.len();
    let mut bindings: Vec<AttributeBinding> = Vec::new();
    let mut i: usize = 0;
    while i < n
        invariant
            i <= n,
            n == layout@.len(),
            locations@.len() == layout@.len(),
            bindings@.len() == i,
            forall|k: int| #![auto] 0 <= k < i ==> bindings@[k].field == layout@[k]
                && locations@[k] == Some(bindings@[k].location),
        decreases n - i,
    {
        match locations[i] {
            Some(loc) => {
                bindings.push(AttributeBinding { location: loc, field: layout[i] });
            },
            None => {
                return Err(i);
            },
        }
        i = i + 1;
    }
    Ok(bindings)
}

} // verus!
