//! Vertex-layout descriptors, as plain values.
//!
//! A pipeline is built against a vertex layout: a per-vertex stride and a
//! list of attributes, each with a shader location, a byte offset, and a
//! component count of 32-bit floats.  The conversion to the graphics API's
//! descriptor structs is the caller's concern.

use vstd::prelude::*;

verus! {

/// One vertex attribute: `components` 32-bit floats at `offset`, bound to
/// shader input `location`.
#[derive(Clone, Copy, Debug, PartialEq, Eq, Structural)]
pub struct VertexAttribute {
    pub location: u32,
    pub offset: u32,
    pub components: u32,
}

/// Vertex format descriptor for pipeline creation.
#[derive(Clone, Copy, Debug, PartialEq, Eq, Structural)]
pub enum VertexFormat {
    /// 2D position and RGB color.
    ColorVertex2D,
    /// 2D position and texture coordinates.
    TexturedVertex2D,
    /// 3D position, normal, and texture coordinates.
    ModelVertex3D,
}

impl VertexFormat {
    /// Bytes from one vertex to the next.
    pub fn stride(&self) -> (r: u32)
        ensures
            r == (match self {
                VertexFormat::ColorVertex2D => 20u32,
                VertexFormat::TexturedVertex2D => 16u32,
                VertexFormat::ModelVertex3D => 32u32,
            }),
    {
        match self {
            VertexFormat::ColorVertex2D => 20,
            VertexFormat::TexturedVertex2D => 16,
            VertexFormat::ModelVertex3D => 32,
        }
    }

    /// The attribute list of this format, in location order; offsets are
    /// consistent with the stride.
    pub fn attributes(&self) -> (r: Vec<VertexAttribute>)
        ensures
            r@ == (match self {
                VertexFormat::ColorVertex2D => seq![
                    VertexAttribute { location: 0u32, offset: 0u32, components: 2u32 },
                    VertexAttribute { location: 1u32, offset: 8u32, components: 3u32 },
                ],
                VertexFormat::TexturedVertex2D => seq![
                    VertexAttribute { location: 0u32, offset: 0u32, components: 2u32 },
                    VertexAttribute { location: 1u32, offset: 8u32, components: 2u32 },
                ],
                VertexFormat::ModelVertex3D => seq![
                    VertexAttribute { location: 0u32, offset: 0u32, components: 3u32 },
                    VertexAttribute { location: 1u32, offset: 12u32, components: 3u32 },
                    VertexAttribute { location: 2u32, offset: 24u32, components: 2u32 },
                ],
            }),
    {
        let mut v: Vec<VertexAttribute> = Vec::new();
        match self {
            VertexFormat::ColorVertex2D => {
                v.push(VertexAttribute { location: 0, offset: 0, components: 2 });
                v.push(VertexAttribute { location: 1, offset: 8, components: 3 });
                proof {
                    assert(v@ =~= seq![
                        VertexAttribute { location: 0u32, offset: 0u32, components: 2u32 },
                        VertexAttribute { location: 1u32, offset: 8u32, components: 3u32 },
                    ]);
                }
            },
            VertexFormat::TexturedVertex2D => {
                v.push(VertexAttribute { location: 0, offset: 0, components: 2 });
                v.push(VertexAttribute { location: 1, offset: 8, components: 2 });
                proof {
                    assert(v@ =~= seq![
                        VertexAttribute { location: 0u32, offset: 0u32, components: 2u32 },
                        VertexAttribute { location: 1u32, offset: 8u32, components: 2u32 },
                    ]);
                }
            },
            VertexFormat::ModelVertex3D => {
                v.push(VertexAttribute { location: 0, offset: 0, components: 3 });
                v.push(VertexAttribute { location: 1, offset: 12, components: 3 });
                v.push(VertexAttribute { location: 2, offset: 24, components: 2 });
                proof {
                    assert(v@ =~= seq![
                        VertexAttribute { location: 0u32, offset: 0u32, components: 3u32 },
                        VertexAttribute { location: 1u32, offset: 12u32, components: 3u32 },
                        VertexAttribute { location: 2u32, offset: 24u32, components: 2u32 },
                    ]);
                }
            },
        }
        v
    }
}

} // verus!
