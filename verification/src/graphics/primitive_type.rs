//! The kinds of primitive that a vertex array can be drawn as.

use vstd::prelude::*;

verus! {

/// How the vertices of an array are assembled into shapes.
#[derive(Clone, Copy, Debug, PartialEq, Eq, Structural)]
pub enum PrimitiveType {
    /// Unconnected points.
    Points,
    /// Unconnected lines, two vertices each.
    Lines,
    /// Lines that each start where the last one ended.
    LinesStrip,
    /// Unconnected triangles, three vertices each.
    Triangles,
    /// Triangles that each share two vertices with the last one.
    TrianglesStrip,
    /// Triangles that all share the first vertex.
    TrianglesFan,
    /// Unconnected quads, four vertices each.
    Quads,
}

} // verus!
