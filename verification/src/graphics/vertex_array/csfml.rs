//! The native side of a vertex array: its handle, its codes and its entry points.

use libc::c_uint;
use vstd::prelude::*;

verus! {

/// The native library's code for a primitive type.
#[allow(non_camel_case_types)]
pub type sfPrimitiveType = c_uint;

#[allow(non_upper_case_globals)]
pub const sfPoints: sfPrimitiveType = 0;

#[allow(non_upper_case_globals)]
pub const sfLines: sfPrimitiveType = 1;

#[allow(non_upper_case_globals)]
pub const sfLinesStrip: sfPrimitiveType = 2;

#[allow(non_upper_case_globals)]
pub const sfTriangles: sfPrimitiveType = 3;

#[allow(non_upper_case_globals)]
pub const sfTrianglesStrip: sfPrimitiveType = 4;

#[allow(non_upper_case_globals)]
pub const sfTrianglesFan: sfPrimitiveType = 5;

#[allow(non_upper_case_globals)]
pub const sfQuads: sfPrimitiveType = 6;

/// A handle to a native vertex array: the address that the native library
/// gave out for it, or zero for the null handle.
#[allow(non_camel_case_types)]
#[allow(non_snake_case)]
#[derive(Clone, Copy, Debug, PartialEq, Eq, Structural)]
pub struct sfVertexArray {
    pub This: usize,
}

impl sfVertexArray {
    /// Whether this is the null handle, which stands for no vertex array.
    pub open spec fn is_null(&self) -> bool {
        self.This == 0
    }
}

/// One invocation of a native entry point for vertex arrays, with the
/// arguments it is made with.
#[allow(non_snake_case)]
#[derive(Clone, Copy, Debug, PartialEq, Eq, Structural)]
pub enum VertexArrayCall {
    /// `sfVertexArray_create`: answers with the handle of a new, empty array.
    Create,
    /// `sfVertexArray_copy`: answers with the handle of a new array that holds
    /// the same vertices as the given one.
    Copy { vertexArray: sfVertexArray },
    /// `sfVertexArray_destroy`: releases the array.
    Destroy { vertexArray: sfVertexArray },
    /// `sfVertexArray_getVertexCount`: answers with the number of vertices.
    GetVertexCount { vertexArray: sfVertexArray },
    /// `sfVertexArray_clear`: removes every vertex.
    Clear { vertexArray: sfVertexArray },
    /// `sfVertexArray_resize`: makes the array hold `vertexCount` vertices.
    Resize { vertexArray: sfVertexArray, vertexCount: c_uint },
    /// `sfVertexArray_setPrimitiveType`: sets what the vertices are drawn as.
    SetPrimitiveType { vertexArray: sfVertexArray, stype: sfPrimitiveType },
    /// `sfVertexArray_getPrimitiveType`: answers with the code of what the
    /// vertices are drawn as.
    GetPrimitiveType { vertexArray: sfVertexArray },
}

} // verus!
