//! A growable array of vertices that the native library draws as one primitive type.

use crate::graphics::primitive_type::PrimitiveType;
use crate::ffi::sfml_types::ForeignError;
use libc::c_uint;
use vstd::prelude::*;

pub mod csfml;

verus! {

/// The native code that stands for a primitive type.
pub open spec fn primitive_type_code(primitive_type: PrimitiveType) -> csfml::sfPrimitiveType {
    match primitive_type {
        PrimitiveType::Points => csfml::sfPoints,
        PrimitiveType::Lines => csfml::sfLines,
        PrimitiveType::LinesStrip => csfml::sfLinesStrip,
        PrimitiveType::Triangles => csfml::sfTriangles,
        PrimitiveType::TrianglesStrip => csfml::sfTrianglesStrip,
        PrimitiveType::TrianglesFan => csfml::sfTrianglesFan,
        PrimitiveType::Quads => csfml::sfQuads,
    }
}

/// The primitive type that a native code stands for, if it stands for any.
pub open spec fn primitive_type_of(code: csfml::sfPrimitiveType) -> Option<PrimitiveType> {
    if code == csfml::sfPoints {
        Some(PrimitiveType::Points)
    } else if code == csfml::sfLines {
        Some(PrimitiveType::Lines)
    } else if code == csfml::sfLinesStrip {
        Some(PrimitiveType::LinesStrip)
    } else if code == csfml::sfTriangles {
        Some(PrimitiveType::Triangles)
    } else if code == csfml::sfTrianglesStrip {
        Some(PrimitiveType::TrianglesStrip)
    } else if code == csfml::sfTrianglesFan {
        Some(PrimitiveType::TrianglesFan)
    } else if code == csfml::sfQuads {
        Some(PrimitiveType::Quads)
    } else {
        None
    }
}

/// Every native code that stands for a primitive type is the code of that
/// primitive type.
pub proof fn primitive_type_code_round_trip(code: csfml::sfPrimitiveType)
    requires
        primitive_type_of(code) is Some,
    ensures
        primitive_type_code(primitive_type_of(code).unwrap()) == code,
{
}

/// The code of every primitive type stands for that primitive type, and for
/// no other.
pub proof fn primitive_type_round_trip(primitive_type: PrimitiveType)
    ensures
        primitive_type_of(primitive_type_code(primitive_type)) == Some(primitive_type),
{
}

/// The owner of one native vertex array.
///
/// A `VertexArray` always holds a handle that is not null. It gives the
/// handle up only in `destroy`, which consumes it.
#[allow(non_snake_case)]
pub struct VertexArray {
    vertexArray: csfml::sfVertexArray,
}

impl View for VertexArray {
    type V = csfml::sfVertexArray;

    /// The handle that this wrapper owns.
    closed spec fn view(&self) -> csfml::sfVertexArray {
        self.vertexArray
    }
}

impl VertexArray {
    #[verifier::type_invariant]
    spec fn holds_a_handle(&self) -> bool {
        !self.vertexArray.is_null()
    }

    /// The call that creates a new, empty vertex array. Its answer goes to `wrap`.
    pub fn new() -> (call: csfml::VertexArrayCall)
        ensures
            call == csfml::VertexArrayCall::Create,
    {
        csfml::VertexArrayCall::Create
    }

    /// The call that creates a copy of `vertexArray`. Its answer goes to `wrap`.
    #[allow(non_snake_case)]
    pub fn new_copy(vertexArray: &VertexArray) -> (call: csfml::VertexArrayCall)
        ensures
            call == (csfml::VertexArrayCall::Copy { vertexArray: vertexArray@ }),
    {
        csfml::VertexArrayCall::Copy { vertexArray: vertexArray.unwrap() }
    }

    /// The call that asks for the number of vertices. Its answer goes to
    /// `get_vertex_count_reply`.
    pub fn get_vertex_count(&self) -> (call: csfml::VertexArrayCall)
        ensures
            call == (csfml::VertexArrayCall::GetVertexCount { vertexArray: self@ }),
    {
        csfml::VertexArrayCall::GetVertexCount { vertexArray: self.vertexArray }
    }

    /// Reads the answer to `get_vertex_count`: the same number, widened.
    pub fn get_vertex_count_reply(count: c_uint) -> (vertex_count: usize)
        ensures
            vertex_count == count,
    {
        count as usize
    }

    /// The call that removes every vertex.
    pub fn clear(&self) -> (call: csfml::VertexArrayCall)
        ensures
            call == (csfml::VertexArrayCall::Clear { vertexArray: self@ }),
    {
        csfml::VertexArrayCall::Clear { vertexArray: self.vertexArray }
    }

    /// The call that makes the array hold `vertexCount` vertices.
    ///
    /// The native library counts in 32 bits: a larger count is cut down to
    /// its low 32 bits.
    #[allow(non_snake_case)]
    pub fn resize(&self, vertexCount: usize) -> (call: csfml::VertexArrayCall)
        ensures
            call == (csfml::VertexArrayCall::Resize {
                vertexArray: self@,
                vertexCount: (vertexCount as int % 0x1_0000_0000) as c_uint,
            }),
    {
        let low: u64 = (vertexCount as u64) % 0x1_0000_0000u64;
        csfml::VertexArrayCall::Resize { vertexArray: self.vertexArray, vertexCount: low as c_uint }
    }

    /// The call that sets what the vertices are drawn as.
    #[allow(non_snake_case)]
    pub fn set_primitive_type(&self, primitiveType: PrimitiveType) -> (call:
        csfml::VertexArrayCall)
        ensures
            call == (csfml::VertexArrayCall::SetPrimitiveType {
                vertexArray: self@,
                stype: primitive_type_code(primitiveType),
            }),
    {
        match primitiveType {
            PrimitiveType::Points => csfml::VertexArrayCall::SetPrimitiveType {
                vertexArray: self.vertexArray,
                stype: csfml::sfPoints,
            },
            PrimitiveType::Lines => csfml::VertexArrayCall::SetPrimitiveType {
                vertexArray: self.vertexArray,
                stype: csfml::sfLines,
            },
            PrimitiveType::LinesStrip => csfml::VertexArrayCall::SetPrimitiveType {
                vertexArray: self.vertexArray,
                stype: csfml::sfLinesStrip,
            },
            PrimitiveType::Triangles => csfml::VertexArrayCall::SetPrimitiveType {
                vertexArray: self.vertexArray,
                stype: csfml::sfTriangles,
            },
            PrimitiveType::TrianglesStrip => csfml::VertexArrayCall::SetPrimitiveType {
                vertexArray: self.vertexArray,
                stype: csfml::sfTrianglesStrip,
            },
            PrimitiveType::TrianglesFan => csfml::VertexArrayCall::SetPrimitiveType {
                vertexArray: self.vertexArray,
                stype: csfml::sfTrianglesFan,
            },
            PrimitiveType::Quads => csfml::VertexArrayCall::SetPrimitiveType {
                vertexArray: self.vertexArray,
                stype: csfml::sfQuads,
            },
        }
    }

    /// The call that asks what the vertices are drawn as. Its answer goes to
    /// `get_primitive_type_reply`.
    pub fn get_primitive_type(&self) -> (call: csfml::VertexArrayCall)
        ensures
            call == (csfml::VertexArrayCall::GetPrimitiveType { vertexArray: self@ }),
    {
        csfml::VertexArrayCall::GetPrimitiveType { vertexArray: self.vertexArray }
    }

    /// Reads the answer to `get_primitive_type`.
    ///
    /// A code that stands for no primitive type is an error. It is never
    /// read as some default.
    pub fn get_primitive_type_reply(code: csfml::sfPrimitiveType) -> (primitive_type: Result<
        PrimitiveType,
        ForeignError,
    >)
        ensures
            primitive_type_of(code) matches Some(known) ==> primitive_type == Ok::<
                PrimitiveType,
                ForeignError,
            >(known),
            primitive_type_of(code) is None ==> primitive_type == Err::<
                PrimitiveType,
                ForeignError,
            >(ForeignError::UnknownPrimitiveType(code)),
    {
        match code {
            csfml::sfPoints => Ok(PrimitiveType::Points),
            csfml::sfLines => Ok(PrimitiveType::Lines),
            csfml::sfLinesStrip => Ok(PrimitiveType::LinesStrip),
            csfml::sfTriangles => Ok(PrimitiveType::Triangles),
            csfml::sfTrianglesStrip => Ok(PrimitiveType::TrianglesStrip),
            csfml::sfTrianglesFan => Ok(PrimitiveType::TrianglesFan),
            csfml::sfQuads => Ok(PrimitiveType::Quads),
            _ => Err(ForeignError::UnknownPrimitiveType(code)),
        }
    }

    /// Takes ownership of the array behind a handle that the native library
    /// gave out, or gives `None` for the null handle, which has none behind it.
    #[allow(non_snake_case)]
    pub fn wrap(vertexArray: csfml::sfVertexArray) -> (wrapped: Option<VertexArray>)
        ensures
            vertexArray.is_null() <==> wrapped is None,
            wrapped matches Some(owner) ==> owner@ == vertexArray,
    {
        if vertexArray.This == 0 {
            None
        } else {
            Some(VertexArray { vertexArray: vertexArray })
        }
    }

    /// The handle that this wrapper owns. It is never null.
    pub fn unwrap(&self) -> (vertexArray: csfml::sfVertexArray)
        ensures
            vertexArray == self@,
            !vertexArray.is_null(),
    {
        proof {
            use_type_invariant(self);
        }
        self.vertexArray
    }

    /// Gives the array up: the call that releases it. The wrapper is consumed,
    /// so no second release can be asked for.
    pub fn destroy(self) -> (call: csfml::VertexArrayCall)
        ensures
            call == (csfml::VertexArrayCall::Destroy { vertexArray: self@ }),
    {
        csfml::VertexArrayCall::Destroy { vertexArray: self.vertexArray }
    }
}

} // verus!
