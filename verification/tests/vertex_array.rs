use rsfml::ffi::sfml_types::ForeignError;
use rsfml::graphics::primitive_type::PrimitiveType;
use rsfml::graphics::vertex_array::csfml::{sfVertexArray, VertexArrayCall};
use rsfml::graphics::vertex_array::VertexArray;

const ALL: [PrimitiveType; 7] = [
    PrimitiveType::Points,
    PrimitiveType::Lines,
    PrimitiveType::LinesStrip,
    PrimitiveType::Triangles,
    PrimitiveType::TrianglesStrip,
    PrimitiveType::TrianglesFan,
    PrimitiveType::Quads,
];

fn array_at(address: usize) -> VertexArray {
    VertexArray::wrap(sfVertexArray { This: address }).unwrap()
}

fn code_sent_for(primitive_type: PrimitiveType) -> u32 {
    match array_at(8).set_primitive_type(primitive_type) {
        VertexArrayCall::SetPrimitiveType { stype, .. } => stype,
        other => panic!("not a call that sets the primitive type: {:?}", other),
    }
}

#[test]
fn wrap_of_the_null_handle_is_none() {
    assert!(VertexArray::wrap(sfVertexArray { This: 0 }).is_none());
}

#[test]
fn wrap_then_unwrap_gives_the_handle_back() {
    let owner = array_at(0x5000);
    assert_eq!(owner.unwrap(), sfVertexArray { This: 0x5000 });
    assert_eq!(owner.unwrap(), sfVertexArray { This: 0x5000 });
}

#[test]
fn wrap_takes_the_highest_address() {
    let owner = array_at(usize::MAX);
    assert_eq!(owner.unwrap().This, usize::MAX);
}

#[test]
fn new_asks_for_creation() {
    assert_eq!(VertexArray::new(), VertexArrayCall::Create);
}

#[test]
fn failed_creation_gives_no_vertex_array() {
    let call = VertexArray::new();
    assert_eq!(call, VertexArrayCall::Create);
    let answer_of_a_failing_factory = sfVertexArray { This: 0 };
    assert!(VertexArray::wrap(answer_of_a_failing_factory).is_none());
}

#[test]
fn new_copy_names_the_source() {
    let source = array_at(0x77);
    assert_eq!(
        VertexArray::new_copy(&source),
        VertexArrayCall::Copy { vertexArray: sfVertexArray { This: 0x77 } }
    );
}

#[test]
fn get_vertex_count_names_the_array() {
    assert_eq!(
        array_at(12).get_vertex_count(),
        VertexArrayCall::GetVertexCount { vertexArray: sfVertexArray { This: 12 } }
    );
}

#[test]
fn vertex_count_is_widened_unchanged() {
    assert_eq!(VertexArray::get_vertex_count_reply(0), 0);
    assert_eq!(VertexArray::get_vertex_count_reply(3), 3);
    assert_eq!(VertexArray::get_vertex_count_reply(u32::MAX), 4_294_967_295);
}

#[test]
fn clear_names_the_array() {
    assert_eq!(
        array_at(12).clear(),
        VertexArrayCall::Clear { vertexArray: sfVertexArray { This: 12 } }
    );
}

#[test]
fn resize_forwards_the_count() {
    assert_eq!(
        array_at(12).resize(40),
        VertexArrayCall::Resize { vertexArray: sfVertexArray { This: 12 }, vertexCount: 40 }
    );
    assert_eq!(
        array_at(12).resize(0),
        VertexArrayCall::Resize { vertexArray: sfVertexArray { This: 12 }, vertexCount: 0 }
    );
    assert_eq!(
        array_at(12).resize(4_294_967_295),
        VertexArrayCall::Resize {
            vertexArray: sfVertexArray { This: 12 },
            vertexCount: 4_294_967_295
        }
    );
}

#[test]
fn resize_keeps_the_low_32_bits_of_a_larger_count() {
    let count = 0x1_0000_0005u64 as usize;
    assert_eq!(
        array_at(12).resize(count),
        VertexArrayCall::Resize { vertexArray: sfVertexArray { This: 12 }, vertexCount: 5 }
    );
    let count = 0xffff_fffe_ffff_ffffu64 as usize;
    assert_eq!(
        array_at(12).resize(count),
        VertexArrayCall::Resize {
            vertexArray: sfVertexArray { This: 12 },
            vertexCount: 0xffff_ffff
        }
    );
}

#[test]
fn set_primitive_type_forwards_each_code() {
    let handle = sfVertexArray { This: 64 };
    let expected: [(PrimitiveType, u32); 7] = [
        (PrimitiveType::Points, 0),
        (PrimitiveType::Lines, 1),
        (PrimitiveType::LinesStrip, 2),
        (PrimitiveType::Triangles, 3),
        (PrimitiveType::TrianglesStrip, 4),
        (PrimitiveType::TrianglesFan, 5),
        (PrimitiveType::Quads, 6),
    ];
    for (primitive_type, code) in expected {
        assert_eq!(
            array_at(64).set_primitive_type(primitive_type),
            VertexArrayCall::SetPrimitiveType { vertexArray: handle, stype: code }
        );
    }
}

#[test]
fn get_primitive_type_names_the_array() {
    assert_eq!(
        array_at(64).get_primitive_type(),
        VertexArrayCall::GetPrimitiveType { vertexArray: sfVertexArray { This: 64 } }
    );
}

#[test]
fn each_primitive_type_code_is_read() {
    assert_eq!(VertexArray::get_primitive_type_reply(0), Ok(PrimitiveType::Points));
    assert_eq!(VertexArray::get_primitive_type_reply(1), Ok(PrimitiveType::Lines));
    assert_eq!(VertexArray::get_primitive_type_reply(2), Ok(PrimitiveType::LinesStrip));
    assert_eq!(VertexArray::get_primitive_type_reply(3), Ok(PrimitiveType::Triangles));
    assert_eq!(VertexArray::get_primitive_type_reply(4), Ok(PrimitiveType::TrianglesStrip));
    assert_eq!(VertexArray::get_primitive_type_reply(5), Ok(PrimitiveType::TrianglesFan));
    assert_eq!(VertexArray::get_primitive_type_reply(6), Ok(PrimitiveType::Quads));
}

#[test]
fn unknown_primitive_type_code_is_reported() {
    assert_eq!(
        VertexArray::get_primitive_type_reply(7),
        Err(ForeignError::UnknownPrimitiveType(7))
    );
    assert_eq!(
        VertexArray::get_primitive_type_reply(u32::MAX),
        Err(ForeignError::UnknownPrimitiveType(u32::MAX))
    );
}

#[test]
fn unknown_primitive_type_code_is_not_read_as_points() {
    assert_ne!(VertexArray::get_primitive_type_reply(42), Ok(PrimitiveType::Points));
}

#[test]
fn primitive_type_codes_round_trip() {
    for code in 0u32..7 {
        let primitive_type = VertexArray::get_primitive_type_reply(code).unwrap();
        assert_eq!(code_sent_for(primitive_type), code);
    }
}

#[test]
fn primitive_types_round_trip() {
    for primitive_type in ALL {
        let code = code_sent_for(primitive_type);
        assert_eq!(VertexArray::get_primitive_type_reply(code), Ok(primitive_type));
    }
}

#[test]
fn destroy_releases_the_owned_array() {
    let owner = array_at(0x9000);
    assert_eq!(
        owner.destroy(),
        VertexArrayCall::Destroy { vertexArray: sfVertexArray { This: 0x9000 } }
    );
}
