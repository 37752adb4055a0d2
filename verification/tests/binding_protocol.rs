use glr::attrib::{
    AttribField, AttribProvider, FloatBits, UiVertex, Vec2f, Vec3f, VertexPos3,
};
use glr::gl::{BYTE, FLOAT, INT, UNSIGNED_INT};
use glr::program::Attribute;
use glr::uniform::Rgba;

fn attr(name: &str, location: u32) -> Attribute {
    Attribute { name: name.to_string(), location, size: 1, utype: 0 }
}

#[test]
fn field_details_follow_the_component_shape() {
    assert_eq!(FloatBits::detail(), (1, FLOAT));
    assert_eq!(u8::detail(), (1, BYTE));
    assert_eq!(u32::detail(), (1, UNSIGNED_INT));
    assert_eq!(i32::detail(), (1, INT));
    assert_eq!(Rgba::detail(), (4, FLOAT));
    assert_eq!(<[u8; 4]>::detail(), (4, BYTE));
    assert_eq!(Vec2f::detail(), (2, FLOAT));
    assert_eq!(Vec3f::detail(), (3, FLOAT));
}

#[test]
fn matching_is_by_name_not_declaration_order() {
    // Shader-side reordering: matching still finds each field with its own
    // offset inside the record.
    assert_eq!(UiVertex::apply(&attr("col", 9)), Some((4, BYTE, 16)));
    assert_eq!(UiVertex::apply(&attr("pos", 0)), Some((2, FLOAT, 0)));
    assert_eq!(UiVertex::apply(&attr("uv", 1)), Some((2, FLOAT, 8)));
    assert_eq!(UiVertex::apply(&attr("nope", 2)), None);
    assert_eq!(UiVertex::stride(), 20);
}

#[test]
fn array_fields_compose_component_counts() {
    // N elements of d components each give N * d components of the same
    // scalar type, nesting included.
    assert_eq!(<[FloatBits; 3]>::detail(), (3, FLOAT));
    assert_eq!(<[u8; 2]>::detail(), (2, BYTE));
    assert_eq!(<[[u8; 4]; 2]>::detail(), (8, BYTE));
    assert_eq!(<[Vec2f; 4]>::detail(), (8, FLOAT));
}

#[test]
fn single_field_record_offsets() {
    assert_eq!(VertexPos3::apply(&attr("pos", 0)), Some((3, FLOAT, 0)));
    assert_eq!(VertexPos3::apply(&attr("uv", 1)), None);
    assert_eq!(VertexPos3::stride(), 12);
}
