use anchor_idl::error::ErrorKind;
use anchor_idl::error::GenError;
use anchor_idl::schema::Primitive;
use anchor_idl::schema::TypeRef;
use anchor_idl::text::decimal_string;
use anchor_idl::text::render_comma_list;
use anchor_idl::type_mapper::primitive_to_rust_type;
use anchor_idl::type_mapper::ty_to_rust_type;

fn prim(p: Primitive) -> TypeRef {
    TypeRef::Primitive(p)
}

#[test]
fn primitives_map_one_to_one() {
    let cases = vec![
        (Primitive::Bool, "bool"),
        (Primitive::U8, "u8"),
        (Primitive::I8, "i8"),
        (Primitive::U16, "u16"),
        (Primitive::I16, "i16"),
        (Primitive::U32, "u32"),
        (Primitive::I32, "i32"),
        (Primitive::F32, "f32"),
        (Primitive::U64, "u64"),
        (Primitive::I64, "i64"),
        (Primitive::F64, "f64"),
        (Primitive::U128, "u128"),
        (Primitive::I128, "i128"),
        (Primitive::Bytes, "Vec<u8>"),
        (Primitive::Text, "String"),
        (Primitive::PublicKey, "Pubkey"),
    ];
    for (p, expected) in cases {
        assert_eq!(primitive_to_rust_type(p), Ok(expected.to_string()));
        assert_eq!(ty_to_rust_type(&prim(p)), Ok(expected.to_string()));
    }
}

#[test]
fn wide_integers_are_unsupported() {
    assert_eq!(
        ty_to_rust_type(&prim(Primitive::U256)),
        Err(GenError::new(ErrorKind::UnsupportedType, "u256".to_string()))
    );
    assert_eq!(
        ty_to_rust_type(&prim(Primitive::I256)),
        Err(GenError::new(ErrorKind::UnsupportedType, "i256".to_string()))
    );
}

#[test]
fn fixed_array_keeps_its_length() {
    let ty = TypeRef::FixedArray(Box::new(prim(Primitive::U8)), 32);
    assert_eq!(ty_to_rust_type(&ty), Ok("[u8; 32]".to_string()));
    let empty = TypeRef::FixedArray(Box::new(prim(Primitive::I64)), 0);
    assert_eq!(ty_to_rust_type(&empty), Ok("[i64; 0]".to_string()));
    let long = TypeRef::FixedArray(Box::new(prim(Primitive::Bool)), 1234567890);
    assert_eq!(ty_to_rust_type(&long), Ok("[bool; 1234567890]".to_string()));
}

#[test]
fn vector_and_option_wrap_the_element() {
    let v = TypeRef::Vector(Box::new(TypeRef::Defined("Order".to_string())));
    assert_eq!(ty_to_rust_type(&v), Ok("Vec<Order>".to_string()));
    let o = TypeRef::Optional(Box::new(TypeRef::Vector(Box::new(prim(Primitive::U64)))));
    assert_eq!(ty_to_rust_type(&o), Ok("Option<Vec<u64>>".to_string()));
    let a = TypeRef::FixedArray(
        Box::new(TypeRef::Optional(Box::new(prim(Primitive::PublicKey)))),
        4,
    );
    assert_eq!(ty_to_rust_type(&a), Ok("[Option<Pubkey>; 4]".to_string()));
}

#[test]
fn defined_name_stands_as_written() {
    let d = TypeRef::Defined("my_Type".to_string());
    assert_eq!(ty_to_rust_type(&d), Ok("my_Type".to_string()));
}

#[test]
fn unsupported_element_fails_the_whole_type() {
    let v = TypeRef::Vector(Box::new(prim(Primitive::U256)));
    assert_eq!(ty_to_rust_type(&v), Err(GenError::new(ErrorKind::UnsupportedType, "u256".to_string())));
    let a = TypeRef::FixedArray(
        Box::new(TypeRef::Optional(Box::new(prim(Primitive::I256)))),
        2,
    );
    assert_eq!(ty_to_rust_type(&a), Err(GenError::new(ErrorKind::UnsupportedType, "i256".to_string())));
}

#[test]
fn decimal_numerals() {
    assert_eq!(decimal_string(0), "0");
    assert_eq!(decimal_string(7), "7");
    assert_eq!(decimal_string(10), "10");
    assert_eq!(decimal_string(105), "105");
    assert_eq!(decimal_string(9876543210), "9876543210");
    assert_eq!(decimal_string(usize::MAX), usize::MAX.to_string());
}

#[test]
fn list_has_a_comma_between_items_and_none_after_the_last() {
    assert_eq!(render_comma_list(&[]), "");
    assert_eq!(render_comma_list(&["a".to_string()]), "a\n");
    assert_eq!(render_comma_list(&["a".to_string(), "b".to_string()]), "a,\nb\n");
    assert_eq!(
        render_comma_list(&["a".to_string(), "".to_string(), "c".to_string()]),
        "a,\n,\nc\n"
    );
}
