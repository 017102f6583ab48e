use anchor_idl::capability::get_field_list_properties;
use anchor_idl::capability::get_type_properties;
use anchor_idl::capability::FieldListProperties;
use anchor_idl::error::ErrorKind;
use anchor_idl::error::GenError;
use anchor_idl::schema::EnumVariant;
use anchor_idl::schema::FieldDef;
use anchor_idl::schema::Primitive;
use anchor_idl::schema::TypeDef;
use anchor_idl::schema::TypeDefKind;
use anchor_idl::schema::TypeRef;

fn prim(p: Primitive) -> TypeRef {
    TypeRef::Primitive(p)
}

fn defined(name: &str) -> TypeRef {
    TypeRef::Defined(name.to_string())
}

fn field(name: &str, ty: TypeRef) -> FieldDef {
    FieldDef { name: name.to_string(), ty }
}

fn strukt(name: &str, fields: Vec<FieldDef>) -> TypeDef {
    TypeDef { name: name.to_string(), kind: TypeDefKind::Struct { fields } }
}

fn props(can_copy: bool, can_derive_default: bool) -> FieldListProperties {
    FieldListProperties { can_copy, can_derive_default }
}

#[test]
fn numeric_fields_have_both_capabilities() {
    let numeric = vec![
        Primitive::U8,
        Primitive::I8,
        Primitive::U16,
        Primitive::I16,
        Primitive::U32,
        Primitive::I32,
        Primitive::F32,
        Primitive::U64,
        Primitive::I64,
        Primitive::F64,
        Primitive::U128,
        Primitive::I128,
        Primitive::U256,
        Primitive::I256,
    ];
    let fields: Vec<FieldDef> = numeric.into_iter().map(|p| field("x", prim(p))).collect();
    assert_eq!(get_field_list_properties(&[], &fields), Ok(props(true, true)));
}

#[test]
fn empty_field_list_has_both_capabilities() {
    assert_eq!(get_field_list_properties(&[], &[]), Ok(props(true, true)));
}

#[test]
fn bool_and_address_have_both_capabilities() {
    let fields = vec![field("flag", prim(Primitive::Bool)), field("owner", prim(Primitive::PublicKey))];
    assert_eq!(get_field_list_properties(&[], &fields), Ok(props(true, true)));
}

#[test]
fn one_dynamic_field_blocks_copy() {
    for dynamic in [
        prim(Primitive::Text),
        prim(Primitive::Bytes),
        TypeRef::Vector(Box::new(prim(Primitive::U8))),
    ] {
        let fields = vec![
            field("a", prim(Primitive::U64)),
            field("b", dynamic),
            field("c", prim(Primitive::U8)),
        ];
        assert_eq!(get_field_list_properties(&[], &fields), Ok(props(false, true)));
    }
}

#[test]
fn fixed_array_default_stops_at_thirty_two() {
    let short = TypeRef::FixedArray(Box::new(prim(Primitive::U8)), 32);
    assert_eq!(get_type_properties(&[], &short), Ok(props(true, true)));
    let long = TypeRef::FixedArray(Box::new(prim(Primitive::U8)), 33);
    assert_eq!(get_type_properties(&[], &long), Ok(props(true, false)));
    let of_text = TypeRef::FixedArray(Box::new(prim(Primitive::Text)), 2);
    assert_eq!(get_type_properties(&[], &of_text), Ok(props(false, true)));
}

#[test]
fn optional_copies_as_its_content_and_defaults_to_absent() {
    let of_number = TypeRef::Optional(Box::new(prim(Primitive::U64)));
    assert_eq!(get_type_properties(&[], &of_number), Ok(props(true, true)));
    let of_text = TypeRef::Optional(Box::new(prim(Primitive::Text)));
    assert_eq!(get_type_properties(&[], &of_text), Ok(props(false, true)));
    let of_long_array = TypeRef::Optional(Box::new(TypeRef::FixedArray(
        Box::new(prim(Primitive::U8)),
        64,
    )));
    assert_eq!(get_type_properties(&[], &of_long_array), Ok(props(true, true)));
}

#[test]
fn capabilities_pass_along_references() {
    let defs = vec![
        strukt("Inner", vec![field("items", TypeRef::Vector(Box::new(prim(Primitive::U8))))]),
        strukt("Plain", vec![field("n", prim(Primitive::U32))]),
        strukt("Middle", vec![field("inner", defined("Inner"))]),
    ];
    let direct = vec![field("a", prim(Primitive::U64)), field("inner", defined("Inner"))];
    assert_eq!(get_field_list_properties(&defs, &direct), Ok(props(false, true)));
    let two_steps = vec![field("middle", defined("Middle"))];
    assert_eq!(get_field_list_properties(&defs, &two_steps), Ok(props(false, true)));
    let plain = vec![field("plain", defined("Plain"))];
    assert_eq!(get_field_list_properties(&defs, &plain), Ok(props(true, true)));
}

#[test]
fn long_array_inside_a_referenced_struct_blocks_default() {
    let defs = vec![strukt(
        "Blob",
        vec![field("data", TypeRef::FixedArray(Box::new(prim(Primitive::U8)), 100))],
    )];
    let fields = vec![field("blob", defined("Blob"))];
    assert_eq!(get_field_list_properties(&defs, &fields), Ok(props(true, false)));
}

#[test]
fn enum_without_payload_has_both_capabilities() {
    let defs = vec![TypeDef {
        name: "Side".to_string(),
        kind: TypeDefKind::Enum {
            variants: vec![
                EnumVariant { name: "Bid".to_string(), payload: vec![] },
                EnumVariant { name: "Ask".to_string(), payload: vec![] },
            ],
        },
    }];
    assert_eq!(get_type_properties(&defs, &defined("Side")), Ok(props(true, true)));
}

#[test]
fn enum_with_payload_has_what_its_payloads_have() {
    let defs = vec![TypeDef {
        name: "Event".to_string(),
        kind: TypeDefKind::Enum {
            variants: vec![
                EnumVariant { name: "Empty".to_string(), payload: vec![] },
                EnumVariant {
                    name: "Moved".to_string(),
                    payload: vec![prim(Primitive::U64), prim(Primitive::U64)],
                },
                EnumVariant { name: "Named".to_string(), payload: vec![prim(Primitive::Text)] },
                EnumVariant {
                    name: "Big".to_string(),
                    payload: vec![TypeRef::FixedArray(Box::new(prim(Primitive::U8)), 40)],
                },
            ],
        },
    }];
    assert_eq!(get_type_properties(&defs, &defined("Event")), Ok(props(false, false)));
}

#[test]
fn alias_has_what_its_target_has() {
    let defs = vec![
        TypeDef { name: "Label".to_string(), kind: TypeDefKind::Alias { target: prim(Primitive::Text) } },
        TypeDef { name: "Amount".to_string(), kind: TypeDefKind::Alias { target: prim(Primitive::U64) } },
        TypeDef { name: "Amount2".to_string(), kind: TypeDefKind::Alias { target: defined("Amount") } },
    ];
    assert_eq!(get_type_properties(&defs, &defined("Label")), Ok(props(false, true)));
    assert_eq!(get_type_properties(&defs, &defined("Amount")), Ok(props(true, true)));
    assert_eq!(get_type_properties(&defs, &defined("Amount2")), Ok(props(true, true)));
}

#[test]
fn missing_definition_is_an_error() {
    let defs = vec![strukt("Known", vec![])];
    let fields = vec![field("a", defined("Known")), field("b", defined("Missing"))];
    assert_eq!(
        get_field_list_properties(&defs, &fields),
        Err(GenError::new(ErrorKind::UnresolvedType, "Missing".to_string()))
    );
    let nested = vec![strukt("Outer", vec![field("x", defined("Gone"))])];
    assert_eq!(
        get_type_properties(&nested, &defined("Outer")),
        Err(GenError::new(ErrorKind::UnresolvedType, "Gone".to_string()))
    );
}

#[test]
fn first_error_in_field_order_wins() {
    let fields = vec![
        field("a", prim(Primitive::U8)),
        field("b", defined("First")),
        field("c", defined("Second")),
    ];
    assert_eq!(
        get_field_list_properties(&[], &fields),
        Err(GenError::new(ErrorKind::UnresolvedType, "First".to_string()))
    );
}

#[test]
fn cycle_is_rejected() {
    let defs = vec![
        strukt("A", vec![field("b", defined("B"))]),
        strukt("B", vec![field("a", defined("A"))]),
    ];
    assert_eq!(
        get_type_properties(&defs, &defined("A")),
        Err(GenError::new(ErrorKind::CyclicType, "A".to_string()))
    );
    assert_eq!(
        get_type_properties(&defs, &defined("B")),
        Err(GenError::new(ErrorKind::CyclicType, "B".to_string()))
    );
}

#[test]
fn self_reference_is_rejected() {
    let defs = vec![strukt("Node", vec![field("next", TypeRef::Optional(Box::new(defined("Node"))))])];
    assert_eq!(
        get_type_properties(&defs, &defined("Node")),
        Err(GenError::new(ErrorKind::CyclicType, "Node".to_string()))
    );
    let alias = vec![TypeDef {
        name: "Loop".to_string(),
        kind: TypeDefKind::Alias { target: defined("Loop") },
    }];
    assert_eq!(
        get_type_properties(&alias, &defined("Loop")),
        Err(GenError::new(ErrorKind::CyclicType, "Loop".to_string()))
    );
}

#[test]
fn vector_of_itself_is_no_cycle() {
    let defs = vec![strukt(
        "Tree",
        vec![field("children", TypeRef::Vector(Box::new(defined("Tree"))))],
    )];
    assert_eq!(get_type_properties(&defs, &defined("Tree")), Ok(props(false, true)));
}

#[test]
fn vector_is_not_looked_into() {
    let ty = TypeRef::Vector(Box::new(defined("Nowhere")));
    assert_eq!(get_type_properties(&[], &ty), Ok(props(false, true)));
}

#[test]
fn shared_definition_is_no_cycle() {
    let defs = vec![
        strukt("Top", vec![field("l", defined("Left")), field("r", defined("Right"))]),
        strukt("Left", vec![field("s", defined("Shared"))]),
        strukt("Right", vec![field("s", defined("Shared"))]),
        strukt("Shared", vec![field("n", prim(Primitive::U16))]),
    ];
    assert_eq!(get_type_properties(&defs, &defined("Top")), Ok(props(true, true)));
    let twice = vec![field("a", defined("Shared")), field("b", defined("Shared"))];
    assert_eq!(get_field_list_properties(&defs, &twice), Ok(props(true, true)));
}

#[test]
fn first_definition_under_a_name_is_used() {
    let defs = vec![
        strukt("Dup", vec![field("t", prim(Primitive::Text))]),
        strukt("Dup", vec![field("n", prim(Primitive::U8))]),
    ];
    assert_eq!(get_type_properties(&defs, &defined("Dup")), Ok(props(false, true)));
}

#[test]
fn analysis_is_repeatable() {
    let defs = vec![strukt("Inner", vec![field("t", prim(Primitive::Text))])];
    let fields = vec![field("inner", defined("Inner"))];
    let first = get_field_list_properties(&defs, &fields);
    let second = get_field_list_properties(&defs, &fields);
    assert_eq!(first, second);
    assert_eq!(first, Ok(props(false, true)));
}
