use anchor_idl::capability::FieldListProperties;
use anchor_idl::error::ErrorKind;
use anchor_idl::error::GenError;
use anchor_idl::opts::Representation;
use anchor_idl::opts::StructOpts;
use anchor_idl::opts::StructOptsTable;
use anchor_idl::opts::ZeroCopy;
use anchor_idl::schema::EnumVariant;
use anchor_idl::schema::FieldDef;
use anchor_idl::schema::Primitive;
use anchor_idl::schema::TypeDef;
use anchor_idl::schema::TypeDefKind;
use anchor_idl::schema::TypeRef;
use anchor_idl::state::account_annotations;
use anchor_idl::state::generate_account;
use anchor_idl::state::generate_account_def;
use anchor_idl::state::generate_accounts;
use anchor_idl::state::render_account;

const COMMON: &str = "#[derive(AnchorDeserialize, AnchorSerialize, Clone, Debug, PartialEq)]\n";

fn prim(p: Primitive) -> TypeRef {
    TypeRef::Primitive(p)
}

fn field(name: &str, ty: TypeRef) -> FieldDef {
    FieldDef { name: name.to_string(), ty }
}

fn strukt(name: &str, fields: Vec<FieldDef>) -> TypeDef {
    TypeDef { name: name.to_string(), kind: TypeDefKind::Struct { fields } }
}

fn vault_fields() -> Vec<FieldDef> {
    vec![field("owner", prim(Primitive::PublicKey)), field("balance", prim(Primitive::U64))]
}

fn props(can_copy: bool, can_derive_default: bool) -> FieldListProperties {
    FieldListProperties { can_copy, can_derive_default }
}

fn opts(zero_copy: Option<ZeroCopy>, representation: Option<Representation>) -> StructOpts {
    StructOpts { representation, zero_copy }
}

#[test]
fn vault_without_options() {
    let text = generate_account(&[], "Vault", &vault_fields(), StructOpts::default()).unwrap();
    assert_eq!(
        text,
        "#[account]\n\
         #[derive(Copy)]\n\
         #[derive(Default)]\n\
         #[derive(AnchorDeserialize, AnchorSerialize, Clone, Debug, PartialEq)]\n\
         pub struct Vault {\n    pub owner: Pubkey,\n    pub balance: u64\n}\n"
    );
    assert!(text.find("owner").unwrap() < text.find("balance").unwrap());
}

#[test]
fn unsafe_zero_copy_with_packed_layout() {
    let o = opts(Some(ZeroCopy::Unsafe), Some(Representation::Packed));
    let text = generate_account(&[], "Vault", &vault_fields(), o).unwrap();
    assert_eq!(
        text,
        "#[account(zero_copy(unsafe))]\n\
         #[repr(packed)]\n\
         #[derive(Default)]\n\
         #[derive(AnchorDeserialize, AnchorSerialize, Clone, Debug, PartialEq)]\n\
         pub struct Vault {\n    pub owner: Pubkey,\n    pub balance: u64\n}\n"
    );
    assert!(text.contains("#[account(zero_copy(unsafe))]"));
    assert!(text.contains("#[repr(packed)]"));
    assert!(!text.contains("#[derive(Copy)]"));
}

#[test]
fn annotations_for_every_option() {
    let full = props(true, true);
    assert_eq!(
        account_annotations(full, opts(None, None)),
        vec!["#[account]\n", "#[derive(Copy)]\n", "#[derive(Default)]\n", COMMON]
    );
    assert_eq!(
        account_annotations(full, opts(None, Some(Representation::C))),
        vec!["#[account]\n", "#[derive(Copy)]\n", "#[derive(Default)]\n", COMMON]
    );
    assert_eq!(
        account_annotations(full, opts(Some(ZeroCopy::Safe), None)),
        vec!["#[account(zero_copy)]\n", "#[derive(Default)]\n", COMMON]
    );
    assert_eq!(
        account_annotations(full, opts(Some(ZeroCopy::Unsafe), None)),
        vec!["#[account(zero_copy(unsafe))]\n", "#[derive(Default)]\n", COMMON]
    );
    assert_eq!(
        account_annotations(full, opts(Some(ZeroCopy::Safe), Some(Representation::C))),
        vec!["#[account(zero_copy)]\n", "#[repr(C)]\n", "#[derive(Default)]\n", COMMON]
    );
    assert_eq!(
        account_annotations(full, opts(Some(ZeroCopy::Safe), Some(Representation::Transparent))),
        vec!["#[account(zero_copy)]\n", "#[repr(transparent)]\n", "#[derive(Default)]\n", COMMON]
    );
    assert_eq!(
        account_annotations(full, opts(Some(ZeroCopy::Unsafe), Some(Representation::Packed))),
        vec!["#[account(zero_copy(unsafe))]\n", "#[repr(packed)]\n", "#[derive(Default)]\n", COMMON]
    );
}

#[test]
fn annotations_follow_capabilities() {
    let none = opts(None, None);
    assert_eq!(account_annotations(props(false, false), none), vec!["#[account]\n", COMMON]);
    assert_eq!(
        account_annotations(props(true, false), none),
        vec!["#[account]\n", "#[derive(Copy)]\n", COMMON]
    );
    assert_eq!(
        account_annotations(props(false, true), none),
        vec!["#[account]\n", "#[derive(Default)]\n", COMMON]
    );
    assert_eq!(
        account_annotations(props(false, false), opts(Some(ZeroCopy::Unsafe), None)),
        vec!["#[account(zero_copy(unsafe))]\n", COMMON]
    );
}

#[test]
fn account_is_rendered_from_its_parts() {
    let text = render_account("Pool", props(false, true), opts(None, None), "    pub x: u8\n");
    assert_eq!(
        text,
        "#[account]\n#[derive(Default)]\n\
         #[derive(AnchorDeserialize, AnchorSerialize, Clone, Debug, PartialEq)]\n\
         pub struct Pool {\n    pub x: u8\n}\n"
    );
    let empty = render_account("Empty", props(false, false), opts(None, None), "");
    assert_eq!(
        empty,
        "#[account]\n#[derive(AnchorDeserialize, AnchorSerialize, Clone, Debug, PartialEq)]\npub struct Empty {\n}\n"
    );
}

#[test]
fn account_with_text_field_is_not_copied() {
    let fields = vec![field("name", prim(Primitive::Text)), field("n", prim(Primitive::U8))];
    let text = generate_account(&[], "Named", &fields, StructOpts::default()).unwrap();
    assert_eq!(
        text,
        "#[account]\n#[derive(Default)]\n\
         #[derive(AnchorDeserialize, AnchorSerialize, Clone, Debug, PartialEq)]\n\
         pub struct Named {\n    pub name: String,\n    pub n: u8\n}\n"
    );
}

#[test]
fn account_referring_to_uncopyable_struct_is_not_copied() {
    let defs = vec![strukt(
        "Inner",
        vec![field("data", TypeRef::FixedArray(Box::new(prim(Primitive::Text)), 64))],
    )];
    let fields = vec![field("inner", TypeRef::Defined("Inner".to_string()))];
    let text = generate_account(&defs, "Outer", &fields, StructOpts::default()).unwrap();
    assert_eq!(
        text,
        "#[account]\n#[derive(AnchorDeserialize, AnchorSerialize, Clone, Debug, PartialEq)]\n\
         pub struct Outer {\n    pub inner: Inner\n}\n"
    );
}

#[test]
fn account_name_is_written_as_given() {
    let text = generate_account(&[], "my_account", &[], StructOpts::default()).unwrap();
    assert!(text.ends_with("pub struct my_account {\n}\n"));
}

#[test]
fn analysis_error_comes_before_type_error() {
    let fields = vec![
        field("wide", prim(Primitive::U256)),
        field("gone", TypeRef::Defined("Gone".to_string())),
    ];
    assert_eq!(
        generate_account(&[], "Bad", &fields, StructOpts::default()),
        Err(GenError::new(ErrorKind::UnresolvedType, "Gone".to_string()).within("Bad"))
    );
    let only_wide = vec![field("wide", prim(Primitive::U256))];
    assert_eq!(
        generate_account(&[], "Bad", &only_wide, StructOpts::default()),
        Err(GenError::new(ErrorKind::UnsupportedType, "u256".to_string()).within("Bad"))
    );
}

#[test]
fn cyclic_account_is_rejected() {
    let defs = vec![strukt("Loop", vec![field("again", TypeRef::Defined("Loop".to_string()))])];
    let fields = vec![field("l", TypeRef::Defined("Loop".to_string()))];
    assert_eq!(
        generate_account(&defs, "Holder", &fields, StructOpts::default()),
        Err(GenError::new(ErrorKind::CyclicType, "Loop".to_string()).within("Holder"))
    );
}

#[test]
fn enum_account_is_rejected() {
    let kind = TypeDef {
        name: "Kind".to_string(),
        kind: TypeDefKind::Enum {
            variants: vec![EnumVariant { name: "One".to_string(), payload: vec![] }],
        },
    };
    let table = StructOptsTable::new();
    assert_eq!(
        generate_account_def(&[], &kind, &table),
        Err(GenError::new(ErrorKind::UnexpectedEnumAccount, "Kind".to_string()))
    );
    assert_eq!(
        generate_accounts(&[], &[kind], &table),
        Err(GenError::new(ErrorKind::UnexpectedEnumAccount, "Kind".to_string()))
    );
}

#[test]
fn alias_account_is_rejected() {
    let id = TypeDef {
        name: "Id".to_string(),
        kind: TypeDefKind::Alias { target: prim(Primitive::U64) },
    };
    let table = StructOptsTable::new();
    assert_eq!(
        generate_accounts(&[], &[strukt("Fine", vec![]), id], &table),
        Err(GenError::new(ErrorKind::UnexpectedAliasAccount, "Id".to_string()))
    );
}

#[test]
fn accounts_come_in_declared_order_with_their_options() {
    let mut table = StructOptsTable::new();
    table.insert("Pool".to_string(), opts(Some(ZeroCopy::Safe), Some(Representation::C)));
    let accounts = vec![
        strukt("Vault", vault_fields()),
        strukt("Pool", vec![field("total", prim(Primitive::U128))]),
    ];
    let text = generate_accounts(&[], &accounts, &table).unwrap();
    assert_eq!(
        text,
        "#[account]\n#[derive(Copy)]\n#[derive(Default)]\n\
         #[derive(AnchorDeserialize, AnchorSerialize, Clone, Debug, PartialEq)]\n\
         pub struct Vault {\n    pub owner: Pubkey,\n    pub balance: u64\n}\n\
         #[account(zero_copy)]\n#[repr(C)]\n#[derive(Default)]\n\
         #[derive(AnchorDeserialize, AnchorSerialize, Clone, Debug, PartialEq)]\n\
         pub struct Pool {\n    pub total: u128\n}\n"
    );
}

#[test]
fn no_accounts_give_no_text() {
    assert_eq!(generate_accounts(&[], &[], &StructOptsTable::new()), Ok(String::new()));
}

#[test]
fn first_failing_account_ends_generation() {
    let accounts = vec![
        strukt("Good", vec![]),
        strukt("Bad", vec![field("x", TypeRef::Defined("Nope".to_string()))]),
        TypeDef { name: "Later".to_string(), kind: TypeDefKind::Enum { variants: vec![] } },
    ];
    assert_eq!(
        generate_accounts(&[], &accounts, &StructOptsTable::new()),
        Err(GenError::new(ErrorKind::UnresolvedType, "Nope".to_string()).within("Bad"))
    );
}

#[test]
fn accounts_resolve_against_the_type_table() {
    let typedefs = vec![strukt("Price", vec![field("value", prim(Primitive::I64))])];
    let accounts = vec![strukt("Oracle", vec![field("price", TypeRef::Defined("Price".to_string()))])];
    let text = generate_accounts(&typedefs, &accounts, &StructOptsTable::new()).unwrap();
    assert_eq!(
        text,
        "#[account]\n#[derive(Copy)]\n#[derive(Default)]\n\
         #[derive(AnchorDeserialize, AnchorSerialize, Clone, Debug, PartialEq)]\n\
         pub struct Oracle {\n    pub price: Price\n}\n"
    );
}

#[test]
fn generating_twice_gives_the_same_text() {
    let mut table = StructOptsTable::new();
    table.insert("Vault".to_string(), opts(Some(ZeroCopy::Unsafe), None));
    let accounts = vec![strukt("Vault", vault_fields())];
    let first = generate_accounts(&[], &accounts, &table);
    let second = generate_accounts(&[], &accounts, &table);
    assert!(first.is_ok());
    assert_eq!(first, second);
}

#[test]
fn generated_accounts_read_as_tokens() {
    let accounts = vec![strukt("Vault", vault_fields())];
    let text = generate_accounts(&[], &accounts, &StructOptsTable::new()).unwrap();
    let tokens: Result<proc_macro2::TokenStream, _> = text.parse();
    assert!(tokens.is_ok());
}

#[test]
fn every_account_type_derives_equality() {
    for o in [
        opts(None, None),
        opts(Some(ZeroCopy::Safe), None),
        opts(Some(ZeroCopy::Unsafe), Some(Representation::Packed)),
    ] {
        for p in [props(true, true), props(false, false)] {
            let lines = account_annotations(p, o);
            assert_eq!(lines.last(), Some(&COMMON));
        }
        let text = generate_account(&[], "Vault", &vault_fields(), o).unwrap();
        assert!(text.contains("PartialEq"));
        assert!(text.contains("AnchorSerialize"));
        assert!(text.contains("AnchorDeserialize"));
        assert!(text.contains("Debug"));
    }
}

#[test]
fn account_type_name_that_is_no_identifier_is_rejected() {
    for name in ["", "my account", "9lives", "a-b"] {
        assert_eq!(
            generate_account(&[], name, &vault_fields(), StructOpts::default()),
            Err(GenError::new(ErrorKind::InvalidIdentifier, name.to_string()).within(name))
        );
    }
}

#[test]
fn account_errors_come_in_order() {
    let gone = vec![field("", TypeRef::Defined("Gone".to_string()))];
    assert_eq!(
        generate_account(&[], "9lives", &gone, StructOpts::default()),
        Err(GenError::new(ErrorKind::UnresolvedType, "Gone".to_string()).within("9lives"))
    );
    let bad_field = vec![field("", prim(Primitive::U8))];
    assert_eq!(
        generate_account(&[], "9lives", &bad_field, StructOpts::default()),
        Err(GenError::new(ErrorKind::InvalidIdentifier, "9lives".to_string()).within("9lives"))
    );
    assert_eq!(
        generate_account(&[], "Fine", &bad_field, StructOpts::default()),
        Err(GenError::new(ErrorKind::InvalidIdentifier, "".to_string()).within("Fine"))
    );
    let malformed = vec![field("x", TypeRef::Defined("(".to_string()))];
    let typedefs = vec![strukt("(", vec![])];
    assert_eq!(
        generate_account(&typedefs, "Fine", &malformed, StructOpts::default()),
        Err(GenError::new(ErrorKind::MalformedType, "(".to_string()).within("Fine"))
    );
}

#[test]
fn vault_tokens_are_those_of_a_hand_written_struct() {
    let text = generate_account(&[], "Vault", &vault_fields(), StructOpts::default()).unwrap();
    let generated: proc_macro2::TokenStream = text.parse().unwrap();
    let expected: proc_macro2::TokenStream = "#[account] #[derive(Copy)] #[derive(Default)] \
        #[derive(AnchorDeserialize, AnchorSerialize, Clone, Debug, PartialEq)] \
        pub struct Vault { pub owner: Pubkey, pub balance: u64 }"
        .parse()
        .unwrap();
    assert_eq!(generated.to_string(), expected.to_string());
}
