use anchor_idl::error::ErrorKind;
use anchor_idl::error::GenError;

#[test]
fn every_error_names_its_type() {
    let cases = vec![
        (ErrorKind::UnsupportedType, "u256", "unsupported type: u256"),
        (ErrorKind::MalformedType, "Foo(", "malformed type: Foo("),
        (ErrorKind::InvalidIdentifier, "1st", "invalid identifier: 1st"),
        (ErrorKind::UnresolvedType, "Missing", "unresolved type: Missing"),
        (ErrorKind::CyclicType, "Node", "cyclic type: Node"),
        (ErrorKind::UnexpectedEnumAccount, "Kind", "unexpected enum account: Kind"),
        (ErrorKind::UnexpectedAliasAccount, "Id", "unexpected alias account: Id"),
    ];
    for (kind, name, message) in cases {
        let error = GenError::new(kind, name.to_string());
        assert_eq!(error.kind, kind);
        assert_eq!(error.name, name);
        assert_eq!(error.owner, None);
        assert_eq!(error.message(), message);
    }
}

#[test]
fn error_names_where_it_was_met() {
    let error = GenError::new(ErrorKind::UnsupportedType, "u256".to_string()).within("Vault");
    assert_eq!(error.kind, ErrorKind::UnsupportedType);
    assert_eq!(error.name, "u256");
    assert_eq!(error.owner, Some("Vault".to_string()));
    assert_eq!(error.message(), "unsupported type: u256 in Vault");
    let moved = error.within("deposit");
    assert_eq!(moved.owner, Some("deposit".to_string()));
    assert_eq!(moved.message(), "unsupported type: u256 in deposit");
}
