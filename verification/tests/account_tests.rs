use anchor_idl::account::generate_account_fields;
use anchor_idl::account::render_account_field;
use anchor_idl::account::render_accounts_struct;
use anchor_idl::account::render_group_field;
use anchor_idl::account::render_nested_name;
use anchor_idl::error::ErrorKind;
use anchor_idl::error::GenError;
use anchor_idl::schema::AccountItem;

fn account(name: &str, is_mut: bool, is_signer: bool) -> AccountItem {
    AccountItem::Account { name: name.to_string(), is_mut, is_signer }
}

fn group(name: &str, accounts: Vec<AccountItem>) -> AccountItem {
    AccountItem::Group { name: name.to_string(), accounts }
}

fn invalid(name: &str) -> GenError {
    GenError::new(ErrorKind::InvalidIdentifier, name.to_string())
}

#[test]
fn account_field_for_each_flag() {
    assert_eq!(render_account_field("a", false, false), "    pub a: AccountInfo<'info>");
    assert_eq!(render_account_field("a", false, true), "    pub a: Signer<'info>");
    assert_eq!(
        render_account_field("a", true, false),
        "    #[account(mut)]\n    pub a: AccountInfo<'info>"
    );
    assert_eq!(
        render_account_field("a", true, true),
        "    #[account(mut)]\n    pub a: Signer<'info>"
    );
}

#[test]
fn group_field_and_struct() {
    assert_eq!(render_nested_name("Swap", "TokenAccounts"), "SwapTokenAccounts");
    assert_eq!(render_group_field("inner", "OuterInner"), "    pub inner: OuterInner<'info>");
    assert_eq!(
        render_accounts_struct("Deposit", "    pub a: Signer<'info>\n"),
        "#[derive(Accounts)]\npub struct Deposit<'info> {\n    pub a: Signer<'info>\n}\n"
    );
}

#[test]
fn flat_account_list() {
    let items = vec![
        account("authority", false, true),
        account("vaultAccount", true, false),
        account("system_program", false, false),
    ];
    let (structs, fields) = generate_account_fields("Deposit", &items).unwrap();
    assert_eq!(structs, "");
    assert_eq!(
        fields,
        "    pub authority: Signer<'info>,\n    \
         #[account(mut)]\n    pub vault_account: AccountInfo<'info>,\n    \
         pub system_program: AccountInfo<'info>\n"
    );
}

#[test]
fn empty_account_list() {
    assert_eq!(generate_account_fields("Nothing", &[]), Ok((String::new(), String::new())));
}

#[test]
fn group_gets_a_struct_of_its_own() {
    let items = vec![
        account("payer", true, true),
        group("tokenAccounts", vec![account("mint", false, false), account("from", true, false)]),
        account("clock", false, false),
    ];
    let (structs, fields) = generate_account_fields("Swap", &items).unwrap();
    assert_eq!(
        structs,
        "#[derive(Accounts)]\npub struct SwapTokenAccounts<'info> {\n    \
         pub mint: AccountInfo<'info>,\n    \
         #[account(mut)]\n    pub from: AccountInfo<'info>\n}\n"
    );
    assert_eq!(
        fields,
        "    #[account(mut)]\n    pub payer: Signer<'info>,\n    \
         pub token_accounts: SwapTokenAccounts<'info>,\n    \
         pub clock: AccountInfo<'info>\n"
    );
}

#[test]
fn nested_groups_come_innermost_first() {
    let items = vec![
        group(
            "outer",
            vec![group("inner", vec![account("leaf", false, true)]), account("side", false, false)],
        ),
        group("second", vec![]),
    ];
    let (structs, fields) = generate_account_fields("Ix", &items).unwrap();
    assert_eq!(
        structs,
        "#[derive(Accounts)]\npub struct IxOuterInner<'info> {\n    pub leaf: Signer<'info>\n}\n\
         #[derive(Accounts)]\npub struct IxOuter<'info> {\n    \
         pub inner: IxOuterInner<'info>,\n    pub side: AccountInfo<'info>\n}\n\
         #[derive(Accounts)]\npub struct IxSecond<'info> {\n}\n"
    );
    assert_eq!(fields, "    pub outer: IxOuter<'info>,\n    pub second: IxSecond<'info>\n");
}

#[test]
fn account_name_that_is_no_identifier_is_rejected() {
    assert_eq!(generate_account_fields("Ix", &[account("", false, false)]), Err(invalid("")));
    assert_eq!(
        generate_account_fields("Ix", &[account("ok", false, false), account("9", true, true)]),
        Err(invalid("9"))
    );
}

#[test]
fn group_names_must_be_identifiers() {
    assert_eq!(
        generate_account_fields("Ix", &[group("9", vec![])]),
        Err(invalid("9"))
    );
    assert_eq!(
        generate_account_fields("9", &[group("inner", vec![])]),
        Err(invalid("9Inner"))
    );
    assert_eq!(
        generate_account_fields("Ix", &[group("inner", vec![account("", false, false)])]),
        Err(invalid(""))
    );
    assert_eq!(
        generate_account_fields(
            "Ix",
            &[group("a", vec![]), group("b", vec![group("", vec![])]), account("", false, false)]
        ),
        Err(invalid(""))
    );
}
