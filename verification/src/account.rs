//! Context structs: the fields that an instruction's account list gives,
//! and the structs of its nested groups.

use crate::casing::pascal_case;
use crate::casing::snake_case;
use crate::casing::to_pascal_case;
use crate::casing::to_snake_case;
use crate::error::GenError;
use crate::error::GenErrorView;
use crate::ident::check_identifier;
use crate::ident::checked_identifier;
use crate::schema::account_item_view;
use crate::schema::account_item_views;
use crate::schema::lemma_account_item_views;
use crate::schema::AccountItem;
use crate::schema::AccountItemView;
use crate::text::comma_list;
use crate::text::render_comma_list;
use crate::text::string_views;
use vstd::prelude::*;
use vstd::string::StringExecFns;

verus! {

/// A single account as it is written in a context struct; `name` is the
/// field name as written. A mutable account is annotated as such, a
/// signer has the signer type, any other account the plain account type.
pub open spec fn account_field_item(name: Seq<char>, is_mut: bool, is_signer: bool) -> Seq<char> {
    (if is_mut {
        "    #[account(mut)]\n"@
    } else {
        Seq::empty()
    }) + "    pub "@ + name + ": "@ + (if is_signer {
        "Signer<'info>"@
    } else {
        "AccountInfo<'info>"@
    })
}

/// A group of accounts as it is written in a context struct: a field of
/// the group's own struct.
pub open spec fn group_field_item(name: Seq<char>, struct_name: Seq<char>) -> Seq<char> {
    "    pub "@ + name + ": "@ + struct_name + "<'info>"@
}

/// A context struct with `body` between its braces.
pub open spec fn accounts_struct_text(struct_name: Seq<char>, body: Seq<char>) -> Seq<char> {
    "#[derive(Accounts)]\npub struct "@ + struct_name + "<'info> {\n"@ + body + "}\n"@
}

/// The name of a struct inside another: the name of the enclosing
/// struct, then its own.
pub open spec fn nested_name(prefix: Seq<char>, own: Seq<char>) -> Seq<char> {
    prefix + own
}

/// The name of the struct of a group: the name of the enclosing struct,
/// then the group's name in Pascal case.
pub open spec fn group_struct_name(prefix: Seq<char>, name: Seq<char>) -> Seq<char> {
    nested_name(prefix, pascal_case(name))
}

/// What one entry of the account list of the struct `prefix` gives: the
/// structs it calls for, and its field. A single account calls for no
/// struct; a group calls for the structs of the groups inside it and then
/// its own. The field name, in snake case, must be an identifier, and so
/// must the name of a group's struct.
pub open spec fn item_result(prefix: Seq<char>, item: AccountItemView) -> Result<
    (Seq<char>, Seq<char>),
    GenErrorView,
>
    decreases item,
{
    match item {
        AccountItemView::Account { name, is_mut, is_signer } => match checked_identifier(
            snake_case(name),
        ) {
            Err(e) => Err(e),
            Ok(field) => Ok((Seq::empty(), account_field_item(field, is_mut, is_signer))),
        },
        AccountItemView::Group { name, accounts } => match checked_identifier(snake_case(name)) {
            Err(e) => Err(e),
            Ok(field) => match checked_identifier(group_struct_name(prefix, name)) {
                Err(e) => Err(e),
                Ok(struct_name) => match items_result(struct_name, accounts) {
                    Err(e) => Err(e),
                    Ok((structs, fields)) => Ok(
                        (
                            structs + accounts_struct_text(struct_name, comma_list(fields)),
                            group_field_item(field, struct_name),
                        ),
                    ),
                },
            },
        },
    }
}

/// What an account list gives: the structs of its groups one after
/// another, and its fields, both in the order of the list; or the error
/// of the first entry that has one.
pub open spec fn items_result(prefix: Seq<char>, items: Seq<AccountItemView>) -> Result<
    (Seq<char>, Seq<Seq<char>>),
    GenErrorView,
>
    decreases items,
{
    if items.len() == 0 {
        Ok((Seq::empty(), Seq::empty()))
    } else {
        match items_result(prefix, items.drop_last()) {
            Err(e) => Err(e),
            Ok((structs, fields)) => match item_result(prefix, items.last()) {
                Err(e) => Err(e),
                Ok((more, field)) => Ok((structs + more, fields.push(field))),
            },
        }
    }
}

/// What an account list gives as text: the structs of its groups, and
/// the body of its own struct.
pub open spec fn account_fields_result(prefix: Seq<char>, items: Seq<AccountItemView>) -> Result<
    (Seq<char>, Seq<char>),
    GenErrorView,
> {
    match items_result(prefix, items) {
        Ok((structs, fields)) => Ok((structs, comma_list(fields))),
        Err(e) => Err(e),
    }
}

/// The view of an outcome that is a pair of texts.
pub open spec fn pair_result_view(r: Result<(String, String), GenError>) -> Result<
    (Seq<char>, Seq<char>),
    GenErrorView,
> {
    match r {
        Ok((first, second)) => Ok((first@, second@)),
        Err(e) => Err(e@),
    }
}

/// The view of an outcome that is a text and a list of texts.
pub open spec fn listed_result_view(r: Result<(String, Vec<String>), GenError>) -> Result<
    (Seq<char>, Seq<Seq<char>>),
    GenErrorView,
> {
    match r {
        Ok((first, second)) => Ok((first@, string_views(second@))),
        Err(e) => Err(e@),
    }
}

/// An error among the first entries of a list is the error of the list.
pub proof fn lemma_items_prefix_error(prefix: Seq<char>, items: Seq<AccountItemView>, k: int)
    requires
        0 <= k <= items.len(),
        items_result(prefix, items.take(k)) is Err,
    ensures
        items_result(prefix, items) == items_result(prefix, items.take(k)),
    decreases items.len() - k,
{
    if k == items.len() {
        assert(items.take(k) =~= items);
    } else {
        assert(items.take(k + 1).drop_last() =~= items.take(k));
        lemma_items_prefix_error(prefix, items, k + 1);
    }
}

/// Writes a single account; `name` is the field name as written.
pub fn render_account_field(name: &str, is_mut: bool, is_signer: bool) -> (r: String)
    ensures
        r@ == account_field_item(name@, is_mut, is_signer),
{
    let mut out = String::new();
    if is_mut {
        out.append("    #[account(mut)]\n");
    }
    out.append("    pub ");
    out.append(name);
    out.append(": ");
    if is_signer {
        out.append("Signer<'info>");
    } else {
        out.append("AccountInfo<'info>");
    }
    assert(out@ =~= account_field_item(name@, is_mut, is_signer));
    out
}

/// Writes the name of a struct inside another.
pub fn render_nested_name(prefix: &str, own: &str) -> (r: String)
    ensures
        r@ == nested_name(prefix@, own@),
{
    let mut out = prefix.to_owned();
    out.append(own);
    out
}

/// Writes a group of accounts as a field.
pub fn render_group_field(name: &str, struct_name: &str) -> (r: String)
    ensures
        r@ == group_field_item(name@, struct_name@),
{
    let mut out = "    pub ".to_owned();
    out.append(name);
    out.append(": ");
    out.append(struct_name);
    out.append("<'info>");
    out
}

/// Writes a context struct around its body.
pub fn render_accounts_struct(struct_name: &str, body: &str) -> (r: String)
    ensures
        r@ == accounts_struct_text(struct_name@, body@),
{
    let mut out = "#[derive(Accounts)]\npub struct ".to_owned();
    out.append(struct_name);
    out.append("<'info> {\n");
    out.append(body);
    out.append("}\n");
    out
}

fn account_item(prefix: &str, item: &AccountItem) -> (r: Result<(String, String), GenError>)
    ensures
        pair_result_view(r) == item_result(prefix@, item@),
    decreases *item,
{
    match item {
        AccountItem::Account { name, is_mut, is_signer } => {
            match check_identifier(to_snake_case(name.as_str())) {
                Err(e) => Err(e),
                Ok(field) => Ok(
                    (String::new(), render_account_field(field.as_str(), *is_mut, *is_signer)),
                ),
            }
        },
        AccountItem::Group { name, accounts } => {
            let field = match check_identifier(to_snake_case(name.as_str())) {
                Ok(field) => field,
                Err(e) => {
                    return Err(e);
                },
            };
            let group = to_pascal_case(name.as_str());
            let struct_name = match check_identifier(
                render_nested_name(prefix, group.as_str()),
            ) {
                Ok(struct_name) => struct_name,
                Err(e) => {
                    return Err(e);
                },
            };
            let (inner_structs, inner_fields) = match account_items(
                struct_name.as_str(),
                accounts.as_slice(),
            ) {
                Ok(inner) => inner,
                Err(e) => {
                    return Err(e);
                },
            };
            let body = render_comma_list(inner_fields.as_slice());
            let own = render_accounts_struct(struct_name.as_str(), body.as_str());
            let mut structs = inner_structs;
            structs.append(own.as_str());
            Ok((structs, render_group_field(field.as_str(), struct_name.as_str())))
        },
    }
}

fn account_items(prefix: &str, accounts: &[AccountItem]) -> (r: Result<
    (String, Vec<String>),
    GenError,
>)
    ensures
        listed_result_view(r) == items_result(prefix@, account_item_views(accounts@)),
    decreases accounts@,
{
    let ghost items = account_item_views(accounts@);
    proof {
        lemma_account_item_views(accounts@);
    }
    let mut structs = String::new();
    let mut fields: Vec<String> = Vec::new();
    let mut i: usize = 0;
    assert(string_views(fields@) =~= Seq::<Seq<char>>::empty());
    assert(items.take(0).len() == 0);
    while i < accounts.len()
        invariant
            i <= accounts.len(),
            items == account_item_views(accounts@),
            items.len() == accounts.len(),
            forall|j: int| 0 <= j < accounts.len() ==> #[trigger] items[j] == accounts@[j]@,
            items_result(prefix@, items.take(i as int)) == Ok::<
                (Seq<char>, Seq<Seq<char>>),
                GenErrorView,
            >((structs@, string_views(fields@))),
        decreases accounts.len() - i,
    {
        proof {
            assert(items.take(i + 1).drop_last() =~= items.take(i as int));
            assert(items.take(i + 1).last() == items[i as int]);
            assert(items[i as int] == accounts@[i as int]@);
        }
        match account_item(prefix, &accounts[i]) {
            Err(e) => {
                proof {
                    lemma_items_prefix_error(prefix@, items, i + 1);
                }
                return Err(e);
            },
            Ok((more, field)) => {
                let ghost before = fields@;
                structs.append(more.as_str());
                fields.push(field);
                assert(string_views(fields@) =~= string_views(before).push(field@));
            },
        }
        i = i + 1;
    }
    assert(items.take(i as int) =~= items);
    Ok((structs, fields))
}

/// What the account list of the struct `name` gives: first the structs
/// of its groups, then the body of its own struct, both in the order of
/// the list; or the error of the first name that is no identifier.
pub fn generate_account_fields(name: &str, accounts: &[AccountItem]) -> (r: Result<
    (String, String),
    GenError,
>)
    ensures
        pair_result_view(r) == account_fields_result(name@, account_item_views(accounts@)),
{
    match account_items(name, accounts) {
        Ok((structs, fields)) => Ok((structs, render_comma_list(fields.as_slice()))),
        Err(e) => Err(e),
    }
}

} // verus!
