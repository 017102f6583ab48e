//! Account state types: the annotations that an account's capabilities
//! and layout options call for, and the struct under them.

use crate::capability::field_list_properties;
use crate::capability::get_field_list_properties;
use crate::capability::FieldListProperties;
use crate::collect::collect;
use crate::collect::lemma_collect_err;
use crate::collect::lemma_collect_agree;
use crate::collect::lemma_collect_ok;
use crate::error::ErrorKind;
use crate::error::result_view;
use crate::error::GenError;
use crate::error::GenErrorView;
use crate::fields::fields_text;
use crate::fields::generate_fields;
use crate::fields::lemma_fields_text_repeats;
use crate::ident::checked_identifier;
use crate::ident::is_valid_identifier;
use crate::opts::opts_for;
use crate::opts::Representation;
use crate::opts::StructOpts;
use crate::opts::StructOptsTable;
use crate::opts::ZeroCopy;
use crate::schema::def_views;
use crate::schema::field_views;
use crate::schema::FieldDef;
use crate::schema::FieldDefView;
use crate::schema::TypeDef;
use crate::schema::TypeDefKind;
use crate::schema::TypeDefKindView;
use crate::schema::TypeDefView;
use crate::text::concat_lines;
use crate::text::str_views;
use vstd::prelude::*;
use vstd::string::StringExecFns;

verus! {

/// The marker of a type that is read in place.
pub open spec fn zero_copy_line(zero_copy: ZeroCopy) -> Seq<char> {
    match zero_copy {
        ZeroCopy::Unsafe => "#[account(zero_copy(unsafe))]\n"@,
        ZeroCopy::Safe => "#[account(zero_copy)]\n"@,
    }
}

/// The directive of an explicit memory representation.
pub open spec fn representation_line(representation: Representation) -> Seq<char> {
    match representation {
        Representation::C => "#[repr(C)]\n"@,
        Representation::Transparent => "#[repr(transparent)]\n"@,
        Representation::Packed => "#[repr(packed)]\n"@,
    }
}

/// The marker of a persisted account without layout control.
pub open spec fn account_line() -> Seq<char> {
    "#[account]\n"@
}

/// The marker of a type that may be copied raw.
pub open spec fn copy_line() -> Seq<char> {
    "#[derive(Copy)]\n"@
}

/// The marker of a type with a default value.
pub open spec fn default_line() -> Seq<char> {
    "#[derive(Default)]\n"@
}

/// What every account type gets: serialization both ways, cloning,
/// debug printing and structural equality.
pub open spec fn common_line() -> Seq<char> {
    "#[derive(AnchorDeserialize, AnchorSerialize, Clone, Debug, PartialEq)]\n"@
}

/// The account marker: the zero-copy marker where one is asked for, with
/// the representation directive after it where that is set too; the
/// plain account marker otherwise.
pub open spec fn marker_lines(opts: StructOpts) -> Seq<Seq<char>> {
    match opts.zero_copy {
        None => seq![account_line()],
        Some(zero_copy) => match opts.representation {
            None => seq![zero_copy_line(zero_copy)],
            Some(representation) => seq![
                zero_copy_line(zero_copy),
                representation_line(representation),
            ],
        },
    }
}

/// Whether the copy marker is written: the fields can be copied and no
/// zero-copy marker was asked for.
pub open spec fn marks_copy(props: FieldListProperties, opts: StructOpts) -> bool {
    props.can_copy && opts.zero_copy is None
}

/// The annotations of an account type, in the order in which they are
/// written.
pub open spec fn annotation_lines(props: FieldListProperties, opts: StructOpts) -> Seq<Seq<char>> {
    marker_lines(opts) + (if marks_copy(props, opts) {
        seq![copy_line()]
    } else {
        Seq::empty()
    }) + (if props.can_derive_default {
        seq![default_line()]
    } else {
        Seq::empty()
    }) + seq![common_line()]
}

/// The definition of an account type: its annotations, then the struct
/// with the lines of `body` between its braces.
pub open spec fn account_text(
    name: Seq<char>,
    props: FieldListProperties,
    opts: StructOpts,
    body: Seq<char>,
) -> Seq<char> {
    annotation_lines(props, opts).flatten() + "pub struct "@ + name + " {\n"@ + body + "}\n"@
}

/// The definition of the account type `name` with the declared `fields`,
/// given the lexer's verdicts on the fields' types: the error of the
/// capability analysis, else that of a name that is no identifier, else
/// that of the fields, else the text. An error names the account type
/// in which it was met.
pub open spec fn account_result(
    table: Seq<TypeDefView>,
    name: Seq<char>,
    fields: Seq<FieldDefView>,
    opts: StructOpts,
    verdicts: Seq<bool>,
) -> Result<Seq<char>, GenErrorView> {
    match field_list_properties(table, fields) {
        Err(e) => Err(e.within(name)),
        Ok(props) => match checked_identifier(name) {
            Err(e) => Err(e.within(name)),
            Ok(_) => match fields_text(fields, verdicts) {
                Err(e) => Err(e.within(name)),
                Ok(body) => Ok(account_text(name, props, opts, body)),
            },
        },
    }
}

/// What one account definition gives: the account type of a struct; an
/// error for an enum or an alias.
pub open spec fn account_def_result(
    table: Seq<TypeDefView>,
    opts: Map<Seq<char>, StructOpts>,
    def: TypeDefView,
    verdicts: Seq<bool>,
) -> Result<Seq<char>, GenErrorView> {
    match def.kind {
        TypeDefKindView::Struct { fields } => account_result(
            table,
            def.name,
            fields,
            opts_for(opts, def.name),
            verdicts,
        ),
        TypeDefKindView::Enum { .. } => Err(
            GenErrorView::of(ErrorKind::UnexpectedEnumAccount, def.name),
        ),
        TypeDefKindView::Alias { .. } => Err(
            GenErrorView::of(ErrorKind::UnexpectedAliasAccount, def.name),
        ),
    }
}

/// The account types of `account_defs`, one after another in the order
/// of the list, or the error of the first definition that has one;
/// `verdicts` holds the lexer's verdicts for each definition.
pub open spec fn accounts_result(
    table: Seq<TypeDefView>,
    account_defs: Seq<TypeDefView>,
    opts: Map<Seq<char>, StructOpts>,
    verdicts: Seq<Seq<bool>>,
) -> Result<Seq<char>, GenErrorView> {
    match collect(
        Seq::new(
            account_defs.len(),
            |i: int| account_def_result(table, opts, account_defs[i], verdicts[i]),
        ),
    ) {
        Ok(texts) => Ok(texts.flatten()),
        Err(e) => Err(e),
    }
}

/// The annotations of an account type, in the order in which they are
/// written.
pub fn account_annotations(props: FieldListProperties, opts: StructOpts) -> (r: Vec<&'static str>)
    ensures
        str_views(r@) == annotation_lines(props, opts),
{
    let mut lines: Vec<&'static str> = Vec::new();
    match opts.zero_copy {
        None => {
            lines.push("#[account]\n");
        },
        Some(zero_copy) => {
            match zero_copy {
                ZeroCopy::Unsafe => {
                    lines.push("#[account(zero_copy(unsafe))]\n");
                },
                ZeroCopy::Safe => {
                    lines.push("#[account(zero_copy)]\n");
                },
            }
            match opts.representation {
                None => {},
                Some(Representation::C) => {
                    lines.push("#[repr(C)]\n");
                },
                Some(Representation::Transparent) => {
                    lines.push("#[repr(transparent)]\n");
                },
                Some(Representation::Packed) => {
                    lines.push("#[repr(packed)]\n");
                },
            }
        },
    }
    assert(str_views(lines@) =~= marker_lines(opts));
    if props.can_copy && opts.zero_copy.is_none() {
        lines.push("#[derive(Copy)]\n");
    }
    if props.can_derive_default {
        lines.push("#[derive(Default)]\n");
    }
    lines.push("#[derive(AnchorDeserialize, AnchorSerialize, Clone, Debug, PartialEq)]\n");
    assert(str_views(lines@) =~= annotation_lines(props, opts));
    lines
}

/// Writes the definition of an account type from its name, the
/// capabilities of its fields, its layout options and the lines of its
/// body.
pub fn render_account(
    account_name: &str,
    props: FieldListProperties,
    opts: StructOpts,
    fields_rendered: &str,
) -> (r: String)
    ensures
        r@ == account_text(account_name@, props, opts, fields_rendered@),
{
    let annotations = account_annotations(props, opts);
    let mut out = concat_lines(annotations.as_slice());
    out.append("pub struct ");
    out.append(account_name);
    out.append(" {\n");
    out.append(fields_rendered);
    out.append("}\n");
    out
}

/// Generates an account state struct. The outcome is what
/// `account_result` gives for the verdicts that the lexer happened to
/// give on the fields' types.
pub fn generate_account(
    defs: &[TypeDef],
    account_name: &str,
    fields: &[FieldDef],
    opts: StructOpts,
) -> (r: Result<String, GenError>)
    ensures
        exists|verdicts: Seq<bool>|
            verdicts.len() == fields.len() && result_view(r) == #[trigger] account_result(
                def_views(defs@),
                account_name@,
                field_views(fields@),
                opts,
                verdicts,
            ),
{
    let ghost table = def_views(defs@);
    let ghost declared = field_views(fields@);
    let ghost any = Seq::new(fields.len() as nat, |k: int| true);
    let props = match get_field_list_properties(defs, fields) {
        Ok(props) => props,
        Err(e) => {
            let e = e.within(account_name);
            assert(result_view(Err::<String, GenError>(e)) == account_result(
                table,
                account_name@,
                declared,
                opts,
                any,
            ));
            return Err(e);
        },
    };
    if !is_valid_identifier(account_name) {
        let e = GenError::new(ErrorKind::InvalidIdentifier, account_name.to_owned()).within(
            account_name,
        );
        assert(result_view(Err::<String, GenError>(e)) == account_result(
            table,
            account_name@,
            declared,
            opts,
            any,
        ));
        return Err(e);
    }
    let body = generate_fields(fields);
    let ghost verdicts = choose|verdicts: Seq<bool>|
        verdicts.len() == fields.len() && result_view(body) == #[trigger] fields_text(
            declared,
            verdicts,
        );
    let r = match body {
        Ok(body) => Ok(render_account(account_name, props, opts, body.as_str())),
        Err(e) => Err(e.within(account_name)),
    };
    assert(result_view(r) == account_result(table, account_name@, declared, opts, verdicts));
    r
}

/// Generates the account type of one definition, which must be a struct.
pub fn generate_account_def(defs: &[TypeDef], def: &TypeDef, struct_opts: &StructOptsTable) -> (r:
    Result<String, GenError>)
    ensures
        exists|verdicts: Seq<bool>|
            result_view(r) == #[trigger] account_def_result(
                def_views(defs@),
                struct_opts@,
                def@,
                verdicts,
            ),
{
    match &def.kind {
        TypeDefKind::Struct { fields } => {
            let opts = struct_opts.get_or_default(&def.name);
            let r = generate_account(defs, def.name.as_str(), fields.as_slice(), opts);
            proof {
                let verdicts = choose|verdicts: Seq<bool>|
                    verdicts.len() == fields.len() && result_view(r) == #[trigger] account_result(
                        def_views(defs@),
                        def.name@,
                        field_views(fields@),
                        opts,
                        verdicts,
                    );
                assert(result_view(r) == account_def_result(
                    def_views(defs@),
                    struct_opts@,
                    def@,
                    verdicts,
                ));
            }
            r
        },
        TypeDefKind::Enum { .. } => {
            let r = Err(GenError::new(ErrorKind::UnexpectedEnumAccount, def.name.clone()));
            assert(result_view(r) == account_def_result(
                def_views(defs@),
                struct_opts@,
                def@,
                Seq::empty(),
            ));
            r
        },
        TypeDefKind::Alias { .. } => {
            let r = Err(GenError::new(ErrorKind::UnexpectedAliasAccount, def.name.clone()));
            assert(result_view(r) == account_def_result(
                def_views(defs@),
                struct_opts@,
                def@,
                Seq::empty(),
            ));
            r
        },
    }
}

/// Generates account state structs. The outcome is what
/// `accounts_result` gives for the verdicts that the lexer happened to
/// give.
pub fn generate_accounts(
    typedefs: &[TypeDef],
    account_defs: &[TypeDef],
    struct_opts: &StructOptsTable,
) -> (r: Result<String, GenError>)
    ensures
        exists|verdicts: Seq<Seq<bool>>|
            verdicts.len() == account_defs.len() && result_view(r) == #[trigger] accounts_result(
                def_views(typedefs@),
                def_views(account_defs@),
                struct_opts@,
                verdicts,
            ),
{
    let ghost table = def_views(typedefs@);
    let ghost accounts = def_views(account_defs@);
    let ghost mut verdicts: Seq<Seq<bool>> = Seq::empty();
    let ghost mut texts: Seq<Seq<char>> = Seq::empty();
    let mut out = String::new();
    let mut i: usize = 0;
    while i < account_defs.len()
        invariant
            i <= account_defs.len(),
            table == def_views(typedefs@),
            accounts == def_views(account_defs@),
            texts.len() == i,
            verdicts.len() == i,
            forall|j: int|
                0 <= j < i ==> #[trigger] account_def_result(
                    table,
                    struct_opts@,
                    accounts[j],
                    verdicts[j],
                ) == Ok::<Seq<char>, GenErrorView>(texts[j]),
            out@ == texts.flatten(),
        decreases account_defs.len() - i,
    {
        let generated = generate_account_def(typedefs, &account_defs[i], struct_opts);
        let ghost verdict = choose|verdict: Seq<bool>|
            result_view(generated) == #[trigger] account_def_result(
                table,
                struct_opts@,
                accounts[i as int],
                verdict,
            );
        match generated {
            Ok(text) => {
                proof {
                    let before = verdicts;
                    let texts_before = texts;
                    texts.lemma_flatten_push(text@);
                    texts = texts.push(text@);
                    verdicts = verdicts.push(verdict);
                    assert forall|j: int| 0 <= j < i + 1 implies #[trigger] account_def_result(
                        table,
                        struct_opts@,
                        accounts[j],
                        verdicts[j],
                    ) == Ok::<Seq<char>, GenErrorView>(texts[j]) by {
                        if j < i {
                            assert(verdicts[j] == before[j]);
                            assert(texts[j] == texts_before[j]);
                            assert(account_def_result(
                                table,
                                struct_opts@,
                                accounts[j],
                                before[j],
                            ) == Ok::<Seq<char>, GenErrorView>(texts_before[j]));
                        }
                    }
                }
                out.append(text.as_str());
            },
            Err(e) => {
                proof {
                    let rest = Seq::new(
                        (account_defs.len() - i - 1) as nat,
                        |k: int| Seq::<bool>::empty(),
                    );
                    let all = verdicts.push(verdict) + rest;
                    let results = Seq::new(
                        accounts.len(),
                        |k: int| account_def_result(table, struct_opts@, accounts[k], all[k]),
                    );
                    assert forall|j: int| 0 <= j < i implies (#[trigger] results[j]) is Ok by {
                        assert(all[j] == verdicts[j]);
                        assert(account_def_result(table, struct_opts@, accounts[j], verdicts[j])
                            is Ok);
                    }
                    assert(all[i as int] == verdict);
                    lemma_collect_err(results, i as int);
                    assert(result_view(Err::<String, GenError>(e)) == accounts_result(
                        table,
                        accounts,
                        struct_opts@,
                        all,
                    ));
                }
                return Err(e);
            },
        }
        i = i + 1;
    }
    proof {
        let results = Seq::new(
            accounts.len(),
            |k: int| account_def_result(table, struct_opts@, accounts[k], verdicts[k]),
        );
        lemma_collect_ok(results, texts);
        assert(result_view(Ok::<String, GenError>(out)) == accounts_result(
            table,
            accounts,
            struct_opts@,
            verdicts,
        ));
    }
    Ok(out)
}

proof fn lemma_line_shapes()
    ensures
        account_line().len() == 11 && account_line()[2] == 'a',
        copy_line().len() == 16 && copy_line()[2] == 'd',
        default_line().len() == 19,
        common_line().len() == 71,
        zero_copy_line(ZeroCopy::Unsafe).len() == 30,
        zero_copy_line(ZeroCopy::Safe).len() == 22,
        representation_line(Representation::C).len() == 11 && representation_line(
            Representation::C,
        )[2] == 'r',
        representation_line(Representation::Transparent).len() == 21,
        representation_line(Representation::Packed).len() == 16 && representation_line(
            Representation::Packed,
        )[2] == 'r',
{
    reveal_strlit("#[derive(Copy)]\n");
    reveal_strlit("#[account]\n");
    reveal_strlit("#[derive(Default)]\n");
    reveal_strlit("#[derive(AnchorDeserialize, AnchorSerialize, Clone, Debug, PartialEq)]\n");
    reveal_strlit("#[account(zero_copy(unsafe))]\n");
    reveal_strlit("#[account(zero_copy)]\n");
    reveal_strlit("#[repr(C)]\n");
    reveal_strlit("#[repr(transparent)]\n");
    reveal_strlit("#[repr(packed)]\n");
}

/// The copy marker is written exactly where the fields can be copied and
/// no zero-copy marker was asked for.
pub proof fn lemma_copy_marker(props: FieldListProperties, opts: StructOpts)
    ensures
        annotation_lines(props, opts).contains(copy_line()) <==> marks_copy(props, opts),
{
    lemma_line_shapes();
    let lines = annotation_lines(props, opts);
    if marks_copy(props, opts) {
        assert(lines[1] == copy_line());
    } else {
        assert forall|i: int| 0 <= i < lines.len() implies lines[i] != copy_line() by {}
    }
}

/// Zero-copy and representation compose, and exclude the copy marker: an
/// account type with a zero-copy marker starts with that marker, has the
/// representation directive right after it where one is set, and has no
/// copy marker, whatever its fields are.
pub proof fn lemma_zero_copy_annotations(props: FieldListProperties, opts: StructOpts)
    requires
        opts.zero_copy is Some,
    ensures
        annotation_lines(props, opts)[0] == zero_copy_line(opts.zero_copy->Some_0),
        opts.representation matches Some(r) ==> annotation_lines(props, opts)[1]
            == representation_line(r),
        !annotation_lines(props, opts).contains(copy_line()),
        !annotation_lines(props, opts).contains(account_line()),
{
    lemma_copy_marker(props, opts);
    lemma_line_shapes();
    let lines = annotation_lines(props, opts);
    assert forall|i: int| 0 <= i < lines.len() implies lines[i] != account_line() by {}
}

/// Every account type has the common derives, as the last of its
/// annotations, whatever its options and capabilities are.
pub proof fn lemma_common_line_last(props: FieldListProperties, opts: StructOpts)
    ensures
        annotation_lines(props, opts).len() > 0,
        annotation_lines(props, opts).last() == common_line(),
{
}

/// Two successful generations of an account type give the same text.
pub proof fn lemma_account_repeats(
    table: Seq<TypeDefView>,
    name: Seq<char>,
    fields: Seq<FieldDefView>,
    opts: StructOpts,
    first: Seq<bool>,
    second: Seq<bool>,
)
    requires
        account_result(table, name, fields, opts, first) is Ok,
        account_result(table, name, fields, opts, second) is Ok,
    ensures
        account_result(table, name, fields, opts, first) == account_result(
            table,
            name,
            fields,
            opts,
            second,
        ),
{
    lemma_fields_text_repeats(fields, first, second);
}

/// Two successful generations of all account types give the same text.
pub proof fn lemma_accounts_repeat(
    table: Seq<TypeDefView>,
    account_defs: Seq<TypeDefView>,
    opts: Map<Seq<char>, StructOpts>,
    first: Seq<Seq<bool>>,
    second: Seq<Seq<bool>>,
)
    requires
        accounts_result(table, account_defs, opts, first) is Ok,
        accounts_result(table, account_defs, opts, second) is Ok,
    ensures
        accounts_result(table, account_defs, opts, first) == accounts_result(
            table,
            account_defs,
            opts,
            second,
        ),
{
    let a = Seq::new(
        account_defs.len(),
        |i: int| account_def_result(table, opts, account_defs[i], first[i]),
    );
    let b = Seq::new(
        account_defs.len(),
        |i: int| account_def_result(table, opts, account_defs[i], second[i]),
    );
    assert forall|i: int| 0 <= i < a.len() && (#[trigger] a[i]) is Ok && b[i] is Ok implies a[i]
        == b[i] by {
        match account_defs[i].kind {
            TypeDefKindView::Struct { fields } => {
                lemma_account_repeats(
                    table,
                    account_defs[i].name,
                    fields,
                    opts_for(opts, account_defs[i].name),
                    first[i],
                    second[i],
                );
            },
            _ => {},
        }
    }
    lemma_collect_agree(a, b);
}

} // verus!
