//! Struct fields and parameters: from declared fields to the items of a
//! written list.

use crate::casing::snake_case;
use crate::casing::to_snake_case;
use crate::collect::collect;
use crate::collect::lemma_collect_err;
use crate::collect::lemma_collect_in_order;
use crate::collect::lemma_collect_ok;
use crate::error::result_view;
use crate::error::ErrorKind;
use crate::error::GenError;
use crate::error::GenErrorView;
use crate::ident::check_identifier;
use crate::ident::checked_identifier;
use crate::schema::field_views;
use crate::schema::FieldDef;
use crate::schema::FieldDefView;
use crate::schema::TypeRef;
use crate::schema::TypeRefView;
use crate::text::comma_list;
use crate::text::item_offset;
use crate::text::lemma_list_keeps_order;
use crate::text::render_comma_list;
use crate::text::string_views;
use crate::tokens::lexes_as_tokens;
use crate::type_mapper::ty_to_rust_type;
use crate::type_mapper::type_text;
use vstd::prelude::*;
use vstd::string::StringExecFns;

verus! {

/// A field or parameter ready to be written: its name in the target
/// language and its type expression.
#[derive(Debug, PartialEq, Eq)]
pub struct NamedType {
    pub name: String,
    pub ty: String,
}

pub struct NamedTypeView {
    pub name: Seq<char>,
    pub ty: Seq<char>,
}

impl View for NamedType {
    type V = NamedTypeView;

    open spec fn view(&self) -> NamedTypeView {
        NamedTypeView { name: self.name@, ty: self.ty@ }
    }
}

pub open spec fn named_type_views(fields: Seq<NamedType>) -> Seq<NamedTypeView> {
    fields.map_values(|f: NamedType| f@)
}

/// The view of the outcome of resolving a field list.
pub open spec fn named_types_result_view(r: Result<Vec<NamedType>, GenError>) -> Result<
    Seq<NamedTypeView>,
    GenErrorView,
> {
    match r {
        Ok(fields) => Ok(named_type_views(fields@)),
        Err(e) => Err(e@),
    }
}

/// A type expression that was put to the lexer: itself where the lexer
/// took it, an error that carries it where it did not.
pub open spec fn token_checked(text: Seq<char>, lexes: bool) -> Result<Seq<char>, GenErrorView> {
    if lexes {
        Ok(text)
    } else {
        Err(GenErrorView::of(ErrorKind::MalformedType, text))
    }
}

/// The type expression of `ty` after the lexer gave the verdict `lexes`
/// on it. A type without an expression never reaches the lexer.
pub open spec fn checked_type_text(ty: TypeRefView, lexes: bool) -> Result<
    Seq<char>,
    GenErrorView,
> {
    match type_text(ty) {
        Ok(text) => token_checked(text, lexes),
        Err(e) => Err(e),
    }
}

/// A name and a type made ready: the name must be an identifier, then
/// the type must have an expression that the lexer takes.
pub open spec fn resolved_named(name: Seq<char>, ty: TypeRefView, lexes: bool) -> Result<
    NamedTypeView,
    GenErrorView,
> {
    match checked_identifier(name) {
        Err(e) => Err(e),
        Ok(name) => match checked_type_text(ty, lexes) {
            Ok(ty) => Ok(NamedTypeView { name, ty }),
            Err(e) => Err(e),
        },
    }
}

/// The name of a parameter: marked as unused.
pub open spec fn param_name(name: Seq<char>) -> Seq<char> {
    "_"@ + name
}

/// The name under which a declared field is written: in snake case, and
/// marked as unused where it is a parameter.
pub open spec fn declared_name(field: FieldDefView, as_param: bool) -> Seq<char> {
    if as_param {
        param_name(snake_case(field.name))
    } else {
        snake_case(field.name)
    }
}

/// A declared field made ready, given the lexer's verdict on its type.
pub open spec fn resolved_entry(field: FieldDefView, as_param: bool, lexes: bool) -> Result<
    NamedTypeView,
    GenErrorView,
> {
    resolved_named(declared_name(field, as_param), field.ty, lexes)
}

/// The declared fields made ready in declaration order, or the error of
/// the first field that has one; `verdicts` holds the lexer's verdict on
/// each field's type.
pub open spec fn resolved_list(
    fields: Seq<FieldDefView>,
    as_param: bool,
    verdicts: Seq<bool>,
) -> Result<Seq<NamedTypeView>, GenErrorView> {
    collect(Seq::new(fields.len(), |i: int| resolved_entry(fields[i], as_param, verdicts[i])))
}

/// Declared fields made ready as the fields of a struct.
pub open spec fn resolved_fields(fields: Seq<FieldDefView>, verdicts: Seq<bool>) -> Result<
    Seq<NamedTypeView>,
    GenErrorView,
> {
    resolved_list(fields, false, verdicts)
}

/// Declared fields made ready as the parameters of a function.
pub open spec fn resolved_params(fields: Seq<FieldDefView>, verdicts: Seq<bool>) -> Result<
    Seq<NamedTypeView>,
    GenErrorView,
> {
    resolved_list(fields, true, verdicts)
}

/// One public field as it is written in a struct body.
pub open spec fn field_item(field: NamedTypeView) -> Seq<char> {
    "    pub "@ + field.name + ": "@ + field.ty
}

/// The body of a struct: its fields as a list, in the order given.
pub open spec fn field_lines(fields: Seq<NamedTypeView>) -> Seq<char> {
    comma_list(fields.map_values(|f: NamedTypeView| field_item(f)))
}

/// The body of a struct for declared fields, given the lexer's verdicts.
pub open spec fn fields_text(fields: Seq<FieldDefView>, verdicts: Seq<bool>) -> Result<
    Seq<char>,
    GenErrorView,
> {
    match resolved_fields(fields, verdicts) {
        Ok(resolved) => Ok(field_lines(resolved)),
        Err(e) => Err(e),
    }
}

/// What a declared field is written as where nothing is wrong with it.
pub open spec fn declared_entry(field: FieldDefView, as_param: bool) -> NamedTypeView {
    NamedTypeView { name: declared_name(field, as_param), ty: type_text(field.ty)->Ok_0 }
}

/// Accepts a type expression that the lexer took and rejects one that it
/// did not.
pub fn check_type_text(text: String, lexes: bool) -> (r: Result<String, GenError>)
    ensures
        result_view(r) == token_checked(text@, lexes),
{
    if lexes {
        Ok(text)
    } else {
        Err(GenError::new(ErrorKind::MalformedType, text))
    }
}

/// The type expression of `ty`, put to the lexer. A type without an
/// expression fails with its own error; any other type gives its
/// expression or, where the lexer refuses it, the error that carries it.
pub fn checked_type(ty: &TypeRef) -> (r: Result<String, GenError>)
    ensures
        result_view(r) == checked_type_text(ty@, true) || result_view(r) == checked_type_text(
            ty@,
            false,
        ),
{
    match ty_to_rust_type(ty) {
        Ok(text) => {
            let lexes = lexes_as_tokens(text.as_str());
            check_type_text(text, lexes)
        },
        Err(e) => Err(e),
    }
}

/// Makes a name and a type ready to be written.
pub fn resolve_named(name: String, ty: &TypeRef) -> (r: Result<NamedType, GenError>)
    ensures
        result_view(r) == resolved_named(name@, ty@, true) || result_view(r) == resolved_named(
            name@,
            ty@,
            false,
        ),
{
    match check_identifier(name) {
        Err(e) => Err(e),
        Ok(name) => match checked_type(ty) {
            Ok(ty) => Ok(NamedType { name, ty }),
            Err(e) => Err(e),
        },
    }
}

/// Writes the name of a parameter.
pub fn render_param_name(name: &str) -> (r: String)
    ensures
        r@ == param_name(name@),
{
    let mut out = "_".to_owned();
    out.append(name);
    out
}

fn resolve_list(fields: &[FieldDef], as_param: bool) -> (r: Result<Vec<NamedType>, GenError>)
    ensures
        exists|verdicts: Seq<bool>|
            verdicts.len() == fields.len() && named_types_result_view(r) == #[trigger] resolved_list(
                field_views(fields@),
                as_param,
                verdicts,
            ),
{
    let ghost declared = field_views(fields@);
    let ghost mut verdicts: Seq<bool> = Seq::empty();
    let mut out: Vec<NamedType> = Vec::new();
    let mut i: usize = 0;
    while i < fields.len()
        invariant
            i <= fields.len(),
            out.len() == i,
            verdicts.len() == i,
            declared == field_views(fields@),
            forall|j: int|
                0 <= j < i ==> #[trigger] resolved_entry(declared[j], as_param, verdicts[j]) == Ok::<
                    NamedTypeView,
                    GenErrorView,
                >(out@[j]@),
        decreases fields.len() - i,
    {
        let snake = to_snake_case(fields[i].name.as_str());
        let name = if as_param {
            render_param_name(snake.as_str())
        } else {
            snake
        };
        let ghost written = name@;
        let resolved = resolve_named(name, &fields[i].ty);
        let ghost lexes = result_view(resolved) == resolved_named(written, fields@[i as int].ty@, true);
        assert(result_view(resolved) == resolved_entry(declared[i as int], as_param, lexes));
        match resolved {
            Ok(field) => {
                proof {
                    let before = verdicts;
                    verdicts = verdicts.push(lexes);
                    assert forall|j: int| 0 <= j < i + 1 implies #[trigger] resolved_entry(
                        declared[j],
                        as_param,
                        verdicts[j],
                    ) == Ok::<NamedTypeView, GenErrorView>(out@.push(field)[j]@) by {
                        if j < i {
                            assert(verdicts[j] == before[j]);
                            assert(resolved_entry(declared[j], as_param, before[j]) == Ok::<
                                NamedTypeView,
                                GenErrorView,
                            >(out@[j]@));
                        }
                    }
                }
                out.push(field);
            },
            Err(e) => {
                proof {
                    let rest = Seq::new((fields.len() - i - 1) as nat, |k: int| true);
                    let all = verdicts.push(lexes) + rest;
                    let results = Seq::new(
                        declared.len(),
                        |k: int| resolved_entry(declared[k], as_param, all[k]),
                    );
                    assert forall|j: int| 0 <= j < i implies (#[trigger] results[j]) is Ok by {
                        assert(all[j] == verdicts[j]);
                        assert(resolved_entry(declared[j], as_param, verdicts[j]) is Ok);
                    }
                    assert(all[i as int] == lexes);
                    lemma_collect_err(results, i as int);
                    assert(named_types_result_view(Err(e)) == resolved_list(
                        declared,
                        as_param,
                        all,
                    ));
                }
                return Err(e);
            },
        }
        i = i + 1;
    }
    proof {
        let results = Seq::new(
            declared.len(),
            |k: int| resolved_entry(declared[k], as_param, verdicts[k]),
        );
        lemma_collect_ok(results, named_type_views(out@));
        assert(named_types_result_view(Ok(out)) == resolved_list(declared, as_param, verdicts));
    }
    Ok(out)
}

/// Makes declared fields ready to be written as the fields of a struct,
/// in declaration order. The outcome is what `resolved_fields` gives for
/// the verdicts that the lexer happened to give.
pub fn resolve_fields(fields: &[FieldDef]) -> (r: Result<Vec<NamedType>, GenError>)
    ensures
        exists|verdicts: Seq<bool>|
            verdicts.len() == fields.len() && named_types_result_view(r)
                == #[trigger] resolved_fields(field_views(fields@), verdicts),
{
    let r = resolve_list(fields, false);
    proof {
        let verdicts = choose|verdicts: Seq<bool>|
            verdicts.len() == fields.len() && named_types_result_view(r) == #[trigger] resolved_list(
                field_views(fields@),
                false,
                verdicts,
            );
        assert(named_types_result_view(r) == resolved_fields(field_views(fields@), verdicts));
    }
    r
}

/// Makes declared fields ready to be written as the parameters of a
/// function, in declaration order.
pub fn resolve_params(fields: &[FieldDef]) -> (r: Result<Vec<NamedType>, GenError>)
    ensures
        exists|verdicts: Seq<bool>|
            verdicts.len() == fields.len() && named_types_result_view(r)
                == #[trigger] resolved_params(field_views(fields@), verdicts),
{
    let r = resolve_list(fields, true);
    proof {
        let verdicts = choose|verdicts: Seq<bool>|
            verdicts.len() == fields.len() && named_types_result_view(r) == #[trigger] resolved_list(
                field_views(fields@),
                true,
                verdicts,
            );
        assert(named_types_result_view(r) == resolved_params(field_views(fields@), verdicts));
    }
    r
}

/// Writes one public field.
pub fn render_field(field: &NamedType) -> (r: String)
    ensures
        r@ == field_item(field@),
{
    let mut out = "    pub ".to_owned();
    out.append(field.name.as_str());
    out.append(": ");
    out.append(field.ty.as_str());
    out
}

/// Writes the body of a struct: its fields as a list, in the order
/// given.
pub fn render_fields(fields: &[NamedType]) -> (r: String)
    ensures
        r@ == field_lines(named_type_views(fields@)),
{
    let ghost items = named_type_views(fields@).map_values(|f: NamedTypeView| field_item(f));
    let mut written: Vec<String> = Vec::new();
    let mut i: usize = 0;
    while i < fields.len()
        invariant
            i <= fields.len(),
            written.len() == i,
            items == named_type_views(fields@).map_values(|f: NamedTypeView| field_item(f)),
            forall|j: int| 0 <= j < i ==> (#[trigger] written@[j])@ == items[j],
        decreases fields.len() - i,
    {
        written.push(render_field(&fields[i]));
        i = i + 1;
    }
    assert(string_views(written@) =~= items);
    render_comma_list(written.as_slice())
}

/// The body of a struct for declared fields, in declaration order: each
/// name in snake case, each type as its target-language expression. The
/// outcome is what `fields_text` gives for the verdicts that the lexer
/// happened to give.
pub fn generate_fields(fields: &[FieldDef]) -> (r: Result<String, GenError>)
    ensures
        exists|verdicts: Seq<bool>|
            verdicts.len() == fields.len() && result_view(r) == #[trigger] fields_text(
                field_views(fields@),
                verdicts,
            ),
{
    let resolved = resolve_fields(fields);
    proof {
        let verdicts = choose|verdicts: Seq<bool>|
            verdicts.len() == fields.len() && named_types_result_view(resolved)
                == #[trigger] resolved_fields(field_views(fields@), verdicts);
        assert(named_types_result_view(resolved) == resolved_fields(field_views(fields@), verdicts));
    }
    match resolved {
        Ok(resolved) => {
            let text = render_fields(resolved.as_slice());
            proof {
                let verdicts = choose|verdicts: Seq<bool>|
                    verdicts.len() == fields.len() && Ok::<Seq<NamedTypeView>, GenErrorView>(
                        named_type_views(resolved@),
                    ) == #[trigger] resolved_fields(field_views(fields@), verdicts);
                assert(result_view(Ok::<String, GenError>(text)) == fields_text(
                    field_views(fields@),
                    verdicts,
                ));
            }
            Ok(text)
        },
        Err(e) => {
            proof {
                let verdicts = choose|verdicts: Seq<bool>|
                    verdicts.len() == fields.len() && Err::<Seq<NamedTypeView>, GenErrorView>(e@)
                        == #[trigger] resolved_fields(field_views(fields@), verdicts);
                assert(result_view(Err::<String, GenError>(e)) == fields_text(
                    field_views(fields@),
                    verdicts,
                ));
            }
            Err(e)
        },
    }
}

/// Success does not depend on the lexer beyond its consent: where a list
/// is made ready, it is the declared fields, each under its written name
/// with the expression of its type, in declaration order.
pub proof fn lemma_resolved_list_entries(
    fields: Seq<FieldDefView>,
    as_param: bool,
    verdicts: Seq<bool>,
)
    requires
        resolved_list(fields, as_param, verdicts) is Ok,
    ensures
        resolved_list(fields, as_param, verdicts)->Ok_0 == fields.map_values(
            |f: FieldDefView| declared_entry(f, as_param),
        ),
{
    let results = Seq::new(fields.len(), |i: int| resolved_entry(fields[i], as_param, verdicts[i]));
    lemma_collect_in_order(results);
    let resolved = resolved_list(fields, as_param, verdicts)->Ok_0;
    assert forall|i: int| 0 <= i < fields.len() implies resolved[i] == declared_entry(
        fields[i],
        as_param,
    ) by {
        assert(results[i] == Ok::<NamedTypeView, GenErrorView>(resolved[i]));
    }
    assert(resolved =~= fields.map_values(|f: FieldDefView| declared_entry(f, as_param)));
}

/// A list of no fields is made ready whatever the lexer says: it never
/// reaches the lexer.
pub proof fn lemma_resolved_list_empty(as_param: bool, verdicts: Seq<bool>)
    ensures
        resolved_list(Seq::empty(), as_param, verdicts) == Ok::<Seq<NamedTypeView>, GenErrorView>(
            Seq::empty(),
        ),
{
}

/// Two successful generations of a struct body give the same text.
pub proof fn lemma_fields_text_repeats(
    fields: Seq<FieldDefView>,
    first: Seq<bool>,
    second: Seq<bool>,
)
    requires
        fields_text(fields, first) is Ok,
        fields_text(fields, second) is Ok,
    ensures
        fields_text(fields, first) == fields_text(fields, second),
{
    lemma_resolved_list_entries(fields, false, first);
    lemma_resolved_list_entries(fields, false, second);
}

/// The item that a declared field gives in a struct body where nothing
/// is wrong with it.
pub open spec fn declared_field_item(field: FieldDefView) -> Seq<char> {
    field_item(declared_entry(field, false))
}

/// Field order is kept: in the body of a struct the item of each declared
/// field stands whole at its place, and the item of an earlier field ends
/// before the item of a later one begins.
pub proof fn lemma_fields_keep_order(
    fields: Seq<FieldDefView>,
    verdicts: Seq<bool>,
    i: int,
    j: int,
)
    requires
        fields_text(fields, verdicts) is Ok,
        0 <= i < j < fields.len(),
    ensures
        ({
            let body = fields_text(fields, verdicts)->Ok_0;
            let items = fields.map_values(|f: FieldDefView| declared_field_item(f));
            let at_i = item_offset(items, i);
            let at_j = item_offset(items, j);
            &&& body == comma_list(items)
            &&& body.subrange(at_i, at_i + declared_field_item(fields[i]).len())
                == declared_field_item(fields[i])
            &&& body.subrange(at_j, at_j + declared_field_item(fields[j]).len())
                == declared_field_item(fields[j])
            &&& at_i + declared_field_item(fields[i]).len() < at_j
        }),
{
    let items = fields.map_values(|f: FieldDefView| declared_field_item(f));
    lemma_resolved_list_entries(fields, false, verdicts);
    let resolved = resolved_fields(fields, verdicts)->Ok_0;
    assert(resolved.map_values(|f: NamedTypeView| field_item(f)) =~= items);
    lemma_list_keeps_order(items, i, j);
}

} // verus!
