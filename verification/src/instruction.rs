//! Instructions: the union that deserializes any of them, the struct of
//! each one's arguments, the handler stubs and the context structs.

use crate::account::account_fields_result;
use crate::account::accounts_struct_text;
use crate::account::generate_account_fields;
use crate::account::pair_result_view;
use crate::account::render_accounts_struct;
use crate::casing::pascal_case;
use crate::casing::snake_case;
use crate::casing::to_pascal_case;
use crate::casing::to_snake_case;
use crate::collect::collect;
use crate::collect::lemma_collect_agree;
use crate::collect::lemma_collect_err;
use crate::collect::lemma_collect_in_order;
use crate::collect::lemma_collect_ok;
use crate::error::result_view;
use crate::error::GenError;
use crate::error::GenErrorView;
use crate::fields::fields_text;
use crate::fields::generate_fields;
use crate::fields::lemma_fields_text_repeats;
use crate::fields::lemma_resolved_list_entries;
use crate::fields::named_type_views;
use crate::fields::named_types_result_view;
use crate::fields::resolve_params;
use crate::fields::resolved_params;
use crate::fields::NamedType;
use crate::fields::NamedTypeView;
use crate::ident::check_identifier;
use crate::ident::checked_identifier;
use crate::schema::account_item_views;
use crate::schema::field_views;
use crate::schema::instruction_views;
use crate::schema::Instruction;
use crate::schema::InstructionView;
use crate::text::comma_list;
use crate::text::item_offset;
use crate::text::lemma_list_keeps_order;
use crate::text::render_comma_list;
use crate::text::string_views;
use vstd::prelude::*;
use vstd::string::StringExecFns;

verus! {

/// What a handler stub returns.
#[derive(Clone, Copy, Debug, PartialEq, Eq, Structural)]
pub enum ResultConvention {
    /// The older success-or-failure result of a program.
    Legacy,
    /// The generic result type.
    Modern,
}

/// The name of the struct of an instruction's arguments: the
/// instruction's name as a type, with a suffix that tells it from the
/// context struct.
pub open spec fn args_struct_name(ix_name: Seq<char>) -> Seq<char> {
    ix_name + "Ix"@
}

/// One variant of the union as it is written: the instruction's name as
/// a type, carrying the struct of its arguments.
pub open spec fn variant_item(ix_name: Seq<char>, struct_name: Seq<char>) -> Seq<char> {
    "    "@ + ix_name + "("@ + struct_name + ")"@
}

/// What stands before the variants of the union.
pub open spec fn union_header() -> Seq<char> {
    "#[derive(AnchorDeserialize, Clone, Debug)]\npub enum InstructionUnion {\n"@
}

/// The union around its variants.
pub open spec fn union_text(variants: Seq<char>) -> Seq<char> {
    union_header() + variants + "}\n"@
}

/// The struct of an instruction's arguments around its body.
pub open spec fn args_struct_text(struct_name: Seq<char>, body: Seq<char>) -> Seq<char> {
    "#[derive(AnchorDeserialize, Clone, Debug)]\npub struct "@ + struct_name + " {\n"@ + body
        + "}\n"@
}

/// The instruction's name as a type, which must be an identifier, and
/// the name of the struct of its arguments.
pub open spec fn ix_names(ix: InstructionView) -> Result<(Seq<char>, Seq<char>), GenErrorView> {
    match checked_identifier(pascal_case(ix.name)) {
        Ok(name) => Ok((name, args_struct_name(name))),
        Err(e) => Err(e.within(ix.name)),
    }
}

/// The union's variant for an instruction.
pub open spec fn ix_variant_item(ix: InstructionView) -> Seq<char> {
    variant_item(pascal_case(ix.name), args_struct_name(pascal_case(ix.name)))
}

/// What an instruction gives to deserialization: its variant of the
/// union and the struct of its arguments, given the lexer's verdicts on
/// the arguments' types. An error names the instruction.
pub open spec fn ix_deser_parts(ix: InstructionView, verdicts: Seq<bool>) -> Result<
    (Seq<char>, Seq<char>),
    GenErrorView,
> {
    match ix_names(ix) {
        Err(e) => Err(e),
        Ok((name, struct_name)) => match fields_text(ix.args, verdicts) {
            Ok(body) => Ok((variant_item(name, struct_name), args_struct_text(struct_name, body))),
            Err(e) => Err(e.within(ix.name)),
        },
    }
}

/// The struct of an instruction's arguments.
pub open spec fn ix_args_struct_result(ix: InstructionView, verdicts: Seq<bool>) -> Result<
    Seq<char>,
    GenErrorView,
> {
    match ix_deser_parts(ix, verdicts) {
        Ok((_, text)) => Ok(text),
        Err(e) => Err(e),
    }
}

/// The union with a variant per instruction, then the argument structs,
/// all in declaration order; or the error of the first instruction that
/// has one. `verdicts` holds the lexer's verdicts for each instruction.
pub open spec fn ix_deser_structs_result(
    ixs: Seq<InstructionView>,
    verdicts: Seq<Seq<bool>>,
) -> Result<Seq<char>, GenErrorView> {
    match collect(Seq::new(ixs.len(), |i: int| ix_deser_parts(ixs[i], verdicts[i]))) {
        Ok(parts) => Ok(union_text(comma_list(firsts(parts))) + seconds(parts).flatten()),
        Err(e) => Err(e),
    }
}

/// The first of each pair, in order.
pub open spec fn firsts(parts: Seq<(Seq<char>, Seq<char>)>) -> Seq<Seq<char>> {
    parts.map_values(|p: (Seq<char>, Seq<char>)| p.0)
}

/// The second of each pair, in order.
pub open spec fn seconds(parts: Seq<(Seq<char>, Seq<char>)>) -> Seq<Seq<char>> {
    parts.map_values(|p: (Seq<char>, Seq<char>)| p.1)
}

/// One parameter of a handler stub as it is written.
pub open spec fn param_item(arg: NamedTypeView) -> Seq<char> {
    "    "@ + arg.name + ": "@ + arg.ty
}

/// The parameters of a stub after the context: a list in the order of
/// the arguments.
pub open spec fn param_lines(args: Seq<NamedTypeView>) -> Seq<char> {
    comma_list(args.map_values(|a: NamedTypeView| param_item(a)))
}

/// The return type under a convention.
pub open spec fn return_type_text(convention: ResultConvention) -> Seq<char> {
    match convention {
        ResultConvention::Legacy => "ProgramResult"@,
        ResultConvention::Modern => "Result<()>"@,
    }
}

/// A handler stub: the function `fn_name`, which takes the context over
/// `accounts_name` and then the parameters of `params`, and whose body
/// only says that it is not implemented.
pub open spec fn handler_text(
    fn_name: Seq<char>,
    accounts_name: Seq<char>,
    params: Seq<char>,
    convention: ResultConvention,
) -> Seq<char> {
    "pub fn "@ + fn_name + "(\n    _ctx: Context<"@ + accounts_name + ">,\n"@ + params + ") -> "@
        + return_type_text(convention)
        + " {\n    unimplemented!(\"This program is a wrapper for CPI.\")\n}\n"@
}

/// The handler stub of an instruction: named in snake case, over the
/// context struct named in Pascal case, with a parameter per argument.
/// Both names must be identifiers. An error names the instruction.
pub open spec fn ix_handler_result(
    ix: InstructionView,
    convention: ResultConvention,
    verdicts: Seq<bool>,
) -> Result<Seq<char>, GenErrorView> {
    match checked_identifier(snake_case(ix.name)) {
        Err(e) => Err(e.within(ix.name)),
        Ok(fn_name) => match checked_identifier(pascal_case(ix.name)) {
            Err(e) => Err(e.within(ix.name)),
            Ok(accounts_name) => match resolved_params(ix.args, verdicts) {
                Err(e) => Err(e.within(ix.name)),
                Ok(args) => Ok(handler_text(fn_name, accounts_name, param_lines(args), convention)),
            },
        },
    }
}

/// The handler stubs of all instructions in declaration order, or the
/// error of the first instruction that has one.
pub open spec fn ix_handlers_result(
    ixs: Seq<InstructionView>,
    convention: ResultConvention,
    verdicts: Seq<Seq<bool>>,
) -> Result<Seq<char>, GenErrorView> {
    match collect(
        Seq::new(ixs.len(), |i: int| ix_handler_result(ixs[i], convention, verdicts[i])),
    ) {
        Ok(handlers) => Ok(handlers.flatten()),
        Err(e) => Err(e),
    }
}

/// The context struct of an instruction, after the structs of the groups
/// in its account list. An error names the instruction.
pub open spec fn ix_context_result(ix: InstructionView) -> Result<Seq<char>, GenErrorView> {
    match checked_identifier(pascal_case(ix.name)) {
        Err(e) => Err(e.within(ix.name)),
        Ok(name) => match account_fields_result(name, ix.accounts) {
            Err(e) => Err(e.within(ix.name)),
            Ok((structs, body)) => Ok(structs + accounts_struct_text(name, body)),
        },
    }
}

/// The context structs of all instructions in declaration order, or the
/// error of the first instruction that has one.
pub open spec fn ix_structs_result(ixs: Seq<InstructionView>) -> Result<Seq<char>, GenErrorView> {
    match collect(ixs.map_values(|ix: InstructionView| ix_context_result(ix))) {
        Ok(texts) => Ok(texts.flatten()),
        Err(e) => Err(e),
    }
}

/// Writes the name of the struct of an instruction's arguments from the
/// instruction's name as a type.
pub fn render_args_struct_name(ix_name: &str) -> (r: String)
    ensures
        r@ == args_struct_name(ix_name@),
{
    let mut out = ix_name.to_owned();
    out.append("Ix");
    out
}

/// The instruction's name as a type, and the name of the struct of its
/// arguments; an error where the name as a type is no identifier.
pub fn format_ix_name(ix: &Instruction) -> (r: Result<(String, String), GenError>)
    ensures
        pair_result_view(r) == ix_names(ix@),
{
    match check_identifier(to_pascal_case(ix.name.as_str())) {
        Ok(ix_name) => {
            let ix_name_with_suffix = render_args_struct_name(ix_name.as_str());
            Ok((ix_name, ix_name_with_suffix))
        },
        Err(e) => Err(e.within(ix.name.as_str())),
    }
}

/// Writes one variant of the union.
pub fn render_variant(ix_name: &str, struct_name: &str) -> (r: String)
    ensures
        r@ == variant_item(ix_name@, struct_name@),
{
    let mut out = "    ".to_owned();
    out.append(ix_name);
    out.append("(");
    out.append(struct_name);
    out.append(")");
    out
}

/// Writes the union around its variants.
pub fn render_union(variants: &str) -> (r: String)
    ensures
        r@ == union_text(variants@),
{
    let mut out = "#[derive(AnchorDeserialize, Clone, Debug)]\npub enum InstructionUnion {\n".to_owned();
    out.append(variants);
    out.append("}\n");
    out
}

/// Writes the struct of an instruction's arguments around its body.
pub fn render_args_struct(struct_name: &str, body: &str) -> (r: String)
    ensures
        r@ == args_struct_text(struct_name@, body@),
{
    let mut out = "#[derive(AnchorDeserialize, Clone, Debug)]\npub struct ".to_owned();
    out.append(struct_name);
    out.append(" {\n");
    out.append(body);
    out.append("}\n");
    out
}

fn generate_ix_deser_parts(ix: &Instruction) -> (r: Result<(String, String), GenError>)
    ensures
        exists|verdicts: Seq<bool>|
            pair_result_view(r) == #[trigger] ix_deser_parts(ix@, verdicts),
{
    let (ix_name, struct_name) = match format_ix_name(ix) {
        Ok(names) => names,
        Err(e) => {
            assert(pair_result_view(Err(e)) == ix_deser_parts(ix@, Seq::empty()));
            return Err(e);
        },
    };
    let body = generate_fields(ix.args.as_slice());
    let ghost verdicts = choose|verdicts: Seq<bool>|
        verdicts.len() == ix.args.len() && result_view(body) == #[trigger] fields_text(
            field_views(ix.args@),
            verdicts,
        );
    let r = match body {
        Ok(body) => Ok(
            (
                render_variant(ix_name.as_str(), struct_name.as_str()),
                render_args_struct(struct_name.as_str(), body.as_str()),
            ),
        ),
        Err(e) => Err(e.within(ix.name.as_str())),
    };
    assert(pair_result_view(r) == ix_deser_parts(ix@, verdicts));
    r
}

/// Generates the struct of one instruction's arguments. The outcome is
/// what `ix_args_struct_result` gives for the verdicts that the lexer
/// happened to give.
pub fn generate_ix_args_struct(ix: &Instruction) -> (r: Result<String, GenError>)
    ensures
        exists|verdicts: Seq<bool>|
            result_view(r) == #[trigger] ix_args_struct_result(ix@, verdicts),
{
    let parts = generate_ix_deser_parts(ix);
    let ghost verdicts = choose|verdicts: Seq<bool>|
        pair_result_view(parts) == #[trigger] ix_deser_parts(ix@, verdicts);
    let r = match parts {
        Ok((_, text)) => Ok(text),
        Err(e) => Err(e),
    };
    assert(result_view(r) == ix_args_struct_result(ix@, verdicts));
    r
}

/// Generates the union that deserializes any instruction, and the
/// structs of the instructions' arguments. The outcome is what
/// `ix_deser_structs_result` gives for the verdicts that the lexer
/// happened to give.
pub fn generate_ix_deser_structs(ixs: &[Instruction]) -> (r: Result<String, GenError>)
    ensures
        exists|verdicts: Seq<Seq<bool>>|
            verdicts.len() == ixs.len() && result_view(r) == #[trigger] ix_deser_structs_result(
                instruction_views(ixs@),
                verdicts,
            ),
{
    let ghost views = instruction_views(ixs@);
    let ghost mut verdicts: Seq<Seq<bool>> = Seq::empty();
    let ghost mut parts: Seq<(Seq<char>, Seq<char>)> = Seq::empty();
    let mut variants: Vec<String> = Vec::new();
    let mut structs = String::new();
    let mut i: usize = 0;
    assert(string_views(variants@) =~= firsts(parts));
    assert(seconds(parts) =~= Seq::<Seq<char>>::empty());
    while i < ixs.len()
        invariant
            i <= ixs.len(),
            views == instruction_views(ixs@),
            parts.len() == i,
            verdicts.len() == i,
            forall|j: int|
                0 <= j < i ==> #[trigger] ix_deser_parts(views[j], verdicts[j]) == Ok::<
                    (Seq<char>, Seq<char>),
                    GenErrorView,
                >(parts[j]),
            string_views(variants@) == firsts(parts),
            structs@ == seconds(parts).flatten(),
        decreases ixs.len() - i,
    {
        let generated = generate_ix_deser_parts(&ixs[i]);
        let ghost verdict = choose|verdict: Seq<bool>|
            pair_result_view(generated) == #[trigger] ix_deser_parts(views[i as int], verdict);
        match generated {
            Ok((variant, text)) => {
                proof {
                    let before = verdicts;
                    let parts_before = parts;
                    let written_before = variants@;
                    parts = parts.push((variant@, text@));
                    verdicts = verdicts.push(verdict);
                    assert forall|j: int| 0 <= j < i + 1 implies #[trigger] ix_deser_parts(
                        views[j],
                        verdicts[j],
                    ) == Ok::<(Seq<char>, Seq<char>), GenErrorView>(parts[j]) by {
                        if j < i {
                            assert(verdicts[j] == before[j]);
                            assert(parts[j] == parts_before[j]);
                            assert(ix_deser_parts(views[j], before[j]) == Ok::<
                                (Seq<char>, Seq<char>),
                                GenErrorView,
                            >(parts_before[j]));
                        }
                    }
                    seconds(parts_before).lemma_flatten_push(text@);
                    assert(seconds(parts) =~= seconds(parts_before).push(text@));
                    assert(firsts(parts) =~= firsts(parts_before).push(variant@));
                    assert(string_views(written_before.push(variant)) =~= string_views(
                        written_before,
                    ).push(variant@));
                }
                variants.push(variant);
                structs.append(text.as_str());
            },
            Err(e) => {
                proof {
                    let rest = Seq::new((ixs.len() - i - 1) as nat, |k: int| Seq::<bool>::empty());
                    let all = verdicts.push(verdict) + rest;
                    let results = Seq::new(
                        views.len(),
                        |k: int| ix_deser_parts(views[k], all[k]),
                    );
                    assert forall|j: int| 0 <= j < i implies (#[trigger] results[j]) is Ok by {
                        assert(all[j] == verdicts[j]);
                        assert(ix_deser_parts(views[j], verdicts[j]) is Ok);
                    }
                    assert(all[i as int] == verdict);
                    lemma_collect_err(results, i as int);
                    assert(result_view(Err::<String, GenError>(e)) == ix_deser_structs_result(
                        views,
                        all,
                    ));
                }
                return Err(e);
            },
        }
        i = i + 1;
    }
    let listed = render_comma_list(variants.as_slice());
    let mut out = render_union(listed.as_str());
    out.append(structs.as_str());
    proof {
        let results = Seq::new(views.len(), |k: int| ix_deser_parts(views[k], verdicts[k]));
        lemma_collect_ok(results, parts);
        assert(result_view(Ok::<String, GenError>(out)) == ix_deser_structs_result(
            views,
            verdicts,
        ));
    }
    Ok(out)
}

/// Writes one parameter of a handler stub.
pub fn render_param(arg: &NamedType) -> (r: String)
    ensures
        r@ == param_item(arg@),
{
    let mut out = "    ".to_owned();
    out.append(arg.name.as_str());
    out.append(": ");
    out.append(arg.ty.as_str());
    out
}

/// Writes the parameters of a stub after the context, in the order of
/// the arguments.
pub fn render_params(args: &[NamedType]) -> (r: String)
    ensures
        r@ == param_lines(named_type_views(args@)),
{
    let ghost items = named_type_views(args@).map_values(|a: NamedTypeView| param_item(a));
    let mut written: Vec<String> = Vec::new();
    let mut i: usize = 0;
    while i < args.len()
        invariant
            i <= args.len(),
            written.len() == i,
            items == named_type_views(args@).map_values(|a: NamedTypeView| param_item(a)),
            forall|j: int| 0 <= j < i ==> (#[trigger] written@[j])@ == items[j],
        decreases args.len() - i,
    {
        written.push(render_param(&args[i]));
        i = i + 1;
    }
    assert(string_views(written@) =~= items);
    render_comma_list(written.as_slice())
}

/// Writes a handler stub from the names as they are written, the
/// parameters after the context and the return convention.
pub fn render_ix_handler(
    fn_name: &str,
    accounts_name: &str,
    params: &str,
    convention: ResultConvention,
) -> (r: String)
    ensures
        r@ == handler_text(fn_name@, accounts_name@, params@, convention),
{
    let mut out = "pub fn ".to_owned();
    out.append(fn_name);
    out.append("(\n    _ctx: Context<");
    out.append(accounts_name);
    out.append(">,\n");
    out.append(params);
    out.append(") -> ");
    match convention {
        ResultConvention::Legacy => {
            out.append("ProgramResult");
        },
        ResultConvention::Modern => {
            out.append("Result<()>");
        },
    }
    out.append(" {\n    unimplemented!(\"This program is a wrapper for CPI.\")\n}\n");
    out
}

/// Generates a single instruction handler. The outcome is what
/// `ix_handler_result` gives for the verdicts that the lexer happened to
/// give on the arguments' types.
pub fn generate_ix_handler(ix: &Instruction, convention: ResultConvention) -> (r: Result<
    String,
    GenError,
>)
    ensures
        exists|verdicts: Seq<bool>|
            result_view(r) == #[trigger] ix_handler_result(ix@, convention, verdicts),
{
    let fn_name = match check_identifier(to_snake_case(ix.name.as_str())) {
        Ok(name) => name,
        Err(e) => {
            let e = e.within(ix.name.as_str());
            assert(result_view(Err::<String, GenError>(e)) == ix_handler_result(
                ix@,
                convention,
                Seq::empty(),
            ));
            return Err(e);
        },
    };
    let accounts_name = match check_identifier(to_pascal_case(ix.name.as_str())) {
        Ok(name) => name,
        Err(e) => {
            let e = e.within(ix.name.as_str());
            assert(result_view(Err::<String, GenError>(e)) == ix_handler_result(
                ix@,
                convention,
                Seq::empty(),
            ));
            return Err(e);
        },
    };
    let args = resolve_params(ix.args.as_slice());
    let ghost verdicts = choose|verdicts: Seq<bool>|
        verdicts.len() == ix.args.len() && named_types_result_view(args)
            == #[trigger] resolved_params(field_views(ix.args@), verdicts);
    let r = match args {
        Ok(args) => {
            let params = render_params(args.as_slice());
            Ok(
                render_ix_handler(
                    fn_name.as_str(),
                    accounts_name.as_str(),
                    params.as_str(),
                    convention,
                ),
            )
        },
        Err(e) => Err(e.within(ix.name.as_str())),
    };
    assert(result_view(r) == ix_handler_result(ix@, convention, verdicts));
    r
}

/// Generates all instruction handlers. The outcome is what
/// `ix_handlers_result` gives for the verdicts that the lexer happened
/// to give.
pub fn generate_ix_handlers(ixs: &[Instruction], convention: ResultConvention) -> (r: Result<
    String,
    GenError,
>)
    ensures
        exists|verdicts: Seq<Seq<bool>>|
            verdicts.len() == ixs.len() && result_view(r) == #[trigger] ix_handlers_result(
                instruction_views(ixs@),
                convention,
                verdicts,
            ),
{
    let ghost views = instruction_views(ixs@);
    let ghost mut verdicts: Seq<Seq<bool>> = Seq::empty();
    let ghost mut texts: Seq<Seq<char>> = Seq::empty();
    let mut out = String::new();
    let mut i: usize = 0;
    while i < ixs.len()
        invariant
            i <= ixs.len(),
            views == instruction_views(ixs@),
            texts.len() == i,
            verdicts.len() == i,
            forall|j: int|
                0 <= j < i ==> #[trigger] ix_handler_result(views[j], convention, verdicts[j])
                    == Ok::<Seq<char>, GenErrorView>(texts[j]),
            out@ == texts.flatten(),
        decreases ixs.len() - i,
    {
        let generated = generate_ix_handler(&ixs[i], convention);
        let ghost verdict = choose|verdict: Seq<bool>|
            result_view(generated) == #[trigger] ix_handler_result(
                views[i as int],
                convention,
                verdict,
            );
        match generated {
            Ok(text) => {
                proof {
                    let before = verdicts;
                    let texts_before = texts;
                    texts.lemma_flatten_push(text@);
                    texts = texts.push(text@);
                    verdicts = verdicts.push(verdict);
                    assert forall|j: int| 0 <= j < i + 1 implies #[trigger] ix_handler_result(
                        views[j],
                        convention,
                        verdicts[j],
                    ) == Ok::<Seq<char>, GenErrorView>(texts[j]) by {
                        if j < i {
                            assert(verdicts[j] == before[j]);
                            assert(texts[j] == texts_before[j]);
                            assert(ix_handler_result(views[j], convention, before[j]) == Ok::<
                                Seq<char>,
                                GenErrorView,
                            >(texts_before[j]));
                        }
                    }
                }
                out.append(text.as_str());
            },
            Err(e) => {
                proof {
                    let rest = Seq::new((ixs.len() - i - 1) as nat, |k: int| Seq::<bool>::empty());
                    let all = verdicts.push(verdict) + rest;
                    let results = Seq::new(
                        views.len(),
                        |k: int| ix_handler_result(views[k], convention, all[k]),
                    );
                    assert forall|j: int| 0 <= j < i implies (#[trigger] results[j]) is Ok by {
                        assert(all[j] == verdicts[j]);
                        assert(ix_handler_result(views[j], convention, verdicts[j]) is Ok);
                    }
                    assert(all[i as int] == verdict);
                    lemma_collect_err(results, i as int);
                    assert(result_view(Err::<String, GenError>(e)) == ix_handlers_result(
                        views,
                        convention,
                        all,
                    ));
                }
                return Err(e);
            },
        }
        i = i + 1;
    }
    proof {
        let results = Seq::new(
            views.len(),
            |k: int| ix_handler_result(views[k], convention, verdicts[k]),
        );
        lemma_collect_ok(results, texts);
        assert(result_view(Ok::<String, GenError>(out)) == ix_handlers_result(
            views,
            convention,
            verdicts,
        ));
    }
    Ok(out)
}

/// Generates the context struct of one instruction, after the structs of
/// the groups in its account list.
pub fn generate_ix_context(ix: &Instruction) -> (r: Result<String, GenError>)
    ensures
        result_view(r) == ix_context_result(ix@),
{
    let accounts_name = match check_identifier(to_pascal_case(ix.name.as_str())) {
        Ok(name) => name,
        Err(e) => {
            return Err(e.within(ix.name.as_str()));
        },
    };
    match generate_account_fields(accounts_name.as_str(), ix.accounts.as_slice()) {
        Ok((all_structs, all_fields)) => {
            let own = render_accounts_struct(accounts_name.as_str(), all_fields.as_str());
            let mut out = all_structs;
            out.append(own.as_str());
            Ok(out)
        },
        Err(e) => Err(e.within(ix.name.as_str())),
    }
}

/// Generates instruction context structs.
pub fn generate_ix_structs(ixs: &[Instruction]) -> (r: Result<String, GenError>)
    ensures
        result_view(r) == ix_structs_result(instruction_views(ixs@)),
{
    let ghost views = instruction_views(ixs@);
    let ghost results = views.map_values(|ix: InstructionView| ix_context_result(ix));
    let ghost mut texts: Seq<Seq<char>> = Seq::empty();
    let mut out = String::new();
    let mut i: usize = 0;
    while i < ixs.len()
        invariant
            i <= ixs.len(),
            views == instruction_views(ixs@),
            results == views.map_values(|ix: InstructionView| ix_context_result(ix)),
            texts.len() == i,
            forall|j: int|
                0 <= j < i ==> #[trigger] results[j] == Ok::<Seq<char>, GenErrorView>(texts[j]),
            out@ == texts.flatten(),
        decreases ixs.len() - i,
    {
        match generate_ix_context(&ixs[i]) {
            Ok(text) => {
                proof {
                    texts.lemma_flatten_push(text@);
                    texts = texts.push(text@);
                }
                out.append(text.as_str());
            },
            Err(e) => {
                proof {
                    lemma_collect_err(results, i as int);
                }
                return Err(e);
            },
        }
        i = i + 1;
    }
    proof {
        lemma_collect_ok(results, texts);
    }
    Ok(out)
}

/// What an instruction gives to deserialization does not depend on the
/// lexer beyond its consent.
pub proof fn lemma_ix_deser_parts_repeat(ix: InstructionView, first: Seq<bool>, second: Seq<bool>)
    requires
        ix_deser_parts(ix, first) is Ok,
        ix_deser_parts(ix, second) is Ok,
    ensures
        ix_deser_parts(ix, first) == ix_deser_parts(ix, second),
        ix_deser_parts(ix, first)->Ok_0.0 == ix_variant_item(ix),
{
    lemma_fields_text_repeats(ix.args, first, second);
}

/// Two successful generations of the union and the argument structs give
/// the same text.
pub proof fn lemma_ix_deser_structs_repeat(
    ixs: Seq<InstructionView>,
    first: Seq<Seq<bool>>,
    second: Seq<Seq<bool>>,
)
    requires
        ix_deser_structs_result(ixs, first) is Ok,
        ix_deser_structs_result(ixs, second) is Ok,
    ensures
        ix_deser_structs_result(ixs, first) == ix_deser_structs_result(ixs, second),
{
    let a = Seq::new(ixs.len(), |i: int| ix_deser_parts(ixs[i], first[i]));
    let b = Seq::new(ixs.len(), |i: int| ix_deser_parts(ixs[i], second[i]));
    assert forall|i: int| 0 <= i < a.len() && (#[trigger] a[i]) is Ok && b[i] is Ok implies a[i]
        == b[i] by {
        lemma_ix_deser_parts_repeat(ixs[i], first[i], second[i]);
    }
    lemma_collect_agree(a, b);
}

/// Two successful generations of a handler stub give the same text.
pub proof fn lemma_ix_handler_repeats(
    ix: InstructionView,
    convention: ResultConvention,
    first: Seq<bool>,
    second: Seq<bool>,
)
    requires
        ix_handler_result(ix, convention, first) is Ok,
        ix_handler_result(ix, convention, second) is Ok,
    ensures
        ix_handler_result(ix, convention, first) == ix_handler_result(ix, convention, second),
{
    lemma_resolved_list_entries(ix.args, true, first);
    lemma_resolved_list_entries(ix.args, true, second);
}

/// Two successful generations of all handler stubs give the same text.
pub proof fn lemma_ix_handlers_repeat(
    ixs: Seq<InstructionView>,
    convention: ResultConvention,
    first: Seq<Seq<bool>>,
    second: Seq<Seq<bool>>,
)
    requires
        ix_handlers_result(ixs, convention, first) is Ok,
        ix_handlers_result(ixs, convention, second) is Ok,
    ensures
        ix_handlers_result(ixs, convention, first) == ix_handlers_result(ixs, convention, second),
{
    let a = Seq::new(ixs.len(), |i: int| ix_handler_result(ixs[i], convention, first[i]));
    let b = Seq::new(ixs.len(), |i: int| ix_handler_result(ixs[i], convention, second[i]));
    assert forall|i: int| 0 <= i < a.len() && (#[trigger] a[i]) is Ok && b[i] is Ok implies a[i]
        == b[i] by {
        lemma_ix_handler_repeats(ixs[i], convention, first[i], second[i]);
    }
    lemma_collect_agree(a, b);
}

/// Declaration order is kept in the union: where the union is written,
/// its variants are a list of one variant per instruction; the variant of
/// each instruction stands whole at its place after the header, and the
/// variant of an earlier instruction ends before that of a later one
/// begins.
pub proof fn lemma_variants_keep_order(
    ixs: Seq<InstructionView>,
    verdicts: Seq<Seq<bool>>,
    i: int,
    j: int,
)
    requires
        ix_deser_structs_result(ixs, verdicts) is Ok,
        0 <= i < j < ixs.len(),
    ensures
        ({
            let text = ix_deser_structs_result(ixs, verdicts)->Ok_0;
            let items = ixs.map_values(|ix: InstructionView| ix_variant_item(ix));
            let at_i = union_header().len() + item_offset(items, i);
            let at_j = union_header().len() + item_offset(items, j);
            &&& text.subrange(at_i, at_i + ix_variant_item(ixs[i]).len()) == ix_variant_item(ixs[i])
            &&& text.subrange(at_j, at_j + ix_variant_item(ixs[j]).len()) == ix_variant_item(ixs[j])
            &&& at_i + ix_variant_item(ixs[i]).len() < at_j
        }),
{
    let text = ix_deser_structs_result(ixs, verdicts)->Ok_0;
    let items = ixs.map_values(|ix: InstructionView| ix_variant_item(ix));
    let results = Seq::new(ixs.len(), |k: int| ix_deser_parts(ixs[k], verdicts[k]));
    lemma_collect_in_order(results);
    let parts = collect(results)->Ok_0;
    assert forall|k: int| 0 <= k < ixs.len() implies parts[k].0 == ix_variant_item(ixs[k]) by {
        assert(results[k] == Ok::<(Seq<char>, Seq<char>), GenErrorView>(parts[k]));
        lemma_ix_deser_parts_repeat(ixs[k], verdicts[k], verdicts[k]);
    }
    assert(firsts(parts) =~= items);
    let variants = comma_list(items);
    let head = union_header().len() as int;
    lemma_list_keeps_order(items, i, j);
    let at_i = item_offset(items, i);
    let at_j = item_offset(items, j);
    assert(text.subrange(head, head + variants.len()) =~= variants);
    assert(text.subrange(head + at_i, head + at_i + items[i].len()) =~= variants.subrange(
        at_i,
        at_i + items[i].len(),
    ));
    assert(text.subrange(head + at_j, head + at_j + items[j].len()) =~= variants.subrange(
        at_j,
        at_j + items[j].len(),
    ));
}

} // verus!
