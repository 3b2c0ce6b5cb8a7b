//! Engine-wide laws, stated and proved over the specification functions
//! that the executable functions' contracts use.

use vstd::prelude::*;
use crate::error::{Error, ErrorKind};
use crate::input::RawInputModel;
use crate::options::spec_should_skip_args;
use crate::annot::spec_container_options;
use crate::parse::{spec_fields_source, spec_find_from, spec_find_variant, spec_parse};
use crate::pos::Pos;
use crate::input::RawVariantModel;
use crate::tokens::{Delim, Kw, Punct, TokenModel};
use crate::tokenise::{
    spec_arg_items, spec_default_trait_path, spec_field_param_items, spec_init_of_field,
    spec_join_comma, spec_make_args, spec_make_default, spec_make_fn_body, spec_minifield_tokens,
    spec_param_of_field, spec_tokens,
};
use crate::types::field::{spec_resolve_ident, FieldModel};
use crate::types::fields::FieldsModel;
use crate::types::fields_source::FieldsSourceModel;
use crate::types::mini_field::MiniFieldModel;
use crate::tokenise::spec_field_list;
use crate::FancyConstructorModel;

verus! {

/// Synthesis is deterministic: the output token sequence is a pure function
/// of the validated description, so equal descriptions synthesize identical
/// sequences on every run.
pub proof fn lemma_synthesis_deterministic(a: FancyConstructorModel, b: FancyConstructorModel)
    requires
        a == b,
    ensures
        spec_tokens(a) == spec_tokens(b),
{
}

/// A field whose options suppress its argument contributes nothing to the
/// parameter list: removing it leaves the field-derived parameters
/// unchanged.
pub proof fn lemma_skipped_field_not_in_params(fields: Seq<FieldModel>, i: int)
    requires
        0 <= i < fields.len(),
        spec_should_skip_args(fields[i].opts),
    ensures
        spec_field_param_items(fields) == spec_field_param_items(fields.remove(i)),
    decreases fields.len(),
{
    if i == fields.len() - 1 {
        assert(fields.remove(i) =~= fields.drop_last());
    } else {
        lemma_skipped_field_not_in_params(fields.drop_last(), i);
        assert(fields.remove(i).drop_last() =~= fields.drop_last().remove(i));
        assert(fields.remove(i).last() == fields.last());
    }
}

/// The zero-value contract invocation, as the initializer tail it emits.
pub open spec fn spec_zero_value_call() -> Seq<TokenModel> {
    spec_default_trait_path() + seq![
        TokenModel::Punct(Punct::PathSep),
        TokenModel::Kw(Kw::DefaultFn),
        TokenModel::Open(Delim::Paren),
        TokenModel::Close(Delim::Paren),
    ]
}

/// The name-and-colon prefix an initializer carries in a named shape.
pub open spec fn spec_init_prefix(f: FieldModel, named: bool) -> Seq<TokenModel> {
    if named {
        seq![TokenModel::Ident(f.name), TokenModel::Punct(Punct::Colon)]
    } else {
        Seq::empty()
    }
}

/// A defaulted field never appears in the parameter list, and its
/// initializer is the zero-value contract call — whatever other options,
/// including a configured expression, accompany it.
pub proof fn lemma_default_field_skipped(fields: Seq<FieldModel>, i: int, named: bool)
    requires
        0 <= i < fields.len(),
        fields[i].opts.default,
    ensures
        spec_field_param_items(fields) == spec_field_param_items(fields.remove(i)),
        spec_init_of_field(fields[i], named) == spec_init_prefix(fields[i], named)
            + spec_zero_value_call(),
{
    lemma_skipped_field_not_in_params(fields, i);
}

/// The initializer priority chain: the zero-value contract wins over a
/// configured expression, which wins over the plain argument.
pub proof fn lemma_initializer_priority(f: FieldModel, named: bool)
    ensures
        f.opts.default ==> spec_init_of_field(f, named) == spec_init_prefix(f, named)
            + spec_zero_value_call(),
        !f.opts.default && f.opts.value is Some ==> spec_init_of_field(f, named)
            == spec_init_prefix(f, named) + seq![TokenModel::Snip(f.opts.value->0)],
        !f.opts.default && f.opts.value is None ==> spec_init_of_field(f, named)[
            spec_init_prefix(f, named).len() as int
        ] == TokenModel::Ident(spec_resolve_ident(f)),
{
}

/// In particular, a co-present configured expression changes nothing once
/// the field defaults: the initializer equals the one of the same field
/// with the expression removed.
pub proof fn lemma_default_overrides_value(f: FieldModel, named: bool)
    requires
        f.opts.default,
    ensures
        spec_init_of_field(f, named) == spec_init_of_field(
            FieldModel {
                opts: crate::options::FieldOptionsModel { value: Option::None, ..f.opts },
                ..f
            },
            named,
        ),
{
}

/// For a field that both copies and converts, the initializer is the
/// identifier, then the copy call, then the conversion call, in that exact
/// order; and its parameter is taken by reference under the
/// conversion-accepting type.
pub proof fn lemma_clone_before_into(f: FieldModel)
    requires
        f.opts.clone,
        f.opts.into,
        !f.opts.default,
        f.opts.value is None,
    ensures
        spec_init_of_field(f, false) == seq![TokenModel::Ident(spec_resolve_ident(f))] + seq![
            TokenModel::Punct(Punct::Dot),
            TokenModel::Kw(Kw::CloneFn),
            TokenModel::Open(Delim::Paren),
            TokenModel::Close(Delim::Paren),
        ] + seq![
            TokenModel::Punct(Punct::Dot),
            TokenModel::Kw(Kw::IntoFn),
            TokenModel::Open(Delim::Paren),
            TokenModel::Close(Delim::Paren),
        ],
        spec_param_of_field(f) == seq![
            TokenModel::Ident(spec_resolve_ident(f)),
            TokenModel::Punct(Punct::Colon),
            TokenModel::Punct(Punct::And),
            TokenModel::Kw(Kw::Impl),
            TokenModel::Punct(Punct::PathSep),
            TokenModel::Kw(Kw::Core),
            TokenModel::Punct(Punct::PathSep),
            TokenModel::Kw(Kw::Convert),
            TokenModel::Punct(Punct::PathSep),
            TokenModel::Kw(Kw::IntoTrait),
            TokenModel::Punct(Punct::Lt),
            TokenModel::Snip(f.ty),
            TokenModel::Punct(Punct::Gt),
        ],
{
    assert(spec_init_of_field(f, false) =~= seq![TokenModel::Ident(spec_resolve_ident(f))] + seq![
        TokenModel::Punct(Punct::Dot),
        TokenModel::Kw(Kw::CloneFn),
        TokenModel::Open(Delim::Paren),
        TokenModel::Close(Delim::Paren),
    ] + seq![
        TokenModel::Punct(Punct::Dot),
        TokenModel::Kw(Kw::IntoFn),
        TokenModel::Open(Delim::Paren),
        TokenModel::Close(Delim::Paren),
    ]);
    assert(spec_param_of_field(f) =~= seq![
        TokenModel::Ident(spec_resolve_ident(f)),
        TokenModel::Punct(Punct::Colon),
        TokenModel::Punct(Punct::And),
        TokenModel::Kw(Kw::Impl),
        TokenModel::Punct(Punct::PathSep),
        TokenModel::Kw(Kw::Core),
        TokenModel::Punct(Punct::PathSep),
        TokenModel::Kw(Kw::Convert),
        TokenModel::Punct(Punct::PathSep),
        TokenModel::Kw(Kw::IntoTrait),
        TokenModel::Punct(Punct::Lt),
        TokenModel::Snip(f.ty),
        TokenModel::Punct(Punct::Gt),
    ]);
}

/// Scanning for the selected variant passes over an unmarked prefix
/// unchanged.
proof fn lemma_find_skip_unmarked(
    kw_pos: Pos,
    vars: Seq<RawVariantModel>,
    found: Option<RawVariantModel>,
    k: int,
)
    requires
        0 <= k <= vars.len(),
        forall|m: int| 0 <= m < k ==> !(#[trigger] vars[m]).marked,
    ensures
        spec_find_from(kw_pos, vars, found) == spec_find_from(kw_pos, vars.skip(k), found),
    decreases k,
{
    if k > 0 {
        assert(!vars[0].marked);
        assert forall|m: int| 0 <= m < k - 1 implies !(#[trigger] vars.drop_first()[m]).marked by {
            assert(vars.drop_first()[m] == vars[m + 1]);
        }
        lemma_find_skip_unmarked(kw_pos, vars.drop_first(), found, k - 1);
        assert(vars.drop_first().skip(k - 1) =~= vars.skip(k));
    } else {
        assert(vars.skip(0) =~= vars);
    }
}

/// A tagged union with no marked variant fails selection, at the union's
/// own position.
pub proof fn lemma_no_variant_selected(kw_pos: Pos, vars: Seq<RawVariantModel>)
    requires
        forall|i: int| 0 <= i < vars.len() ==> !(#[trigger] vars[i]).marked,
    ensures
        spec_find_variant(kw_pos, vars) == Result::<RawVariantModel, Error>::Err(
            Error { kind: ErrorKind::NoVariantSelected, pos: kw_pos },
        ),
{
    lemma_find_skip_unmarked(kw_pos, vars, Option::None, vars.len() as int);
    assert(vars.skip(vars.len() as int) =~= Seq::<RawVariantModel>::empty());
}

/// A second marked variant fails selection, attributed to the second
/// variant's own name.
pub proof fn lemma_multiple_variants_selected(
    kw_pos: Pos,
    vars: Seq<RawVariantModel>,
    i: int,
    j: int,
)
    requires
        0 <= i < j < vars.len(),
        vars[i].marked,
        vars[j].marked,
        forall|k: int| 0 <= k < j && k != i ==> !(#[trigger] vars[k]).marked,
    ensures
        spec_find_variant(kw_pos, vars) == Result::<RawVariantModel, Error>::Err(
            Error { kind: ErrorKind::MultipleVariantsSelected, pos: vars[j].name_pos },
        ),
{
    lemma_find_skip_unmarked(kw_pos, vars, Option::None, i);
    assert(vars.skip(i)[0] == vars[i]);
    assert(vars.skip(i).drop_first() =~= vars.skip(i + 1));
    assert forall|m: int| 0 <= m < j - i - 1 implies !(#[trigger] vars.skip(i + 1)[m]).marked by {
        assert(vars.skip(i + 1)[m] == vars[i + 1 + m]);
    }
    lemma_find_skip_unmarked(kw_pos, vars.skip(i + 1), Option::Some(vars[i]), j - i - 1);
    assert(vars.skip(i + 1).skip(j - i - 1) =~= vars.skip(j));
    assert(vars.skip(j)[0] == vars[j]);
}

/// With exactly one marked variant, selection succeeds with that variant.
pub proof fn lemma_one_variant_selected(kw_pos: Pos, vars: Seq<RawVariantModel>, i: int)
    requires
        0 <= i < vars.len(),
        vars[i].marked,
        forall|k: int| 0 <= k < vars.len() && k != i ==> !(#[trigger] vars[k]).marked,
    ensures
        spec_find_variant(kw_pos, vars) == Result::<RawVariantModel, Error>::Ok(vars[i]),
{
    lemma_find_skip_unmarked(kw_pos, vars, Option::None, i);
    assert(vars.skip(i)[0] == vars[i]);
    assert(vars.skip(i).drop_first() =~= vars.skip(i + 1));
    assert forall|m: int| 0 <= m < vars.len() - i - 1 implies !(#[trigger] vars.skip(i + 1)[
        m
    ]).marked by {
        assert(vars.skip(i + 1)[m] == vars[i + 1 + m]);
    }
    lemma_find_skip_unmarked(
        kw_pos,
        vars.skip(i + 1),
        Option::Some(vars[i]),
        vars.len() - i - 1,
    );
    assert(vars.skip(i + 1).skip(vars.len() - i - 1) =~= Seq::<RawVariantModel>::empty());
}

/// When a validated description comes from a tagged union, its body
/// qualifies construction with the selected variant's name.
pub proof fn lemma_enum_body_qualified(fs: FieldsSourceModel)
    requires
        fs is Enum,
    ensures
        spec_make_fn_body(fs).len() >= 3,
        spec_make_fn_body(fs).take(3) == seq![
            TokenModel::Kw(Kw::SelfUpper),
            TokenModel::Punct(Punct::PathSep),
            TokenModel::Ident(fs->Enum_variant),
        ],
{
    assert(spec_make_fn_body(fs).take(3) =~= seq![
        TokenModel::Kw(Kw::SelfUpper),
        TokenModel::Punct(Punct::PathSep),
        TokenModel::Ident(fs->Enum_variant),
    ]);
}

/// A successfully validated description keeps the field source its data
/// resolved to: in the tagged-union case, the one selected variant.
pub proof fn lemma_parse_keeps_fields(inp: RawInputModel)
    requires
        spec_parse(inp) is Ok,
    ensures
        spec_fields_source(inp.data) is Ok,
        spec_parse(inp)->Ok_0.fields == spec_fields_source(inp.data)->Ok_0,
{
}

/// A requested zero-argument factory with a non-empty resolved parameter
/// list fails validation, attributed to the merged position of the
/// container-level fragments.
pub proof fn lemma_default_factory_gated(inp: RawInputModel)
    requires
        spec_fields_source(inp.data) is Ok,
        inp.attrs.len() > 0,
        spec_container_options(inp.attrs) is Ok,
        spec_container_options(inp.attrs)->Ok_0.default,
        !(spec_container_options(inp.attrs)->Ok_0.args.len() == 0
            && crate::types::fields::spec_is_argless(
            crate::types::fields_source::spec_fields_of(spec_fields_source(inp.data)->Ok_0),
        )),
    ensures
        spec_parse(inp) == Result::<FancyConstructorModel, Error>::Err(
            Error {
                kind: ErrorKind::DefaultRequiresNoArgs,
                pos: crate::pos::spec_create_span(
                    crate::parse::spec_frag_positions(inp.attrs),
                    inp.type_pos,
                ),
            },
        ),
{
}

/// A requested zero-argument factory with an empty resolved parameter list
/// passes validation.
pub proof fn lemma_default_factory_allowed(inp: RawInputModel)
    requires
        spec_fields_source(inp.data) is Ok,
        inp.attrs.len() > 0,
        spec_container_options(inp.attrs) is Ok,
        spec_container_options(inp.attrs)->Ok_0.default,
        spec_container_options(inp.attrs)->Ok_0.args.len() == 0,
        crate::types::fields::spec_is_argless(
            crate::types::fields_source::spec_fields_of(spec_fields_source(inp.data)->Ok_0),
        ),
    ensures
        spec_parse(inp) is Ok,
        spec_parse(inp)->Ok_0.opts == spec_container_options(inp.attrs)->Ok_0,
{
}

/// When a factory was requested, the output ends with a second, non-empty
/// implementation block, whose body calls the constructor — under its
/// configured or default name — with no arguments.
pub proof fn lemma_default_factory_emitted(fc: FancyConstructorModel)
    requires
        fc.opts.default,
    ensures
        spec_make_default(fc.generics, fc.struct_name, fc.opts).len() > 0,
        spec_tokens(fc) == spec_tokens(fc).take(
            spec_tokens(fc).len() - spec_make_default(fc.generics, fc.struct_name, fc.opts).len(),
        ) + spec_make_default(fc.generics, fc.struct_name, fc.opts),
        spec_make_default(fc.generics, fc.struct_name, fc.opts).skip(
            spec_make_default(fc.generics, fc.struct_name, fc.opts).len() - 7,
        ) == seq![
            TokenModel::Ident(fc.struct_name),
            TokenModel::Punct(Punct::PathSep),
            crate::tokenise::spec_fn_name_token(fc.opts.name),
            TokenModel::Open(Delim::Paren),
            TokenModel::Close(Delim::Paren),
            TokenModel::Close(Delim::Brace),
            TokenModel::Close(Delim::Brace),
        ],
{
    let md = spec_make_default(fc.generics, fc.struct_name, fc.opts);
    assert(spec_tokens(fc) =~= spec_tokens(fc).take(spec_tokens(fc).len() - md.len()) + md);
    assert(md.skip(md.len() - 7) =~= seq![
        TokenModel::Ident(fc.struct_name),
        TokenModel::Punct(Punct::PathSep),
        crate::tokenise::spec_fn_name_token(fc.opts.name),
        TokenModel::Open(Delim::Paren),
        TokenModel::Close(Delim::Paren),
        TokenModel::Close(Delim::Brace),
        TokenModel::Close(Delim::Brace),
    ]);
}

/// With exactly one marked variant, whose fields resolve and with no
/// container-level fragments to process, validation succeeds and the
/// constructor's body qualifies construction with that variant's name.
pub proof fn lemma_one_variant_synthesizes(inp: RawInputModel, i: int)
    requires
        inp.data is Enum,
        0 <= i < inp.data->Enum_variants.len(),
        inp.data->Enum_variants[i].marked,
        forall|k: int|
            0 <= k < inp.data->Enum_variants.len() && k != i ==> !(#[trigger] inp.data
                ->Enum_variants[k]).marked,
        crate::types::fields_source::spec_fields_of_shape(
            inp.data->Enum_variants[i].shape,
        ) is Ok,
        inp.attrs.len() == 0,
    ensures
        spec_parse(inp) is Ok,
        spec_make_fn_body(spec_parse(inp)->Ok_0.fields).take(3) == seq![
            TokenModel::Kw(Kw::SelfUpper),
            TokenModel::Punct(Punct::PathSep),
            TokenModel::Ident(inp.data->Enum_variants[i].name),
        ],
{
    lemma_one_variant_selected(inp.data->Enum_kw_pos, inp.data->Enum_variants, i);
    lemma_enum_body_qualified(spec_parse(inp)->Ok_0.fields);
}

/// Extra declared parameters always precede the field-derived ones, in
/// declaration order, whatever the fields' own options are.
pub proof fn lemma_extra_args_precede(fields: FieldsModel, args: Seq<MiniFieldModel>)
    ensures
        spec_make_args(fields, args) == spec_join_comma(
            spec_arg_items(args) + spec_field_param_items(spec_field_list(fields)),
        ),
        spec_arg_items(args).len() == args.len(),
        forall|i: int|
            0 <= i < args.len() ==> (spec_arg_items(args) + spec_field_param_items(
                spec_field_list(fields),
            ))[i] == spec_minifield_tokens(#[trigger] args[i]),
{
    assert forall|i: int| 0 <= i < args.len() implies (spec_arg_items(args)
        + spec_field_param_items(spec_field_list(fields)))[i] == spec_minifield_tokens(
        #[trigger] args[i],
    ) by {
        assert(spec_arg_items(args)[i] == spec_minifield_tokens(args[i]));
    }
}

} // verus!
