//! The descriptor builder: the validation gate.
//!
//! [`FancyConstructor::parse`] turns the raw structural input into a
//! validated constructor description, or the first validation failure:
//! unions are rejected outright, a tagged union must have exactly one
//! variant marked for selection, every annotation fragment must be
//! well-formed, and a requested zero-argument factory demands an empty
//! resolved parameter list.

use vstd::prelude::*;
use crate::annot::spec_container_options;
use crate::error::{Error, ErrorKind};
use crate::input::{fragments_view, Fragment, FragmentModel};
use crate::input::{raw_variants_view, RawData, RawDataModel, RawInput, RawVariant, RawVariantModel};
use crate::options::{ContainerOptions, ContainerOptionsModel};
use crate::pos::{spec_create_span, Pos};
use crate::types::{clone_chars, Field, Fields, FieldsSource, FieldsSourceModel};
use crate::types::fields::spec_is_argless;
use crate::types::fields_source::{spec_fields_of, spec_fields_of_shape};
use crate::FancyConstructor;
use crate::FancyConstructorModel;

verus! {

/// The positions of the fragments in `frags`, in order.
pub open spec fn spec_frag_positions(frags: Seq<FragmentModel>) -> Seq<Pos> {
    frags.map_values(|f: FragmentModel| f.pos)
}

/// The positions of the fragments in `frags`, in order.
pub fn frag_positions(frags: &Vec<Fragment>) -> (r: Vec<Pos>)
    ensures
        r@ == spec_frag_positions(fragments_view(frags@)),
{
    let mut r: Vec<Pos> = Vec::new();
    let mut i: usize = 0;
    proof {
        assert(r@ =~= spec_frag_positions(fragments_view(frags@)).take(0));
    }
    while i < frags.len()
        invariant
            i <= frags@.len(),
            r@ == spec_frag_positions(fragments_view(frags@)).take(i as int),
        decreases frags@.len() - i,
    {
        r.push(frags[i].pos);
        proof {
            assert(r@ =~= spec_frag_positions(fragments_view(frags@)).take(i + 1));
        }
        i += 1;
    }
    proof {
        assert(spec_frag_positions(fragments_view(frags@)).take(frags@.len() as int)
            =~= spec_frag_positions(fragments_view(frags@)));
    }
    r
}

/// The variant selection that scanning `vars` with `found` already in hand
/// comes to: the one marked variant, a failure at the second marked
/// variant's name, or — when none is marked — a failure at `kw_pos`.
pub open spec fn spec_find_from(
    kw_pos: Pos,
    vars: Seq<RawVariantModel>,
    found: Option<RawVariantModel>,
) -> Result<RawVariantModel, Error>
    decreases vars.len(),
{
    if vars.len() == 0 {
        match found {
            Option::Some(v) => Result::Ok(v),
            Option::None => Result::Err(
                Error { kind: ErrorKind::NoVariantSelected, pos: kw_pos },
            ),
        }
    } else {
        if vars[0].marked {
            if found is Some {
                Result::Err(
                    Error { kind: ErrorKind::MultipleVariantsSelected, pos: vars[0].name_pos },
                )
            } else {
                spec_find_from(kw_pos, vars.drop_first(), Option::Some(vars[0]))
            }
        } else {
            spec_find_from(kw_pos, vars.drop_first(), found)
        }
    }
}

/// The variant a tagged union selects: the one variant carrying the marker;
/// zero marked variants fail at the union's own position, a second marked
/// variant fails at its name's position.
pub open spec fn spec_find_variant(kw_pos: Pos, vars: Seq<RawVariantModel>) -> Result<
    RawVariantModel,
    Error,
> {
    spec_find_from(kw_pos, vars, Option::None)
}

/// The index of the variant that the tagged union selects, or the selection
/// failure.
pub fn find_variant(kw_pos: Pos, variants: &Vec<RawVariant>) -> (r: Result<usize, Error>)
    ensures
        (match r {
            Result::Ok(ix) => ix < variants@.len() && spec_find_variant(
                kw_pos,
                raw_variants_view(variants@),
            ) == Result::<RawVariantModel, Error>::Ok(variants@[ix as int]@),
            Result::Err(e) => spec_find_variant(kw_pos, raw_variants_view(variants@))
                == Result::<RawVariantModel, Error>::Err(e),
        }),
{
    let mut found: Option<usize> = None;
    let mut i: usize = 0;
    proof {
        assert(raw_variants_view(variants@).skip(0) =~= raw_variants_view(variants@));
    }
    while i < variants.len()
        invariant
            i <= variants@.len(),
            match found {
                Option::Some(ix) => ix < i && spec_find_variant(
                    kw_pos,
                    raw_variants_view(variants@),
                ) == spec_find_from(
                    kw_pos,
                    raw_variants_view(variants@).skip(i as int),
                    Option::Some(variants@[ix as int]@),
                ),
                Option::None => spec_find_variant(kw_pos, raw_variants_view(variants@))
                    == spec_find_from(
                    kw_pos,
                    raw_variants_view(variants@).skip(i as int),
                    Option::None,
                ),
            },
        decreases variants@.len() - i,
    {
        proof {
            assert(raw_variants_view(variants@).skip(i as int)[0] == variants@[i as int]@);
            assert(raw_variants_view(variants@).skip(i as int).drop_first() =~= raw_variants_view(
                variants@,
            ).skip(i + 1));
        }
        if variants[i].marked {
            if found.is_some() {
                return Err(Error::new(ErrorKind::MultipleVariantsSelected, variants[i].name_pos));
            }
            found = Some(i);
        }
        i += 1;
    }
    proof {
        assert(raw_variants_view(variants@).skip(variants@.len() as int) =~= Seq::<
            RawVariantModel,
        >::empty());
    }
    match found {
        Some(ix) => Ok(ix),
        None => Err(Error::new(ErrorKind::NoVariantSelected, kw_pos)),
    }
}

/// Whether a requested zero-argument factory is legal: the resolved
/// parameter list — extra parameters followed by the non-skipped fields —
/// must be empty; otherwise the failure is attributed to `span`.
pub open spec fn spec_validate_opts(
    opts: ContainerOptionsModel,
    fields: FieldsSourceModel,
    span: Pos,
) -> Result<(), Error> {
    if opts.args.len() == 0 && spec_is_argless(spec_fields_of(fields)) {
        Result::Ok(())
    } else {
        Result::Err(Error { kind: ErrorKind::DefaultRequiresNoArgs, pos: span })
    }
}

/// Checks that a requested zero-argument factory is legal.
pub fn validate_opts(opts: &ContainerOptions, fields: &FieldsSource, span: Pos) -> (r: Result<
    (),
    Error,
>)
    ensures
        r == spec_validate_opts(opts@, fields@, span),
{
    if opts.args.len() == 0 && fields.fields().is_argless() {
        proof {
            assert(opts@.args.len() == 0);
        }
        Ok(())
    } else {
        Err(Error::new(ErrorKind::DefaultRequiresNoArgs, span))
    }
}

/// The field source the raw data resolves to: a struct's own shape, a
/// tagged union's one selected variant, or the rejection of an untagged
/// union.
pub open spec fn spec_fields_source(data: RawDataModel) -> Result<FieldsSourceModel, Error> {
    match data {
        RawDataModel::Struct(shape) => match spec_fields_of_shape(shape) {
            Result::Err(e) => Result::Err(e),
            Result::Ok(f) => Result::Ok(FieldsSourceModel::Struct(f)),
        },
        RawDataModel::Enum { kw_pos, variants } => match spec_find_variant(kw_pos, variants) {
            Result::Err(e) => Result::Err(e),
            Result::Ok(v) => match spec_fields_of_shape(v.shape) {
                Result::Err(e) => Result::Err(e),
                Result::Ok(f) => Result::Ok(
                    FieldsSourceModel::Enum { variant: v.name, fields: f },
                ),
            },
        },
        RawDataModel::Union { kw_pos } => Result::Err(
            Error { kind: ErrorKind::UnsupportedShape, pos: kw_pos },
        ),
    }
}

/// The validated constructor description the raw input resolves to, or the
/// first validation failure.  The data is examined first — a union is
/// rejected, a tagged union's variant is selected, and the fields' own
/// options are resolved — then the container-level options, and last the
/// zero-argument-factory gate.
pub open spec fn spec_parse(inp: crate::RawInputModel) -> Result<FancyConstructorModel, Error> {
    match spec_fields_source(inp.data) {
        Result::Err(e) => Result::Err(e),
        Result::Ok(fields) => {
            if inp.attrs.len() == 0 {
                Result::Ok(
                    FancyConstructorModel {
                        struct_name: inp.name,
                        generics: inp.generics,
                        fields,
                        opts: crate::options::spec_container_unset(),
                    },
                )
            } else {
                let span = spec_create_span(spec_frag_positions(inp.attrs), inp.type_pos);
                match spec_container_options(inp.attrs) {
                    Result::Err(e) => Result::Err(e),
                    Result::Ok(opts) => {
                        if opts.default {
                            match spec_validate_opts(opts, fields, span) {
                                Result::Err(e) => Result::Err(e),
                                Result::Ok(_) => Result::Ok(
                                    FancyConstructorModel {
                                        struct_name: inp.name,
                                        generics: inp.generics,
                                        fields,
                                        opts,
                                    },
                                ),
                            }
                        } else {
                            Result::Ok(
                                FancyConstructorModel {
                                    struct_name: inp.name,
                                    generics: inp.generics,
                                    fields,
                                    opts,
                                },
                            )
                        }
                    },
                }
            }
        },
    }
}

impl FancyConstructor {
    /// The validated constructor description the raw input `input` resolves
    /// to, or the first validation failure.
    pub fn parse(input: &RawInput) -> (r: Result<FancyConstructor, Error>)
        ensures
            (match r {
                Result::Ok(fc) => Result::<FancyConstructorModel, Error>::Ok(fc@),
                Result::Err(e) => Result::<FancyConstructorModel, Error>::Err(e),
            }) == spec_parse(input@),
    {
        let fields: FieldsSource = match &input.data {
            RawData::Struct(shape) => {
                match Fields::try_from(shape) {
                    Err(e) => {
                        return Err(e);
                    },
                    Ok(f) => FieldsSource::Struct(f),
                }
            },
            RawData::Enum { kw_pos, variants } => {
                let ix = match find_variant(*kw_pos, variants) {
                    Err(e) => {
                        return Err(e);
                    },
                    Ok(ix) => ix,
                };
                let variant = &variants[ix];
                match Fields::try_from(&variant.shape) {
                    Err(e) => {
                        return Err(e);
                    },
                    Ok(f) => FieldsSource::Enum {
                        variant: clone_chars(&variant.name),
                        fields: f,
                    },
                }
            },
            RawData::Union { kw_pos } => {
                return Err(Error::new(ErrorKind::UnsupportedShape, *kw_pos));
            },
        };
        let opts: ContainerOptions = if input.attrs.len() == 0 {
            ContainerOptions::unset()
        } else {
            let positions = frag_positions(&input.attrs);
            let span = crate::pos::create_span(&positions, input.type_pos);
            let opts = match ContainerOptions::from_fragments(&input.attrs) {
                Err(e) => {
                    return Err(e);
                },
                Ok(o) => o,
            };
            if opts.default {
                match validate_opts(&opts, &fields, span) {
                    Err(e) => {
                        return Err(e);
                    },
                    Ok(_) => {},
                }
            }
            opts
        };
        Ok(
            FancyConstructor {
                struct_name: clone_chars(&input.name),
                generics: crate::input::Generics {
                    impl_generics: clone_chars(&input.generics.impl_generics),
                    type_generics: clone_chars(&input.generics.type_generics),
                    where_clause: clone_chars(&input.generics.where_clause),
                },
                fields,
                opts,
            },
        )
    }
}

} // verus!
