//! The synthesis engine.
//!
//! [`FancyConstructor::into_token_stream`] turns a validated constructor
//! description into the output token sequence: one implementation block
//! holding the constructor, and — when a zero-argument factory was requested
//! — a second implementation block delegating to it.  Emission is total and
//! pure: the sequence is a function of the description alone, assembled in a
//! fixed order.

use vstd::prelude::*;
use crate::input::{Generics, GenericsModel};
use crate::options::{spec_should_skip_args, ContainerOptions, ContainerOptionsModel};
use crate::tokens::{lemma_toks_add, toks, Delim, Kw, Punct, Token, TokenModel};
use crate::types::field::{spec_resolve_ident, Field, FieldModel};
use crate::types::fields::spec_to_slice;
use crate::types::fields_source::{spec_fields_of, FieldsSource, FieldsSourceModel};
use crate::types::mini_field::{MiniField, MiniFieldModel};
use crate::types::clone_chars;
use crate::FancyConstructor;
use crate::FancyConstructorModel;

verus! {

/// The generated doc sentence used when no custom comment is configured.
pub open spec fn spec_default_comment() -> Seq<char> {
    seq![
        'C', 'o', 'n', 's', 't', 'r', 'u', 'c', 't', 's', ' ', 'a', ' ', 'n', 'e', 'w', ' ', 'i',
        'n', 's', 't', 'a', 'n', 'c', 'e', ' ', 'o', 'f', ' ', 't', 'h', 'e', ' ', 's', 't', 'r',
        'u', 'c', 't', '.',
    ]
}

/// The attributes placed on every emitted implementation block: one marking
/// it as generated, one silencing lints.
pub open spec fn spec_attrs_prefix() -> Seq<TokenModel> {
    seq![
        TokenModel::Punct(Punct::Hash),
        TokenModel::Open(Delim::Bracket),
        TokenModel::Kw(Kw::AutomaticallyDerived),
        TokenModel::Close(Delim::Bracket),
        TokenModel::Punct(Punct::Hash),
        TokenModel::Open(Delim::Bracket),
        TokenModel::Kw(Kw::Allow),
        TokenModel::Open(Delim::Paren),
        TokenModel::Kw(Kw::Clippy),
        TokenModel::Punct(Punct::PathSep),
        TokenModel::Kw(Kw::All),
        TokenModel::Close(Delim::Paren),
        TokenModel::Close(Delim::Bracket),
    ]
}

/// The fully qualified path of the zero-value contract's trait.
pub open spec fn spec_default_trait_path() -> Seq<TokenModel> {
    seq![
        TokenModel::Punct(Punct::PathSep),
        TokenModel::Kw(Kw::Core),
        TokenModel::Punct(Punct::PathSep),
        TokenModel::Kw(Kw::DefaultMod),
        TokenModel::Punct(Punct::PathSep),
        TokenModel::Kw(Kw::DefaultTrait),
    ]
}

/// An opaque snippet as a token run: one snippet token, or nothing when the
/// snippet is empty.
pub open spec fn spec_snip_opt(s: Seq<char>) -> Seq<TokenModel> {
    if s.len() > 0 {
        seq![TokenModel::Snip(s)]
    } else {
        Seq::empty()
    }
}

/// The constructor's name token: the configured name, or the fixed default
/// name.
pub open spec fn spec_fn_name_token(name: Option<Seq<char>>) -> TokenModel {
    match name {
        Option::Some(n) => TokenModel::Ident(n),
        Option::None => TokenModel::Kw(Kw::New),
    }
}

/// The header of an implementation block for the type `name` under the
/// generics `g`; with `with_default_trait`, an implementation of the
/// zero-value contract's trait for that type.
pub open spec fn spec_impl_header(g: GenericsModel, name: Seq<char>, with_default_trait: bool) -> Seq<
    TokenModel,
> {
    seq![TokenModel::Kw(Kw::Impl)] + spec_snip_opt(g.impl_generics) + (if with_default_trait {
        spec_default_trait_path() + seq![TokenModel::Kw(Kw::For)]
    } else {
        Seq::empty()
    }) + seq![TokenModel::Ident(name)] + spec_snip_opt(g.type_generics) + spec_snip_opt(
        g.where_clause,
    )
}

/// The zero-argument factory block: an implementation of the zero-value
/// contract whose single operation calls the generated constructor with no
/// arguments.  Empty when no factory was requested.
pub open spec fn spec_make_default(
    g: GenericsModel,
    name: Seq<char>,
    opts: ContainerOptionsModel,
) -> Seq<TokenModel> {
    if !opts.default {
        Seq::empty()
    } else {
        spec_attrs_prefix() + spec_impl_header(g, name, true) + seq![
            TokenModel::Open(Delim::Brace),
            TokenModel::Punct(Punct::Hash),
            TokenModel::Open(Delim::Bracket),
            TokenModel::Kw(Kw::Inline),
            TokenModel::Close(Delim::Bracket),
            TokenModel::Kw(Kw::Fn),
            TokenModel::Kw(Kw::DefaultFn),
            TokenModel::Open(Delim::Paren),
            TokenModel::Close(Delim::Paren),
            TokenModel::Punct(Punct::Arrow),
            TokenModel::Kw(Kw::SelfUpper),
            TokenModel::Open(Delim::Brace),
            TokenModel::Ident(name),
            TokenModel::Punct(Punct::PathSep),
        ] + seq![spec_fn_name_token(opts.name)] + seq![
            TokenModel::Open(Delim::Paren),
            TokenModel::Close(Delim::Paren),
            TokenModel::Close(Delim::Brace),
            TokenModel::Close(Delim::Brace),
        ]
    }
}

/// The parameter an extra declared parameter emits: its name, a colon, its
/// type verbatim.
pub open spec fn spec_minifield_tokens(m: MiniFieldModel) -> Seq<TokenModel> {
    seq![
        TokenModel::Ident(m.ident),
        TokenModel::Punct(Punct::Colon),
        TokenModel::Snip(m.ty),
    ]
}

/// The parameter a field emits: its resolved name, a colon, then its type —
/// by reference when the field is cloned, and wrapped into the
/// conversion-accepting form when the field converts.
pub open spec fn spec_param_of_field(f: FieldModel) -> Seq<TokenModel> {
    seq![
        TokenModel::Ident(spec_resolve_ident(f)),
        TokenModel::Punct(Punct::Colon),
    ] + (if f.opts.clone {
        seq![TokenModel::Punct(Punct::And)]
    } else {
        Seq::empty()
    }) + (if f.opts.into {
        seq![
            TokenModel::Kw(Kw::Impl),
            TokenModel::Punct(Punct::PathSep),
            TokenModel::Kw(Kw::Core),
            TokenModel::Punct(Punct::PathSep),
            TokenModel::Kw(Kw::Convert),
            TokenModel::Punct(Punct::PathSep),
            TokenModel::Kw(Kw::IntoTrait),
            TokenModel::Punct(Punct::Lt),
            TokenModel::Snip(f.ty),
            TokenModel::Punct(Punct::Gt),
        ]
    } else {
        seq![TokenModel::Snip(f.ty)]
    })
}

/// The initializer a field emits, by priority: the zero-value contract call
/// when the field defaults (even over a configured expression); else the
/// configured expression verbatim; else the resolved argument, followed by a
/// copy call when the field is cloned, followed by a conversion call when it
/// converts — the copy always before the conversion.  In a named shape the
/// field's own name and a colon come first.
pub open spec fn spec_init_of_field(f: FieldModel, named: bool) -> Seq<TokenModel> {
    (if named {
        seq![TokenModel::Ident(f.name), TokenModel::Punct(Punct::Colon)]
    } else {
        Seq::empty()
    }) + (if f.opts.default {
        spec_default_trait_path() + seq![
            TokenModel::Punct(Punct::PathSep),
            TokenModel::Kw(Kw::DefaultFn),
            TokenModel::Open(Delim::Paren),
            TokenModel::Close(Delim::Paren),
        ]
    } else {
        match f.opts.value {
            Option::Some(v) => seq![TokenModel::Snip(v)],
            Option::None => seq![TokenModel::Ident(spec_resolve_ident(f))] + (if f.opts.clone {
                seq![
                    TokenModel::Punct(Punct::Dot),
                    TokenModel::Kw(Kw::CloneFn),
                    TokenModel::Open(Delim::Paren),
                    TokenModel::Close(Delim::Paren),
                ]
            } else {
                Seq::empty()
            }) + (if f.opts.into {
                seq![
                    TokenModel::Punct(Punct::Dot),
                    TokenModel::Kw(Kw::IntoFn),
                    TokenModel::Open(Delim::Paren),
                    TokenModel::Close(Delim::Paren),
                ]
            } else {
                Seq::empty()
            }),
        }
    })
}

/// A list of token runs joined by commas, in order, with no trailing comma.
pub open spec fn spec_join_comma(items: Seq<Seq<TokenModel>>) -> Seq<TokenModel>
    decreases items.len(),
{
    if items.len() == 0 {
        Seq::empty()
    } else if items.len() == 1 {
        items[0]
    } else {
        spec_join_comma(items.drop_last()) + seq![TokenModel::Punct(Punct::Comma)] + items.last()
    }
}

/// Appending one run to a joined list appends a comma — when anything
/// precedes — and the run.
pub proof fn lemma_join_push(items: Seq<Seq<TokenModel>>, x: Seq<TokenModel>)
    ensures
        spec_join_comma(items.push(x)) == spec_join_comma(items) + (if items.len() > 0 {
            seq![TokenModel::Punct(Punct::Comma)]
        } else {
            Seq::<TokenModel>::empty()
        }) + x,
{
    assert(items.push(x).drop_last() =~= items);
    assert(items.push(x).last() == x);
    if items.len() == 0 {
        assert(items.push(x).len() == 1);
        assert(spec_join_comma(items.push(x)) == x);
        assert(spec_join_comma(items) + Seq::<TokenModel>::empty() + x =~= x);
    }
}

/// The parameter runs of the extra declared parameters, in declaration
/// order.
pub open spec fn spec_arg_items(args: Seq<MiniFieldModel>) -> Seq<Seq<TokenModel>> {
    args.map_values(|m: MiniFieldModel| spec_minifield_tokens(m))
}

/// The parameter runs of the fields, in declaration order, the skipped
/// fields left out.
pub open spec fn spec_field_param_items(fields: Seq<FieldModel>) -> Seq<Seq<TokenModel>>
    decreases fields.len(),
{
    if fields.len() == 0 {
        Seq::empty()
    } else {
        spec_field_param_items(fields.drop_last()) + (if spec_should_skip_args(
            fields.last().opts,
        ) {
            Seq::<Seq<TokenModel>>::empty()
        } else {
            seq![spec_param_of_field(fields.last())]
        })
    }
}

/// The field list of a shape, as a sequence; empty for the unit shape.
pub open spec fn spec_field_list(f: crate::types::FieldsModel) -> Seq<FieldModel> {
    match spec_to_slice(f) {
        Option::None => Seq::empty(),
        Option::Some((_named, l)) => l,
    }
}

/// The resolved parameter list: the extra declared parameters first, in
/// declaration order, then the non-skipped fields, in declaration order,
/// joined by commas.
pub open spec fn spec_make_args(fields: crate::types::FieldsModel, args: Seq<MiniFieldModel>) -> Seq<
    TokenModel,
> {
    spec_join_comma(spec_arg_items(args) + spec_field_param_items(spec_field_list(fields)))
}

/// The initializer runs of all fields, in declaration order.
pub open spec fn spec_field_init_items(fields: Seq<FieldModel>, named: bool) -> Seq<
    Seq<TokenModel>,
> {
    fields.map_values(|f: FieldModel| spec_init_of_field(f, named))
}

/// The constructor's body: the type itself — qualified by the selected
/// variant's name for a tagged union — followed by the field-initializer
/// group, whose delimiter follows the shape kind and which is absent for
/// the unit shape.
pub open spec fn spec_make_fn_body(fields: FieldsSourceModel) -> Seq<TokenModel> {
    let head = seq![TokenModel::Kw(Kw::SelfUpper)] + (match fields {
        FieldsSourceModel::Struct(_) => Seq::empty(),
        FieldsSourceModel::Enum { variant, fields: _ } => seq![
            TokenModel::Punct(Punct::PathSep),
            TokenModel::Ident(variant),
        ],
    });
    match spec_to_slice(spec_fields_of(fields)) {
        Option::None => head,
        Option::Some((named, l)) => {
            let delim = if named {
                Delim::Brace
            } else {
                Delim::Paren
            };
            head + seq![TokenModel::Open(delim)] + spec_join_comma(
                spec_field_init_items(l, named),
            ) + seq![TokenModel::Close(delim)]
        },
    }
}

/// The constraint runs of the configured constraint list, in declaration
/// order.
pub open spec fn spec_bound_items(bounds: Seq<Seq<char>>) -> Seq<Seq<TokenModel>> {
    bounds.map_values(|b: Seq<char>| seq![TokenModel::Snip(b)])
}

/// The constructor implementation, in fixed order: the doc comment (custom
/// or generated), the visibility (configured or public), the
/// constant-evaluation qualifier when requested, the name (configured or
/// the fixed default), the parenthesized resolved parameter list, the
/// return type, the trailing constraint clause when constraints were
/// configured, and the braced body.
pub open spec fn spec_make_container_body(
    opts: ContainerOptionsModel,
    fields: FieldsSourceModel,
) -> Seq<TokenModel> {
    seq![
        TokenModel::Punct(Punct::Hash),
        TokenModel::Open(Delim::Bracket),
        TokenModel::Kw(Kw::Doc),
        TokenModel::Punct(Punct::Eq),
        TokenModel::Lit(
            match opts.comment {
                Option::Some(c) => c,
                Option::None => spec_default_comment(),
            },
        ),
        TokenModel::Close(Delim::Bracket),
    ] + (match opts.vis {
        Option::Some(v) => spec_snip_opt(v),
        Option::None => seq![TokenModel::Kw(Kw::Pub)],
    }) + (if opts.const_fn {
        seq![TokenModel::Kw(Kw::Const)]
    } else {
        Seq::empty()
    }) + seq![TokenModel::Kw(Kw::Fn)] + seq![spec_fn_name_token(opts.name)] + seq![
        TokenModel::Open(Delim::Paren),
    ] + spec_make_args(spec_fields_of(fields), opts.args) + seq![
        TokenModel::Close(Delim::Paren),
        TokenModel::Punct(Punct::Arrow),
        TokenModel::Kw(Kw::SelfUpper),
    ] + (if opts.bounds.len() > 0 {
        seq![TokenModel::Kw(Kw::Where)] + spec_join_comma(spec_bound_items(opts.bounds))
    } else {
        Seq::empty()
    }) + seq![TokenModel::Open(Delim::Brace)] + spec_make_fn_body(fields) + seq![
        TokenModel::Close(Delim::Brace),
    ]
}

/// The whole output: the attribute prefix, the implementation header, the
/// braced constructor implementation, and — when requested — the
/// zero-argument factory block.
pub open spec fn spec_tokens(fc: FancyConstructorModel) -> Seq<TokenModel> {
    spec_attrs_prefix() + spec_impl_header(fc.generics, fc.struct_name, false) + seq![
        TokenModel::Open(Delim::Brace),
    ] + spec_make_container_body(fc.opts, fc.fields) + seq![
        TokenModel::Close(Delim::Brace),
    ] + spec_make_default(fc.generics, fc.struct_name, fc.opts)
}

/// The generated doc sentence used when no custom comment is configured.
pub fn default_comment() -> (r: Vec<char>)
    ensures
        r@ == spec_default_comment(),
{
    let mut r: Vec<char> = Vec::new();
    r.push('C');
    r.push('o');
    r.push('n');
    r.push('s');
    r.push('t');
    r.push('r');
    r.push('u');
    r.push('c');
    r.push('t');
    r.push('s');
    r.push(' ');
    r.push('a');
    r.push(' ');
    r.push('n');
    r.push('e');
    r.push('w');
    r.push(' ');
    r.push('i');
    r.push('n');
    r.push('s');
    r.push('t');
    r.push('a');
    r.push('n');
    r.push('c');
    r.push('e');
    r.push(' ');
    r.push('o');
    r.push('f');
    r.push(' ');
    r.push('t');
    r.push('h');
    r.push('e');
    r.push(' ');
    r.push('s');
    r.push('t');
    r.push('r');
    r.push('u');
    r.push('c');
    r.push('t');
    r.push('.');
    proof {
        assert(r@ =~= spec_default_comment());
    }
    r
}

/// The attributes placed on every emitted implementation block.
fn attrs_prefix_tokens() -> (r: Vec<Token>)
    ensures
        toks(r@) == spec_attrs_prefix(),
{
    let mut r: Vec<Token> = Vec::new();
    r.push(Token::Punct(Punct::Hash));
    r.push(Token::Open(Delim::Bracket));
    r.push(Token::Kw(Kw::AutomaticallyDerived));
    r.push(Token::Close(Delim::Bracket));
    r.push(Token::Punct(Punct::Hash));
    r.push(Token::Open(Delim::Bracket));
    r.push(Token::Kw(Kw::Allow));
    r.push(Token::Open(Delim::Paren));
    r.push(Token::Kw(Kw::Clippy));
    r.push(Token::Punct(Punct::PathSep));
    r.push(Token::Kw(Kw::All));
    r.push(Token::Close(Delim::Paren));
    r.push(Token::Close(Delim::Bracket));
    proof {
        assert(toks(r@) =~= spec_attrs_prefix());
    }
    r
}

/// The fully qualified path of the zero-value contract's trait, as tokens.
fn default_trait_path_tokens() -> (r: Vec<Token>)
    ensures
        toks(r@) == spec_default_trait_path(),
{
    let mut out: Vec<Token> = Vec::new();
    out.push(Token::Punct(Punct::PathSep));
    out.push(Token::Kw(Kw::Core));
    out.push(Token::Punct(Punct::PathSep));
    out.push(Token::Kw(Kw::DefaultMod));
    out.push(Token::Punct(Punct::PathSep));
    out.push(Token::Kw(Kw::DefaultTrait));
    proof {
        assert(toks(out@) =~= spec_default_trait_path());
    }
    out
}

/// The constructor's name token: the configured name, or the fixed default
/// name.
fn fn_name_token(name: &Option<Vec<char>>) -> (t: Token)
    ensures
        name is Some ==> t@ == TokenModel::Ident(name->0@),
        name is None ==> t@ == TokenModel::Kw(Kw::New),
{
    match name {
        Some(n) => Token::Ident(clone_chars(n)),
        None => Token::Kw(Kw::New),
    }
}

/// The header of an implementation block for the type `name` under the
/// generics `g`.
fn impl_header(g: &Generics, name: &Vec<char>, with_default_trait: bool) -> (r: Vec<Token>)
    ensures
        toks(r@) == spec_impl_header(g@, name@, with_default_trait),
{
    let mut out: Vec<Token> = Vec::new();
    out.push(Token::Kw(Kw::Impl));
    if g.impl_generics.len() > 0 {
        out.push(Token::Snip(clone_chars(&g.impl_generics)));
    }
    proof {
        assert(toks(out@) =~= seq![TokenModel::Kw(Kw::Impl)] + spec_snip_opt(g@.impl_generics));
    }
    if with_default_trait {
        let ghost before = out@;
        let mut path = default_trait_path_tokens();
        out.append(&mut path);
        proof {
            lemma_toks_add(before, out@.skip(before.len() as int));
            assert(toks(out@) =~= toks(before) + spec_default_trait_path());
        }
        out.push(Token::Kw(Kw::For));
    }
    proof {
        assert(toks(out@) =~= seq![TokenModel::Kw(Kw::Impl)] + spec_snip_opt(g@.impl_generics) + (
        if with_default_trait {
            spec_default_trait_path() + seq![TokenModel::Kw(Kw::For)]
        } else {
            Seq::<TokenModel>::empty()
        }));
    }
    out.push(Token::Ident(clone_chars(name)));
    if g.type_generics.len() > 0 {
        out.push(Token::Snip(clone_chars(&g.type_generics)));
    }
    if g.where_clause.len() > 0 {
        out.push(Token::Snip(clone_chars(&g.where_clause)));
    }
    proof {
        assert(toks(out@) =~= spec_impl_header(g@, name@, with_default_trait));
    }
    out
}

/// The zero-argument factory block, or nothing when no factory was
/// requested.
#[verifier::rlimit(100)]
pub fn make_default(generics: &Generics, struct_name: &Vec<char>, opts: &ContainerOptions) -> (r:
    Vec<Token>)
    ensures
        toks(r@) == spec_make_default(generics@, struct_name@, opts@),
{
    if !opts.default {
        let r: Vec<Token> = Vec::new();
        proof {
            assert(toks(r@) =~= spec_make_default(generics@, struct_name@, opts@));
        }
        return r;
    }
    let mut out = attrs_prefix_tokens();
    let mut hdr = impl_header(generics, struct_name, true);
    out.append(&mut hdr);
    out.push(Token::Open(Delim::Brace));
    out.push(Token::Punct(Punct::Hash));
    out.push(Token::Open(Delim::Bracket));
    out.push(Token::Kw(Kw::Inline));
    out.push(Token::Close(Delim::Bracket));
    out.push(Token::Kw(Kw::Fn));
    out.push(Token::Kw(Kw::DefaultFn));
    out.push(Token::Open(Delim::Paren));
    out.push(Token::Close(Delim::Paren));
    out.push(Token::Punct(Punct::Arrow));
    out.push(Token::Kw(Kw::SelfUpper));
    out.push(Token::Open(Delim::Brace));
    out.push(Token::Ident(clone_chars(struct_name)));
    out.push(Token::Punct(Punct::PathSep));
    out.push(fn_name_token(&opts.name));
    out.push(Token::Open(Delim::Paren));
    out.push(Token::Close(Delim::Paren));
    out.push(Token::Close(Delim::Brace));
    out.push(Token::Close(Delim::Brace));
    proof {
        assert(toks(out@) =~= spec_make_default(generics@, struct_name@, opts@));
    }
    out
}

impl MiniField {
    /// Appends this parameter's tokens: its name, a colon, its type
    /// verbatim.
    pub fn to_tokens(&self, tokens: &mut Vec<Token>)
        ensures
            toks(final(tokens)@) == toks(old(tokens)@) + spec_minifield_tokens(self@),
    {
        tokens.push(Token::Ident(clone_chars(&self.ident)));
        tokens.push(Token::Punct(Punct::Colon));
        tokens.push(Token::Snip(clone_chars(&self.ty)));
        proof {
            assert(toks(tokens@) =~= toks(old(tokens)@) + spec_minifield_tokens(self@));
        }
    }
}

/// The parameter tokens a field emits.
fn param_of_field(f: &Field) -> (r: Vec<Token>)
    ensures
        toks(r@) == spec_param_of_field(f@),
{
    let mut out: Vec<Token> = Vec::new();
    out.push(Token::Ident(clone_chars(f.resolve_ident())));
    out.push(Token::Punct(Punct::Colon));
    if f.opts.uses_reference() {
        out.push(Token::Punct(Punct::And));
    }
    if f.opts.into {
        out.push(Token::Kw(Kw::Impl));
        out.push(Token::Punct(Punct::PathSep));
        out.push(Token::Kw(Kw::Core));
        out.push(Token::Punct(Punct::PathSep));
        out.push(Token::Kw(Kw::Convert));
        out.push(Token::Punct(Punct::PathSep));
        out.push(Token::Kw(Kw::IntoTrait));
        out.push(Token::Punct(Punct::Lt));
        out.push(Token::Snip(clone_chars(&f.ty)));
        out.push(Token::Punct(Punct::Gt));
    } else {
        out.push(Token::Snip(clone_chars(&f.ty)));
    }
    proof {
        assert(toks(out@) =~= spec_param_of_field(f@));
    }
    out
}

/// The initializer tokens a field emits.
fn init_of_field(f: &Field, named: bool) -> (r: Vec<Token>)
    ensures
        toks(r@) == spec_init_of_field(f@, named),
{
    let mut out: Vec<Token> = Vec::new();
    if named {
        out.push(Token::Ident(clone_chars(&f.name)));
        out.push(Token::Punct(Punct::Colon));
    }
    let ghost head: Seq<TokenModel> = if named {
        seq![TokenModel::Ident(f@.name), TokenModel::Punct(Punct::Colon)]
    } else {
        Seq::empty()
    };
    proof {
        assert(toks(out@) =~= head);
    }
    if f.opts.default {
        let ghost before = out@;
        let mut path = default_trait_path_tokens();
        out.append(&mut path);
        proof {
            assert(toks(out@) =~= toks(before) + spec_default_trait_path());
        }
        out.push(Token::Punct(Punct::PathSep));
        out.push(Token::Kw(Kw::DefaultFn));
        out.push(Token::Open(Delim::Paren));
        out.push(Token::Close(Delim::Paren));
    } else if let Some(ref v) = f.opts.value {
        out.push(Token::Snip(clone_chars(v)));
    } else {
        out.push(Token::Ident(clone_chars(f.resolve_ident())));
        if f.opts.clone {
            out.push(Token::Punct(Punct::Dot));
            out.push(Token::Kw(Kw::CloneFn));
            out.push(Token::Open(Delim::Paren));
            out.push(Token::Close(Delim::Paren));
        }
        if f.opts.into {
            out.push(Token::Punct(Punct::Dot));
            out.push(Token::Kw(Kw::IntoFn));
            out.push(Token::Open(Delim::Paren));
            out.push(Token::Close(Delim::Paren));
        }
    }
    proof {
        assert(toks(out@) =~= spec_init_of_field(f@, named));
    }
    out
}

/// The resolved parameter list's tokens: the extra declared parameters
/// first, then the non-skipped fields, joined by commas.
pub fn make_args(fields: &FieldsSource, args: &Vec<MiniField>) -> (r: Vec<Token>)
    ensures
        toks(r@) == spec_make_args(spec_fields_of(fields@), crate::annot::minifields_view(args@)),
{
    let mut out: Vec<Token> = Vec::new();
    let mut first: bool = true;
    let ghost argitems = spec_arg_items(crate::annot::minifields_view(args@));
    let ghost mut done: Seq<Seq<TokenModel>> = Seq::empty();
    let mut i: usize = 0;
    proof {
        assert(done =~= argitems.take(0));
    }
    while i < args.len()
        invariant
            i <= args@.len(),
            first == (done.len() == 0),
            done == argitems.take(i as int),
            argitems == spec_arg_items(crate::annot::minifields_view(args@)),
            toks(out@) == spec_join_comma(done),
        decreases args@.len() - i,
    {
        let ghost item = spec_minifield_tokens(args@[i as int]@);
        proof {
            assert(crate::annot::minifields_view(args@)[i as int] == args@[i as int]@);
            assert(argitems[i as int] == item);
        }
        let ghost o0 = out@;
        if !first {
            out.push(Token::Punct(Punct::Comma));
        }
        proof {
            assert(toks(out@) =~= toks(o0) + (if done.len() > 0 {
                seq![TokenModel::Punct(Punct::Comma)]
            } else {
                Seq::<TokenModel>::empty()
            }));
        }
        args[i].to_tokens(&mut out);
        first = false;
        proof {
            lemma_join_push(done, item);
            done = done.push(item);
            assert(toks(out@) =~= spec_join_comma(done));
            assert(done =~= argitems.take(i + 1));
        }
        i += 1;
    }
    proof {
        assert(argitems.take(args@.len() as int) =~= argitems);
    }
    if let Some((_named, l)) = fields.fields().to_slice() {
        let ghost flist = crate::types::fields_view_of(l@);
        proof {
            assert(spec_field_list(spec_fields_of(fields@)) == flist);
            assert(spec_field_param_items(flist.take(0)) =~= Seq::<Seq<TokenModel>>::empty());
            assert(done =~= argitems + spec_field_param_items(flist.take(0)));
        }
        let mut j: usize = 0;
        while j < l.len()
            invariant
                j <= l@.len(),
                first == (done.len() == 0),
                flist == crate::types::fields_view_of(l@),
                argitems == spec_arg_items(crate::annot::minifields_view(args@)),
                spec_field_list(spec_fields_of(fields@)) == flist,
                done == argitems + spec_field_param_items(flist.take(j as int)),
                toks(out@) == spec_join_comma(done),
            decreases l@.len() - j,
        {
            proof {
                assert(flist.take(j + 1).drop_last() =~= flist.take(j as int));
                assert(flist.take(j + 1).last() == flist[j as int]);
                assert(flist[j as int] == l@[j as int]@);
            }
            if !l[j].opts.should_skip_args() {
                let ghost item = spec_param_of_field(flist[j as int]);
                let ghost o0 = out@;
                if !first {
                    out.push(Token::Punct(Punct::Comma));
                }
                proof {
                    assert(toks(out@) =~= toks(o0) + (if done.len() > 0 {
                        seq![TokenModel::Punct(Punct::Comma)]
                    } else {
                        Seq::<TokenModel>::empty()
                    }));
                }
                let ghost o1 = out@;
                let mut p = param_of_field(&l[j]);
                let ghost pm = p@;
                out.append(&mut p);
                first = false;
                proof {
                    lemma_toks_add(o1, pm);
                    lemma_join_push(done, item);
                    done = done.push(item);
                    assert(toks(out@) =~= spec_join_comma(done));
                    assert(done =~= argitems + spec_field_param_items(flist.take(j + 1)));
                }
            } else {
                proof {
                    assert(spec_field_param_items(flist.take(j + 1)) =~= spec_field_param_items(
                        flist.take(j as int),
                    ));
                    assert(done =~= argitems + spec_field_param_items(flist.take(j + 1)));
                }
            }
            j += 1;
        }
        proof {
            assert(flist.take(l@.len() as int) =~= flist);
        }
    } else {
        proof {
            assert(spec_field_list(spec_fields_of(fields@)) =~= Seq::<FieldModel>::empty());
            assert(spec_field_param_items(spec_field_list(spec_fields_of(fields@))) =~= Seq::<
                Seq<TokenModel>,
            >::empty());
            assert(done =~= argitems + spec_field_param_items(
                spec_field_list(spec_fields_of(fields@)),
            ));
        }
    }
    proof {
        assert(done =~= spec_arg_items(crate::annot::minifields_view(args@))
            + spec_field_param_items(spec_field_list(spec_fields_of(fields@))));
    }
    out
}

/// The constructor body's tokens: the type itself — qualified by the
/// selected variant for a tagged union — and the field-initializer group.
pub fn make_fn_body(fields: &FieldsSource) -> (r: Vec<Token>)
    ensures
        toks(r@) == spec_make_fn_body(fields@),
{
    let mut out: Vec<Token> = Vec::new();
    out.push(Token::Kw(Kw::SelfUpper));
    match fields {
        FieldsSource::Struct(_) => {},
        FieldsSource::Enum { variant, fields: _ } => {
            out.push(Token::Punct(Punct::PathSep));
            out.push(Token::Ident(clone_chars(variant)));
        },
    }
    let ghost head = toks(out@);
    proof {
        assert(head =~= seq![TokenModel::Kw(Kw::SelfUpper)] + (match fields@ {
            FieldsSourceModel::Struct(_) => Seq::<TokenModel>::empty(),
            FieldsSourceModel::Enum { variant, fields: _ } => seq![
                TokenModel::Punct(Punct::PathSep),
                TokenModel::Ident(variant),
            ],
        }));
    }
    match fields.fields().to_slice() {
        None => {
            proof {
                assert(toks(out@) =~= spec_make_fn_body(fields@));
            }
            out
        },
        Some((named, l)) => {
            let delim = if named {
                Delim::Brace
            } else {
                Delim::Paren
            };
            out.push(Token::Open(delim));
            let ghost flist = crate::types::fields_view_of(l@);
            let ghost items = spec_field_init_items(flist, named);
            let ghost mut done: Seq<Seq<TokenModel>> = Seq::empty();
            let mut j: usize = 0;
            proof {
                assert(done =~= items.take(0));
                assert(toks(out@) =~= head + seq![TokenModel::Open(delim)] + spec_join_comma(
                    done,
                ));
            }
            while j < l.len()
                invariant
                    j <= l@.len(),
                    flist == crate::types::fields_view_of(l@),
                    items == spec_field_init_items(flist, named),
                    done == items.take(j as int),
                    done.len() == j,
                    spec_to_slice(spec_fields_of(fields@)) == Option::Some((named, flist)),
                    head =~= seq![TokenModel::Kw(Kw::SelfUpper)] + (match fields@ {
                        FieldsSourceModel::Struct(_) => Seq::<TokenModel>::empty(),
                        FieldsSourceModel::Enum { variant, fields: _ } => seq![
                            TokenModel::Punct(Punct::PathSep),
                            TokenModel::Ident(variant),
                        ],
                    }),
                    delim == (if named {
                        Delim::Brace
                    } else {
                        Delim::Paren
                    }),
                    toks(out@) == head + seq![TokenModel::Open(delim)] + spec_join_comma(done),
                decreases l@.len() - j,
            {
                let ghost item = spec_init_of_field(flist[j as int], named);
                proof {
                    assert(items[j as int] == item);
                    assert(flist[j as int] == l@[j as int]@);
                }
                let ghost o0 = out@;
                if j > 0 {
                    out.push(Token::Punct(Punct::Comma));
                }
                proof {
                    assert(toks(out@) =~= toks(o0) + (if done.len() > 0 {
                        seq![TokenModel::Punct(Punct::Comma)]
                    } else {
                        Seq::<TokenModel>::empty()
                    }));
                }
                let ghost o1 = out@;
                let mut p = init_of_field(&l[j], named);
                let ghost pm = p@;
                out.append(&mut p);
                proof {
                    lemma_toks_add(o1, pm);
                    lemma_join_push(done, item);
                    done = done.push(item);
                    assert(toks(out@) =~= head + seq![TokenModel::Open(delim)] + spec_join_comma(
                        done,
                    ));
                    assert(done =~= items.take(j + 1));
                }
                j += 1;
            }
            proof {
                assert(items.take(l@.len() as int) =~= items);
            }
            out.push(Token::Close(delim));
            proof {
                assert(toks(out@) =~= spec_make_fn_body(fields@));
            }
            out
        },
    }
}

/// The trailing constraint clause's tokens: the keyword and the configured
/// constraints joined by commas, or nothing when no constraints were
/// configured.
#[verifier::rlimit(100)]
fn where_clause_tokens(bounds: &Vec<Vec<char>>) -> (r: Vec<Token>)
    ensures
        toks(r@) == (if crate::annot::strs_view(bounds@).len() > 0 {
            seq![TokenModel::Kw(Kw::Where)] + spec_join_comma(
                spec_bound_items(crate::annot::strs_view(bounds@)),
            )
        } else {
            Seq::<TokenModel>::empty()
        }),
{
    let mut out: Vec<Token> = Vec::new();
    if bounds.len() == 0 {
        proof {
            assert(toks(out@) =~= Seq::<TokenModel>::empty());
        }
        return out;
    }
    out.push(Token::Kw(Kw::Where));
    let ghost bitems = spec_bound_items(crate::annot::strs_view(bounds@));
    let ghost mut done: Seq<Seq<TokenModel>> = Seq::empty();
    let mut j: usize = 0;
    proof {
        assert(done =~= bitems.take(0));
        assert(toks(out@) =~= seq![TokenModel::Kw(Kw::Where)] + spec_join_comma(done));
    }
    while j < bounds.len()
        invariant
            j <= bounds@.len(),
            bitems == spec_bound_items(crate::annot::strs_view(bounds@)),
            done == bitems.take(j as int),
            done.len() == j,
            toks(out@) == seq![TokenModel::Kw(Kw::Where)] + spec_join_comma(done),
        decreases bounds@.len() - j,
    {
        let ghost item = seq![TokenModel::Snip(bounds@[j as int]@)];
        proof {
            assert(crate::annot::strs_view(bounds@)[j as int] == bounds@[j as int]@);
            assert(bitems[j as int] == item);
        }
        let ghost o0 = out@;
        if j > 0 {
            out.push(Token::Punct(Punct::Comma));
        }
        proof {
            assert(toks(out@) =~= toks(o0) + (if done.len() > 0 {
                seq![TokenModel::Punct(Punct::Comma)]
            } else {
                Seq::<TokenModel>::empty()
            }));
        }
        let ghost o1 = out@;
        out.push(Token::Snip(clone_chars(&bounds[j])));
        proof {
            assert(toks(out@) =~= toks(o1) + item);
            lemma_join_push(done, item);
            done = done.push(item);
            assert(toks(out@) =~= seq![TokenModel::Kw(Kw::Where)] + spec_join_comma(done));
            assert(done =~= bitems.take(j + 1));
        }
        j += 1;
    }
    proof {
        assert(bitems.take(bounds@.len() as int) =~= bitems);
    }
    out
}

/// The opening run of the constructor implementation: the doc attribute,
/// the visibility, the constant-evaluation qualifier, the name, and the
/// opening parenthesis of the parameter list.
fn signature_prefix_tokens(opts: &ContainerOptions) -> (r: Vec<Token>)
    ensures
        toks(r@) == seq![
            TokenModel::Punct(Punct::Hash),
            TokenModel::Open(Delim::Bracket),
            TokenModel::Kw(Kw::Doc),
            TokenModel::Punct(Punct::Eq),
            TokenModel::Lit(
                match opts@.comment {
                    Option::Some(c) => c,
                    Option::None => spec_default_comment(),
                },
            ),
            TokenModel::Close(Delim::Bracket),
        ] + (match opts@.vis {
            Option::Some(v) => spec_snip_opt(v),
            Option::None => seq![TokenModel::Kw(Kw::Pub)],
        }) + (if opts@.const_fn {
            seq![TokenModel::Kw(Kw::Const)]
        } else {
            Seq::<TokenModel>::empty()
        }) + seq![TokenModel::Kw(Kw::Fn)] + seq![spec_fn_name_token(opts@.name)] + seq![
            TokenModel::Open(Delim::Paren),
        ],
{
    let mut out: Vec<Token> = Vec::new();
    out.push(Token::Punct(Punct::Hash));
    out.push(Token::Open(Delim::Bracket));
    out.push(Token::Kw(Kw::Doc));
    out.push(Token::Punct(Punct::Eq));
    match &opts.comment {
        Some(c) => out.push(Token::Lit(clone_chars(c))),
        None => out.push(Token::Lit(default_comment())),
    }
    out.push(Token::Close(Delim::Bracket));
    match &opts.vis {
        Some(v) => {
            if v.len() > 0 {
                out.push(Token::Snip(clone_chars(v)));
            }
        },
        None => {
            out.push(Token::Kw(Kw::Pub));
        },
    }
    if opts.const_fn {
        out.push(Token::Kw(Kw::Const));
    }
    out.push(Token::Kw(Kw::Fn));
    out.push(fn_name_token(&opts.name));
    out.push(Token::Open(Delim::Paren));
    proof {
        assert(toks(out@) =~= seq![
            TokenModel::Punct(Punct::Hash),
            TokenModel::Open(Delim::Bracket),
            TokenModel::Kw(Kw::Doc),
            TokenModel::Punct(Punct::Eq),
            TokenModel::Lit(
                match opts@.comment {
                    Option::Some(c) => c,
                    Option::None => spec_default_comment(),
                },
            ),
            TokenModel::Close(Delim::Bracket),
        ] + (match opts@.vis {
            Option::Some(v) => spec_snip_opt(v),
            Option::None => seq![TokenModel::Kw(Kw::Pub)],
        }) + (if opts@.const_fn {
            seq![TokenModel::Kw(Kw::Const)]
        } else {
            Seq::<TokenModel>::empty()
        }) + seq![TokenModel::Kw(Kw::Fn)] + seq![spec_fn_name_token(opts@.name)] + seq![
            TokenModel::Open(Delim::Paren),
        ]);
    }
    out
}

/// The constructor implementation's tokens, assembled in the fixed order:
/// doc comment, visibility, constant-evaluation qualifier, name, parameter
/// list, return type, constraint clause, body.
#[verifier::rlimit(100)]
pub fn make_container_body(opts: &ContainerOptions, fields: &FieldsSource) -> (r: Vec<Token>)
    ensures
        toks(r@) == spec_make_container_body(opts@, fields@),
{
    let mut out: Vec<Token> = signature_prefix_tokens(opts);
    let ghost pre_args = toks(out@);
    let ghost o1 = out@;
    let mut params = make_args(fields, &opts.args);
    let ghost pm = params@;
    out.append(&mut params);
    proof {
        lemma_toks_add(o1, pm);
        assert(crate::annot::minifields_view(opts.args@) == opts@.args);
        assert(toks(out@) =~= pre_args + spec_make_args(spec_fields_of(fields@), opts@.args));
    }
    out.push(Token::Close(Delim::Paren));
    out.push(Token::Punct(Punct::Arrow));
    out.push(Token::Kw(Kw::SelfUpper));
    let ghost pre_where = toks(out@);
    proof {
        assert(pre_where =~= pre_args + spec_make_args(spec_fields_of(fields@), opts@.args) + seq![
            TokenModel::Close(Delim::Paren),
            TokenModel::Punct(Punct::Arrow),
            TokenModel::Kw(Kw::SelfUpper),
        ]);
    }
    let ghost o_w = out@;
    let mut wc = where_clause_tokens(&opts.bounds);
    let ghost wm = wc@;
    out.append(&mut wc);
    proof {
        lemma_toks_add(o_w, wm);
        assert(opts@.bounds =~= crate::annot::strs_view(opts.bounds@));
        assert(toks(out@) =~= pre_where + (if opts@.bounds.len() > 0 {
            seq![TokenModel::Kw(Kw::Where)] + spec_join_comma(spec_bound_items(opts@.bounds))
        } else {
            Seq::<TokenModel>::empty()
        }));
    }
    let ghost pre_body = toks(out@);
    out.push(Token::Open(Delim::Brace));
    let ghost o2 = out@;
    let mut body = make_fn_body(fields);
    let ghost bm = body@;
    out.append(&mut body);
    proof {
        lemma_toks_add(o2, bm);
        assert(toks(out@) =~= pre_body + seq![TokenModel::Open(Delim::Brace)]
            + spec_make_fn_body(fields@));
    }
    let ghost pre_close = toks(out@);
    out.push(Token::Close(Delim::Brace));
    proof {
        assert(toks(out@) =~= pre_close + seq![TokenModel::Close(Delim::Brace)]);
        assert(toks(out@) == spec_make_container_body(opts@, fields@));
    }
    out
}

impl FancyConstructor {
    /// The whole output token sequence this description synthesizes: the
    /// constructor's implementation block, then — when a zero-argument
    /// factory was requested — the factory's implementation block.  The
    /// output is a pure function of the description: equal descriptions
    /// synthesize identical token sequences.
    pub fn into_token_stream(&self) -> (r: Vec<Token>)
        ensures
            toks(r@) == spec_tokens(self@),
    {
        let mut out = attrs_prefix_tokens();
        let ghost o1 = out@;
        let mut hdr = impl_header(&self.generics, &self.struct_name, false);
        let ghost hm = hdr@;
        out.append(&mut hdr);
        proof {
            lemma_toks_add(o1, hm);
        }
        out.push(Token::Open(Delim::Brace));
        let ghost o2 = out@;
        let mut body = make_container_body(&self.opts, &self.fields);
        let ghost bm = body@;
        out.append(&mut body);
        proof {
            lemma_toks_add(o2, bm);
        }
        out.push(Token::Close(Delim::Brace));
        let ghost o3 = out@;
        let mut tail = make_default(&self.generics, &self.struct_name, &self.opts);
        let ghost tm = tail@;
        out.append(&mut tail);
        proof {
            lemma_toks_add(o3, tm);
            assert(toks(out@) =~= spec_tokens(self@));
        }
        out
    }
}

} // verus!
