//! End-to-end synthesis scenarios: raw input in, token sequence out.

use fancy_constructor::{
    Delim, FancyConstructor, Fragment, Generics, Kw, Punct, RawData, RawField, RawShape,
    RawVariant, RawInput, Pos, Token,
};

fn cs(s: &str) -> Vec<char> {
    s.chars().collect()
}

fn pos(lo: u64, hi: u64) -> Pos {
    Pos { lo, hi }
}

fn frag(text: &str, lo: u64, hi: u64) -> Fragment {
    Fragment { text: cs(text), pos: pos(lo, hi) }
}

fn no_generics() -> Generics {
    Generics { impl_generics: cs(""), type_generics: cs(""), where_clause: cs("") }
}

fn named_field(name: &str, ty: &str, attrs: Vec<Fragment>) -> RawField {
    RawField { name: Some(cs(name)), attrs, ty: cs(ty) }
}

fn unnamed_field(ty: &str, attrs: Vec<Fragment>) -> RawField {
    RawField { name: None, attrs, ty: cs(ty) }
}

fn struct_input(name: &str, shape: RawShape, attrs: Vec<Fragment>) -> RawInput {
    RawInput {
        name: cs(name),
        type_pos: pos(0, 1),
        generics: no_generics(),
        data: RawData::Struct(shape),
        attrs,
    }
}

fn kw(k: Kw) -> Token {
    Token::Kw(k)
}

fn p(x: Punct) -> Token {
    Token::Punct(x)
}

fn id(s: &str) -> Token {
    Token::Ident(cs(s))
}

fn snip(s: &str) -> Token {
    Token::Snip(cs(s))
}

fn lit(s: &str) -> Token {
    Token::Lit(cs(s))
}

fn open(d: Delim) -> Token {
    Token::Open(d)
}

fn close(d: Delim) -> Token {
    Token::Close(d)
}

/// The attribute prefix every implementation block carries.
fn attrs_prefix() -> Vec<Token> {
    vec![
        p(Punct::Hash),
        open(Delim::Bracket),
        kw(Kw::AutomaticallyDerived),
        close(Delim::Bracket),
        p(Punct::Hash),
        open(Delim::Bracket),
        kw(Kw::Allow),
        open(Delim::Paren),
        kw(Kw::Clippy),
        p(Punct::PathSep),
        kw(Kw::All),
        close(Delim::Paren),
        close(Delim::Bracket),
    ]
}

fn doc_attr(text: &str) -> Vec<Token> {
    vec![
        p(Punct::Hash),
        open(Delim::Bracket),
        kw(Kw::Doc),
        p(Punct::Eq),
        lit(text),
        close(Delim::Bracket),
    ]
}

const DEFAULT_DOC: &str = "Constructs a new instance of the struct.";

/// Whether `needle` occurs as a contiguous run inside `hay`.
fn contains_run(hay: &[Token], needle: &[Token]) -> bool {
    if needle.is_empty() {
        return true;
    }
    if hay.len() < needle.len() {
        return false;
    }
    for start in 0..=(hay.len() - needle.len()) {
        if &hay[start..start + needle.len()] == needle {
            return true;
        }
    }
    false
}

fn synthesize(input: &RawInput) -> Vec<Token> {
    FancyConstructor::parse(input).expect("input should validate").into_token_stream()
}

#[test]
fn plain_struct_two_fields() {
    let input = struct_input(
        "MyStruct",
        RawShape::Named(vec![named_field("foo", "u32", vec![]), named_field("bar", "u32", vec![])]),
        vec![],
    );
    let out = synthesize(&input);
    let mut expected = attrs_prefix();
    expected.extend([kw(Kw::Impl), id("MyStruct"), open(Delim::Brace)]);
    expected.extend(doc_attr(DEFAULT_DOC));
    expected.extend([kw(Kw::Pub), kw(Kw::Fn), kw(Kw::New), open(Delim::Paren)]);
    expected.extend([
        id("foo"),
        p(Punct::Colon),
        snip("u32"),
        p(Punct::Comma),
        id("bar"),
        p(Punct::Colon),
        snip("u32"),
    ]);
    expected.extend([close(Delim::Paren), p(Punct::Arrow), kw(Kw::SelfUpper), open(Delim::Brace)]);
    expected.extend([
        kw(Kw::SelfUpper),
        open(Delim::Brace),
        id("foo"),
        p(Punct::Colon),
        id("foo"),
        p(Punct::Comma),
        id("bar"),
        p(Punct::Colon),
        id("bar"),
        close(Delim::Brace),
    ]);
    expected.extend([close(Delim::Brace), close(Delim::Brace)]);
    assert_eq!(out, expected);
}

#[test]
fn synthesis_is_deterministic() {
    let make = || {
        struct_input(
            "Widget",
            RawShape::Named(vec![
                named_field("a", "T", vec![frag("into", 5, 9)]),
                named_field("b", "String", vec![frag("val(\"x\".into())", 12, 27)]),
                named_field("c", "Vec<u8>", vec![frag("default", 30, 37)]),
            ]),
            vec![frag("name(construct), comment(\"Builds a widget\")", 1, 4)],
        )
    };
    let first = synthesize(&make());
    let second = synthesize(&make());
    assert_eq!(first, second);
}

#[test]
fn into_field_parameter_and_initializer() {
    let input = struct_input(
        "Holder",
        RawShape::Named(vec![named_field("a", "T", vec![frag("into", 3, 7)])]),
        vec![],
    );
    let out = synthesize(&input);
    assert!(contains_run(
        &out,
        &[
            id("a"),
            p(Punct::Colon),
            kw(Kw::Impl),
            p(Punct::PathSep),
            kw(Kw::Core),
            p(Punct::PathSep),
            kw(Kw::Convert),
            p(Punct::PathSep),
            kw(Kw::IntoTrait),
            p(Punct::Lt),
            snip("T"),
            p(Punct::Gt),
        ],
    ));
    assert!(contains_run(
        &out,
        &[id("a"), p(Punct::Colon), id("a"), p(Punct::Dot), kw(Kw::IntoFn), open(Delim::Paren),
            close(Delim::Paren)],
    ));
}

#[test]
fn renamed_positional_field() {
    let input = struct_input(
        "MyNewtype",
        RawShape::Unnamed(vec![unnamed_field("u8", vec![frag("name(my_value)", 2, 16)])]),
        vec![],
    );
    let out = synthesize(&input);
    // The parameter carries the rename.
    assert!(contains_run(
        &out,
        &[open(Delim::Paren), id("my_value"), p(Punct::Colon), snip("u8"), close(Delim::Paren)],
    ));
    // The body assigns positionally: no field name, just the argument.
    assert!(contains_run(
        &out,
        &[kw(Kw::SelfUpper), open(Delim::Paren), id("my_value"), close(Delim::Paren)],
    ));
}

#[test]
fn positional_fields_get_synthetic_names() {
    let input = struct_input(
        "Pair",
        RawShape::Unnamed(vec![unnamed_field("u8", vec![]), unnamed_field("u16", vec![])]),
        vec![],
    );
    let out = synthesize(&input);
    assert!(contains_run(
        &out,
        &[
            id("f1"),
            p(Punct::Colon),
            snip("u8"),
            p(Punct::Comma),
            id("f2"),
            p(Punct::Colon),
            snip("u16"),
        ],
    ));
    assert!(contains_run(
        &out,
        &[kw(Kw::SelfUpper), open(Delim::Paren), id("f1"), p(Punct::Comma), id("f2"),
            close(Delim::Paren)],
    ));
}

#[test]
fn clone_and_into_ordering() {
    let input = struct_input(
        "Wrap",
        RawShape::Named(vec![named_field("c", "Arc<W>", vec![frag("clone, into", 4, 15)])]),
        vec![],
    );
    let out = synthesize(&input);
    // By-reference, conversion-accepting parameter.
    assert!(contains_run(
        &out,
        &[
            id("c"),
            p(Punct::Colon),
            p(Punct::And),
            kw(Kw::Impl),
            p(Punct::PathSep),
            kw(Kw::Core),
            p(Punct::PathSep),
            kw(Kw::Convert),
            p(Punct::PathSep),
            kw(Kw::IntoTrait),
            p(Punct::Lt),
            snip("Arc<W>"),
            p(Punct::Gt),
        ],
    ));
    // Identifier, then the copy call, then the conversion call.
    assert!(contains_run(
        &out,
        &[
            id("c"),
            p(Punct::Colon),
            id("c"),
            p(Punct::Dot),
            kw(Kw::CloneFn),
            open(Delim::Paren),
            close(Delim::Paren),
            p(Punct::Dot),
            kw(Kw::IntoFn),
            open(Delim::Paren),
            close(Delim::Paren),
        ],
    ));
}

#[test]
fn default_field_skips_argument_and_overrides_value() {
    let input = struct_input(
        "Cfg",
        RawShape::Named(vec![
            named_field("kept", "u8", vec![]),
            named_field("d", "Vec<u8>", vec![frag("default, val(compute())", 4, 27)]),
        ]),
        vec![],
    );
    let out = synthesize(&input);
    // Only `kept` is a parameter.
    assert!(contains_run(
        &out,
        &[open(Delim::Paren), id("kept"), p(Punct::Colon), snip("u8"), close(Delim::Paren)],
    ));
    // The initializer is the zero-value call, not the configured expression.
    assert!(contains_run(
        &out,
        &[
            id("d"),
            p(Punct::Colon),
            p(Punct::PathSep),
            kw(Kw::Core),
            p(Punct::PathSep),
            kw(Kw::DefaultMod),
            p(Punct::PathSep),
            kw(Kw::DefaultTrait),
            p(Punct::PathSep),
            kw(Kw::DefaultFn),
            open(Delim::Paren),
            close(Delim::Paren),
        ],
    ));
    assert!(!out.contains(&snip("compute()")));
}

#[test]
fn value_field_emits_expression_verbatim() {
    let input = struct_input(
        "Fixed",
        RawShape::Named(vec![named_field("b", "String", vec![frag("val(\"Bar\".into())", 3, 20)])]),
        vec![],
    );
    let out = synthesize(&input);
    assert!(contains_run(&out, &[id("b"), p(Punct::Colon), snip("\"Bar\".into()")]));
    // No parameter list entry for `b`.
    assert!(contains_run(&out, &[open(Delim::Paren), close(Delim::Paren), p(Punct::Arrow)]));
}

#[test]
fn container_options_shape_the_signature() {
    let input = struct_input(
        "Conf",
        RawShape::Named(vec![named_field("a", "T", vec![])]),
        vec![frag(
            "const_fn, vis(pub(crate)), name(construct), comment(\"Makes one\"), bounds(T: Clone + Send, U: Default)",
            1,
            4,
        )],
    );
    let out = synthesize(&input);
    let mut sig = doc_attr("Makes one");
    sig.extend([snip("pub(crate)"), kw(Kw::Const), kw(Kw::Fn), id("construct")]);
    assert!(contains_run(&out, &sig));
    assert!(contains_run(
        &out,
        &[
            kw(Kw::SelfUpper),
            kw(Kw::Where),
            snip("T: Clone + Send"),
            p(Punct::Comma),
            snip("U: Default"),
            open(Delim::Brace),
        ],
    ));
}

#[test]
fn empty_visibility_makes_the_constructor_private() {
    let input = struct_input(
        "Quiet",
        RawShape::Unit,
        vec![frag("vis()", 1, 6)],
    );
    let out = synthesize(&input);
    assert!(!out.contains(&kw(Kw::Pub)));
    assert!(contains_run(
        &out,
        &[close(Delim::Bracket), kw(Kw::Fn), kw(Kw::New), open(Delim::Paren)],
    ));
}

#[test]
fn generics_are_carried_through() {
    let mut input = struct_input(
        "Gen",
        RawShape::Named(vec![named_field("a", "T", vec![])]),
        vec![],
    );
    input.generics = Generics {
        impl_generics: cs("<T: Clone>"),
        type_generics: cs("<T>"),
        where_clause: cs("where T: Send"),
    };
    let out = synthesize(&input);
    assert!(contains_run(
        &out,
        &[kw(Kw::Impl), snip("<T: Clone>"), id("Gen"), snip("<T>"), snip("where T: Send"),
            open(Delim::Brace)],
    ));
}

#[test]
fn extra_args_precede_field_parameters() {
    let input = struct_input(
        "Lead",
        RawShape::Named(vec![named_field("z", "u8", vec![])]),
        vec![frag("args(first: &str, second: u32)", 1, 4)],
    );
    let out = synthesize(&input);
    assert!(contains_run(
        &out,
        &[
            open(Delim::Paren),
            id("first"),
            p(Punct::Colon),
            snip("&str"),
            p(Punct::Comma),
            id("second"),
            p(Punct::Colon),
            snip("u32"),
            p(Punct::Comma),
            id("z"),
            p(Punct::Colon),
            snip("u8"),
            close(Delim::Paren),
        ],
    ));
}

#[test]
fn default_factory_emitted_when_argless() {
    let input = struct_input(
        "Fab",
        RawShape::Named(vec![named_field("bar", "u8", vec![frag("val(42)", 6, 13)])]),
        vec![frag("default, name(construct)", 1, 4)],
    );
    let out = synthesize(&input);
    // The factory block delegates to the constructor with no arguments.
    assert!(contains_run(
        &out,
        &[
            kw(Kw::Impl),
            p(Punct::PathSep),
            kw(Kw::Core),
            p(Punct::PathSep),
            kw(Kw::DefaultMod),
            p(Punct::PathSep),
            kw(Kw::DefaultTrait),
            kw(Kw::For),
            id("Fab"),
        ],
    ));
    let tail = [
        id("Fab"),
        p(Punct::PathSep),
        id("construct"),
        open(Delim::Paren),
        close(Delim::Paren),
        close(Delim::Brace),
        close(Delim::Brace),
    ];
    assert_eq!(&out[out.len() - tail.len()..], &tail);
}

#[test]
fn no_factory_without_the_option() {
    let input = struct_input("Plain", RawShape::Unit, vec![]);
    let out = synthesize(&input);
    assert!(!out.contains(&kw(Kw::For)));
    assert!(!out.contains(&kw(Kw::Inline)));
}

#[test]
fn selected_variant_qualifies_the_body() {
    let input = RawInput {
        name: cs("MyEnum"),
        type_pos: pos(0, 1),
        generics: no_generics(),
        data: RawData::Enum {
            kw_pos: pos(0, 4),
            variants: vec![
                RawVariant {
                    name: cs("Foo"),
                    name_pos: pos(10, 13),
                    marked: true,
                    shape: RawShape::Named(vec![named_field(
                        "bar",
                        "u8",
                        vec![frag("into", 15, 19)],
                    )]),
                },
                RawVariant {
                    name: cs("Qux"),
                    name_pos: pos(22, 25),
                    marked: false,
                    shape: RawShape::Unit,
                },
            ],
        },
        attrs: vec![],
    };
    let out = synthesize(&input);
    assert!(contains_run(
        &out,
        &[
            kw(Kw::SelfUpper),
            p(Punct::PathSep),
            id("Foo"),
            open(Delim::Brace),
            id("bar"),
            p(Punct::Colon),
            id("bar"),
            p(Punct::Dot),
            kw(Kw::IntoFn),
        ],
    ));
}

#[test]
fn unit_shape_emits_bare_body() {
    let input = struct_input("Nothing", RawShape::Unit, vec![]);
    let out = synthesize(&input);
    assert!(contains_run(
        &out,
        &[open(Delim::Brace), kw(Kw::SelfUpper), close(Delim::Brace), close(Delim::Brace)],
    ));
}
