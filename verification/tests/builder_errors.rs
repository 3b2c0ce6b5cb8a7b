//! Validation failures of the descriptor builder: each kind, with the
//! position it is attributed to.

use fancy_constructor::{
    Error, ErrorKind, FancyConstructor, Fragment, Generics, Pos, RawData, RawField, RawInput,
    RawShape, RawVariant,
};

fn cs(s: &str) -> Vec<char> {
    s.chars().collect()
}

fn pos(lo: u64, hi: u64) -> Pos {
    Pos { lo, hi }
}

fn frag(text: &str, lo: u64, hi: u64) -> Fragment {
    Fragment { text: cs(text), pos: pos(lo, hi) }
}

fn no_generics() -> Generics {
    Generics { impl_generics: cs(""), type_generics: cs(""), where_clause: cs("") }
}

fn named_field(name: &str, ty: &str, attrs: Vec<Fragment>) -> RawField {
    RawField { name: Some(cs(name)), attrs, ty: cs(ty) }
}

fn struct_input(name: &str, shape: RawShape, attrs: Vec<Fragment>) -> RawInput {
    RawInput {
        name: cs(name),
        type_pos: pos(0, 1),
        generics: no_generics(),
        data: RawData::Struct(shape),
        attrs,
    }
}

fn variant(name: &str, lo: u64, hi: u64, marked: bool) -> RawVariant {
    RawVariant { name: cs(name), name_pos: pos(lo, hi), marked, shape: RawShape::Unit }
}

fn enum_input(variants: Vec<RawVariant>) -> RawInput {
    RawInput {
        name: cs("E"),
        type_pos: pos(0, 1),
        generics: no_generics(),
        data: RawData::Enum { kw_pos: pos(2, 6), variants },
        attrs: vec![],
    }
}

fn parse_err(input: &RawInput) -> Error {
    FancyConstructor::parse(input).expect_err("input should be rejected")
}

#[test]
fn union_is_rejected() {
    let input = RawInput {
        name: cs("U"),
        type_pos: pos(0, 1),
        generics: no_generics(),
        data: RawData::Union { kw_pos: pos(3, 8) },
        attrs: vec![],
    };
    let e = parse_err(&input);
    assert_eq!(e, Error { kind: ErrorKind::UnsupportedShape, pos: pos(3, 8) });
}

#[test]
fn zero_marked_variants_fail_at_the_union_keyword() {
    let e = parse_err(&enum_input(vec![variant("A", 10, 11, false), variant("B", 14, 15, false)]));
    assert_eq!(e, Error { kind: ErrorKind::NoVariantSelected, pos: pos(2, 6) });
}

#[test]
fn two_marked_variants_fail_at_the_second() {
    let e = parse_err(&enum_input(vec![
        variant("A", 10, 11, true),
        variant("B", 14, 15, true),
        variant("C", 18, 19, false),
    ]));
    assert_eq!(e, Error { kind: ErrorKind::MultipleVariantsSelected, pos: pos(14, 15) });
}

#[test]
fn unknown_key_is_invalid_option_syntax() {
    let input = struct_input(
        "S",
        RawShape::Named(vec![named_field("a", "u8", vec![frag("wobble", 7, 13)])]),
        vec![],
    );
    let e = parse_err(&input);
    assert_eq!(e, Error { kind: ErrorKind::InvalidOptionSyntax, pos: pos(7, 13) });
}

#[test]
fn duplicate_key_is_invalid_option_syntax() {
    let input = struct_input(
        "S",
        RawShape::Named(vec![named_field("a", "u8", vec![frag("clone, clone", 7, 19)])]),
        vec![],
    );
    let e = parse_err(&input);
    assert_eq!(e, Error { kind: ErrorKind::InvalidOptionSyntax, pos: pos(7, 19) });
}

#[test]
fn duplicate_key_across_fragments_blames_the_second() {
    let input = struct_input(
        "S",
        RawShape::Named(vec![named_field(
            "a",
            "u8",
            vec![frag("clone", 7, 12), frag("clone", 20, 25)],
        )]),
        vec![],
    );
    let e = parse_err(&input);
    assert_eq!(e, Error { kind: ErrorKind::InvalidOptionSyntax, pos: pos(20, 25) });
}

#[test]
fn flag_with_payload_is_invalid() {
    let input = struct_input(
        "S",
        RawShape::Named(vec![named_field("a", "u8", vec![frag("clone(yes)", 7, 17)])]),
        vec![],
    );
    let e = parse_err(&input);
    assert_eq!(e, Error { kind: ErrorKind::InvalidOptionSyntax, pos: pos(7, 17) });
}

#[test]
fn rename_payload_must_be_one_identifier() {
    let input = struct_input(
        "S",
        RawShape::Named(vec![named_field("a", "u8", vec![frag("name(two words)", 7, 22)])]),
        vec![],
    );
    let e = parse_err(&input);
    assert_eq!(e, Error { kind: ErrorKind::InvalidOptionSyntax, pos: pos(7, 22) });
}

#[test]
fn empty_value_expression_is_invalid() {
    let input = struct_input(
        "S",
        RawShape::Named(vec![named_field("a", "u8", vec![frag("val(  )", 7, 14)])]),
        vec![],
    );
    let e = parse_err(&input);
    assert_eq!(e, Error { kind: ErrorKind::InvalidOptionSyntax, pos: pos(7, 14) });
}

#[test]
fn comment_must_be_a_string_literal() {
    let input = struct_input(
        "S",
        RawShape::Unit,
        vec![frag("comment(words)", 1, 15)],
    );
    let e = parse_err(&input);
    assert_eq!(e, Error { kind: ErrorKind::InvalidOptionSyntax, pos: pos(1, 15) });
}

#[test]
fn field_key_on_the_container_is_invalid() {
    let input = struct_input("S", RawShape::Unit, vec![frag("clone", 1, 6)]);
    let e = parse_err(&input);
    assert_eq!(e, Error { kind: ErrorKind::InvalidOptionSyntax, pos: pos(1, 6) });
}

#[test]
fn container_key_on_a_field_is_invalid() {
    let input = struct_input(
        "S",
        RawShape::Named(vec![named_field("a", "u8", vec![frag("const_fn", 7, 15)])]),
        vec![],
    );
    let e = parse_err(&input);
    assert_eq!(e, Error { kind: ErrorKind::InvalidOptionSyntax, pos: pos(7, 15) });
}

#[test]
fn unbalanced_payload_is_invalid() {
    let input = struct_input(
        "S",
        RawShape::Named(vec![named_field("a", "u8", vec![frag("val((open", 7, 16)])]),
        vec![],
    );
    let e = parse_err(&input);
    assert_eq!(e, Error { kind: ErrorKind::InvalidOptionSyntax, pos: pos(7, 16) });
}

#[test]
fn factory_with_plain_field_fails_at_the_merged_span() {
    let input = struct_input(
        "S",
        RawShape::Named(vec![named_field("bar", "u8", vec![])]),
        vec![frag("default", 3, 10), frag("const_fn", 14, 22)],
    );
    let e = parse_err(&input);
    // The merged span of both container fragments.
    assert_eq!(e, Error { kind: ErrorKind::DefaultRequiresNoArgs, pos: pos(3, 22) });
}

#[test]
fn factory_with_extra_args_fails() {
    let input = struct_input(
        "S",
        RawShape::Unit,
        vec![frag("default, args(x: u8)", 3, 23)],
    );
    let e = parse_err(&input);
    assert_eq!(e, Error { kind: ErrorKind::DefaultRequiresNoArgs, pos: pos(3, 23) });
}

#[test]
fn factory_with_all_fields_skipped_passes() {
    let input = struct_input(
        "S",
        RawShape::Named(vec![
            named_field("a", "u8", vec![frag("default", 7, 14)]),
            named_field("b", "u8", vec![frag("val(9)", 17, 23)]),
        ]),
        vec![frag("default", 1, 4)],
    );
    assert!(FancyConstructor::parse(&input).is_ok());
}

#[test]
fn selection_errors_come_before_option_errors() {
    // The enum has no marked variant AND a malformed container fragment: the
    // selection failure is reported, matching the builder's order.
    let mut input = enum_input(vec![variant("A", 10, 11, false)]);
    input.attrs = vec![frag("wobble", 1, 6)];
    let e = parse_err(&input);
    assert_eq!(e.kind, ErrorKind::NoVariantSelected);
}
