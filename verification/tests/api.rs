//! The library's data-model API, exercised directly.

use fancy_constructor::{
    FancyConstructor, Field, FieldOptions, Fields, FieldsSource, Fragment, Generics, Pos, RawData,
    RawField, RawInput, RawShape, Token,
};

fn cs(s: &str) -> Vec<char> {
    s.chars().collect()
}

fn opts(default: bool, clone: bool, into: bool, value: Option<&str>) -> FieldOptions {
    FieldOptions { default, clone, into, name: None, value: value.map(cs) }
}

fn plain_field(name: &str) -> Field {
    Field { name: cs(name), opts: opts(false, false, false, None), ty: cs("u8") }
}

#[test]
fn uses_reference_follows_clone() {
    assert!(opts(false, true, false, None).uses_reference());
    assert!(!opts(false, false, true, None).uses_reference());
}

#[test]
fn should_skip_args_truth_table() {
    assert!(!opts(false, false, false, None).should_skip_args());
    assert!(opts(true, false, false, None).should_skip_args());
    assert!(opts(false, false, false, Some("x + 1")).should_skip_args());
    assert!(opts(true, false, false, Some("x + 1")).should_skip_args());
    assert!(!opts(false, true, true, None).should_skip_args());
}

#[test]
fn resolve_ident_prefers_the_rename() {
    let mut f = plain_field("inner");
    assert_eq!(f.resolve_ident(), &cs("inner"));
    f.opts.name = Some(cs("outer"));
    assert_eq!(f.resolve_ident(), &cs("outer"));
}

#[test]
fn is_argless_on_each_shape() {
    assert!(Fields::Unit.is_argless());
    assert!(!Fields::Named(vec![plain_field("a")]).is_argless());
    let mut skipped = plain_field("a");
    skipped.opts.default = true;
    assert!(Fields::Named(vec![skipped]).is_argless());
}

#[test]
fn to_slice_and_into_vec_agree() {
    let fields = Fields::Named(vec![plain_field("a"), plain_field("b")]);
    let (named, slice) = fields.to_slice().expect("named shape has fields");
    assert!(named);
    assert_eq!(slice.len(), 2);
    let (named2, v) = fields.into_vec().expect("named shape has fields");
    assert!(named2);
    assert_eq!(v.len(), 2);
    assert!(Fields::Unit.to_slice().is_none());
    assert!(Fields::Unit.into_vec().is_none());
}

#[test]
fn fields_accessor_reaches_both_cases() {
    let s = FieldsSource::Struct(Fields::Unit);
    assert!(s.fields().to_slice().is_none());
    let e = FieldsSource::Enum { variant: cs("V"), fields: Fields::Named(vec![plain_field("a")]) };
    assert!(e.fields().to_slice().is_some());
}

#[test]
fn positional_names_carry_the_one_based_position_in_decimal() {
    let fields: Vec<RawField> = (0..11)
        .map(|_| RawField { name: None, attrs: Vec::<Fragment>::new(), ty: cs("u8") })
        .collect();
    let input = RawInput {
        name: cs("Wide"),
        type_pos: Pos { lo: 0, hi: 1 },
        generics: Generics {
            impl_generics: cs(""),
            type_generics: cs(""),
            where_clause: cs(""),
        },
        data: RawData::Struct(RawShape::Unnamed(fields)),
        attrs: vec![],
    };
    let out = FancyConstructor::parse(&input).expect("input should validate").into_token_stream();
    assert!(out.contains(&Token::Ident(cs("f1"))));
    assert!(out.contains(&Token::Ident(cs("f10"))));
    assert!(out.contains(&Token::Ident(cs("f11"))));
    assert!(!out.contains(&Token::Ident(cs("f12"))));
}

#[test]
fn collect_resolves_each_field_in_order() {
    let raw = vec![
        RawField {
            name: Some(cs("a")),
            attrs: vec![Fragment { text: cs("clone"), pos: Pos { lo: 2, hi: 7 } }],
            ty: cs("u8"),
        },
        RawField { name: Some(cs("b")), attrs: vec![], ty: cs("u16") },
    ];
    let fields = Field::collect(&raw, true).expect("fields should resolve");
    assert_eq!(fields.len(), 2);
    assert_eq!(fields[0].name, cs("a"));
    assert!(fields[0].opts.clone);
    assert_eq!(fields[1].ty, cs("u16"));
    assert!(!fields[1].opts.clone);
}
