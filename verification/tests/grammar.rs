//! The annotation option grammar and the position helpers, exercised
//! directly.

use fancy_constructor::{
    create_span, ContainerOptions, FieldOptions, Fragment, MiniField, Pos,
};

fn cs(s: &str) -> Vec<char> {
    s.chars().collect()
}

fn pos(lo: u64, hi: u64) -> Pos {
    Pos { lo, hi }
}

fn frag(text: &str, lo: u64, hi: u64) -> Fragment {
    Fragment { text: cs(text), pos: pos(lo, hi) }
}

fn field_opts(text: &str) -> FieldOptions {
    FieldOptions::from_fragments(&vec![frag(text, 0, 1)]).expect("fragment should parse")
}

fn container_opts(text: &str) -> ContainerOptions {
    ContainerOptions::from_fragments(&vec![frag(text, 0, 1)]).expect("fragment should parse")
}

#[test]
fn empty_fragment_leaves_everything_unset() {
    let o = field_opts("");
    assert!(!o.default && !o.clone && !o.into);
    assert!(o.name.is_none() && o.value.is_none());
}

#[test]
fn field_flags_and_rename() {
    let o = field_opts("clone, into, name(my_value)");
    assert!(o.clone && o.into && !o.default);
    assert_eq!(o.name, Some(cs("my_value")));
}

#[test]
fn trailing_comma_is_allowed() {
    let o = field_opts("default,");
    assert!(o.default);
}

#[test]
fn whitespace_is_insignificant() {
    let o = field_opts("  name( renamed )\t,\n default ");
    assert!(o.default);
    assert_eq!(o.name, Some(cs("renamed")));
}

#[test]
fn value_expression_kept_verbatim_and_trimmed() {
    let o = field_opts("val( if is_bar { 100 } else { 5 } )");
    assert_eq!(o.value, Some(cs("if is_bar { 100 } else { 5 }")));
}

#[test]
fn value_expression_may_contain_nested_parens_and_strings() {
    let o = field_opts("val(format(\"(unbalanced\", f(g(1), 2)))");
    assert_eq!(o.value, Some(cs("format(\"(unbalanced\", f(g(1), 2))")));
}

#[test]
fn value_expression_may_contain_char_literals() {
    let o = field_opts("val(split('(', input))");
    assert_eq!(o.value, Some(cs("split('(', input)")));
}

#[test]
fn fragments_accumulate_in_order() {
    let o = FieldOptions::from_fragments(&vec![
        frag("clone", 0, 5),
        frag("name(other)", 8, 19),
    ])
    .expect("fragments should parse");
    assert!(o.clone);
    assert_eq!(o.name, Some(cs("other")));
}

#[test]
fn container_flags_and_identifier() {
    let o = container_opts("const_fn, default, name(construct)");
    assert!(o.const_fn && o.default);
    assert_eq!(o.name, Some(cs("construct")));
}

#[test]
fn comment_string_content_is_unquoted() {
    let o = container_opts("comment(\"A, quoted (sentence)\")");
    assert_eq!(o.comment, Some(cs("A, quoted (sentence)")));
}

#[test]
fn comment_keeps_escapes_as_written() {
    let o = container_opts("comment(\"say \\\"hi\\\"\")");
    assert_eq!(o.comment, Some(cs("say \\\"hi\\\"")));
}

#[test]
fn visibility_is_kept_verbatim() {
    let o = container_opts("vis(pub(in crate::outer))");
    assert_eq!(o.vis, Some(cs("pub(in crate::outer)")));
}

#[test]
fn empty_visibility_is_recorded() {
    let o = container_opts("vis()");
    assert_eq!(o.vis, Some(cs("")));
}

#[test]
fn bounds_split_at_top_level_commas_only() {
    let o = container_opts("bounds(T: Into<A, B>, U: Fn(u8) -> u8, V: Clone)");
    assert_eq!(
        o.bounds,
        vec![cs("T: Into<A, B>"), cs("U: Fn(u8) -> u8"), cs("V: Clone")],
    );
}

#[test]
fn empty_bounds_list_is_empty() {
    let o = container_opts("bounds()");
    assert!(o.bounds.is_empty());
}

#[test]
fn args_parse_into_name_type_pairs() {
    let o = container_opts("args(input_string: &str, count: Vec<(u8, u8)>)");
    assert_eq!(o.args.len(), 2);
    assert_eq!(o.args[0].ident, cs("input_string"));
    assert_eq!(o.args[0].ty, cs("&str"));
    assert_eq!(o.args[1].ident, cs("count"));
    assert_eq!(o.args[1].ty, cs("Vec<(u8, u8)>"));
}

#[test]
fn duplicate_bounds_declaration_fails_even_when_empty() {
    let r = ContainerOptions::from_fragments(&vec![frag("bounds(), bounds(T: Clone)", 0, 1)]);
    assert!(r.is_err());
}

#[test]
fn leading_comma_is_malformed() {
    assert!(FieldOptions::from_fragments(&vec![frag(", clone", 0, 1)]).is_err());
}

#[test]
fn args_piece_without_colon_is_malformed() {
    assert!(ContainerOptions::from_fragments(&vec![frag("args(just_a_name)", 0, 1)]).is_err());
}

#[test]
fn minifield_parses_name_colon_type() {
    let m = MiniField::parse(&cs(" speed : f_units ")).expect("piece should parse");
    assert_eq!(m.ident, cs("speed"));
    assert_eq!(m.ty, cs("f_units"));
}

#[test]
fn minifield_rejects_missing_type() {
    assert!(MiniField::parse(&cs("speed :  ")).is_none());
}

#[test]
fn span_merge_is_the_smallest_enclosing_region() {
    let merged = create_span(&vec![pos(10, 14), pos(3, 5), pos(20, 22)], pos(0, 1));
    assert_eq!(merged, pos(3, 22));
}

#[test]
fn span_merge_falls_back_when_empty() {
    let merged = create_span(&vec![], pos(7, 9));
    assert_eq!(merged, pos(7, 9));
}
