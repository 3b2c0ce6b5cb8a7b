//! The annotation option grammar.
//!
//! A fragment's text is a comma-separated list of options; an option is a
//! key, optionally followed by a parenthesized payload.  Scanning respects
//! string and character literals, so a payload may contain any text whose
//! delimiters balance.  This module resolves the fragments of one entity
//! into its [`FieldOptions`] or [`ContainerOptions`]; every way a fragment
//! can be malformed — an unknown key, a payload of the wrong shape, a
//! duplicate key — is a validation failure attributed to the offending
//! fragment's position.

use vstd::prelude::*;
use crate::error::{Error, ErrorKind};
use crate::input::{fragments_view, Fragment, FragmentModel};
use crate::options::{ContainerOptions, ContainerOptionsModel, FieldOptions, FieldOptionsModel};
use crate::options::spec_container_unset;
use crate::pos::Pos;
use crate::types::{MiniField, MiniFieldModel};

verus! {

/// Whether `c` is horizontal or vertical whitespace.
pub open spec fn is_ws(c: char) -> bool {
    c == ' ' || c == '\t' || c == '\n' || c == '\r'
}

/// Whether `c` may begin an identifier.
pub open spec fn is_ident_start(c: char) -> bool {
    ('a' <= c && c <= 'z') || ('A' <= c && c <= 'Z') || c == '_'
}

/// Whether `c` may continue an identifier.
pub open spec fn is_ident_cont(c: char) -> bool {
    is_ident_start(c) || ('0' <= c && c <= '9')
}

/// Whether `c` is horizontal or vertical whitespace.
pub fn ws_char(c: char) -> (r: bool)
    ensures
        r == is_ws(c),
{
    c == ' ' || c == '\t' || c == '\n' || c == '\r'
}

/// Whether `c` may begin an identifier.
pub fn ident_start_char(c: char) -> (r: bool)
    ensures
        r == is_ident_start(c),
{
    ('a' <= c && c <= 'z') || ('A' <= c && c <= 'Z') || c == '_'
}

/// Whether `c` may continue an identifier.
pub fn ident_cont_char(c: char) -> (r: bool)
    ensures
        r == is_ident_cont(c),
{
    ident_start_char(c) || ('0' <= c && c <= '9')
}

/// The first index at or after `i` holding a non-whitespace character, or
/// the end of `s`.
pub open spec fn spec_skip_ws(s: Seq<char>, i: nat) -> nat
    decreases s.len() - i,
{
    if i < s.len() && is_ws(s[i as int]) {
        spec_skip_ws(s, i + 1)
    } else {
        i
    }
}

/// Skipping whitespace never moves backwards nor past the end.
pub proof fn lemma_skip_ws_bounds(s: Seq<char>, i: nat)
    requires
        i <= s.len(),
    ensures
        i <= spec_skip_ws(s, i) <= s.len(),
        spec_skip_ws(s, i) < s.len() ==> !is_ws(s[spec_skip_ws(s, i) as int]),
    decreases s.len() - i,
{
    if i < s.len() && is_ws(s[i as int]) {
        lemma_skip_ws_bounds(s, i + 1);
    }
}

/// The first index at or after `i` holding a non-whitespace character, or
/// the end of `s`.
pub fn skip_ws(s: &Vec<char>, i: usize) -> (r: usize)
    requires
        i <= s@.len(),
    ensures
        r == spec_skip_ws(s@, i as nat),
        i <= r <= s@.len(),
    decreases s@.len() - i,
{
    if i < s.len() && ws_char(s[i]) {
        skip_ws(s, i + 1)
    } else {
        i
    }
}

/// The end of the identifier run beginning at `i`: the first index at or
/// after `i` whose character cannot continue an identifier.
pub open spec fn spec_scan_ident(s: Seq<char>, i: nat) -> nat
    decreases s.len() - i,
{
    if i < s.len() && is_ident_cont(s[i as int]) {
        spec_scan_ident(s, i + 1)
    } else {
        i
    }
}

/// Scanning an identifier never moves backwards nor past the end.
pub proof fn lemma_scan_ident_bounds(s: Seq<char>, i: nat)
    requires
        i <= s.len(),
    ensures
        i <= spec_scan_ident(s, i) <= s.len(),
    decreases s.len() - i,
{
    if i < s.len() && is_ident_cont(s[i as int]) {
        lemma_scan_ident_bounds(s, i + 1);
    }
}

/// The end of the identifier run beginning at `i`.
pub fn scan_ident(s: &Vec<char>, i: usize) -> (r: usize)
    requires
        i <= s@.len(),
    ensures
        r == spec_scan_ident(s@, i as nat),
        i <= r <= s@.len(),
    decreases s@.len() - i,
{
    if i < s.len() && ident_cont_char(s[i]) {
        scan_ident(s, i + 1)
    } else {
        i
    }
}

/// The start of the whitespace run ending at `j`: the first index such that
/// everything from it up to `j` is whitespace.
pub open spec fn spec_rtrim(s: Seq<char>, j: nat) -> nat
    decreases j,
{
    if j > 0 && j <= s.len() && is_ws(s[j - 1]) {
        spec_rtrim(s, (j - 1) as nat)
    } else {
        j
    }
}

/// Trimming from the right never moves forwards nor below zero.
pub proof fn lemma_rtrim_bounds(s: Seq<char>, j: nat)
    ensures
        spec_rtrim(s, j) <= j,
    decreases j,
{
    if j > 0 && j <= s.len() && is_ws(s[j - 1]) {
        lemma_rtrim_bounds(s, (j - 1) as nat);
    }
}

/// The start of the whitespace run ending at `j`.
pub fn rtrim(s: &Vec<char>, j: usize) -> (r: usize)
    requires
        j <= s@.len(),
    ensures
        r == spec_rtrim(s@, j as nat),
        r <= j,
    decreases j,
{
    if j > 0 && ws_char(s[j - 1]) {
        rtrim(s, j - 1)
    } else {
        j
    }
}

/// The characters of `s` with leading and trailing whitespace removed.
pub open spec fn spec_trim(s: Seq<char>) -> Seq<char> {
    let a = spec_skip_ws(s, 0);
    let b = spec_rtrim(s, s.len());
    if a < b {
        s.subrange(a as int, b as int)
    } else {
        Seq::empty()
    }
}

/// A copy of `s[a..b]`.
pub fn sub_vec(s: &Vec<char>, a: usize, b: usize) -> (r: Vec<char>)
    requires
        a <= b <= s@.len(),
    ensures
        r@ == s@.subrange(a as int, b as int),
{
    let mut r: Vec<char> = Vec::new();
    let mut i: usize = a;
    while i < b
        invariant
            a <= i <= b <= s@.len(),
            r@ == s@.subrange(a as int, i as int),
        decreases b - i,
    {
        r.push(s[i]);
        proof {
            assert(s@.subrange(a as int, i + 1) =~= s@.subrange(a as int, i as int).push(
                s@[i as int],
            ));
        }
        i += 1;
    }
    r
}

/// A copy of `s` with leading and trailing whitespace removed.
pub fn trim_vec(s: &Vec<char>) -> (r: Vec<char>)
    ensures
        r@ == spec_trim(s@),
{
    let a = skip_ws(s, 0);
    let b = rtrim(s, s.len());
    proof {
        lemma_rtrim_bounds(s@, s@.len());
        if a < b {
            lemma_skip_ws_bounds(s@, 0);
        }
    }
    if a < b {
        sub_vec(s, a, b)
    } else {
        Vec::new()
    }
}

/// Scanner state while walking over text that may contain string literals.
#[derive(Clone, Copy, Debug)]
pub enum ScanMode {
    /// Outside any literal.
    Normal,
    /// Inside a string literal.
    InStr,
    /// Inside a string literal, right after a backslash.
    InEsc,
}

/// How many characters the tick at `i` consumes: a whole character literal
/// when one starts here, else just the tick itself (a lifetime marker).
pub open spec fn spec_tick_skip(s: Seq<char>, i: nat) -> nat {
    if i + 3 < s.len() && s[i + 1 as int] == '\\' && s[i + 3 as int] == '\'' {
        4
    } else if i + 2 < s.len() && s[i + 1 as int] != '\\' && s[i + 2 as int] == '\'' {
        3
    } else {
        1
    }
}

/// How many characters the tick at `i` consumes.
pub fn tick_skip(s: &Vec<char>, i: usize) -> (r: usize)
    requires
        i < s@.len(),
    ensures
        r == spec_tick_skip(s@, i as nat),
        1 <= r <= 4,
        i + r <= s@.len(),
{
    let rem = s.len() - i;
    if rem > 3 && s[i + 1] == '\\' && s[i + 3] == '\'' {
        4
    } else if rem > 2 && s[i + 1] != '\\' && s[i + 2] == '\'' {
        3
    } else {
        1
    }
}

/// The index of the parenthesis closing the group whose content starts at
/// `i` with `depth` unclosed inner parentheses, or `None` when the group
/// never closes.  String and character literals are skipped over whole.
pub open spec fn spec_scan_group(s: Seq<char>, i: nat, depth: nat, mode: ScanMode) -> Option<nat>
    decreases s.len() - i,
{
    if i >= s.len() {
        Option::None
    } else {
        let c = s[i as int];
        match mode {
            ScanMode::Normal => {
                if c == '"' {
                    spec_scan_group(s, i + 1, depth, ScanMode::InStr)
                } else if c == '\'' {
                    spec_scan_group(s, i + spec_tick_skip(s, i), depth, ScanMode::Normal)
                } else if c == '(' {
                    spec_scan_group(s, i + 1, (depth + 1) as nat, ScanMode::Normal)
                } else if c == ')' {
                    if depth == 0 {
                        Option::Some(i)
                    } else {
                        spec_scan_group(s, i + 1, (depth - 1) as nat, ScanMode::Normal)
                    }
                } else {
                    spec_scan_group(s, i + 1, depth, ScanMode::Normal)
                }
            },
            ScanMode::InStr => {
                if c == '\\' {
                    spec_scan_group(s, i + 1, depth, ScanMode::InEsc)
                } else if c == '"' {
                    spec_scan_group(s, i + 1, depth, ScanMode::Normal)
                } else {
                    spec_scan_group(s, i + 1, depth, ScanMode::InStr)
                }
            },
            ScanMode::InEsc => spec_scan_group(s, i + 1, depth, ScanMode::InStr),
        }
    }
}

/// A found closing parenthesis lies at or after the scan's start and inside
/// the text.
pub proof fn lemma_scan_group_bounds(s: Seq<char>, i: nat, depth: nat, mode: ScanMode)
    ensures
        match spec_scan_group(s, i, depth, mode) {
            Option::Some(g) => i <= g < s.len(),
            Option::None => true,
        },
    decreases s.len() - i,
{
    if i < s.len() {
        let c = s[i as int];
        match mode {
            ScanMode::Normal => {
                if c == '"' {
                    lemma_scan_group_bounds(s, i + 1, depth, ScanMode::InStr);
                } else if c == '\'' {
                    lemma_scan_group_bounds(s, i + spec_tick_skip(s, i), depth, ScanMode::Normal);
                } else if c == '(' {
                    lemma_scan_group_bounds(s, i + 1, (depth + 1) as nat, ScanMode::Normal);
                } else if c == ')' {
                    if depth != 0 {
                        lemma_scan_group_bounds(s, i + 1, (depth - 1) as nat, ScanMode::Normal);
                    }
                } else {
                    lemma_scan_group_bounds(s, i + 1, depth, ScanMode::Normal);
                }
            },
            ScanMode::InStr => {
                if c == '\\' {
                    lemma_scan_group_bounds(s, i + 1, depth, ScanMode::InEsc);
                } else if c == '"' {
                    lemma_scan_group_bounds(s, i + 1, depth, ScanMode::Normal);
                } else {
                    lemma_scan_group_bounds(s, i + 1, depth, ScanMode::InStr);
                }
            },
            ScanMode::InEsc => lemma_scan_group_bounds(s, i + 1, depth, ScanMode::InStr),
        }
    }
}

/// The index of the parenthesis closing the group whose content starts at
/// `i`, or `None` when the group never closes.
pub fn scan_group(s: &Vec<char>, i: usize, depth: usize, mode: ScanMode) -> (r: Option<usize>)
    requires
        i <= s@.len(),
        depth <= i,
    ensures
        spec_scan_group(s@, i as nat, depth as nat, mode) == (match r {
            Option::Some(g) => Option::Some(g as nat),
            Option::None => Option::None::<nat>,
        }),
        (match r {
            Option::Some(g) => i <= g < s@.len(),
            Option::None => true,
        }),
    decreases s@.len() - i,
{
    if i >= s.len() {
        None
    } else {
        let c = s[i];
        match mode {
            ScanMode::Normal => {
                if c == '"' {
                    scan_group(s, i + 1, depth, ScanMode::InStr)
                } else if c == '\'' {
                    scan_group(s, i + tick_skip(s, i), depth, ScanMode::Normal)
                } else if c == '(' {
                    scan_group(s, i + 1, depth + 1, ScanMode::Normal)
                } else if c == ')' {
                    if depth == 0 {
                        Some(i)
                    } else {
                        scan_group(s, i + 1, depth - 1, ScanMode::Normal)
                    }
                } else {
                    scan_group(s, i + 1, depth, ScanMode::Normal)
                }
            },
            ScanMode::InStr => {
                if c == '\\' {
                    scan_group(s, i + 1, depth, ScanMode::InEsc)
                } else if c == '"' {
                    scan_group(s, i + 1, depth, ScanMode::Normal)
                } else {
                    scan_group(s, i + 1, depth, ScanMode::InStr)
                }
            },
            ScanMode::InEsc => scan_group(s, i + 1, depth, ScanMode::InStr),
        }
    }
}

/// The index of the first comma at or after `i` that stands outside every
/// literal and every nested delimiter, or the end of `s`.  An angle bracket
/// closing after a dash is an arrow, not a delimiter.
pub open spec fn spec_next_comma(s: Seq<char>, i: nat, depth: nat, mode: ScanMode) -> nat
    decreases s.len() - i,
{
    if i >= s.len() {
        s.len()
    } else {
        let c = s[i as int];
        match mode {
            ScanMode::Normal => {
                if c == '"' {
                    spec_next_comma(s, i + 1, depth, ScanMode::InStr)
                } else if c == '\'' {
                    spec_next_comma(s, i + spec_tick_skip(s, i), depth, ScanMode::Normal)
                } else if c == '(' || c == '[' || c == '{' || c == '<' {
                    spec_next_comma(s, i + 1, (depth + 1) as nat, ScanMode::Normal)
                } else if c == ')' || c == ']' || c == '}' {
                    spec_next_comma(
                        s,
                        i + 1,
                        if depth == 0 {
                            0
                        } else {
                            (depth - 1) as nat
                        },
                        ScanMode::Normal,
                    )
                } else if c == '>' {
                    if i > 0 && s[i - 1] == '-' {
                        spec_next_comma(s, i + 1, depth, ScanMode::Normal)
                    } else {
                        spec_next_comma(
                            s,
                            i + 1,
                            if depth == 0 {
                                0
                            } else {
                                (depth - 1) as nat
                            },
                            ScanMode::Normal,
                        )
                    }
                } else if c == ',' && depth == 0 {
                    i
                } else {
                    spec_next_comma(s, i + 1, depth, ScanMode::Normal)
                }
            },
            ScanMode::InStr => {
                if c == '\\' {
                    spec_next_comma(s, i + 1, depth, ScanMode::InEsc)
                } else if c == '"' {
                    spec_next_comma(s, i + 1, depth, ScanMode::Normal)
                } else {
                    spec_next_comma(s, i + 1, depth, ScanMode::InStr)
                }
            },
            ScanMode::InEsc => spec_next_comma(s, i + 1, depth, ScanMode::InStr),
        }
    }
}

/// The found split point lies at or after the scan's start and not past the
/// end; when inside the text, it holds a comma.
pub proof fn lemma_next_comma_bounds(s: Seq<char>, i: nat, depth: nat, mode: ScanMode)
    requires
        i <= s.len(),
    ensures
        i <= spec_next_comma(s, i, depth, mode) <= s.len(),
        spec_next_comma(s, i, depth, mode) < s.len() ==> s[spec_next_comma(
            s,
            i,
            depth,
            mode,
        ) as int] == ',',
    decreases s.len() - i,
{
    if i < s.len() {
        let c = s[i as int];
        match mode {
            ScanMode::Normal => {
                if c == '"' {
                    lemma_next_comma_bounds(s, i + 1, depth, ScanMode::InStr);
                } else if c == '\'' {
                    lemma_next_comma_bounds(s, i + spec_tick_skip(s, i), depth, ScanMode::Normal);
                } else if c == '(' || c == '[' || c == '{' || c == '<' {
                    lemma_next_comma_bounds(s, i + 1, (depth + 1) as nat, ScanMode::Normal);
                } else if c == ')' || c == ']' || c == '}' {
                    lemma_next_comma_bounds(
                        s,
                        i + 1,
                        if depth == 0 {
                            0
                        } else {
                            (depth - 1) as nat
                        },
                        ScanMode::Normal,
                    );
                } else if c == '>' {
                    if i > 0 && s[i - 1] == '-' {
                        lemma_next_comma_bounds(s, i + 1, depth, ScanMode::Normal);
                    } else {
                        lemma_next_comma_bounds(
                            s,
                            i + 1,
                            if depth == 0 {
                                0
                            } else {
                                (depth - 1) as nat
                            },
                            ScanMode::Normal,
                        );
                    }
                } else if c == ',' && depth == 0 {
                } else {
                    lemma_next_comma_bounds(s, i + 1, depth, ScanMode::Normal);
                }
            },
            ScanMode::InStr => {
                if c == '\\' {
                    lemma_next_comma_bounds(s, i + 1, depth, ScanMode::InEsc);
                } else if c == '"' {
                    lemma_next_comma_bounds(s, i + 1, depth, ScanMode::Normal);
                } else {
                    lemma_next_comma_bounds(s, i + 1, depth, ScanMode::InStr);
                }
            },
            ScanMode::InEsc => lemma_next_comma_bounds(s, i + 1, depth, ScanMode::InStr),
        }
    }
}

/// The index of the first comma at or after `i` that stands outside every
/// literal and every nested delimiter, or the end of `s`.
pub fn next_comma(s: &Vec<char>, i: usize, depth: usize, mode: ScanMode) -> (r: usize)
    requires
        i <= s@.len(),
        depth <= i,
    ensures
        r == spec_next_comma(s@, i as nat, depth as nat, mode),
        i <= r <= s@.len(),
    decreases s@.len() - i,
{
    if i >= s.len() {
        s.len()
    } else {
        let c = s[i];
        match mode {
            ScanMode::Normal => {
                if c == '"' {
                    next_comma(s, i + 1, depth, ScanMode::InStr)
                } else if c == '\'' {
                    next_comma(s, i + tick_skip(s, i), depth, ScanMode::Normal)
                } else if c == '(' || c == '[' || c == '{' || c == '<' {
                    next_comma(s, i + 1, depth + 1, ScanMode::Normal)
                } else if c == ')' || c == ']' || c == '}' {
                    next_comma(s, i + 1, if depth == 0 { 0 } else { depth - 1 }, ScanMode::Normal)
                } else if c == '>' {
                    if i > 0 && s[i - 1] == '-' {
                        next_comma(s, i + 1, depth, ScanMode::Normal)
                    } else {
                        next_comma(
                            s,
                            i + 1,
                            if depth == 0 {
                                0
                            } else {
                                depth - 1
                            },
                            ScanMode::Normal,
                        )
                    }
                } else if c == ',' && depth == 0 {
                    i
                } else {
                    next_comma(s, i + 1, depth, ScanMode::Normal)
                }
            },
            ScanMode::InStr => {
                if c == '\\' {
                    next_comma(s, i + 1, depth, ScanMode::InEsc)
                } else if c == '"' {
                    next_comma(s, i + 1, depth, ScanMode::Normal)
                } else {
                    next_comma(s, i + 1, depth, ScanMode::InStr)
                }
            },
            ScanMode::InEsc => next_comma(s, i + 1, depth, ScanMode::InStr),
        }
    }
}

/// One parsed option, before key resolution: its key text and its payload
/// text, when a payload is present.
#[derive(Debug)]
pub struct KvPair {
    /// The option's key.
    pub key: Vec<char>,
    /// The option's parenthesized payload, without the parentheses.
    pub payload: Option<Vec<char>>,
}

/// The mathematical model of [`KvPair`].
pub struct KvPairModel {
    /// Model of [`KvPair::key`].
    pub key: Seq<char>,
    /// Model of [`KvPair::payload`].
    pub payload: Option<Seq<char>>,
}

impl View for KvPair {
    type V = KvPairModel;

    open spec fn view(&self) -> KvPairModel {
        KvPairModel {
            key: self.key@,
            payload: match self.payload {
                Option::Some(ref p) => Option::Some(p@),
                Option::None => Option::None,
            },
        }
    }
}

/// The model of a parsed option list.
pub open spec fn kvs_view(l: Seq<KvPair>) -> Seq<KvPairModel> {
    l.map_values(|k: KvPair| k@)
}

/// The option list a fragment's text parses to, starting at `i`: each
/// option a key with an optional balanced payload, the options separated by
/// commas, a trailing comma allowed.  `None` when the text is malformed.
pub open spec fn spec_parse_opts(s: Seq<char>, i: nat) -> Option<Seq<KvPairModel>>
    decreases s.len() - i, 1nat,
        when i <= s.len()
{
    let j = spec_skip_ws(s, i);
    if j >= s.len() {
        Option::Some(Seq::empty())
    } else if !is_ident_start(s[j as int]) {
        Option::None
    } else {
        proof {
            lemma_skip_ws_bounds(s, i);
        }
        let k = spec_scan_ident(s, j + 1);
        let key = s.subrange(j as int, k as int);
        proof {
            lemma_scan_ident_bounds(s, j + 1);
        }
        let m = spec_skip_ws(s, k);
        if m < s.len() && s[m as int] == '(' {
            match spec_scan_group(s, m + 1, 0, ScanMode::Normal) {
                Option::None => Option::None,
                Option::Some(g) => {
                    proof {
                        lemma_skip_ws_bounds(s, k);
                        lemma_scan_group_bounds(s, m + 1, 0, ScanMode::Normal);
                    }
                    spec_after_opt(
                        s,
                        (g + 1) as nat,
                        KvPairModel { key, payload: Option::Some(s.subrange(m + 1 as int, g as int)) },
                    )
                },
            }
        } else {
            proof {
                lemma_skip_ws_bounds(s, k);
            }
            spec_after_opt(s, m, KvPairModel { key, payload: Option::None })
        }
    }
}

/// What may follow one parsed option at `i`: the end of the text, or a
/// comma and the rest of the option list.  `None` when anything else
/// follows.
pub open spec fn spec_after_opt(s: Seq<char>, i: nat, kv: KvPairModel) -> Option<
    Seq<KvPairModel>,
>
    decreases s.len() - i, 0nat,
        when i <= s.len()
{
    let j = spec_skip_ws(s, i);
    if j >= s.len() {
        Option::Some(seq![kv])
    } else if s[j as int] == ',' {
        proof {
            lemma_skip_ws_bounds(s, i);
        }
        match spec_parse_opts(s, j + 1) {
            Option::None => Option::None,
            Option::Some(rest) => Option::Some(seq![kv] + rest),
        }
    } else {
        Option::None
    }
}

/// The option list `s` parses to: each option a key with an optional
/// balanced payload, the options separated by commas, a trailing comma
/// allowed; `None` when the text is malformed.
pub fn parse_kvs(s: &Vec<char>) -> (r: Option<Vec<KvPair>>)
    ensures
        spec_parse_opts(s@, 0) == (match r {
            Option::Some(v) => Option::Some(kvs_view(v@)),
            Option::None => Option::None::<Seq<KvPairModel>>,
        }),
{
    let mut acc: Vec<KvPair> = Vec::new();
    let mut i: usize = 0;
    loop
        invariant
            i <= s@.len(),
            spec_parse_opts(s@, 0) == (match spec_parse_opts(s@, i as nat) {
                Option::None => Option::None::<Seq<KvPairModel>>,
                Option::Some(rest) => Option::Some(kvs_view(acc@) + rest),
            }),
        decreases s@.len() - i,
    {
        let ghost i0: nat = i as nat;
        let j = skip_ws(s, i);
        if j >= s.len() {
            proof {
                assert(kvs_view(acc@) + Seq::<KvPairModel>::empty() =~= kvs_view(acc@));
            }
            return Some(acc);
        }
        if !ident_start_char(s[j]) {
            return None;
        }
        let k = scan_ident(s, j + 1);
        let key = sub_vec(s, j, k);
        let m = skip_ws(s, k);
        let after: usize;
        let payload: Option<Vec<char>>;
        if m < s.len() && s[m] == '(' {
            match scan_group(s, m + 1, 0, ScanMode::Normal) {
                None => {
                    return None;
                },
                Some(g) => {
                    payload = Some(sub_vec(s, m + 1, g));
                    after = g + 1;
                },
            }
        } else {
            payload = None;
            after = m;
        }
        let kv = KvPair { key, payload };
        let ghost kvm = kv@;
        proof {
            assert(spec_parse_opts(s@, i0) == spec_after_opt(s@, after as nat, kvm));
        }
        let j2 = skip_ws(s, after);
        if j2 >= s.len() {
            acc.push(kv);
            proof {
                assert(kvs_view(acc@) =~= kvs_view(acc@.drop_last()).push(kvm));
                assert(kvs_view(acc@.drop_last()) + seq![kvm] =~= kvs_view(acc@));
            }
            return Some(acc);
        }
        if s[j2] != ',' {
            return None;
        }
        acc.push(kv);
        i = j2 + 1;
        proof {
            assert(kvs_view(acc@) =~= kvs_view(acc@.drop_last()).push(kvm));
            if spec_parse_opts(s@, i as nat) is Some {
                let rest = spec_parse_opts(s@, i as nat)->Some_0;
                assert(kvs_view(acc@.drop_last()) + (seq![kvm] + rest) =~= kvs_view(acc@) + rest);
            }
        }
    }
}

/// The index just past the closing quote of the string literal whose
/// content starts at `i`, or `None` when the literal never closes.  A
/// backslash escapes the character after it.
pub open spec fn spec_scan_str_end(s: Seq<char>, i: nat) -> Option<nat>
    decreases s.len() - i,
{
    if i >= s.len() {
        Option::None
    } else if s[i as int] == '"' {
        Option::Some(i + 1)
    } else if s[i as int] == '\\' {
        if i + 1 < s.len() {
            spec_scan_str_end(s, i + 2)
        } else {
            Option::None
        }
    } else {
        spec_scan_str_end(s, i + 1)
    }
}

/// The index just past the closing quote of the string literal whose
/// content starts at `i`, or `None` when the literal never closes.
pub fn scan_str_end(s: &Vec<char>, i: usize) -> (r: Option<usize>)
    requires
        i <= s@.len(),
    ensures
        spec_scan_str_end(s@, i as nat) == (match r {
            Option::Some(e) => Option::Some(e as nat),
            Option::None => Option::None::<nat>,
        }),
        (match r {
            Option::Some(e) => i < e <= s@.len(),
            Option::None => true,
        }),
    decreases s@.len() - i,
{
    if i >= s.len() {
        None
    } else if s[i] == '"' {
        Some(i + 1)
    } else if s[i] == '\\' {
        if i + 1 < s.len() {
            scan_str_end(s, i + 2)
        } else {
            None
        }
    } else {
        scan_str_end(s, i + 1)
    }
}

/// The recognized option keys, and a marker for everything else.
#[derive(Clone, Copy, Debug, PartialEq, Eq, Structural)]
pub enum KeyId {
    /// `default`: a flag, at either level.
    KDefault,
    /// `clone`: a field-level flag.
    KClone,
    /// `into`: a field-level flag.
    KInto,
    /// `name`: an identifier payload, at either level.
    KName,
    /// `val`: a field-level expression payload.
    KVal,
    /// `const_fn`: a container-level flag.
    KConstFn,
    /// `vis`: a container-level visibility payload.
    KVis,
    /// `comment`: a container-level string-literal payload.
    KComment,
    /// `bounds`: a container-level constraint-list payload.
    KBounds,
    /// `args`: a container-level parameter-list payload.
    KArgs,
    /// Any unrecognized key.
    KUnknown,
}

/// Which recognized key, if any, the text `k` spells.
pub open spec fn spec_key_id(k: Seq<char>) -> KeyId {
    if k == seq!['d', 'e', 'f', 'a', 'u', 'l', 't'] {
        KeyId::KDefault
    } else if k == seq!['c', 'l', 'o', 'n', 'e'] {
        KeyId::KClone
    } else if k == seq!['i', 'n', 't', 'o'] {
        KeyId::KInto
    } else if k == seq!['n', 'a', 'm', 'e'] {
        KeyId::KName
    } else if k == seq!['v', 'a', 'l'] {
        KeyId::KVal
    } else if k == seq!['c', 'o', 'n', 's', 't', '_', 'f', 'n'] {
        KeyId::KConstFn
    } else if k == seq!['v', 'i', 's'] {
        KeyId::KVis
    } else if k == seq!['c', 'o', 'm', 'm', 'e', 'n', 't'] {
        KeyId::KComment
    } else if k == seq!['b', 'o', 'u', 'n', 'd', 's'] {
        KeyId::KBounds
    } else if k == seq!['a', 'r', 'g', 's'] {
        KeyId::KArgs
    } else {
        KeyId::KUnknown
    }
}

/// Which recognized key, if any, the text `k` spells.
pub fn key_id(k: &Vec<char>) -> (r: KeyId)
    ensures
        r == spec_key_id(k@),
{
    let n = k.len();
    let r = if n == 7 && k[0] == 'd' && k[1] == 'e' && k[2] == 'f' && k[3] == 'a' && k[4] == 'u'
        && k[5] == 'l' && k[6] == 't' {
        proof {
            assert(k@ =~= seq!['d', 'e', 'f', 'a', 'u', 'l', 't']);
        }
        KeyId::KDefault
    } else if n == 5 && k[0] == 'c' && k[1] == 'l' && k[2] == 'o' && k[3] == 'n' && k[4] == 'e' {
        proof {
            assert(k@ =~= seq!['c', 'l', 'o', 'n', 'e']);
        }
        KeyId::KClone
    } else if n == 4 && k[0] == 'i' && k[1] == 'n' && k[2] == 't' && k[3] == 'o' {
        proof {
            assert(k@ =~= seq!['i', 'n', 't', 'o']);
        }
        KeyId::KInto
    } else if n == 4 && k[0] == 'n' && k[1] == 'a' && k[2] == 'm' && k[3] == 'e' {
        proof {
            assert(k@ =~= seq!['n', 'a', 'm', 'e']);
        }
        KeyId::KName
    } else if n == 3 && k[0] == 'v' && k[1] == 'a' && k[2] == 'l' {
        proof {
            assert(k@ =~= seq!['v', 'a', 'l']);
        }
        KeyId::KVal
    } else if n == 8 && k[0] == 'c' && k[1] == 'o' && k[2] == 'n' && k[3] == 's' && k[4] == 't'
        && k[5] == '_' && k[6] == 'f' && k[7] == 'n' {
        proof {
            assert(k@ =~= seq!['c', 'o', 'n', 's', 't', '_', 'f', 'n']);
        }
        KeyId::KConstFn
    } else if n == 3 && k[0] == 'v' && k[1] == 'i' && k[2] == 's' {
        proof {
            assert(k@ =~= seq!['v', 'i', 's']);
        }
        KeyId::KVis
    } else if n == 7 && k[0] == 'c' && k[1] == 'o' && k[2] == 'm' && k[3] == 'm' && k[4] == 'e'
        && k[5] == 'n' && k[6] == 't' {
        proof {
            assert(k@ =~= seq!['c', 'o', 'm', 'm', 'e', 'n', 't']);
        }
        KeyId::KComment
    } else if n == 6 && k[0] == 'b' && k[1] == 'o' && k[2] == 'u' && k[3] == 'n' && k[4] == 'd'
        && k[5] == 's' {
        proof {
            assert(k@ =~= seq!['b', 'o', 'u', 'n', 'd', 's']);
        }
        KeyId::KBounds
    } else if n == 4 && k[0] == 'a' && k[1] == 'r' && k[2] == 'g' && k[3] == 's' {
        proof {
            assert(k@ =~= seq!['a', 'r', 'g', 's']);
        }
        KeyId::KArgs
    } else {
        KeyId::KUnknown
    };
    r
}

/// The identifier an identifier-shaped payload holds: one identifier,
/// whitespace around it allowed; `None` for anything else.
pub open spec fn spec_ident_payload(p: Seq<char>) -> Option<Seq<char>> {
    let j = spec_skip_ws(p, 0);
    if j >= p.len() || !is_ident_start(p[j as int]) {
        Option::None
    } else {
        let k = spec_scan_ident(p, j + 1);
        if spec_skip_ws(p, k) == p.len() {
            Option::Some(p.subrange(j as int, k as int))
        } else {
            Option::None
        }
    }
}

/// The identifier an identifier-shaped payload holds.
pub fn ident_payload(p: &Vec<char>) -> (r: Option<Vec<char>>)
    ensures
        spec_ident_payload(p@) == (match r {
            Option::Some(v) => Option::Some(v@),
            Option::None => Option::None::<Seq<char>>,
        }),
{
    let j = skip_ws(p, 0);
    if j >= p.len() || !ident_start_char(p[j]) {
        None
    } else {
        let k = scan_ident(p, j + 1);
        if skip_ws(p, k) == p.len() {
            Some(sub_vec(p, j, k))
        } else {
            None
        }
    }
}

/// The content of a string-literal payload: one quote-delimited literal,
/// whitespace around it allowed, its content (escapes kept as written)
/// returned without the quotes; `None` for anything else.
pub open spec fn spec_str_payload(p: Seq<char>) -> Option<Seq<char>> {
    let j = spec_skip_ws(p, 0);
    if j >= p.len() || p[j as int] != '"' {
        Option::None
    } else {
        match spec_scan_str_end(p, j + 1) {
            Option::None => Option::None,
            Option::Some(e) => if spec_skip_ws(p, e) == p.len() {
                Option::Some(p.subrange(j + 1 as int, (e - 1) as int))
            } else {
                Option::None
            },
        }
    }
}

/// The content of a string-literal payload.
pub fn str_payload(p: &Vec<char>) -> (r: Option<Vec<char>>)
    ensures
        spec_str_payload(p@) == (match r {
            Option::Some(v) => Option::Some(v@),
            Option::None => Option::None::<Seq<char>>,
        }),
{
    let j = skip_ws(p, 0);
    if j >= p.len() || p[j] != '"' {
        None
    } else {
        match scan_str_end(p, j + 1) {
            None => None,
            Some(e) => {
                if skip_ws(p, e) == p.len() {
                    Some(sub_vec(p, j + 1, e - 1))
                } else {
                    None
                }
            },
        }
    }
}

/// The expression an expression payload holds: its text trimmed, which must
/// be non-empty; `None` otherwise.
pub open spec fn spec_expr_payload(p: Seq<char>) -> Option<Seq<char>> {
    if spec_trim(p).len() > 0 {
        Option::Some(spec_trim(p))
    } else {
        Option::None
    }
}

/// The expression an expression payload holds.
pub fn expr_payload(p: &Vec<char>) -> (r: Option<Vec<char>>)
    ensures
        spec_expr_payload(p@) == (match r {
            Option::Some(v) => Option::Some(v@),
            Option::None => Option::None::<Seq<char>>,
        }),
{
    let t = trim_vec(p);
    if t.len() > 0 {
        Some(t)
    } else {
        None
    }
}

/// The model of a list of snippets.
pub open spec fn strs_view(l: Seq<Vec<char>>) -> Seq<Seq<char>> {
    l.map_values(|v: Vec<char>| v@)
}

/// The comma-separated pieces of a list payload, each trimmed: commas
/// nested in delimiters or literals do not split, a trailing comma is
/// allowed, and an empty piece is malformed (`None`).  The empty or
/// all-whitespace payload is the empty list.
pub open spec fn spec_parse_list(s: Seq<char>, i: nat) -> Option<Seq<Seq<char>>>
    decreases s.len() - i,
        when i <= s.len()
{
    let j = spec_skip_ws(s, i);
    if j >= s.len() {
        Option::Some(Seq::empty())
    } else {
        proof {
            lemma_skip_ws_bounds(s, i);
        }
        let c = spec_next_comma(s, j, 0, ScanMode::Normal);
        if c == j {
            Option::None
        } else {
            proof {
                lemma_next_comma_bounds(s, j, 0, ScanMode::Normal);
            }
            let piece = spec_trim(s.subrange(j as int, c as int));
            if c >= s.len() {
                Option::Some(seq![piece])
            } else {
                match spec_parse_list(s, c + 1) {
                    Option::None => Option::None,
                    Option::Some(rest) => Option::Some(seq![piece] + rest),
                }
            }
        }
    }
}

/// The comma-separated pieces of a list payload, each trimmed.
pub fn parse_list(s: &Vec<char>) -> (r: Option<Vec<Vec<char>>>)
    ensures
        spec_parse_list(s@, 0) == (match r {
            Option::Some(v) => Option::Some(strs_view(v@)),
            Option::None => Option::None::<Seq<Seq<char>>>,
        }),
{
    let mut acc: Vec<Vec<char>> = Vec::new();
    let mut i: usize = 0;
    loop
        invariant
            i <= s@.len(),
            spec_parse_list(s@, 0) == (match spec_parse_list(s@, i as nat) {
                Option::None => Option::None::<Seq<Seq<char>>>,
                Option::Some(rest) => Option::Some(strs_view(acc@) + rest),
            }),
        decreases s@.len() - i,
    {
        let j = skip_ws(s, i);
        if j >= s.len() {
            proof {
                assert(strs_view(acc@) + Seq::<Seq<char>>::empty() =~= strs_view(acc@));
            }
            return Some(acc);
        }
        let c = next_comma(s, j, 0, ScanMode::Normal);
        if c == j {
            return None;
        }
        let raw = sub_vec(s, j, c);
        let piece = trim_vec(&raw);
        let ghost pm = piece@;
        acc.push(piece);
        proof {
            assert(strs_view(acc@) =~= strs_view(acc@.drop_last()).push(pm));
        }
        if c >= s.len() {
            proof {
                assert(strs_view(acc@.drop_last()) + seq![pm] =~= strs_view(acc@));
            }
            return Some(acc);
        }
        i = c + 1;
        proof {
            if spec_parse_list(s@, i as nat) is Some {
                let rest = spec_parse_list(s@, i as nat)->Some_0;
                assert(strs_view(acc@.drop_last()) + (seq![pm] + rest) =~= strs_view(acc@) + rest);
            }
        }
    }
}

/// The parameter a `name: type` piece declares: an identifier, a colon, and
/// a non-empty type snippet kept verbatim; `None` for anything else.
pub open spec fn spec_parse_minifield(p: Seq<char>) -> Option<MiniFieldModel> {
    let j = spec_skip_ws(p, 0);
    if j >= p.len() || !is_ident_start(p[j as int]) {
        Option::None
    } else {
        let k = spec_scan_ident(p, j + 1);
        let m = spec_skip_ws(p, k);
        if m < p.len() && p[m as int] == ':' {
            let ty = spec_trim(p.subrange(m + 1 as int, p.len() as int));
            if ty.len() > 0 {
                Option::Some(MiniFieldModel { ident: p.subrange(j as int, k as int), ty })
            } else {
                Option::None
            }
        } else {
            Option::None
        }
    }
}

impl MiniField {
    /// The parameter a `name: type` piece declares, or `None` when the
    /// piece has any other shape.
    pub fn parse(p: &Vec<char>) -> (r: Option<MiniField>)
        ensures
            spec_parse_minifield(p@) == (match r {
                Option::Some(m) => Option::Some(m@),
                Option::None => Option::None::<MiniFieldModel>,
            }),
    {
        let j = skip_ws(p, 0);
        if j >= p.len() || !ident_start_char(p[j]) {
            None
        } else {
            let k = scan_ident(p, j + 1);
            let m = skip_ws(p, k);
            if m < p.len() && p[m] == ':' {
                let rest = sub_vec(p, m + 1, p.len());
                let ty = trim_vec(&rest);
                if ty.len() > 0 {
                    Some(MiniField { ident: sub_vec(p, j, k), ty })
                } else {
                    None
                }
            } else {
                None
            }
        }
    }
}

/// The model of an extra-parameter list.
pub open spec fn minifields_view(l: Seq<MiniField>) -> Seq<MiniFieldModel> {
    l.map_values(|m: MiniField| m@)
}

/// The parameters a list of pieces declares, each piece a `name: type`
/// pair; `None` when any piece is malformed.
pub open spec fn spec_minifields_of(pieces: Seq<Seq<char>>) -> Option<Seq<MiniFieldModel>>
    decreases pieces.len(),
{
    if pieces.len() == 0 {
        Option::Some(Seq::empty())
    } else {
        match spec_parse_minifield(pieces[0]) {
            Option::None => Option::None,
            Option::Some(m) => match spec_minifields_of(pieces.drop_first()) {
                Option::None => Option::None,
                Option::Some(rest) => Option::Some(seq![m] + rest),
            },
        }
    }
}

/// The parameters a list of pieces declares.
pub fn minifields_of(pieces: &Vec<Vec<char>>) -> (r: Option<Vec<MiniField>>)
    ensures
        spec_minifields_of(strs_view(pieces@)) == (match r {
            Option::Some(v) => Option::Some(minifields_view(v@)),
            Option::None => Option::None::<Seq<MiniFieldModel>>,
        }),
{
    let mut acc: Vec<MiniField> = Vec::new();
    let mut i: usize = 0;
    proof {
        assert(strs_view(pieces@).skip(0) =~= strs_view(pieces@));
        if spec_minifields_of(strs_view(pieces@)) is Some {
            let rest = spec_minifields_of(strs_view(pieces@))->Some_0;
            assert(minifields_view(acc@) + rest =~= rest);
        }
    }
    while i < pieces.len()
        invariant
            i <= pieces@.len(),
            spec_minifields_of(strs_view(pieces@)) == (match spec_minifields_of(
                strs_view(pieces@).skip(i as int),
            ) {
                Option::None => Option::None::<Seq<MiniFieldModel>>,
                Option::Some(rest) => Option::Some(minifields_view(acc@) + rest),
            }),
        decreases pieces@.len() - i,
    {
        proof {
            assert(strs_view(pieces@).skip(i as int)[0] == pieces@[i as int]@);
            assert(strs_view(pieces@).skip(i as int).drop_first() =~= strs_view(pieces@).skip(
                i + 1,
            ));
        }
        match MiniField::parse(&pieces[i]) {
            None => {
                return None;
            },
            Some(m) => {
                let ghost mm = m@;
                acc.push(m);
                proof {
                    assert(minifields_view(acc@) =~= minifields_view(acc@.drop_last()).push(mm));
                    if spec_minifields_of(strs_view(pieces@).skip(i + 1)) is Some {
                        let rest = spec_minifields_of(strs_view(pieces@).skip(i + 1))->Some_0;
                        assert(minifields_view(acc@.drop_last()) + (seq![mm] + rest)
                            =~= minifields_view(acc@) + rest);
                    }
                }
            },
        }
        i += 1;
    }
    proof {
        assert(strs_view(pieces@).skip(pieces@.len() as int) =~= Seq::<Seq<char>>::empty());
        assert(minifields_view(acc@) + Seq::<MiniFieldModel>::empty() =~= minifields_view(acc@));
    }
    Some(acc)
}

/// The model of unset per-field options.
pub open spec fn spec_field_unset() -> FieldOptionsModel {
    FieldOptionsModel {
        default: false,
        clone: false,
        into: false,
        name: Option::None,
        value: Option::None,
    }
}

/// The per-field options that folding the parsed list `kvs` over `acc`
/// resolves to: each option validated against its key's payload shape, a
/// duplicate or unknown key malformed; failures are attributed to `pos`.
pub open spec fn spec_fold_field(kvs: Seq<KvPairModel>, acc: FieldOptionsModel, pos: Pos) -> Result<
    FieldOptionsModel,
    Error,
>
    decreases kvs.len(),
{
    if kvs.len() == 0 {
        Result::Ok(acc)
    } else {
        let kv = kvs[0];
        let rest = kvs.drop_first();
        let err = Result::<FieldOptionsModel, Error>::Err(
            Error { kind: ErrorKind::InvalidOptionSyntax, pos },
        );
        match spec_key_id(kv.key) {
            KeyId::KDefault => if kv.payload is Some || acc.default {
                err
            } else {
                spec_fold_field(rest, FieldOptionsModel { default: true, ..acc }, pos)
            },
            KeyId::KClone => if kv.payload is Some || acc.clone {
                err
            } else {
                spec_fold_field(rest, FieldOptionsModel { clone: true, ..acc }, pos)
            },
            KeyId::KInto => if kv.payload is Some || acc.into {
                err
            } else {
                spec_fold_field(rest, FieldOptionsModel { into: true, ..acc }, pos)
            },
            KeyId::KName => match kv.payload {
                Option::None => err,
                Option::Some(p) => match spec_ident_payload(p) {
                    Option::None => err,
                    Option::Some(id) => if acc.name is Some {
                        err
                    } else {
                        spec_fold_field(rest, FieldOptionsModel { name: Option::Some(id), ..acc }, pos)
                    },
                },
            },
            KeyId::KVal => match kv.payload {
                Option::None => err,
                Option::Some(p) => match spec_expr_payload(p) {
                    Option::None => err,
                    Option::Some(v) => if acc.value is Some {
                        err
                    } else {
                        spec_fold_field(
                            rest,
                            FieldOptionsModel { value: Option::Some(v), ..acc },
                            pos,
                        )
                    },
                },
            },
            _ => err,
        }
    }
}

/// Folds the parsed list `kvs` over the partial result `acc`.
fn fold_field(kvs: &Vec<KvPair>, acc: &mut FieldOptions, pos: Pos) -> (r: Result<(), Error>)
    ensures
        (match r {
            Result::Ok(_) => Result::<FieldOptionsModel, Error>::Ok(final(acc)@),
            Result::Err(e) => Result::<FieldOptionsModel, Error>::Err(e),
        }) == spec_fold_field(kvs_view(kvs@), old(acc)@, pos),
{
    let ghost init_m = old(acc)@;
    let mut i: usize = 0;
    proof {
        assert(kvs_view(kvs@).skip(0) =~= kvs_view(kvs@));
    }
    while i < kvs.len()
        invariant
            i <= kvs@.len(),
            init_m == old(acc)@,
            spec_fold_field(kvs_view(kvs@), init_m, pos) == spec_fold_field(
                kvs_view(kvs@).skip(i as int),
                acc@,
                pos,
            ),
        decreases kvs@.len() - i,
    {
        proof {
            assert(kvs_view(kvs@).skip(i as int)[0] == kvs@[i as int]@);
            assert(kvs_view(kvs@).skip(i as int).drop_first() =~= kvs_view(kvs@).skip(i + 1));
        }
        let kv = &kvs[i];
        match key_id(&kv.key) {
            KeyId::KDefault => {
                if kv.payload.is_some() || acc.default {
                    return Err(Error::new(ErrorKind::InvalidOptionSyntax, pos));
                }
                acc.default = true;
            },
            KeyId::KClone => {
                if kv.payload.is_some() || acc.clone {
                    return Err(Error::new(ErrorKind::InvalidOptionSyntax, pos));
                }
                acc.clone = true;
            },
            KeyId::KInto => {
                if kv.payload.is_some() || acc.into {
                    return Err(Error::new(ErrorKind::InvalidOptionSyntax, pos));
                }
                acc.into = true;
            },
            KeyId::KName => {
                match &kv.payload {
                    None => {
                        return Err(Error::new(ErrorKind::InvalidOptionSyntax, pos));
                    },
                    Some(p) => {
                        match ident_payload(p) {
                            None => {
                                return Err(Error::new(ErrorKind::InvalidOptionSyntax, pos));
                            },
                            Some(id) => {
                                if acc.name.is_some() {
                                    return Err(Error::new(ErrorKind::InvalidOptionSyntax, pos));
                                }
                                acc.name = Some(id);
                            },
                        }
                    },
                }
            },
            KeyId::KVal => {
                match &kv.payload {
                    None => {
                        return Err(Error::new(ErrorKind::InvalidOptionSyntax, pos));
                    },
                    Some(p) => {
                        match expr_payload(p) {
                            None => {
                                return Err(Error::new(ErrorKind::InvalidOptionSyntax, pos));
                            },
                            Some(v) => {
                                if acc.value.is_some() {
                                    return Err(Error::new(ErrorKind::InvalidOptionSyntax, pos));
                                }
                                acc.value = Some(v);
                            },
                        }
                    },
                }
            },
            _ => {
                return Err(Error::new(ErrorKind::InvalidOptionSyntax, pos));
            },
        }
        i += 1;
    }
    proof {
        assert(kvs_view(kvs@).skip(kvs@.len() as int) =~= Seq::<KvPairModel>::empty());
    }
    Ok(())
}

/// The per-field options that the fragments in `frags`, taken in order,
/// resolve to over the partial result `acc`; the first malformed fragment
/// fails, attributed to its own position.
pub open spec fn spec_field_options_rec(frags: Seq<FragmentModel>, acc: FieldOptionsModel) -> Result<
    FieldOptionsModel,
    Error,
>
    decreases frags.len(),
{
    if frags.len() == 0 {
        Result::Ok(acc)
    } else {
        match spec_parse_opts(frags[0].text, 0) {
            Option::None => Result::Err(
                Error { kind: ErrorKind::InvalidOptionSyntax, pos: frags[0].pos },
            ),
            Option::Some(kvs) => match spec_fold_field(kvs, acc, frags[0].pos) {
                Result::Err(e) => Result::Err(e),
                Result::Ok(a2) => spec_field_options_rec(frags.drop_first(), a2),
            },
        }
    }
}

/// The per-field options an entity's fragments resolve to: every fragment
/// parsed and folded in order, starting from all options unset.
pub open spec fn spec_field_options(frags: Seq<FragmentModel>) -> Result<FieldOptionsModel, Error> {
    spec_field_options_rec(frags, spec_field_unset())
}

impl FieldOptions {
    /// The per-field options the fragments `frags` resolve to, or the
    /// failure the first malformed fragment raises.
    pub fn from_fragments(frags: &Vec<Fragment>) -> (r: Result<FieldOptions, Error>)
        ensures
            (match r {
                Result::Ok(o) => Result::<FieldOptionsModel, Error>::Ok(o@),
                Result::Err(e) => Result::<FieldOptionsModel, Error>::Err(e),
            }) == spec_field_options(fragments_view(frags@)),
    {
        let mut acc = FieldOptions::unset();
        let mut i: usize = 0;
        proof {
            assert(fragments_view(frags@).skip(0) =~= fragments_view(frags@));
        }
        while i < frags.len()
            invariant
                i <= frags@.len(),
                spec_field_options(fragments_view(frags@)) == spec_field_options_rec(
                    fragments_view(frags@).skip(i as int),
                    acc@,
                ),
            decreases frags@.len() - i,
        {
            proof {
                assert(fragments_view(frags@).skip(i as int)[0] == frags@[i as int]@);
                assert(fragments_view(frags@).skip(i as int).drop_first() =~= fragments_view(
                    frags@,
                ).skip(i + 1));
            }
            let kvs = match parse_kvs(&frags[i].text) {
                None => {
                    return Err(Error::new(ErrorKind::InvalidOptionSyntax, frags[i].pos));
                },
                Some(kvs) => kvs,
            };
            match fold_field(&kvs, &mut acc, frags[i].pos) {
                Err(e) => {
                    return Err(e);
                },
                Ok(_) => {},
            }
            i += 1;
        }
        proof {
            assert(fragments_view(frags@).skip(frags@.len() as int) =~= Seq::<
                FragmentModel,
            >::empty());
        }
        Ok(acc)
    }
}

/// The per-container options that folding the parsed list `kvs` over the
/// partial result resolves to.  `bset` and `aset` record whether the
/// constraint list and the extra-parameter list have been declared, so that
/// an empty declaration still counts for duplicate detection.
pub open spec fn spec_fold_container(
    kvs: Seq<KvPairModel>,
    acc: ContainerOptionsModel,
    bset: bool,
    aset: bool,
    pos: Pos,
) -> Result<(ContainerOptionsModel, bool, bool), Error>
    decreases kvs.len(),
{
    if kvs.len() == 0 {
        Result::Ok((acc, bset, aset))
    } else {
        let kv = kvs[0];
        let rest = kvs.drop_first();
        let err = Result::<(ContainerOptionsModel, bool, bool), Error>::Err(
            Error { kind: ErrorKind::InvalidOptionSyntax, pos },
        );
        match spec_key_id(kv.key) {
            KeyId::KConstFn => if kv.payload is Some || acc.const_fn {
                err
            } else {
                spec_fold_container(
                    rest,
                    ContainerOptionsModel { const_fn: true, ..acc },
                    bset,
                    aset,
                    pos,
                )
            },
            KeyId::KDefault => if kv.payload is Some || acc.default {
                err
            } else {
                spec_fold_container(
                    rest,
                    ContainerOptionsModel { default: true, ..acc },
                    bset,
                    aset,
                    pos,
                )
            },
            KeyId::KVis => match kv.payload {
                Option::None => err,
                Option::Some(p) => if acc.vis is Some {
                    err
                } else {
                    spec_fold_container(
                        rest,
                        ContainerOptionsModel { vis: Option::Some(spec_trim(p)), ..acc },
                        bset,
                        aset,
                        pos,
                    )
                },
            },
            KeyId::KName => match kv.payload {
                Option::None => err,
                Option::Some(p) => match spec_ident_payload(p) {
                    Option::None => err,
                    Option::Some(id) => if acc.name is Some {
                        err
                    } else {
                        spec_fold_container(
                            rest,
                            ContainerOptionsModel { name: Option::Some(id), ..acc },
                            bset,
                            aset,
                            pos,
                        )
                    },
                },
            },
            KeyId::KComment => match kv.payload {
                Option::None => err,
                Option::Some(p) => match spec_str_payload(p) {
                    Option::None => err,
                    Option::Some(c) => if acc.comment is Some {
                        err
                    } else {
                        spec_fold_container(
                            rest,
                            ContainerOptionsModel { comment: Option::Some(c), ..acc },
                            bset,
                            aset,
                            pos,
                        )
                    },
                },
            },
            KeyId::KBounds => match kv.payload {
                Option::None => err,
                Option::Some(p) => match spec_parse_list(p, 0) {
                    Option::None => err,
                    Option::Some(pieces) => if bset {
                        err
                    } else {
                        spec_fold_container(
                            rest,
                            ContainerOptionsModel { bounds: pieces, ..acc },
                            true,
                            aset,
                            pos,
                        )
                    },
                },
            },
            KeyId::KArgs => match kv.payload {
                Option::None => err,
                Option::Some(p) => match spec_parse_list(p, 0) {
                    Option::None => err,
                    Option::Some(pieces) => match spec_minifields_of(pieces) {
                        Option::None => err,
                        Option::Some(ms) => if aset {
                            err
                        } else {
                            spec_fold_container(
                                rest,
                                ContainerOptionsModel { args: ms, ..acc },
                                bset,
                                true,
                                pos,
                            )
                        },
                    },
                },
            },
            _ => err,
        }
    }
}

/// Folds the parsed list `kvs` over the partial result `acc`, `bset`,
/// `aset`.
#[verifier::rlimit(100)]
fn fold_container(
    kvs: &Vec<KvPair>,
    acc: &mut ContainerOptions,
    bset: &mut bool,
    aset: &mut bool,
    pos: Pos,
) -> (r: Result<(), Error>)
    ensures
        (match r {
            Result::Ok(_) => Result::<(ContainerOptionsModel, bool, bool), Error>::Ok(
                (final(acc)@, *final(bset), *final(aset)),
            ),
            Result::Err(e) => Result::<(ContainerOptionsModel, bool, bool), Error>::Err(e),
        }) == spec_fold_container(kvs_view(kvs@), old(acc)@, *old(bset), *old(aset), pos),
{
    let ghost init_m = old(acc)@;
    let ghost binit = *old(bset);
    let ghost ainit = *old(aset);
    let mut i: usize = 0;
    proof {
        assert(kvs_view(kvs@).skip(0) =~= kvs_view(kvs@));
    }
    while i < kvs.len()
        invariant
            i <= kvs@.len(),
            init_m == old(acc)@,
            binit == *old(bset),
            ainit == *old(aset),
            spec_fold_container(kvs_view(kvs@), init_m, binit, ainit, pos) == spec_fold_container(
                kvs_view(kvs@).skip(i as int),
                acc@,
                *bset,
                *aset,
                pos,
            ),
        decreases kvs@.len() - i,
    {
        proof {
            assert(kvs_view(kvs@).skip(i as int)[0] == kvs@[i as int]@);
            assert(kvs_view(kvs@).skip(i as int).drop_first() =~= kvs_view(kvs@).skip(i + 1));
        }
        let kv = &kvs[i];
        match key_id(&kv.key) {
            KeyId::KConstFn => {
                if kv.payload.is_some() || acc.const_fn {
                    return Err(Error::new(ErrorKind::InvalidOptionSyntax, pos));
                }
                acc.const_fn = true;
            },
            KeyId::KDefault => {
                if kv.payload.is_some() || acc.default {
                    return Err(Error::new(ErrorKind::InvalidOptionSyntax, pos));
                }
                acc.default = true;
            },
            KeyId::KVis => {
                match &kv.payload {
                    None => {
                        return Err(Error::new(ErrorKind::InvalidOptionSyntax, pos));
                    },
                    Some(p) => {
                        if acc.vis.is_some() {
                            return Err(Error::new(ErrorKind::InvalidOptionSyntax, pos));
                        }
                        acc.vis = Some(trim_vec(p));
                    },
                }
            },
            KeyId::KName => {
                match &kv.payload {
                    None => {
                        return Err(Error::new(ErrorKind::InvalidOptionSyntax, pos));
                    },
                    Some(p) => {
                        match ident_payload(p) {
                            None => {
                                return Err(Error::new(ErrorKind::InvalidOptionSyntax, pos));
                            },
                            Some(id) => {
                                if acc.name.is_some() {
                                    return Err(Error::new(ErrorKind::InvalidOptionSyntax, pos));
                                }
                                acc.name = Some(id);
                            },
                        }
                    },
                }
            },
            KeyId::KComment => {
                match &kv.payload {
                    None => {
                        return Err(Error::new(ErrorKind::InvalidOptionSyntax, pos));
                    },
                    Some(p) => {
                        match str_payload(p) {
                            None => {
                                return Err(Error::new(ErrorKind::InvalidOptionSyntax, pos));
                            },
                            Some(c) => {
                                if acc.comment.is_some() {
                                    return Err(Error::new(ErrorKind::InvalidOptionSyntax, pos));
                                }
                                acc.comment = Some(c);
                            },
                        }
                    },
                }
            },
            KeyId::KBounds => {
                match &kv.payload {
                    None => {
                        return Err(Error::new(ErrorKind::InvalidOptionSyntax, pos));
                    },
                    Some(p) => {
                        match parse_list(p) {
                            None => {
                                return Err(Error::new(ErrorKind::InvalidOptionSyntax, pos));
                            },
                            Some(pieces) => {
                                if *bset {
                                    return Err(Error::new(ErrorKind::InvalidOptionSyntax, pos));
                                }
                                acc.bounds = pieces;
                                *bset = true;
                            },
                        }
                    },
                }
            },
            KeyId::KArgs => {
                match &kv.payload {
                    None => {
                        return Err(Error::new(ErrorKind::InvalidOptionSyntax, pos));
                    },
                    Some(p) => {
                        match parse_list(p) {
                            None => {
                                return Err(Error::new(ErrorKind::InvalidOptionSyntax, pos));
                            },
                            Some(pieces) => {
                                match minifields_of(&pieces) {
                                    None => {
                                        return Err(
                                            Error::new(ErrorKind::InvalidOptionSyntax, pos),
                                        );
                                    },
                                    Some(ms) => {
                                        if *aset {
                                            return Err(
                                                Error::new(ErrorKind::InvalidOptionSyntax, pos),
                                            );
                                        }
                                        acc.args = ms;
                                        *aset = true;
                                    },
                                }
                            },
                        }
                    },
                }
            },
            _ => {
                return Err(Error::new(ErrorKind::InvalidOptionSyntax, pos));
            },
        }
        i += 1;
    }
    proof {
        assert(kvs_view(kvs@).skip(kvs@.len() as int) =~= Seq::<KvPairModel>::empty());
    }
    Ok(())
}

/// The per-container options that the fragments in `frags`, taken in
/// order, resolve to over the partial result; the first malformed fragment
/// fails, attributed to its own position.
pub open spec fn spec_container_options_rec(
    frags: Seq<FragmentModel>,
    acc: ContainerOptionsModel,
    bset: bool,
    aset: bool,
) -> Result<ContainerOptionsModel, Error>
    decreases frags.len(),
{
    if frags.len() == 0 {
        Result::Ok(acc)
    } else {
        match spec_parse_opts(frags[0].text, 0) {
            Option::None => Result::Err(
                Error { kind: ErrorKind::InvalidOptionSyntax, pos: frags[0].pos },
            ),
            Option::Some(kvs) => match spec_fold_container(kvs, acc, bset, aset, frags[0].pos) {
                Result::Err(e) => Result::Err(e),
                Result::Ok(o) => spec_container_options_rec(frags.drop_first(), o.0, o.1, o.2),
            },
        }
    }
}

/// The per-container options an entity's fragments resolve to: every
/// fragment parsed and folded in order, starting from all options unset.
pub open spec fn spec_container_options(frags: Seq<FragmentModel>) -> Result<
    ContainerOptionsModel,
    Error,
> {
    spec_container_options_rec(frags, spec_container_unset(), false, false)
}

impl ContainerOptions {
    /// The per-container options the fragments `frags` resolve to, or the
    /// failure the first malformed fragment raises.
    pub fn from_fragments(frags: &Vec<Fragment>) -> (r: Result<ContainerOptions, Error>)
        ensures
            (match r {
                Result::Ok(o) => Result::<ContainerOptionsModel, Error>::Ok(o@),
                Result::Err(e) => Result::<ContainerOptionsModel, Error>::Err(e),
            }) == spec_container_options(fragments_view(frags@)),
    {
        let mut acc = ContainerOptions::unset();
        let mut bset = false;
        let mut aset = false;
        let mut i: usize = 0;
        proof {
            assert(fragments_view(frags@).skip(0) =~= fragments_view(frags@));
        }
        while i < frags.len()
            invariant
                i <= frags@.len(),
                spec_container_options(fragments_view(frags@)) == spec_container_options_rec(
                    fragments_view(frags@).skip(i as int),
                    acc@,
                    bset,
                    aset,
                ),
            decreases frags@.len() - i,
        {
            proof {
                assert(fragments_view(frags@).skip(i as int)[0] == frags@[i as int]@);
                assert(fragments_view(frags@).skip(i as int).drop_first() =~= fragments_view(
                    frags@,
                ).skip(i + 1));
            }
            let kvs = match parse_kvs(&frags[i].text) {
                None => {
                    return Err(Error::new(ErrorKind::InvalidOptionSyntax, frags[i].pos));
                },
                Some(kvs) => kvs,
            };
            match fold_container(&kvs, &mut acc, &mut bset, &mut aset, frags[i].pos) {
                Err(e) => {
                    return Err(e);
                },
                Ok(_) => {},
            }
            i += 1;
        }
        proof {
            assert(fragments_view(frags@).skip(frags@.len() as int) =~= Seq::<
                FragmentModel,
            >::empty());
        }
        Ok(acc)
    }
}

} // verus!
