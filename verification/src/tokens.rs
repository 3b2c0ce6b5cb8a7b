//! The output token model.
//!
//! Synthesis emits a flat, ordered sequence of [`Token`]s describing one or
//! two implementation blocks.  Keywords and punctuation that the engine emits
//! on its own are closed enums; identifiers, literals, and opaque snippets
//! taken from the input carry their text.  A renderer (outside the library)
//! maps each token to source text; it makes no decisions beyond spelling.

use vstd::prelude::*;

verus! {

/// A delimiter kind for paired `Open`/`Close` tokens.
#[derive(Clone, Copy, Debug, PartialEq, Eq, Structural)]
pub enum Delim {
    /// `(` ... `)`
    Paren,
    /// `{` ... `}`
    Brace,
    /// `[` ... `]`
    Bracket,
}

/// A fixed identifier or keyword the engine emits on its own.
///
/// Variants are named by role; the renderer maps each to its spelling, given
/// in the doc comment.
#[derive(Clone, Copy, Debug, PartialEq, Eq, Structural)]
pub enum Kw {
    /// `impl`
    Impl,
    /// `for`
    For,
    /// `pub`
    Pub,
    /// `const`
    Const,
    /// `fn`
    Fn,
    /// `Self`
    SelfUpper,
    /// `where`
    Where,
    /// `doc`
    Doc,
    /// `allow`
    Allow,
    /// `clippy`
    Clippy,
    /// `all`
    All,
    /// `automatically_derived`
    AutomaticallyDerived,
    /// `inline`
    Inline,
    /// `core`
    Core,
    /// `default` (the module segment)
    DefaultMod,
    /// `Default` (the trait)
    DefaultTrait,
    /// `default` (the zero-value operation)
    DefaultFn,
    /// `convert`
    Convert,
    /// `Into` (the conversion trait)
    IntoTrait,
    /// `into` (the conversion call)
    IntoFn,
    /// `clone` (the copy call)
    CloneFn,
    /// `new` (the constructor name used when none is configured)
    New,
}

/// A punctuation token.
#[derive(Clone, Copy, Debug, PartialEq, Eq, Structural)]
pub enum Punct {
    /// `#`
    Hash,
    /// `:`
    Colon,
    /// `::`
    PathSep,
    /// `,`
    Comma,
    /// `->`
    Arrow,
    /// `&`
    And,
    /// `=`
    Eq,
    /// `.`
    Dot,
    /// `<`
    Lt,
    /// `>`
    Gt,
}

/// One output token.
#[derive(Clone, Debug, PartialEq, Eq)]
pub enum Token {
    /// A fixed identifier or keyword.
    Kw(Kw),
    /// Punctuation.
    Punct(Punct),
    /// The opening half of a delimited group.
    Open(Delim),
    /// The closing half of a delimited group.
    Close(Delim),
    /// An identifier taken from the input.
    Ident(Vec<char>),
    /// A string literal; the text is the literal's content, without quotes.
    Lit(Vec<char>),
    /// An opaque snippet taken verbatim from the input (a type, an
    /// expression, a visibility, a generic constraint).
    Snip(Vec<char>),
}

/// The mathematical model of one output token.
#[verifier::ext_equal]
pub enum TokenModel {
    /// A fixed identifier or keyword.
    Kw(Kw),
    /// Punctuation.
    Punct(Punct),
    /// The opening half of a delimited group.
    Open(Delim),
    /// The closing half of a delimited group.
    Close(Delim),
    /// An identifier taken from the input.
    Ident(Seq<char>),
    /// A string literal's content.
    Lit(Seq<char>),
    /// An opaque snippet taken verbatim from the input.
    Snip(Seq<char>),
}

impl View for Token {
    type V = TokenModel;

    open spec fn view(&self) -> TokenModel {
        match self {
            Token::Kw(k) => TokenModel::Kw(*k),
            Token::Punct(p) => TokenModel::Punct(*p),
            Token::Open(d) => TokenModel::Open(*d),
            Token::Close(d) => TokenModel::Close(*d),
            Token::Ident(s) => TokenModel::Ident(s@),
            Token::Lit(s) => TokenModel::Lit(s@),
            Token::Snip(s) => TokenModel::Snip(s@),
        }
    }
}

/// The model of a token sequence: each token replaced by its model.
pub open spec fn toks(s: Seq<Token>) -> Seq<TokenModel> {
    s.map_values(|t: Token| t@)
}

/// The model of a concatenation is the concatenation of the models.
pub proof fn lemma_toks_add(a: Seq<Token>, b: Seq<Token>)
    ensures
        toks(a + b) == toks(a) + toks(b),
{
    assert(toks(a + b) =~= toks(a) + toks(b));
}

} // verus!
