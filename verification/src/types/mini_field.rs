//! An extra constructor parameter: a name and a type.

use vstd::prelude::*;

verus! {

/// One declared extra parameter: its name and its opaque type snippet.
#[derive(Debug)]
pub struct MiniField {
    /// The parameter's name.
    pub ident: Vec<char>,
    /// The parameter's type, kept verbatim.
    pub ty: Vec<char>,
}

/// The mathematical model of [`MiniField`].
pub struct MiniFieldModel {
    /// Model of [`MiniField::ident`].
    pub ident: Seq<char>,
    /// Model of [`MiniField::ty`].
    pub ty: Seq<char>,
}

impl View for MiniField {
    type V = MiniFieldModel;

    open spec fn view(&self) -> MiniFieldModel {
        MiniFieldModel { ident: self.ident@, ty: self.ty@ }
    }
}

} // verus!
