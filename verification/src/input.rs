//! The raw structural input, as handed over by the front end.
//!
//! The front end parses source text, collects for each entity the annotation
//! fragments scoped to the recognized marker, and hands everything here as
//! plain values: names and type snippets as character sequences, fragments as
//! their textual content plus a source position.  Nothing in this module is
//! validated yet; the descriptor builder in [`crate::parse`] is the
//! validation gate.

use vstd::prelude::*;
use crate::pos::Pos;

verus! {

/// One annotation fragment scoped to the recognized marker: its textual
/// key/value content (the text between the marker's parentheses, or empty
/// for a bare marker) and its source position.
#[derive(Debug)]
pub struct Fragment {
    /// The fragment's key/value text.
    pub text: Vec<char>,
    /// The source region of the fragment.
    pub pos: Pos,
}

/// The mathematical model of [`Fragment`].
pub struct FragmentModel {
    /// Model of [`Fragment::text`].
    pub text: Seq<char>,
    /// Model of [`Fragment::pos`].
    pub pos: Pos,
}

impl View for Fragment {
    type V = FragmentModel;

    open spec fn view(&self) -> FragmentModel {
        FragmentModel { text: self.text@, pos: self.pos }
    }
}

/// The model of a fragment list.
pub open spec fn fragments_view(l: Seq<Fragment>) -> Seq<FragmentModel> {
    l.map_values(|f: Fragment| f@)
}

/// One raw field: its declared name (absent for a positional field), its
/// annotation fragments, and its declared type, kept verbatim.
#[derive(Debug)]
pub struct RawField {
    /// The declared name, or `None` for a positional field.
    pub name: Option<Vec<char>>,
    /// The field's marker-scoped annotation fragments.
    pub attrs: Vec<Fragment>,
    /// The declared type, kept verbatim.
    pub ty: Vec<char>,
}

/// The mathematical model of [`RawField`].
pub struct RawFieldModel {
    /// Model of [`RawField::name`].
    pub name: Option<Seq<char>>,
    /// Model of [`RawField::attrs`].
    pub attrs: Seq<FragmentModel>,
    /// Model of [`RawField::ty`].
    pub ty: Seq<char>,
}

impl View for RawField {
    type V = RawFieldModel;

    open spec fn view(&self) -> RawFieldModel {
        RawFieldModel {
            name: match self.name {
                Option::Some(ref n) => Option::Some(n@),
                Option::None => Option::None,
            },
            attrs: fragments_view(self.attrs@),
            ty: self.ty@,
        }
    }
}

/// The model of a raw field list.
pub open spec fn raw_fields_view(l: Seq<RawField>) -> Seq<RawFieldModel> {
    l.map_values(|f: RawField| f@)
}

/// The raw shape of a field list.
#[derive(Debug)]
pub enum RawShape {
    /// No fields at all.
    Unit,
    /// Fields with declared names, in declaration order.
    Named(Vec<RawField>),
    /// Positional fields, in declaration order.
    Unnamed(Vec<RawField>),
}

/// The mathematical model of [`RawShape`].
pub enum RawShapeModel {
    /// Model of [`RawShape::Unit`].
    Unit,
    /// Model of [`RawShape::Named`].
    Named(Seq<RawFieldModel>),
    /// Model of [`RawShape::Unnamed`].
    Unnamed(Seq<RawFieldModel>),
}

impl View for RawShape {
    type V = RawShapeModel;

    open spec fn view(&self) -> RawShapeModel {
        match self {
            RawShape::Unit => RawShapeModel::Unit,
            RawShape::Named(l) => RawShapeModel::Named(raw_fields_view(l@)),
            RawShape::Unnamed(l) => RawShapeModel::Unnamed(raw_fields_view(l@)),
        }
    }
}

/// One variant of a tagged union, before selection.
#[derive(Debug)]
pub struct RawVariant {
    /// The variant's name.
    pub name: Vec<char>,
    /// The source region of the variant's name.
    pub name_pos: Pos,
    /// Whether the variant carries the bare selection marker.
    pub marked: bool,
    /// The variant's own field shape.
    pub shape: RawShape,
}

/// The mathematical model of [`RawVariant`].
pub struct RawVariantModel {
    /// Model of [`RawVariant::name`].
    pub name: Seq<char>,
    /// Model of [`RawVariant::name_pos`].
    pub name_pos: Pos,
    /// Model of [`RawVariant::marked`].
    pub marked: bool,
    /// Model of [`RawVariant::shape`].
    pub shape: RawShapeModel,
}

impl View for RawVariant {
    type V = RawVariantModel;

    open spec fn view(&self) -> RawVariantModel {
        RawVariantModel {
            name: self.name@,
            name_pos: self.name_pos,
            marked: self.marked,
            shape: self.shape@,
        }
    }
}

/// The model of a raw variant list.
pub open spec fn raw_variants_view(l: Seq<RawVariant>) -> Seq<RawVariantModel> {
    l.map_values(|v: RawVariant| v@)
}

/// The raw data of the type being processed.
#[derive(Debug)]
pub enum RawData {
    /// A struct-like type with one field shape.
    Struct(RawShape),
    /// A tagged union.
    Enum {
        /// The source region of the tagged union's own keyword.
        kw_pos: Pos,
        /// The variants, in declaration order.
        variants: Vec<RawVariant>,
    },
    /// An untagged union, which is categorically rejected.
    Union {
        /// The source region of the union marker.
        kw_pos: Pos,
    },
}

/// The mathematical model of [`RawData`].
pub enum RawDataModel {
    /// Model of [`RawData::Struct`].
    Struct(RawShapeModel),
    /// Model of [`RawData::Enum`].
    Enum {
        /// The source region of the tagged union's own keyword.
        kw_pos: Pos,
        /// The variants, in declaration order.
        variants: Seq<RawVariantModel>,
    },
    /// Model of [`RawData::Union`].
    Union {
        /// The source region of the union marker.
        kw_pos: Pos,
    },
}

impl View for RawData {
    type V = RawDataModel;

    open spec fn view(&self) -> RawDataModel {
        match self {
            RawData::Struct(s) => RawDataModel::Struct(s@),
            RawData::Enum { kw_pos, variants } => RawDataModel::Enum {
                kw_pos: *kw_pos,
                variants: raw_variants_view(variants@),
            },
            RawData::Union { kw_pos } => RawDataModel::Union { kw_pos: *kw_pos },
        }
    }
}

/// The generic parameters of the type, as three opaque snippets prepared by
/// the front end: the declaration list (with its constraints), the use-site
/// list (names only), and the type's own trailing constraint clause.  An
/// empty snippet stands for an absent part.
#[derive(Debug)]
pub struct Generics {
    /// The bracketed declaration list, constraints included.
    pub impl_generics: Vec<char>,
    /// The bracketed use-site list, names only.
    pub type_generics: Vec<char>,
    /// The type's own trailing constraint clause.
    pub where_clause: Vec<char>,
}

/// The mathematical model of [`Generics`].
pub struct GenericsModel {
    /// Model of [`Generics::impl_generics`].
    pub impl_generics: Seq<char>,
    /// Model of [`Generics::type_generics`].
    pub type_generics: Seq<char>,
    /// Model of [`Generics::where_clause`].
    pub where_clause: Seq<char>,
}

impl View for Generics {
    type V = GenericsModel;

    open spec fn view(&self) -> GenericsModel {
        GenericsModel {
            impl_generics: self.impl_generics@,
            type_generics: self.type_generics@,
            where_clause: self.where_clause@,
        }
    }
}

/// The raw structural input for one invocation.
#[derive(Debug)]
pub struct RawInput {
    /// The name of the type being processed.
    pub name: Vec<char>,
    /// The source region of the type's own name: the fallback position when
    /// fragment positions cannot be merged into anything smaller.
    pub type_pos: Pos,
    /// The type's generic parameters.
    pub generics: Generics,
    /// The type's data.
    pub data: RawData,
    /// The container-level marker-scoped annotation fragments.
    pub attrs: Vec<Fragment>,
}

/// The mathematical model of [`RawInput`].
pub struct RawInputModel {
    /// Model of [`RawInput::name`].
    pub name: Seq<char>,
    /// Model of [`RawInput::type_pos`].
    pub type_pos: Pos,
    /// Model of [`RawInput::generics`].
    pub generics: GenericsModel,
    /// Model of [`RawInput::data`].
    pub data: RawDataModel,
    /// Model of [`RawInput::attrs`].
    pub attrs: Seq<FragmentModel>,
}

impl View for RawInput {
    type V = RawInputModel;

    open spec fn view(&self) -> RawInputModel {
        RawInputModel {
            name: self.name@,
            type_pos: self.type_pos,
            generics: self.generics@,
            data: self.data@,
            attrs: fragments_view(self.attrs@),
        }
    }
}

} // verus!
