//! A declarative constructor-synthesis engine.
//!
//! Given a structural description of a data type (a flat field list, or one
//! selected variant of a tagged union) together with per-field and
//! per-container configuration fragments, the library validates the
//! configuration and deterministically emits the token sequence of a
//! constructor function, optionally followed by a zero-argument factory
//! implementation.  Turning source text into the structural description, and
//! rendering the emitted tokens back into source text, are left to an
//! unverified front end.

use vstd::prelude::*;

pub mod annot;
pub mod error;
pub mod input;
pub mod laws;
pub mod options;
pub mod parse;
pub mod pos;
pub mod tokenise;
pub mod tokens;
pub mod types;

pub use error::{Error, ErrorKind};
pub use input::{Fragment, FragmentModel, Generics, GenericsModel};
pub use input::{RawData, RawDataModel, RawField, RawFieldModel, RawInput, RawInputModel};
pub use input::{RawShape, RawShapeModel, RawVariant, RawVariantModel};
pub use options::{ContainerOptions, ContainerOptionsModel, FieldOptions, FieldOptionsModel};
pub use pos::Pos;
pub use pos::create_span;
pub use tokens::{Delim, Kw, Punct, Token, TokenModel};
pub use types::{Field, FieldModel, Fields, FieldsModel, FieldsSource, FieldsSourceModel};
pub use types::{MiniField, MiniFieldModel};

verus! {

/// A fully validated constructor description: the type's name and generics,
/// its field source (plain shape or one selected variant), and the resolved
/// per-container options.  Built by [`FancyConstructor::parse`], consumed by
/// [`FancyConstructor::into_token_stream`]; nothing downstream re-validates.
#[derive(Debug)]
pub struct FancyConstructor {
    /// The name of the type being constructed.
    pub struct_name: Vec<char>,
    /// The type's generic parameters.
    pub generics: Generics,
    /// The validated field source.
    pub fields: FieldsSource,
    /// The resolved per-container options.
    pub opts: ContainerOptions,
}

/// The mathematical model of [`FancyConstructor`].
pub struct FancyConstructorModel {
    /// Model of [`FancyConstructor::struct_name`].
    pub struct_name: Seq<char>,
    /// Model of [`FancyConstructor::generics`].
    pub generics: GenericsModel,
    /// Model of [`FancyConstructor::fields`].
    pub fields: FieldsSourceModel,
    /// Model of [`FancyConstructor::opts`].
    pub opts: ContainerOptionsModel,
}

impl View for FancyConstructor {
    type V = FancyConstructorModel;

    open spec fn view(&self) -> FancyConstructorModel {
        FancyConstructorModel {
            struct_name: self.struct_name@,
            generics: self.generics@,
            fields: self.fields@,
            opts: self.opts@,
        }
    }
}

} // verus!
