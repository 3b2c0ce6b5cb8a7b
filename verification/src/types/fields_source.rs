//! The validated structural descriptor: a plain shape, or one selected
//! variant of a tagged union.

use vstd::prelude::*;
use crate::error::Error;
use crate::input::{RawShape, RawShapeModel};
use super::field::{spec_collect_fields, Field, FieldModel};
use super::fields::{Fields, FieldsModel};

verus! {

/// Where the constructed fields come from: the type itself, or its one
/// selected variant.
#[derive(Debug)]
pub enum FieldsSource {
    /// A struct-like type: the field list is the type's own.
    Struct(Fields),
    /// A tagged union: construction is qualified by the selected variant's
    /// name.
    Enum {
        /// The selected variant's name.
        variant: Vec<char>,
        /// The selected variant's field list.
        fields: Fields,
    },
}

/// The mathematical model of [`FieldsSource`].
pub enum FieldsSourceModel {
    /// Model of [`FieldsSource::Struct`].
    Struct(FieldsModel),
    /// Model of [`FieldsSource::Enum`].
    Enum {
        /// The selected variant's name.
        variant: Seq<char>,
        /// The selected variant's field list.
        fields: FieldsModel,
    },
}

impl View for FieldsSource {
    type V = FieldsSourceModel;

    open spec fn view(&self) -> FieldsSourceModel {
        match self {
            FieldsSource::Struct(f) => FieldsSourceModel::Struct(f@),
            FieldsSource::Enum { variant, fields } => FieldsSourceModel::Enum {
                variant: variant@,
                fields: fields@,
            },
        }
    }
}

/// The field list of a source, whichever case it is.
pub open spec fn spec_fields_of(s: FieldsSourceModel) -> FieldsModel {
    match s {
        FieldsSourceModel::Struct(f) => f,
        FieldsSourceModel::Enum { variant: _, fields } => fields,
    }
}

impl FieldsSource {
    /// The field list, whichever case this is.
    pub fn fields(&self) -> (r: &Fields)
        ensures
            r@ == spec_fields_of(self@),
    {
        match *self {
            FieldsSource::Struct(ref fields) => fields,
            FieldsSource::Enum { ref fields, .. } => fields,
        }
    }
}

/// The field list that a raw shape resolves to: each field's options parsed
/// and validated, positional fields given their synthetic names.
pub open spec fn spec_fields_of_shape(shape: RawShapeModel) -> Result<FieldsModel, Error> {
    match shape {
        RawShapeModel::Unit => Result::Ok(FieldsModel::Unit),
        RawShapeModel::Named(l) => match spec_collect_fields(l, true) {
            Result::Err(e) => Result::Err(e),
            Result::Ok(fs) => Result::Ok(FieldsModel::Named(fs)),
        },
        RawShapeModel::Unnamed(l) => match spec_collect_fields(l, false) {
            Result::Err(e) => Result::Err(e),
            Result::Ok(fs) => Result::Ok(FieldsModel::Unnamed(fs)),
        },
    }
}

impl Fields {
    /// The field list that the raw shape `shape` resolves to, or the failure
    /// the first malformed field raises.
    pub fn try_from(shape: &RawShape) -> (r: Result<Fields, Error>)
        ensures
            (match r {
                Result::Ok(f) => Result::<FieldsModel, Error>::Ok(f@),
                Result::Err(e) => Result::<FieldsModel, Error>::Err(e),
            }) == spec_fields_of_shape(shape@),
    {
        match shape {
            RawShape::Unit => Ok(Fields::Unit),
            RawShape::Named(l) => match Field::collect(l, true) {
                Err(e) => Err(e),
                Ok(fs) => Ok(Fields::Named(fs)),
            },
            RawShape::Unnamed(l) => match Field::collect(l, false) {
                Err(e) => Err(e),
                Ok(fs) => Ok(Fields::Unnamed(fs)),
            },
        }
    }
}

} // verus!
