//! The shape of a field list.

use vstd::prelude::*;
use crate::options::spec_should_skip_args;
use super::field::{fields_view_of, Field, FieldModel};

verus! {

/// A field list: absent, named, or positional.
#[derive(Debug)]
pub enum Fields {
    /// No fields at all.
    Unit,
    /// Fields with declared names, in declaration order.
    Named(Vec<Field>),
    /// Positional fields, in declaration order, under synthetic internal
    /// names.
    Unnamed(Vec<Field>),
}

/// The mathematical model of [`Fields`].
pub enum FieldsModel {
    /// Model of [`Fields::Unit`].
    Unit,
    /// Model of [`Fields::Named`].
    Named(Seq<FieldModel>),
    /// Model of [`Fields::Unnamed`].
    Unnamed(Seq<FieldModel>),
}

impl View for Fields {
    type V = FieldsModel;

    open spec fn view(&self) -> FieldsModel {
        match self {
            Fields::Unit => FieldsModel::Unit,
            Fields::Named(l) => FieldsModel::Named(fields_view_of(l@)),
            Fields::Unnamed(l) => FieldsModel::Unnamed(fields_view_of(l@)),
        }
    }
}

/// The field list of a shape, tagged with whether the fields are named;
/// `None` for the unit shape.
pub open spec fn spec_to_slice(f: FieldsModel) -> Option<(bool, Seq<FieldModel>)> {
    match f {
        FieldsModel::Unit => Option::None,
        FieldsModel::Named(l) => Option::Some((true, l)),
        FieldsModel::Unnamed(l) => Option::Some((false, l)),
    }
}

/// Whether every field of the shape is left out of the argument list, so the
/// constructor takes no field-derived parameters.
pub open spec fn spec_is_argless(f: FieldsModel) -> bool {
    match spec_to_slice(f) {
        Option::None => true,
        Option::Some((_named, l)) => forall|i: int|
            0 <= i < l.len() ==> spec_should_skip_args(#[trigger] l[i].opts),
    }
}

impl Fields {
    /// The field list and whether its fields are named; `None` for the unit
    /// shape.
    pub fn to_slice(&self) -> (r: Option<(bool, &Vec<Field>)>)
        ensures
            match r {
                Option::None => spec_to_slice(self@) is None,
                Option::Some((named, l)) => spec_to_slice(self@) == Option::Some(
                    (named, fields_view_of(l@)),
                ),
            },
    {
        match *self {
            Fields::Unit => None,
            Fields::Named(ref fields) => Some((true, fields)),
            Fields::Unnamed(ref fields) => Some((false, fields)),
        }
    }

    /// The field list and whether its fields are named, by value; `None` for
    /// the unit shape.
    pub fn into_vec(self) -> (r: Option<(bool, Vec<Field>)>)
        ensures
            match r {
                Option::None => spec_to_slice(self@) is None,
                Option::Some((named, l)) => spec_to_slice(self@) == Option::Some(
                    (named, fields_view_of(l@)),
                ),
            },
    {
        match self {
            Fields::Unit => None,
            Fields::Named(fields) => Some((true, fields)),
            Fields::Unnamed(fields) => Some((false, fields)),
        }
    }

    /// Whether the constructor will take no field-derived parameters.
    pub fn is_argless(&self) -> (r: bool)
        ensures
            r == spec_is_argless(self@),
    {
        if let Some((_, fields)) = self.to_slice() {
            let mut i: usize = 0;
            while i < fields.len()
                invariant
                    i <= fields.len(),
                    spec_to_slice(self@) == Option::Some((
                        spec_to_slice(self@)->Some_0.0,
                        fields_view_of(fields@),
                    )),
                    forall|j: int|
                        0 <= j < i ==> spec_should_skip_args(
                            #[trigger] fields_view_of(fields@)[j].opts,
                        ),
                decreases fields.len() - i,
            {
                if !fields[i].opts.should_skip_args() {
                    assert(!spec_should_skip_args(fields_view_of(fields@)[i as int].opts));
                    return false;
                }
                i += 1;
            }
            true
        } else {
            true
        }
    }
}

} // verus!
