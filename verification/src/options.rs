//! The normalized configuration model.
//!
//! [`FieldOptions`] holds the per-field settings and [`ContainerOptions`] the
//! per-type settings, after the raw annotation fragments have been parsed and
//! validated.  Both are plain data; resolving them from fragments lives in
//! [`crate::annot`].

use vstd::prelude::*;
use crate::types::MiniField;
use crate::types::MiniFieldModel;

verus! {

/// Per-field configuration.
#[derive(Debug)]
pub struct FieldOptions {
    /// Omit the field from the argument list and initialize it through the
    /// zero-value contract.
    pub default: bool,
    /// Take the argument by reference and copy it into the field.
    pub clone: bool,
    /// Accept any value convertible into the field's type and convert at
    /// assignment.
    pub into: bool,
    /// Argument name to use instead of the field's own name.
    pub name: Option<Vec<char>>,
    /// A fixed expression to initialize with instead of an argument.
    pub value: Option<Vec<char>>,
}

/// The mathematical model of [`FieldOptions`].
pub struct FieldOptionsModel {
    /// Model of [`FieldOptions::default`].
    pub default: bool,
    /// Model of [`FieldOptions::clone`].
    pub clone: bool,
    /// Model of [`FieldOptions::into`].
    pub into: bool,
    /// Model of [`FieldOptions::name`].
    pub name: Option<Seq<char>>,
    /// Model of [`FieldOptions::value`].
    pub value: Option<Seq<char>>,
}

impl View for FieldOptions {
    type V = FieldOptionsModel;

    open spec fn view(&self) -> FieldOptionsModel {
        FieldOptionsModel {
            default: self.default,
            clone: self.clone,
            into: self.into,
            name: match self.name {
                Option::Some(ref n) => Option::Some(n@),
                Option::None => Option::None,
            },
            value: match self.value {
                Option::Some(ref v) => Option::Some(v@),
                Option::None => Option::None,
            },
        }
    }
}

/// Whether options `o` make the argument pass by reference.
pub open spec fn spec_uses_reference(o: FieldOptionsModel) -> bool {
    o.clone
}

/// Whether options `o` suppress the field's constructor argument.
pub open spec fn spec_should_skip_args(o: FieldOptionsModel) -> bool {
    o.default || o.value is Some
}

impl FieldOptions {
    /// Per-field settings with every option off.
    pub fn unset() -> (r: FieldOptions)
        ensures
            r@ == (FieldOptionsModel {
                default: false,
                clone: false,
                into: false,
                name: Option::None,
                value: Option::None,
            }),
    {
        FieldOptions { default: false, clone: false, into: false, name: None, value: None }
    }

    /// Whether the constructor argument is taken by reference.
    pub fn uses_reference(&self) -> (r: bool)
        ensures
            r == spec_uses_reference(self@),
    {
        self.clone
    }

    /// Whether the field is left out of the constructor's argument list.
    pub fn should_skip_args(&self) -> (r: bool)
        ensures
            r == spec_should_skip_args(self@),
    {
        self.default || self.value.is_some()
    }
}

/// Per-container configuration.
#[derive(Debug)]
pub struct ContainerOptions {
    /// Make the constructor usable in constant-evaluation contexts.
    pub const_fn: bool,
    /// Also emit a zero-argument factory implementation; only valid when the
    /// resolved parameter list is empty.
    pub default: bool,
    /// Visibility of the constructor; `None` means public, an empty snippet
    /// means private.
    pub vis: Option<Vec<char>>,
    /// Name of the constructor; `None` means the fixed default name.
    pub name: Option<Vec<char>>,
    /// Doc text for the constructor; `None` means a generated sentence.
    pub comment: Option<Vec<char>>,
    /// Generic constraints appended as a trailing clause, in declaration
    /// order.
    pub bounds: Vec<Vec<char>>,
    /// Extra parameters placed ahead of the field-derived ones, in
    /// declaration order.
    pub args: Vec<MiniField>,
}

/// The mathematical model of [`ContainerOptions`].
pub struct ContainerOptionsModel {
    /// Model of [`ContainerOptions::const_fn`].
    pub const_fn: bool,
    /// Model of [`ContainerOptions::default`].
    pub default: bool,
    /// Model of [`ContainerOptions::vis`].
    pub vis: Option<Seq<char>>,
    /// Model of [`ContainerOptions::name`].
    pub name: Option<Seq<char>>,
    /// Model of [`ContainerOptions::comment`].
    pub comment: Option<Seq<char>>,
    /// Model of [`ContainerOptions::bounds`].
    pub bounds: Seq<Seq<char>>,
    /// Model of [`ContainerOptions::args`].
    pub args: Seq<MiniFieldModel>,
}

impl View for ContainerOptions {
    type V = ContainerOptionsModel;

    open spec fn view(&self) -> ContainerOptionsModel {
        ContainerOptionsModel {
            const_fn: self.const_fn,
            default: self.default,
            vis: match self.vis {
                Option::Some(ref v) => Option::Some(v@),
                Option::None => Option::None,
            },
            name: match self.name {
                Option::Some(ref n) => Option::Some(n@),
                Option::None => Option::None,
            },
            comment: match self.comment {
                Option::Some(ref c) => Option::Some(c@),
                Option::None => Option::None,
            },
            bounds: self.bounds@.map_values(|b: Vec<char>| b@),
            args: self.args@.map_values(|a: MiniField| a@),
        }
    }
}

/// The model of container settings with every option off: what an input
/// without container-level fragments resolves to.
pub open spec fn spec_container_unset() -> ContainerOptionsModel {
    ContainerOptionsModel {
        const_fn: false,
        default: false,
        vis: Option::None,
        name: Option::None,
        comment: Option::None,
        bounds: Seq::empty(),
        args: Seq::empty(),
    }
}

impl ContainerOptions {
    /// Per-container settings with every option off.
    pub fn unset() -> (r: ContainerOptions)
        ensures
            r@ == spec_container_unset(),
    {
        let r = ContainerOptions {
            const_fn: false,
            default: false,
            vis: None,
            name: None,
            comment: None,
            bounds: Vec::new(),
            args: Vec::new(),
        };
        proof {
            assert(r@.bounds =~= spec_container_unset().bounds);
            assert(r@.args =~= spec_container_unset().args);
        }
        r
    }
}

} // verus!
