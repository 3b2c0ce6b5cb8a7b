//! One field of the shape being constructed.

use vstd::prelude::*;
use crate::annot::{spec_field_options, sub_vec};
use crate::error::Error;
use crate::input::{raw_fields_view, RawField, RawFieldModel};
use crate::options::{FieldOptions, FieldOptionsModel};

verus! {

/// One field: its internal name, its resolved options, and its opaque type
/// snippet.  A positional field's internal name is synthetic and never used
/// as an argument name unless the field is renamed.
#[derive(Debug)]
pub struct Field {
    /// The field's internal name.
    pub name: Vec<char>,
    /// The field's resolved options.
    pub opts: FieldOptions,
    /// The field's declared type, kept verbatim.
    pub ty: Vec<char>,
}

/// The mathematical model of [`Field`].
pub struct FieldModel {
    /// Model of [`Field::name`].
    pub name: Seq<char>,
    /// Model of [`Field::opts`].
    pub opts: FieldOptionsModel,
    /// Model of [`Field::ty`].
    pub ty: Seq<char>,
}

impl View for Field {
    type V = FieldModel;

    open spec fn view(&self) -> FieldModel {
        FieldModel { name: self.name@, opts: self.opts@, ty: self.ty@ }
    }
}

/// The argument name a field resolves to: its configured rename when one is
/// present, else its own name.
pub open spec fn spec_resolve_ident(f: FieldModel) -> Seq<char> {
    match f.opts.name {
        Option::Some(n) => n,
        Option::None => f.name,
    }
}

/// The decimal digit `d` as a character.
pub open spec fn spec_digit_char(d: nat) -> char {
    if d == 0 {
        '0'
    } else if d == 1 {
        '1'
    } else if d == 2 {
        '2'
    } else if d == 3 {
        '3'
    } else if d == 4 {
        '4'
    } else if d == 5 {
        '5'
    } else if d == 6 {
        '6'
    } else if d == 7 {
        '7'
    } else if d == 8 {
        '8'
    } else {
        '9'
    }
}

/// The decimal spelling of `n`, most significant digit first.
pub open spec fn spec_decimal(n: nat) -> Seq<char>
    decreases n,
{
    if n < 10 {
        seq![spec_digit_char(n)]
    } else {
        spec_decimal(n / 10).push(spec_digit_char(n % 10))
    }
}

/// The synthetic internal name of the positional field at index `idx`: the
/// letter `f` followed by the one-based position.
pub open spec fn spec_positional_name(idx: nat) -> Seq<char> {
    seq!['f'] + spec_decimal(idx + 1)
}

/// The decimal digit `d` as a character.
pub fn digit_char(d: usize) -> (r: char)
    requires
        d < 10,
    ensures
        r == spec_digit_char(d as nat),
{
    if d == 0 {
        '0'
    } else if d == 1 {
        '1'
    } else if d == 2 {
        '2'
    } else if d == 3 {
        '3'
    } else if d == 4 {
        '4'
    } else if d == 5 {
        '5'
    } else if d == 6 {
        '6'
    } else if d == 7 {
        '7'
    } else if d == 8 {
        '8'
    } else {
        '9'
    }
}

/// The decimal spelling of `n`, most significant digit first.
pub fn decimal_chars(n: usize) -> (r: Vec<char>)
    ensures
        r@ == spec_decimal(n as nat),
    decreases n,
{
    if n < 10 {
        let mut r: Vec<char> = Vec::new();
        r.push(digit_char(n));
        proof {
            assert(r@ =~= seq![spec_digit_char(n as nat)]);
        }
        r
    } else {
        let mut r = decimal_chars(n / 10);
        r.push(digit_char(n % 10));
        r
    }
}

/// The synthetic internal name of the positional field at index `idx`.
pub fn positional_name(idx: usize) -> (r: Vec<char>)
    requires
        idx < usize::MAX,
    ensures
        r@ == spec_positional_name(idx as nat),
{
    let mut r: Vec<char> = Vec::new();
    r.push('f');
    let mut d = decimal_chars(idx + 1);
    r.append(&mut d);
    proof {
        assert(r@ =~= seq!['f'] + spec_decimal((idx + 1) as nat));
    }
    r
}

/// A copy of `v`.
pub fn clone_chars(v: &Vec<char>) -> (r: Vec<char>)
    ensures
        r@ == v@,
{
    let r = sub_vec(v, 0, v.len());
    proof {
        assert(v@.subrange(0, v@.len() as int) =~= v@);
    }
    r
}

/// The field that the raw field `raw` resolves to: its options parsed from
/// its fragments, its internal name the declared one when the shape is
/// named and one is present, else the synthetic positional name for index
/// `idx`.
pub open spec fn spec_field_of(raw: RawFieldModel, named: bool, idx: nat) -> Result<
    FieldModel,
    Error,
> {
    match spec_field_options(raw.attrs) {
        Result::Err(e) => Result::Err(e),
        Result::Ok(opts) => Result::Ok(
            FieldModel {
                name: if named && raw.name is Some {
                    raw.name->Some_0
                } else {
                    spec_positional_name(idx)
                },
                opts,
                ty: raw.ty,
            },
        ),
    }
}

/// The fields that the raw fields in `raw`, numbered from `idx`, resolve
/// to; the first malformed one fails.
pub open spec fn spec_collect_from(raw: Seq<RawFieldModel>, named: bool, idx: nat) -> Result<
    Seq<FieldModel>,
    Error,
>
    decreases raw.len(),
{
    if raw.len() == 0 {
        Result::Ok(Seq::empty())
    } else {
        match spec_field_of(raw[0], named, idx) {
            Result::Err(e) => Result::Err(e),
            Result::Ok(f) => match spec_collect_from(raw.drop_first(), named, idx + 1) {
                Result::Err(e) => Result::Err(e),
                Result::Ok(rest) => Result::Ok(seq![f] + rest),
            },
        }
    }
}

/// The fields that a whole raw field list resolves to.
pub open spec fn spec_collect_fields(raw: Seq<RawFieldModel>, named: bool) -> Result<
    Seq<FieldModel>,
    Error,
> {
    spec_collect_from(raw, named, 0)
}

/// The model of a field list.
pub open spec fn fields_view_of(l: Seq<Field>) -> Seq<FieldModel> {
    l.map_values(|f: Field| f@)
}

impl Field {
    /// The argument name this field resolves to: the configured rename when
    /// one is present, else the field's own name.
    pub fn resolve_ident(&self) -> (r: &Vec<char>)
        ensures
            r@ == spec_resolve_ident(self@),
    {
        if let Some(ref name) = self.opts.name {
            name
        } else {
            &self.name
        }
    }

    /// The fields that the raw field list `raw` resolves to, each field's
    /// options parsed from its fragments, or the failure the first
    /// malformed field raises.
    pub fn collect(raw: &Vec<RawField>, named: bool) -> (r: Result<Vec<Field>, Error>)
        ensures
            (match r {
                Result::Ok(l) => Result::<Seq<FieldModel>, Error>::Ok(fields_view_of(l@)),
                Result::Err(e) => Result::<Seq<FieldModel>, Error>::Err(e),
            }) == spec_collect_fields(raw_fields_view(raw@), named),
    {
        let mut acc: Vec<Field> = Vec::new();
        let mut i: usize = 0;
        proof {
            assert(raw_fields_view(raw@).skip(0) =~= raw_fields_view(raw@));
            if spec_collect_fields(raw_fields_view(raw@), named) is Ok {
                let rest = spec_collect_fields(raw_fields_view(raw@), named)->Ok_0;
                assert(fields_view_of(acc@) + rest =~= rest);
            }
        }
        while i < raw.len()
            invariant
                i <= raw@.len(),
                spec_collect_fields(raw_fields_view(raw@), named) == (match spec_collect_from(
                    raw_fields_view(raw@).skip(i as int),
                    named,
                    i as nat,
                ) {
                    Result::Err(e) => Result::<Seq<FieldModel>, Error>::Err(e),
                    Result::Ok(rest) => Result::Ok(fields_view_of(acc@) + rest),
                }),
            decreases raw@.len() - i,
        {
            proof {
                assert(raw_fields_view(raw@).skip(i as int)[0] == raw@[i as int]@);
                assert(raw_fields_view(raw@).skip(i as int).drop_first() =~= raw_fields_view(
                    raw@,
                ).skip(i + 1));
            }
            let rf = &raw[i];
            let opts = match FieldOptions::from_fragments(&rf.attrs) {
                Err(e) => {
                    return Err(e);
                },
                Ok(o) => o,
            };
            let name: Vec<char> = if named {
                match &rf.name {
                    Some(n) => clone_chars(n),
                    None => positional_name(i),
                }
            } else {
                positional_name(i)
            };
            let f = Field { name, opts, ty: clone_chars(&rf.ty) };
            let ghost fm = f@;
            let ghost acc0 = acc@;
            acc.push(f);
            proof {
                assert(spec_field_of(raw_fields_view(raw@).skip(i as int)[0], named, i as nat)
                    == Result::<FieldModel, Error>::Ok(fm));
                let prev = spec_collect_from(raw_fields_view(raw@).skip(i as int), named, i as nat);
                let nxt = spec_collect_from(raw_fields_view(raw@).skip(i + 1), named, (i as nat) + 1);
                assert(raw_fields_view(raw@).skip(i as int).drop_first() == raw_fields_view(raw@).skip(i + 1));
                assert(prev == (match nxt {
                    Result::Err(e) => Result::<Seq<FieldModel>, Error>::Err(e),
                    Result::Ok(rest) => Result::Ok(seq![fm] + rest),
                }));
                assert(fields_view_of(acc@) =~= fields_view_of(acc0).push(fm));
                if spec_collect_from(raw_fields_view(raw@).skip(i + 1), named, (i + 1) as nat)
                    is Ok {
                    let rest = spec_collect_from(
                        raw_fields_view(raw@).skip(i + 1),
                        named,
                        (i + 1) as nat,
                    )->Ok_0;
                    assert(fields_view_of(acc0) + (seq![fm] + rest) =~= fields_view_of(
                        acc@,
                    ) + rest);
                }
            }
            i += 1;
        }
        proof {
            assert(raw_fields_view(raw@).skip(raw@.len() as int) =~= Seq::<RawFieldModel>::empty());
            assert(fields_view_of(acc@) + Seq::<FieldModel>::empty() =~= fields_view_of(acc@));
        }
        Ok(acc)
    }
}

} // verus!
