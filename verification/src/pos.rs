//! Source positions and their merging.
//!
//! A [`Pos`] names the source region an input element came from; validation
//! failures carry one.  Merging a collection of positions yields the smallest
//! region enclosing all of them, as an associative, order-independent
//! reduction with an explicit fallback for the empty collection.

use vstd::prelude::*;

verus! {

/// A source region: a half-open range of offsets into the original source.
#[derive(Clone, Copy, Debug, PartialEq, Eq, Structural)]
pub struct Pos {
    /// Offset of the first byte of the region.
    pub lo: u64,
    /// Offset one past the last byte of the region.
    pub hi: u64,
}

/// The smallest region enclosing both `a` and `b`.
pub open spec fn spec_merge(a: Pos, b: Pos) -> Pos {
    Pos {
        lo: if a.lo <= b.lo { a.lo } else { b.lo },
        hi: if a.hi >= b.hi { a.hi } else { b.hi },
    }
}

/// The smallest region enclosing every element of `ps`, or `fallback` when
/// `ps` is empty; the fallback never takes part in the merge.
pub open spec fn spec_create_span(ps: Seq<Pos>, fallback: Pos) -> Pos
    decreases ps.len(),
{
    if ps.len() == 0 {
        fallback
    } else if ps.len() == 1 {
        ps[0]
    } else {
        spec_merge(spec_create_span(ps.drop_last(), fallback), ps.last())
    }
}

/// Merging is commutative: the enclosing region does not depend on the order
/// of its two arguments.
pub proof fn lemma_merge_commutes(a: Pos, b: Pos)
    ensures
        spec_merge(a, b) == spec_merge(b, a),
{
}

/// Merging is associative: reducing a collection of positions gives the same
/// enclosing region however the reduction is grouped.
pub proof fn lemma_merge_associates(a: Pos, b: Pos, c: Pos)
    ensures
        spec_merge(spec_merge(a, b), c) == spec_merge(a, spec_merge(b, c)),
{
}

/// The smallest region enclosing the positions in `ps`, or `fallback` when
/// `ps` is empty.
pub fn create_span(ps: &Vec<Pos>, fallback: Pos) -> (r: Pos)
    ensures
        r == spec_create_span(ps@, fallback),
{
    if ps.len() == 0 {
        return fallback;
    }
    let mut r = ps[0];
    let mut i: usize = 1;
    proof {
        assert(ps@.take(1) =~= seq![ps@[0]]);
    }
    while i < ps.len()
        invariant
            1 <= i <= ps.len(),
            r == spec_create_span(ps@.take(i as int), fallback),
        decreases ps.len() - i,
    {
        proof {
            assert(ps@.take(i + 1).drop_last() =~= ps@.take(i as int));
        }
        r = merge(r, ps[i]);
        i += 1;
    }
    proof {
        assert(ps@.take(ps@.len() as int) =~= ps@);
    }
    r
}

/// The smallest region enclosing both `a` and `b`.
pub fn merge(a: Pos, b: Pos) -> (r: Pos)
    ensures
        r == spec_merge(a, b),
{
    Pos {
        lo: if a.lo <= b.lo { a.lo } else { b.lo },
        hi: if a.hi >= b.hi { a.hi } else { b.hi },
    }
}

} // verus!
