use vstd::prelude::*;
use crate::error::Error;
use crate::name::Name;
use crate::validate::{is_valid, near, valid, FitSummary, Landmark};

verus! {

/// All bits of a 64-bit floating-point number but its sign.
pub const MAGNITUDE_BITS: u64 = 0x7fff_ffff_ffff_ffff;

/// The bit pattern of a floating-point zero, of either sign.
pub open spec fn is_zero_bits(bits: u64) -> bool {
    bits & MAGNITUDE_BITS == 0
}

/// A point at `(0, 0)`, given as the bit patterns of its coordinates.
pub open spec fn at_origin(point: (u64, u64)) -> bool {
    is_zero_bits(point.0) && is_zero_bits(point.1)
}

/// Input with nothing to fit: no points, or only points at `(0, 0)`.
pub open spec fn blank(points: Seq<(u64, u64)>) -> bool {
    forall|i: int| 0 <= i < points.len() ==> at_origin(#[trigger] points[i])
}

/// Rejects input with nothing to fit, before any model is fitted. Points are
/// given as the bit patterns of their coordinates.
pub fn check_points(points: &Vec<(u64, u64)>) -> (r: Result<(), Error>)
    ensures
        r is Err <==> blank(points@),
        r matches Err(e) ==> e is NoValidComplexity,
{
    let mut i: usize = 0;
    while i < points.len()
        invariant
            i <= points@.len(),
            forall|j: int| 0 <= j < i ==> at_origin(#[trigger] points@[j]),
        decreases points@.len() - i,
    {
        let (x, y) = points[i];
        if x & MAGNITUDE_BITS != 0 || y & MAGNITUDE_BITS != 0 {
            return Ok(());
        }
        i += 1;
    }
    Err(Error::NoValidComplexity)
}

/// The residual key of a kept fit.
pub open spec fn residual_key(fit: FitSummary) -> u64 {
    fit.residual->Some_0
}

/// Fit `i` comes before fit `j`: its residual is smaller, or the residuals are
/// equal and it was fitted first.
pub open spec fn before(fits: Seq<FitSummary>, i: int, j: int) -> bool {
    ||| residual_key(fits[i]) < residual_key(fits[j])
    ||| residual_key(fits[i]) == residual_key(fits[j]) && i < j
}

/// The positions in `order` go from the best fit to the worst.
pub open spec fn in_order(fits: Seq<FitSummary>, order: Seq<usize>) -> bool {
    forall|k1: int, k2: int|
        0 <= k1 < k2 < order.len() ==> #[trigger] before(fits, order[k1] as int, order[k2] as int)
}

/// `order` lists the positions of exactly the kept fits, each once, from the
/// lowest residual to the highest, equal residuals in the order of fitting.
pub open spec fn is_selection(fits: Seq<FitSummary>, order: Seq<usize>) -> bool {
    &&& forall|k: int| 0 <= k < order.len() ==> #[trigger] order[k] < fits.len()
    &&& forall|k: int| 0 <= k < order.len() ==> valid(fits[#[trigger] order[k] as int])
    &&& forall|i: int| 0 <= i < fits.len() && valid(#[trigger] fits[i]) ==> order.contains(i as usize)
    &&& in_order(fits, order)
}

/// Where a fit with residual key `key`, fitted after all those in `order`,
/// goes: after every fit whose key is not greater.
fn insertion_point(fits: &Vec<FitSummary>, order: &Vec<usize>, key: u64) -> (p: usize)
    requires
        forall|k: int| 0 <= k < order@.len() ==> #[trigger] order@[k] < fits@.len(),
        forall|k: int| 0 <= k < order@.len() ==> valid(fits@[#[trigger] order@[k] as int]),
    ensures
        p <= order@.len(),
        forall|k: int| 0 <= k < p ==> residual_key(fits@[#[trigger] order@[k] as int]) <= key,
        p < order@.len() ==> key < residual_key(fits@[order@[p as int] as int]),
{
    let mut p: usize = 0;
    while p < order.len()
        invariant
            p <= order@.len(),
            forall|k: int| 0 <= k < order@.len() ==> #[trigger] order@[k] < fits@.len(),
            forall|k: int| 0 <= k < order@.len() ==> valid(fits@[#[trigger] order@[k] as int]),
            forall|k: int| 0 <= k < p ==> residual_key(fits@[#[trigger] order@[k] as int]) <= key,
        decreases order@.len() - p,
    {
        let j = order[p];
        let k = fits[j].residual.unwrap();
        if key < k {
            return p;
        }
        p += 1;
    }
    p
}

/// Inserting fit `i`, fitted after all those in `order`, after the fits whose
/// key is not greater and before the rest keeps the order.
proof fn lemma_insert_in_order(fits: Seq<FitSummary>, order: Seq<usize>, p: int, i: usize)
    requires
        in_order(fits, order),
        0 <= p <= order.len(),
        forall|k: int| 0 <= k < order.len() ==> #[trigger] order[k] < i,
        forall|k: int| 0 <= k < p ==> residual_key(fits[#[trigger] order[k] as int]) <= residual_key(fits[i as int]),
        p < order.len() ==> residual_key(fits[i as int]) < residual_key(fits[order[p] as int]),
    ensures
        in_order(fits, order.insert(p, i)),
{
    let next = order.insert(p, i);
    order.insert_ensures(p, i);
    assert forall|k1: int, k2: int| 0 <= k1 < k2 < next.len() implies #[trigger] before(
        fits,
        next[k1] as int,
        next[k2] as int,
    ) by {
        if k2 < p {
        } else if k2 == p {
            assert(next[k1] == order[k1]);
        } else if k1 < p {
            assert(next[k1] == order[k1]);
            assert(next[k2] == order[k2 - 1]);
        } else if k1 == p {
            assert(next[k2] == order[k2 - 1]);
            if k2 > p + 1 {
                assert(before(fits, order[p] as int, order[k2 - 1] as int));
            }
        } else {
            assert(before(fits, order[k1 - 1] as int, order[k2 - 1] as int));
        }
    }
}

/// Keeps the fits that pass the validity filter and orders them from the
/// lowest residual to the highest; equal residuals keep the order in which the
/// models were fitted. Returns their positions in `fits`, the best first.
pub fn select_fits(fits: &Vec<FitSummary>) -> (r: Result<Vec<usize>, Error>)
    ensures
        r is Err <==> forall|i: int| 0 <= i < fits@.len() ==> !valid(#[trigger] fits@[i]),
        r matches Err(e) ==> e is NoValidComplexity,
        r matches Ok(order) ==> is_selection(fits@, order@),
{
    let mut order: Vec<usize> = Vec::new();
    let mut i: usize = 0;
    while i < fits.len()
        invariant
            i <= fits@.len(),
            forall|k: int| 0 <= k < order@.len() ==> #[trigger] order@[k] < i,
            forall|k: int| 0 <= k < order@.len() ==> valid(fits@[#[trigger] order@[k] as int]),
            forall|j: int| 0 <= j < i && valid(#[trigger] fits@[j]) ==> order@.contains(j as usize),
            in_order(fits@, order@),
        decreases fits@.len() - i,
    {
        if is_valid(&fits[i]) {
            let key = fits[i].residual.unwrap();
            let p = insertion_point(fits, &order, key);
            let ghost old_order = order@;
            order.insert(p, i);
            proof {
                old_order.insert_ensures(p as int, i);
                assert forall|k: int| 0 <= k < order@.len() implies #[trigger] order@[k] < i + 1
                    && valid(fits@[order@[k] as int]) by {
                    if k > p {
                        assert(order@[k] == old_order[k - 1]);
                    }
                }
                assert forall|j: int| 0 <= j < i + 1 && valid(#[trigger] fits@[j]) implies order@.contains(
                    j as usize,
                ) by {
                    if j == i {
                        assert(order@[p as int] == i);
                    } else {
                        let k = choose|k: int| 0 <= k < old_order.len() && old_order[k] == j as usize;
                        if k < p {
                            assert(order@[k] == j as usize);
                        } else {
                            assert(order@[k + 1] == j as usize);
                        }
                    }
                }
                lemma_insert_in_order(fits@, old_order, p as int, i);
            }
        }
        i += 1;
    }
    if order.len() == 0 {
        proof {
            assert forall|j: int| 0 <= j < fits@.len() implies !valid(#[trigger] fits@[j]) by {
                if valid(fits@[j]) {
                    assert(order@.contains(j as usize));
                }
            }
        }
        return Err(Error::NoValidComplexity);
    }
    assert(valid(fits@[order@[0] as int]));
    Ok(order)
}

/// A fit of any model but the constant whose gain is zero within tolerance is
/// never selected: the constant fit of the same data stands for that curve.
pub proof fn lemma_flat_fit_never_selected(fits: Seq<FitSummary>, order: Seq<usize>, i: usize)
    requires
        is_selection(fits, order),
        i < fits.len(),
        fits[i as int].name != Name::Constant,
        near(fits[i as int].params.gain, Landmark::Zero),
    ensures
        !order.contains(i),
{
    if order.contains(i) {
        let k = choose|k: int| 0 <= k < order.len() && order[k] == i;
        assert(valid(fits[order[k] as int]));
    }
}

} // verus!
