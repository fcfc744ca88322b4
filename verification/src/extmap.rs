//! Trusted declarations for the bidirectional ordered map of the `bimap`
//! crate, which the palette uses to hold its index <-> code pairs.

use vstd::prelude::*;

verus! {

#[verifier::external_type_specification]
#[verifier::external_body]
#[verifier::reject_recursive_types(L)]
#[verifier::reject_recursive_types(R)]
pub struct ExBiBTreeMap<L, R>(bimap::BiBTreeMap<L, R>);

/// The left-to-right pairs that a `bimap::BiBTreeMap<u16, u16>` holds, as a
/// map from left value to right value.
pub uninterp spec fn bimap_pairs(m: bimap::BiBTreeMap<u16, u16>) -> Map<u16, u16>;

/// Relies on bimap's `BiBTreeMap::new`: a freshly created bimap holds no
/// pairs.
#[verifier::external_body]
pub(crate) fn bimap_new() -> (r: bimap::BiBTreeMap<u16, u16>)
    ensures
        forall|k: u16| !bimap_pairs(r).dom().contains(k),
{
    bimap::BiBTreeMap::new()
}

/// Relies on bimap's `BiBTreeMap::insert`: when neither the left nor the
/// right value is paired yet, it adds exactly the given pair and removes
/// nothing.
#[verifier::external_body]
pub(crate) fn bimap_insert(m: &mut bimap::BiBTreeMap<u16, u16>, l: u16, r: u16)
    requires
        !bimap_pairs(*old(m)).dom().contains(l),
        forall|k: u16|
            bimap_pairs(*old(m)).dom().contains(k) ==> bimap_pairs(*old(m))[k] != r,
    ensures
        bimap_pairs(*final(m)) == bimap_pairs(*old(m)).insert(l, r),
{
    m.insert(l, r);
}

/// Relies on bimap's `BiBTreeMap::get_by_left`: returns the right value
/// paired with the given left value, or `None` when no pair has it.
#[verifier::external_body]
pub(crate) fn bimap_get_by_left(m: &bimap::BiBTreeMap<u16, u16>, l: u16) -> (r: Option<u16>)
    ensures
        match r {
            Some(v) => bimap_pairs(*m).dom().contains(l) && bimap_pairs(*m)[l] == v,
            None => !bimap_pairs(*m).dom().contains(l),
        },
{
    m.get_by_left(&l).copied()
}

/// Relies on bimap's `BiBTreeMap::get_by_right`: returns the left value
/// paired with the given right value, or `None` when no pair has it.
#[verifier::external_body]
pub(crate) fn bimap_get_by_right(m: &bimap::BiBTreeMap<u16, u16>, v: u16) -> (r: Option<u16>)
    ensures
        match r {
            Some(l) => bimap_pairs(*m).dom().contains(l) && bimap_pairs(*m)[l] == v,
            None => forall|k: u16|
                bimap_pairs(*m).dom().contains(k) ==> bimap_pairs(*m)[k] != v,
        },
{
    m.get_by_right(&v).copied()
}

} // verus!
