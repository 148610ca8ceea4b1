//! The canonical key of an unordered descriptor pair.
//!
//! The registry must treat `[A, B]` and `[B, A]` as the same pair, so
//! the key of a pair is its two descriptors sorted into the canonical
//! descriptor order. Deriving the key fails only when a descriptor is
//! not in its raw comparable form.

use vstd::prelude::*;
use crate::asset::{AssetInfo, AssetInfoPair, asset_wf, asset_lt, asset_eqv, asset_is_valid,
    asset_lt_exec, asset_eq_exec, lemma_asset_lt_asym, lemma_asset_lt_trichotomy,
    lemma_asset_lt_trans, lemma_asset_lt_eqv};
use crate::error::ContractError;

verus! {

/// The canonical key: the unordered pair's descriptors, sorted.
#[derive(Debug, PartialEq, Eq)]
pub struct PairKey {
    pub lo: AssetInfo,
    pub hi: AssetInfo,
}

impl Clone for PairKey {
    /// Cloning a key yields an equal key.
    fn clone(&self) -> (r: Self)
        ensures
            r == *self,
    {
        PairKey { lo: self.lo.clone(), hi: self.hi.clone() }
    }
}

/// A well-formed key: both descriptors are well-formed and stand in
/// canonical order.
pub open spec fn key_wf(k: PairKey) -> bool {
    &&& asset_wf(k.lo)
    &&& asset_wf(k.hi)
    &&& (asset_lt(k.lo, k.hi) || asset_eqv(k.lo, k.hi))
}

/// Two keys name the same unordered pair.
pub open spec fn key_eqv(a: PairKey, b: PairKey) -> bool {
    asset_eqv(a.lo, b.lo) && asset_eqv(a.hi, b.hi)
}

/// The strict order on keys under which the registry enumerates its
/// entries: by the lower descriptor first, then by the higher.
pub open spec fn key_lt(a: PairKey, b: PairKey) -> bool {
    ||| asset_lt(a.lo, b.lo)
    ||| (asset_eqv(a.lo, b.lo) && asset_lt(a.hi, b.hi))
}

/// The key order is asymmetric.
pub proof fn lemma_key_lt_asym(a: PairKey, b: PairKey)
    ensures
        !(key_lt(a, b) && key_lt(b, a)),
{
    lemma_asset_lt_asym(a.lo, b.lo);
    lemma_asset_lt_asym(a.hi, b.hi);
    if asset_eqv(a.lo, b.lo) {
        lemma_asset_lt_eqv(a.lo, a.lo, b.lo);
    }
}

/// Any two keys are ordered or name the same unordered pair.
pub proof fn lemma_key_lt_trichotomy(a: PairKey, b: PairKey)
    ensures
        key_lt(a, b) || key_lt(b, a) || key_eqv(a, b),
{
    lemma_asset_lt_trichotomy(a.lo, b.lo);
    lemma_asset_lt_trichotomy(a.hi, b.hi);
}

/// The key order is transitive.
pub proof fn lemma_key_lt_trans(a: PairKey, b: PairKey, c: PairKey)
    ensures
        key_lt(a, b) && key_lt(b, c) ==> key_lt(a, c),
{
    lemma_asset_lt_trans(a.lo, b.lo, c.lo);
    lemma_asset_lt_trans(a.hi, b.hi, c.hi);
    if key_lt(a, b) && key_lt(b, c) {
        if asset_lt(a.lo, b.lo) && asset_eqv(b.lo, c.lo) {
            lemma_asset_lt_eqv(a.lo, b.lo, c.lo);
        }
        if asset_eqv(a.lo, b.lo) && asset_lt(b.lo, c.lo) {
            lemma_asset_lt_eqv(c.lo, a.lo, b.lo);
        }
    }
}

/// The key order respects key equivalence.
pub proof fn lemma_key_lt_eqv(a: PairKey, b1: PairKey, b2: PairKey)
    requires
        key_eqv(b1, b2),
    ensures
        key_lt(a, b1) == key_lt(a, b2),
        key_lt(b1, a) == key_lt(b2, a),
{
    lemma_asset_lt_eqv(a.lo, b1.lo, b2.lo);
    lemma_asset_lt_eqv(a.hi, b1.hi, b2.hi);
}

/// The key an ordered pair of descriptors derives to: the two sorted
/// into canonical order, ties keeping the given order.
pub open spec fn spec_pair_key(x: AssetInfo, y: AssetInfo) -> PairKey {
    if asset_lt(y, x) {
        PairKey { lo: y, hi: x }
    } else {
        PairKey { lo: x, hi: y }
    }
}

/// Key symmetry: deriving from `[A, B]` and from `[B, A]` names the
/// same unordered pair.
pub proof fn lemma_pair_key_symmetric(x: AssetInfo, y: AssetInfo)
    ensures
        key_eqv(spec_pair_key(x, y), spec_pair_key(y, x)),
{
    lemma_asset_lt_asym(x, y);
    lemma_asset_lt_trichotomy(x, y);
}

/// Key injectivity: equivalent keys can only come from the same
/// unordered pair of descriptors.
pub proof fn lemma_pair_key_injective(a: AssetInfo, b: AssetInfo, c: AssetInfo, d: AssetInfo)
    requires
        key_eqv(spec_pair_key(a, b), spec_pair_key(c, d)),
    ensures
        (asset_eqv(a, c) && asset_eqv(b, d)) || (asset_eqv(a, d) && asset_eqv(b, c)),
{
}

/// A derived key is well-formed.
pub proof fn lemma_pair_key_wf(x: AssetInfo, y: AssetInfo)
    requires
        asset_wf(x),
        asset_wf(y),
    ensures
        key_wf(spec_pair_key(x, y)),
{
    lemma_asset_lt_asym(x, y);
    lemma_asset_lt_trichotomy(x, y);
}

/// Derives the canonical key of a descriptor pair, rejecting a pair
/// with a descriptor outside its raw comparable form.
pub fn pair_key(infos: &AssetInfoPair) -> (r: Result<PairKey, ContractError>)
    ensures
        r is Ok <==> asset_wf(infos.first) && asset_wf(infos.second),
        r matches Err(e) ==> e == ContractError::ValidationError,
        r matches Ok(k) ==> k == spec_pair_key(infos.first, infos.second) && key_wf(k),
{
    if !asset_is_valid(&infos.first) || !asset_is_valid(&infos.second) {
        return Err(ContractError::ValidationError);
    }
    proof {
        lemma_pair_key_wf(infos.first, infos.second);
    }
    if asset_lt_exec(&infos.second, &infos.first) {
        Ok(PairKey { lo: infos.second.clone(), hi: infos.first.clone() })
    } else {
        Ok(PairKey { lo: infos.first.clone(), hi: infos.second.clone() })
    }
}

/// Decides whether two well-formed keys name the same unordered pair.
pub fn key_eq_exec(a: &PairKey, b: &PairKey) -> (r: bool)
    ensures
        r == key_eqv(*a, *b),
{
    asset_eq_exec(&a.lo, &b.lo) && asset_eq_exec(&a.hi, &b.hi)
}

/// Decides the registry's strict key order on two well-formed keys.
pub fn key_lt_exec(a: &PairKey, b: &PairKey) -> (r: bool)
    requires
        key_wf(*a),
        key_wf(*b),
    ensures
        r == key_lt(*a, *b),
{
    if asset_lt_exec(&a.lo, &b.lo) {
        true
    } else if asset_eq_exec(&a.lo, &b.lo) {
        asset_lt_exec(&a.hi, &b.hi)
    } else {
        false
    }
}

} // verus!
