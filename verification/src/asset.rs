//! Resource descriptors: the tagged identifiers of the two fungible
//! units that make up a trading pair.

use vstd::prelude::*;
use crate::lex::{chars_lt, str_lt, lemma_chars_lt_asym, lemma_chars_lt_trichotomy,
    lemma_chars_lt_trans};

verus! {

/// A descriptor of one fungible unit: either a contract-backed token
/// (identified by its contract address) or a native ledger unit
/// (identified by its denomination).
///
/// The tag takes part in equality and ordering: a native unit and a
/// token whose textual payloads coincide are distinct descriptors.
#[derive(Debug, PartialEq, Eq)]
pub enum AssetInfo {
    Token { contract_addr: String },
    NativeToken { denom: String },
}

/// The two descriptors a caller supplies for a pair, in the caller's
/// order.
#[derive(Debug, PartialEq, Eq)]
pub struct AssetInfoPair {
    pub first: AssetInfo,
    pub second: AssetInfo,
}

impl Clone for AssetInfo {
    /// Cloning a descriptor yields an equal descriptor.
    fn clone(&self) -> (r: Self)
        ensures
            r == *self,
    {
        match self {
            AssetInfo::Token { contract_addr } => AssetInfo::Token {
                contract_addr: contract_addr.clone(),
            },
            AssetInfo::NativeToken { denom } => AssetInfo::NativeToken {
                denom: denom.clone(),
            },
        }
    }
}

impl Clone for AssetInfoPair {
    /// Cloning a descriptor pair yields an equal pair.
    fn clone(&self) -> (r: Self)
        ensures
            r == *self,
    {
        AssetInfoPair { first: self.first.clone(), second: self.second.clone() }
    }
}

/// The textual payload of a descriptor: the contract address or the
/// denomination.
pub open spec fn asset_payload(a: AssetInfo) -> Seq<char> {
    match a {
        AssetInfo::Token { contract_addr } => contract_addr@,
        AssetInfo::NativeToken { denom } => denom@,
    }
}

/// The rank of a descriptor's tag in the canonical order: native units
/// sort before contract-backed tokens.
pub open spec fn asset_rank(a: AssetInfo) -> int {
    match a {
        AssetInfo::NativeToken { .. } => 0,
        AssetInfo::Token { .. } => 1,
    }
}

/// A well-formed descriptor: its payload is a non-empty ASCII string of
/// at most 128 characters. This is the raw comparable form the key
/// deriver needs; a descriptor outside it is rejected with a
/// validation error.
pub open spec fn asset_wf(a: AssetInfo) -> bool {
    &&& 1 <= asset_payload(a).len() <= 128
    &&& vstd::utf8::is_ascii_chars(asset_payload(a))
}

/// Two descriptors denote the same unit: same tag and same payload.
pub open spec fn asset_eqv(x: AssetInfo, y: AssetInfo) -> bool {
    asset_rank(x) == asset_rank(y) && asset_payload(x) == asset_payload(y)
}

/// The canonical strict order on descriptors: by tag rank first, then
/// lexicographically by payload.
pub open spec fn asset_lt(x: AssetInfo, y: AssetInfo) -> bool {
    ||| asset_rank(x) < asset_rank(y)
    ||| (asset_rank(x) == asset_rank(y) && chars_lt(asset_payload(x), asset_payload(y)))
}

/// The descriptor order is asymmetric.
pub proof fn lemma_asset_lt_asym(x: AssetInfo, y: AssetInfo)
    ensures
        !(asset_lt(x, y) && asset_lt(y, x)),
{
    lemma_chars_lt_asym(asset_payload(x), asset_payload(y));
}

/// Any two descriptors are ordered or denote the same unit.
pub proof fn lemma_asset_lt_trichotomy(x: AssetInfo, y: AssetInfo)
    ensures
        asset_lt(x, y) || asset_lt(y, x) || asset_eqv(x, y),
{
    lemma_chars_lt_trichotomy(asset_payload(x), asset_payload(y));
}

/// The descriptor order is transitive.
pub proof fn lemma_asset_lt_trans(x: AssetInfo, y: AssetInfo, z: AssetInfo)
    ensures
        asset_lt(x, y) && asset_lt(y, z) ==> asset_lt(x, z),
{
    lemma_chars_lt_trans(asset_payload(x), asset_payload(y), asset_payload(z));
}

/// The order respects descriptor equivalence on the right.
pub proof fn lemma_asset_lt_eqv(x: AssetInfo, y1: AssetInfo, y2: AssetInfo)
    requires
        asset_eqv(y1, y2),
    ensures
        asset_lt(x, y1) == asset_lt(x, y2),
        asset_lt(y1, x) == asset_lt(y2, x),
{
}

/// Borrows the payload of a descriptor.
pub fn asset_payload_str(a: &AssetInfo) -> (s: &str)
    ensures
        s@ == asset_payload(*a),
{
    match a {
        AssetInfo::Token { contract_addr } => contract_addr.as_str(),
        AssetInfo::NativeToken { denom } => denom.as_str(),
    }
}

/// Checks that a descriptor is in its raw comparable form.
pub fn asset_is_valid(a: &AssetInfo) -> (r: bool)
    ensures
        r == asset_wf(*a),
{
    let s = asset_payload_str(a);
    let n = s.unicode_len();
    1 <= n && n <= 128 && s.is_ascii()
}

/// Decides the canonical strict order on two well-formed descriptors.
pub fn asset_lt_exec(x: &AssetInfo, y: &AssetInfo) -> (r: bool)
    requires
        asset_wf(*x),
        asset_wf(*y),
    ensures
        r == asset_lt(*x, *y),
{
    let rx: u8 = match x {
        AssetInfo::NativeToken { .. } => 0,
        AssetInfo::Token { .. } => 1,
    };
    let ry: u8 = match y {
        AssetInfo::NativeToken { .. } => 0,
        AssetInfo::Token { .. } => 1,
    };
    if rx != ry {
        rx < ry
    } else {
        str_lt(asset_payload_str(x), asset_payload_str(y))
    }
}

/// Decides descriptor equivalence for two well-formed descriptors.
pub fn asset_eq_exec(x: &AssetInfo, y: &AssetInfo) -> (r: bool)
    ensures
        r == asset_eqv(*x, *y),
{
    match (x, y) {
        (
            AssetInfo::Token { contract_addr: a },
            AssetInfo::Token { contract_addr: b },
        ) => *a == *b,
        (
            AssetInfo::NativeToken { denom: a },
            AssetInfo::NativeToken { denom: b },
        ) => *a == *b,
        _ => false,
    }
}

} // verus!
