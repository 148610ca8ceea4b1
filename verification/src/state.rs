//! The factory's persistent state: the configuration singleton, the
//! single pending-creation slot, and the registry.

use vstd::prelude::*;
use crate::asset::{AssetInfoPair, asset_wf};
use crate::pair_key::{PairKey, key_wf, spec_pair_key};
use crate::store::{PairStore, store_wf};

verus! {

/// The administrative parameters: the owner and the two code
/// templates children are created from.
#[derive(Debug, PartialEq, Eq)]
pub struct Config {
    pub owner: String,
    pub token_code_id: u64,
    pub pair_code_id: u64,
}

impl Clone for Config {
    /// Cloning the configuration yields an equal configuration.
    fn clone(&self) -> (r: Self)
        ensures
            r == *self,
    {
        Config {
            owner: self.owner.clone(),
            token_code_id: self.token_code_id,
            pair_code_id: self.pair_code_id,
        }
    }
}

/// The staged record of the one creation in flight: the key the
/// acknowledgment will commit under, and the descriptors as the
/// creator supplied them.
#[derive(Debug, PartialEq, Eq)]
pub struct TmpPairInfo {
    pub pair_key: PairKey,
    pub asset_infos: AssetInfoPair,
}

impl Clone for TmpPairInfo {
    /// Cloning the staged record yields an equal record.
    fn clone(&self) -> (r: Self)
        ensures
            r == *self,
    {
        TmpPairInfo { pair_key: self.pair_key.clone(), asset_infos: self.asset_infos.clone() }
    }
}

/// The whole state of one factory.
#[derive(Debug, PartialEq, Eq)]
pub struct FactoryState {
    /// Set by initialization, present for the rest of the factory's
    /// life.
    pub config: Option<Config>,
    /// The single pending-creation slot; `Some` while exactly one
    /// creation is in flight.
    pub tmp_pair_info: Option<TmpPairInfo>,
    /// The committed registry.
    pub pairs: PairStore,
}

/// A well-formed identity string: non-empty ASCII of at most 90
/// characters. Identities outside this form are rejected with a
/// validation error wherever one enters.
pub open spec fn addr_wf(s: Seq<char>) -> bool {
    &&& 1 <= s.len() <= 90
    &&& vstd::utf8::is_ascii_chars(s)
}

/// Checks an identity string for well-formedness.
pub fn addr_validate(s: &str) -> (r: bool)
    ensures
        r == addr_wf(s@),
{
    let n = s.unicode_len();
    1 <= n && n <= 90 && s.is_ascii()
}

/// The state invariant every entry point preserves.
pub open spec fn state_wf(s: FactoryState) -> bool {
    &&& (s.config matches Some(c) ==> addr_wf(c.owner@))
    &&& (s.tmp_pair_info matches Some(t) ==> {
        &&& key_wf(t.pair_key)
        &&& asset_wf(t.asset_infos.first)
        &&& asset_wf(t.asset_infos.second)
        &&& t.pair_key == spec_pair_key(t.asset_infos.first, t.asset_infos.second)
    })
    &&& store_wf(s.pairs.entries@)
}

impl FactoryState {
    /// A factory before initialization: no configuration, nothing in
    /// flight, an empty registry.
    pub fn new() -> (r: FactoryState)
        ensures
            r.config is None,
            r.tmp_pair_info is None,
            r.pairs.entries@ =~= Seq::<crate::store::PairEntry>::empty(),
            state_wf(r),
    {
        FactoryState { config: None, tmp_pair_info: None, pairs: PairStore::new() }
    }
}

} // verus!
