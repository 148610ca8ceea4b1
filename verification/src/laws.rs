//! The protocol-level laws of the factory, proved from the entry
//! points' contracts.
//!
//! Each law is stated over the post-condition predicates of
//! [`crate::contract`], so it binds every implementation that meets
//! those contracts.

use vstd::prelude::*;
use crate::asset::{AssetInfoPair, asset_wf};
use crate::contract::{update_config_post, create_pair_post, migrate_pair_post, reply_post,
    reply_entry_ok};
use crate::error::ContractError;
use crate::msgs::{Response, ReplyMsg, ReplyResult};
use crate::pair_key::{key_eqv, spec_pair_key};
use crate::state::{Config, FactoryState, TmpPairInfo};
use crate::store::contains_key;

verus! {

/// No duplicate pairs: once an acknowledgment has committed the staged
/// pair, any creation request whose descriptors derive the same
/// unordered pair is rejected as already existing, and the state is
/// left untouched.
pub proof fn lemma_no_duplicate_pair(
    pre: FactoryState,
    mid: FactoryState,
    msg: ReplyMsg,
    liquidity_token: String,
    r1: Result<Response, ContractError>,
    t: TmpPairInfo,
    post: FactoryState,
    infos: AssetInfoPair,
    r2: Result<Response, ContractError>,
)
    requires
        reply_post(pre, mid, msg, liquidity_token, r1),
        r1 is Ok,
        pre.tmp_pair_info == Some(t),
        create_pair_post(mid, post, infos, r2),
        mid.config is Some,
        asset_wf(infos.first),
        asset_wf(infos.second),
        key_eqv(t.pair_key, spec_pair_key(infos.first, infos.second)),
    ensures
        r2 == Err::<Response, ContractError>(ContractError::AlreadyExists),
        post == mid,
{
    assert(contains_key(mid.pairs.entries@, spec_pair_key(infos.first, infos.second)));
}

/// Authorization: with a configuration in place, the administrative
/// update and the delegated upgrade both reject every caller but the
/// owner with an unauthorized error and leave the state untouched, and
/// neither rejects the owner as unauthorized.
pub proof fn lemma_owner_gating(
    pre: FactoryState,
    c: Config,
    sender: String,
    post1: FactoryState,
    owner: Option<String>,
    token_code_id: Option<u64>,
    pair_code_id: Option<u64>,
    r1: Result<Response, ContractError>,
    post2: FactoryState,
    contract: String,
    code_id: Option<u64>,
    r2: Result<Response, ContractError>,
)
    requires
        pre.config == Some(c),
        update_config_post(pre, post1, sender, owner, token_code_id, pair_code_id, r1),
        migrate_pair_post(pre, post2, sender, contract, code_id, r2),
    ensures
        sender@ != c.owner@ ==> {
            &&& r1 == Err::<Response, ContractError>(ContractError::Unauthorized)
            &&& r2 == Err::<Response, ContractError>(ContractError::Unauthorized)
            &&& post1 == pre
            &&& post2 == pre
        },
        sender@ == c.owner@ ==> {
            &&& r1 != Err::<Response, ContractError>(ContractError::Unauthorized)
            &&& r2 != Err::<Response, ContractError>(ContractError::Unauthorized)
        },
{
}

/// Acknowledgment correlation: a successful acknowledgment consumes
/// the staged record and commits a registry entry under exactly the
/// staged key, carrying the staged descriptors, the address the
/// payload resolves to, and the queried liquidity token.
pub proof fn lemma_ack_correlation(
    pre: FactoryState,
    post: FactoryState,
    data: Vec<u8>,
    addr_bytes: Seq<u8>,
    msg: ReplyMsg,
    liquidity_token: String,
    r: Result<Response, ContractError>,
    t: TmpPairInfo,
)
    requires
        reply_post(pre, post, msg, liquidity_token, r),
        r is Ok,
        pre.tmp_pair_info == Some(t),
        msg.result == (ReplyResult::Success { data: Some(data) }),
        crate::ack::spec_contract_addr(data@) == Some(addr_bytes),
    ensures
        post.tmp_pair_info is None,
        contains_key(post.pairs.entries@, t.pair_key),
        exists|p: int|
            0 <= p < post.pairs.entries@.len() && reply_entry_ok(
                t,
                addr_bytes,
                liquidity_token,
                #[trigger] post.pairs.entries@[p],
            ),
{
    let p = choose|p: int|
        0 <= p < post.pairs.entries@.len() && reply_entry_ok(
            t,
            addr_bytes,
            liquidity_token,
            #[trigger] post.pairs.entries@[p],
        ) && post.pairs.entries@ == pre.pairs.entries@.insert(p, post.pairs.entries@[p]);
    assert(reply_entry_ok(t, addr_bytes, liquidity_token, post.pairs.entries@[p]));
}

} // verus!
