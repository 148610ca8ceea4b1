//! The registry controller: the factory's entry points.
//!
//! Each entry point is a transition on [`FactoryState`]; its contract
//! pins the result and the new state for every input. The host calls
//! them with the caller identity it authenticated, performs the
//! actions of the returned [`Response`], and later delivers the
//! acknowledgment of a dispatched creation to [`reply`].

use vstd::prelude::*;
use crate::ack::{spec_contract_addr, parse_contract_addr, bytes_as_chars, bytes_ascii,
    bytes_all_ascii, ascii_to_string};
use crate::asset::{AssetInfoPair, asset_wf, asset_payload, asset_payload_str};
use crate::error::ContractError;
use crate::msgs::{InstantiateMsg, ExecuteMsg, QueryMsg, MigrateMsg, ConfigResponse,
    PairsResponse, QueryAnswer, PairInstantiateMsg, WasmAction, SubMsg, Attribute, Response,
    ReplyMsg, ReplyResult, CREATE_PAIR_REPLY_ID, empty_response, attr};
use crate::pair_key::{PairKey, key_eqv, spec_pair_key, pair_key};
use crate::state::{Config, FactoryState, TmpPairInfo, addr_wf, addr_validate, state_wf};
use crate::store::{PairEntry, PairInfo, contains_key, spec_page, store_wf};

verus! {

/// How many registry entries an enumeration returns when the caller
/// names no limit.
pub const DEFAULT_LIMIT: u32 = 10;

/// The most registry entries one enumeration ever returns.
pub const MAX_LIMIT: u32 = 30;

/// The page size an enumeration uses for a caller-supplied limit.
pub open spec fn spec_limit(limit: Option<u32>) -> nat {
    match limit {
        None => DEFAULT_LIMIT as nat,
        Some(l) => if l > MAX_LIMIT {
            MAX_LIMIT as nat
        } else {
            l as nat
        },
    }
}

/// Initialization: the caller becomes the owner and the two template
/// identifiers are stored. The host delivers this exactly once, before
/// any other call.
pub fn instantiate(state: &mut FactoryState, sender: String, msg: InstantiateMsg) -> (r: Result<
    Response,
    ContractError,
>)
    requires
        state_wf(*old(state)),
    ensures
        state_wf(*final(state)),
        r is Ok <==> addr_wf(sender@),
        r is Err ==> r == Err::<Response, ContractError>(ContractError::ValidationError)
            && *final(state) == *old(state),
        r matches Ok(resp) ==> {
            &&& final(state).config == Some(
                Config {
                    owner: sender,
                    token_code_id: msg.token_code_id,
                    pair_code_id: msg.pair_code_id,
                },
            )
            &&& final(state).tmp_pair_info == old(state).tmp_pair_info
            &&& final(state).pairs == old(state).pairs
            &&& resp.messages@.len() == 0 && resp.submessages@.len() == 0 && resp.attributes@.len()
                == 0
        },
{
    if !addr_validate(sender.as_str()) {
        return Err(ContractError::ValidationError);
    }
    state.config = Some(
        Config {
            owner: sender,
            token_code_id: msg.token_code_id,
            pair_code_id: msg.pair_code_id,
        },
    );
    Ok(empty_response())
}

/// What an administrative update leaves behind: unauthorized callers
/// and malformed owners are rejected untouched; otherwise exactly the
/// given fields are overwritten and the rest keep their values.
pub open spec fn update_config_post(
    pre: FactoryState,
    post: FactoryState,
    sender: String,
    owner: Option<String>,
    token_code_id: Option<u64>,
    pair_code_id: Option<u64>,
    r: Result<Response, ContractError>,
) -> bool {
    match pre.config {
        None => r == Err::<Response, ContractError>(ContractError::NotFound) && post == pre,
        Some(c) => if sender@ != c.owner@ {
            r == Err::<Response, ContractError>(ContractError::Unauthorized) && post == pre
        } else if (match owner {
            Some(o) => !addr_wf(o@),
            None => false,
        }) {
            r == Err::<Response, ContractError>(ContractError::ValidationError) && post == pre
        } else {
            &&& post.config == Some(
                Config {
                    owner: match owner {
                        Some(o) => o,
                        None => c.owner,
                    },
                    token_code_id: match token_code_id {
                        Some(t) => t,
                        None => c.token_code_id,
                    },
                    pair_code_id: match pair_code_id {
                        Some(p) => p,
                        None => c.pair_code_id,
                    },
                },
            )
            &&& post.tmp_pair_info == pre.tmp_pair_info
            &&& post.pairs == pre.pairs
            &&& r matches Ok(resp) && {
                &&& resp.messages@.len() == 0
                &&& resp.submessages@.len() == 0
                &&& resp.attributes@.len() == 1
                &&& resp.attributes@[0].key@ == "action"@
                &&& resp.attributes@[0].value@ == "update_config"@
            }
        },
    }
}

/// Administrative update, owner-gated: overwrites exactly the supplied
/// fields after validating a new owner identity.
pub fn execute_update_config(
    state: &mut FactoryState,
    sender: String,
    owner: Option<String>,
    token_code_id: Option<u64>,
    pair_code_id: Option<u64>,
) -> (r: Result<Response, ContractError>)
    requires
        state_wf(*old(state)),
    ensures
        state_wf(*final(state)),
        update_config_post(
            *old(state),
            *final(state),
            sender,
            owner,
            token_code_id,
            pair_code_id,
            r,
        ),
{
    let mut config = match &state.config {
        None => {
            return Err(ContractError::NotFound);
        },
        Some(c) => c.clone(),
    };
    if !(sender == config.owner) {
        return Err(ContractError::Unauthorized);
    }
    match owner {
        Some(o) => {
            if !addr_validate(o.as_str()) {
                return Err(ContractError::ValidationError);
            }
            config.owner = o;
        },
        None => {},
    }
    match token_code_id {
        Some(t) => {
            config.token_code_id = t;
        },
        None => {},
    }
    match pair_code_id {
        Some(p) => {
            config.pair_code_id = p;
        },
        None => {},
    }
    state.config = Some(config);
    let mut attributes: Vec<Attribute> = Vec::new();
    attributes.push(attr("action", String::from_str("update_config")));
    Ok(Response { messages: Vec::new(), submessages: Vec::new(), attributes })
}

/// What a creation request leaves behind: rejected untouched when the
/// factory is uninitialized, a descriptor is malformed, or the pair is
/// already registered; otherwise the request is staged and a single
/// acknowledged instantiation is dispatched.
pub open spec fn create_pair_post(
    pre: FactoryState,
    post: FactoryState,
    infos: AssetInfoPair,
    r: Result<Response, ContractError>,
) -> bool {
    match pre.config {
        None => r == Err::<Response, ContractError>(ContractError::NotFound) && post == pre,
        Some(c) => if !(asset_wf(infos.first) && asset_wf(infos.second)) {
            r == Err::<Response, ContractError>(ContractError::ValidationError) && post == pre
        } else if contains_key(pre.pairs.entries@, spec_pair_key(infos.first, infos.second)) {
            r == Err::<Response, ContractError>(ContractError::AlreadyExists) && post == pre
        } else {
            &&& post.config == pre.config
            &&& post.pairs == pre.pairs
            &&& post.tmp_pair_info == Some(
                TmpPairInfo {
                    pair_key: spec_pair_key(infos.first, infos.second),
                    asset_infos: infos,
                },
            )
            &&& r matches Ok(resp) && {
                &&& resp.messages@.len() == 0
                &&& resp.attributes@.len() == 2
                &&& resp.attributes@[0].key@ == "action"@
                &&& resp.attributes@[0].value@ == "create_pair"@
                &&& resp.attributes@[1].key@ == "pair"@
                &&& resp.attributes@[1].value@ == asset_payload(infos.first) + "-"@
                    + asset_payload(infos.second)
                &&& resp.submessages@.len() == 1
                &&& resp.submessages@[0].id == CREATE_PAIR_REPLY_ID
                &&& resp.submessages@[0].reply_on_success
                &&& resp.submessages@[0].action matches WasmAction::Instantiate {
                    code_id,
                    msg,
                    label,
                } && {
                    &&& code_id == c.pair_code_id
                    &&& msg.token_code_id == c.token_code_id
                    &&& msg.asset_infos == infos
                    &&& label@ == Seq::<char>::empty()
                }
            }
        },
    }
}

/// Creation request, open to any caller: derives the canonical key,
/// refuses a duplicate, stages the pending record, and dispatches the
/// child instantiation tagged for acknowledgment.
pub fn execute_create_pair(state: &mut FactoryState, asset_infos: AssetInfoPair) -> (r: Result<
    Response,
    ContractError,
>)
    requires
        state_wf(*old(state)),
    ensures
        state_wf(*final(state)),
        create_pair_post(*old(state), *final(state), asset_infos, r),
{
    let config = match &state.config {
        None => {
            return Err(ContractError::NotFound);
        },
        Some(c) => c.clone(),
    };
    let key = match pair_key(&asset_infos) {
        Err(e) => {
            return Err(e);
        },
        Ok(k) => k,
    };
    match state.pairs.get(&key) {
        Some(_) => {
            return Err(ContractError::AlreadyExists);
        },
        None => {},
    }
    let mut pair_label = String::from_str(asset_payload_str(&asset_infos.first));
    pair_label.append("-");
    pair_label.append(asset_payload_str(&asset_infos.second));
    state.tmp_pair_info = Some(
        TmpPairInfo { pair_key: key, asset_infos: asset_infos.clone() },
    );
    let mut attributes: Vec<Attribute> = Vec::new();
    attributes.push(attr("action", String::from_str("create_pair")));
    attributes.push(attr("pair", pair_label));
    let mut submessages: Vec<SubMsg> = Vec::new();
    submessages.push(
        SubMsg {
            id: CREATE_PAIR_REPLY_ID,
            reply_on_success: true,
            action: WasmAction::Instantiate {
                code_id: config.pair_code_id,
                label: String::new(),
                msg: PairInstantiateMsg { asset_infos, token_code_id: config.token_code_id },
            },
        },
    );
    Ok(Response { messages: Vec::new(), submessages, attributes })
}

/// What a delegated upgrade leaves behind: the state is never touched;
/// an unauthorized caller is rejected, the owner gets a single upgrade
/// directive against the named contract, defaulting to the configured
/// pair template when no identifier is supplied.
pub open spec fn migrate_pair_post(
    pre: FactoryState,
    post: FactoryState,
    sender: String,
    contract: String,
    code_id: Option<u64>,
    r: Result<Response, ContractError>,
) -> bool {
    post == pre && match pre.config {
        None => r == Err::<Response, ContractError>(ContractError::NotFound),
        Some(c) => if sender@ != c.owner@ {
            r == Err::<Response, ContractError>(ContractError::Unauthorized)
        } else {
            r matches Ok(resp) && {
                &&& resp.submessages@.len() == 0
                &&& resp.attributes@.len() == 0
                &&& resp.messages@.len() == 1
                &&& resp.messages@[0] == WasmAction::Migrate {
                    contract_addr: contract,
                    new_code_id: match code_id {
                        Some(ci) => ci,
                        None => c.pair_code_id,
                    },
                }
            }
        },
    }
}

/// Delegated upgrade, owner-gated: forwards an upgrade directive to
/// the named child contract and touches no registry state.
pub fn execute_migrate_pair(
    state: &FactoryState,
    sender: String,
    contract: String,
    code_id: Option<u64>,
) -> (r: Result<Response, ContractError>)
    ensures
        migrate_pair_post(*state, *state, sender, contract, code_id, r),
{
    let config = match &state.config {
        None => {
            return Err(ContractError::NotFound);
        },
        Some(c) => c,
    };
    if !(sender == config.owner) {
        return Err(ContractError::Unauthorized);
    }
    let new_code_id = match code_id {
        Some(ci) => ci,
        None => config.pair_code_id,
    };
    let mut messages: Vec<WasmAction> = Vec::new();
    messages.push(WasmAction::Migrate { contract_addr: contract, new_code_id });
    Ok(Response { messages, submessages: Vec::new(), attributes: Vec::new() })
}

/// Dispatches a structured command to its handler.
pub fn execute(state: &mut FactoryState, sender: String, msg: ExecuteMsg) -> (r: Result<
    Response,
    ContractError,
>)
    requires
        state_wf(*old(state)),
    ensures
        state_wf(*final(state)),
        match msg {
            ExecuteMsg::UpdateConfig { owner, token_code_id, pair_code_id } => update_config_post(
                *old(state),
                *final(state),
                sender,
                owner,
                token_code_id,
                pair_code_id,
                r,
            ),
            ExecuteMsg::CreatePair { asset_infos } => create_pair_post(
                *old(state),
                *final(state),
                asset_infos,
                r,
            ),
            ExecuteMsg::MigratePair { contract, code_id } => migrate_pair_post(
                *old(state),
                *final(state),
                sender,
                contract,
                code_id,
                r,
            ),
        },
{
    match msg {
        ExecuteMsg::UpdateConfig { owner, token_code_id, pair_code_id } => execute_update_config(
            state,
            sender,
            owner,
            token_code_id,
            pair_code_id,
        ),
        ExecuteMsg::CreatePair { asset_infos } => execute_create_pair(state, asset_infos),
        ExecuteMsg::MigratePair { contract, code_id } => execute_migrate_pair(
            state,
            sender,
            contract,
            code_id,
        ),
    }
}

/// Whether `e` is the entry a successful acknowledgment for the staged
/// record `t` must have committed.
pub open spec fn reply_entry_ok(
    t: TmpPairInfo,
    addr_bytes: Seq<u8>,
    liquidity_token: String,
    e: PairEntry,
) -> bool {
    &&& e.key == t.pair_key
    &&& e.info.asset_infos == t.asset_infos
    &&& e.info.contract_addr@ == bytes_as_chars(addr_bytes)
    &&& e.info.liquidity_token == liquidity_token
}

/// What delivering an acknowledgment leaves behind. With no staged
/// record the call is a protocol violation; a failure result and a
/// malformed or invalid payload are rejected untouched, the pending
/// record kept; otherwise the record is consumed and the resolved pair
/// is committed under the staged key.
pub open spec fn reply_post(
    pre: FactoryState,
    post: FactoryState,
    msg: ReplyMsg,
    liquidity_token: String,
    r: Result<Response, ContractError>,
) -> bool {
    match pre.tmp_pair_info {
        None => r == Err::<Response, ContractError>(ContractError::ProtocolViolation) && post
            == pre,
        Some(t) => match msg.result {
            ReplyResult::Failure => r == Err::<Response, ContractError>(
                ContractError::SubMsgFailure,
            ) && post == pre,
            ReplyResult::Success { data } => match data {
                None => r == Err::<Response, ContractError>(ContractError::DecodingError) && post
                    == pre,
                Some(d) => match spec_contract_addr(d@) {
                    None => r == Err::<Response, ContractError>(ContractError::DecodingError)
                        && post == pre,
                    Some(addr_bytes) => if !(1 <= addr_bytes.len() <= 90 && bytes_ascii(
                        addr_bytes,
                    )) || !addr_wf(liquidity_token@) {
                        r == Err::<Response, ContractError>(ContractError::ValidationError) && post
                            == pre
                    } else if contains_key(pre.pairs.entries@, t.pair_key) {
                        r == Err::<Response, ContractError>(ContractError::AlreadyExists) && post
                            == pre
                    } else {
                        &&& post.config == pre.config
                        &&& post.tmp_pair_info is None
                        &&& store_wf(post.pairs.entries@)
                        &&& post.pairs.entries@.len() == pre.pairs.entries@.len() + 1
                        &&& exists|p: int|
                            0 <= p < post.pairs.entries@.len() && reply_entry_ok(
                                t,
                                addr_bytes,
                                liquidity_token,
                                #[trigger] post.pairs.entries@[p],
                            ) && post.pairs.entries@ == pre.pairs.entries@.insert(
                                p,
                                post.pairs.entries@[p],
                            )
                        &&& forall|k: PairKey|
                            #[trigger] contains_key(post.pairs.entries@, k) == (contains_key(
                                pre.pairs.entries@,
                                k,
                            ) || key_eqv(t.pair_key, k))
                        &&& r matches Ok(resp) && {
                            &&& resp.messages@.len() == 0
                            &&& resp.submessages@.len() == 0
                            &&& resp.attributes@.len() == 2
                            &&& resp.attributes@[0].key@ == "pair_contract_addr"@
                            &&& resp.attributes@[0].value@ == bytes_as_chars(addr_bytes)
                            &&& resp.attributes@[1].key@ == "liquidity_token_addr"@
                            &&& resp.attributes@[1].value@ == liquidity_token@
                        }
                    },
                },
            },
        },
    }
}

/// Acknowledgment delivery, invoked only by the host: consumes the
/// staged record, decodes the created child's address from the
/// envelope, and commits the pair together with the child's derived
/// liquidity token address, which the host queried from the child.
/// The creation sub-message is the only acknowledged dispatch, so the
/// correlation identifier in `msg` is not consulted.
pub fn reply(state: &mut FactoryState, msg: ReplyMsg, liquidity_token: String) -> (r: Result<
    Response,
    ContractError,
>)
    requires
        state_wf(*old(state)),
    ensures
        state_wf(*final(state)),
        reply_post(*old(state), *final(state), msg, liquidity_token, r),
{
    let tmp = match &state.tmp_pair_info {
        None => {
            return Err(ContractError::ProtocolViolation);
        },
        Some(t) => t.clone(),
    };
    let data = match msg.result {
        ReplyResult::Failure => {
            return Err(ContractError::SubMsgFailure);
        },
        ReplyResult::Success { data } => match data {
            None => {
                return Err(ContractError::DecodingError);
            },
            Some(d) => d,
        },
    };
    let addr_bytes = match parse_contract_addr(&data) {
        None => {
            return Err(ContractError::DecodingError);
        },
        Some(b) => b,
    };
    if addr_bytes.len() < 1 || addr_bytes.len() > 90 {
        return Err(ContractError::ValidationError);
    }
    if !bytes_all_ascii(&addr_bytes) {
        return Err(ContractError::ValidationError);
    }
    if !addr_validate(liquidity_token.as_str()) {
        return Err(ContractError::ValidationError);
    }
    match state.pairs.get(&tmp.pair_key) {
        Some(_) => {
            return Err(ContractError::AlreadyExists);
        },
        None => {},
    }
    let contract_addr = ascii_to_string(addr_bytes);
    state.tmp_pair_info = None;
    let entry = PairEntry {
        key: tmp.pair_key,
        info: PairInfo {
            asset_infos: tmp.asset_infos,
            contract_addr: contract_addr.clone(),
            liquidity_token: liquidity_token.clone(),
        },
    };
    let ghost entry_spec = entry;
    match state.pairs.put(entry) {
        Ok(_) => {},
        Err(e) => {
            // dead: the duplicate lookup above just came back empty,
            // and the store's contract then promises the insertion;
            // the refusal is still honored rather than assumed
            return Err(e);
        },
    }
    let mut attributes: Vec<Attribute> = Vec::new();
    attributes.push(attr("pair_contract_addr", contract_addr));
    attributes.push(attr("liquidity_token_addr", liquidity_token));
    proof {
        // name the insertion point so the committed entry is visible
        // at its index
        let p = choose|p: int|
            0 <= p <= old(state).pairs.entries@.len() && state.pairs.entries@ == old(
                state,
            ).pairs.entries@.insert(p, entry_spec);
        assert(state.pairs.entries@[p] == entry_spec);
    }
    Ok(Response { messages: Vec::new(), submessages: Vec::new(), attributes })
}

/// What reading the configuration yields.
pub open spec fn query_config_post(s: FactoryState, r: Result<ConfigResponse, ContractError>) -> bool {
    match s.config {
        None => r == Err::<ConfigResponse, ContractError>(ContractError::NotFound),
        Some(c) => r == Ok::<ConfigResponse, ContractError>(
            ConfigResponse {
                owner: c.owner,
                token_code_id: c.token_code_id,
                pair_code_id: c.pair_code_id,
            },
        ),
    }
}

/// Reads the configuration.
pub fn query_config(state: &FactoryState) -> (r: Result<ConfigResponse, ContractError>)
    ensures
        query_config_post(*state, r),
{
    match &state.config {
        None => Err(ContractError::NotFound),
        Some(c) => Ok(
            ConfigResponse {
                owner: c.owner.clone(),
                token_code_id: c.token_code_id,
                pair_code_id: c.pair_code_id,
            },
        ),
    }
}

/// What a point query yields: the committed record of the unordered
/// pair the descriptors derive to, a validation error for a malformed
/// descriptor, and not-found for an unregistered pair.
pub open spec fn query_pair_post(
    s: FactoryState,
    infos: AssetInfoPair,
    r: Result<PairInfo, ContractError>,
) -> bool {
    if !(asset_wf(infos.first) && asset_wf(infos.second)) {
        r == Err::<PairInfo, ContractError>(ContractError::ValidationError)
    } else if !contains_key(s.pairs.entries@, spec_pair_key(infos.first, infos.second)) {
        r == Err::<PairInfo, ContractError>(ContractError::NotFound)
    } else {
        r matches Ok(info) && exists|i: int|
            0 <= i < s.pairs.entries@.len() && key_eqv(
                #[trigger] s.pairs.entries@[i].key,
                spec_pair_key(infos.first, infos.second),
            ) && info == s.pairs.entries@[i].info
    }
}

/// Point query over the registry.
pub fn query_pair(state: &FactoryState, asset_infos: AssetInfoPair) -> (r: Result<
    PairInfo,
    ContractError,
>)
    ensures
        query_pair_post(*state, asset_infos, r),
{
    let key = match pair_key(&asset_infos) {
        Err(e) => {
            return Err(e);
        },
        Ok(k) => k,
    };
    match state.pairs.get(&key) {
        None => Err(ContractError::NotFound),
        Some(info) => Ok(info),
    }
}

/// What an enumeration yields: the records of the page that starts
/// strictly after the cursor's derived key, capped by the effective
/// limit; a malformed cursor descriptor is a validation error.
pub open spec fn query_pairs_post(
    s: FactoryState,
    start_after: Option<AssetInfoPair>,
    limit: Option<u32>,
    r: Result<PairsResponse, ContractError>,
) -> bool {
    let start_ok = match start_after {
        None => true,
        Some(sa) => asset_wf(sa.first) && asset_wf(sa.second),
    };
    if !start_ok {
        r == Err::<PairsResponse, ContractError>(ContractError::ValidationError)
    } else {
        let cursor = match start_after {
            None => None,
            Some(sa) => Some(spec_pair_key(sa.first, sa.second)),
        };
        let page = spec_page(s.pairs.entries@, 0, cursor, spec_limit(limit));
        r matches Ok(resp) && resp.pairs@.len() == page.len() && forall|i: int|
            0 <= i < page.len() ==> resp.pairs@[i] == #[trigger] page[i].info
    }
}

/// Paginated enumeration over the registry.
pub fn query_pairs(
    state: &FactoryState,
    start_after: Option<AssetInfoPair>,
    limit: Option<u32>,
) -> (r: Result<PairsResponse, ContractError>)
    requires
        state_wf(*state),
    ensures
        query_pairs_post(*state, start_after, limit, r),
{
    let cursor: Option<PairKey> = match &start_after {
        None => None,
        Some(sa) => match pair_key(sa) {
            Err(e) => {
                return Err(e);
            },
            Ok(k) => Some(k),
        },
    };
    let n: u32 = match limit {
        None => DEFAULT_LIMIT,
        Some(l) => if l > MAX_LIMIT {
            MAX_LIMIT
        } else {
            l
        },
    };
    let page = state.pairs.list(cursor, n);
    let mut pairs: Vec<PairInfo> = Vec::new();
    let mut i: usize = 0;
    while i < page.len()
        invariant
            i <= page@.len(),
            pairs@.len() == i,
            forall|j: int| 0 <= j < i ==> pairs@[j] == #[trigger] page@[j].info,
        decreases page@.len() - i,
    {
        pairs.push(page[i].info.clone());
        i += 1;
    }
    Ok(PairsResponse { pairs })
}

/// Dispatches a read-only query to its handler.
pub fn query(state: &FactoryState, msg: QueryMsg) -> (r: Result<QueryAnswer, ContractError>)
    requires
        state_wf(*state),
    ensures
        match msg {
            QueryMsg::Config {} => {
                &&& (r matches Ok(a) ==> a matches QueryAnswer::Config(c) && query_config_post(
                    *state,
                    Ok(c),
                ))
                &&& (r matches Err(e) ==> query_config_post(*state, Err(e)))
            },
            QueryMsg::Pair { asset_infos } => {
                &&& (r matches Ok(a) ==> a matches QueryAnswer::Pair(p) && query_pair_post(
                    *state,
                    asset_infos,
                    Ok(p),
                ))
                &&& (r matches Err(e) ==> query_pair_post(*state, asset_infos, Err(e)))
            },
            QueryMsg::Pairs { start_after, limit } => {
                &&& (r matches Ok(a) ==> a matches QueryAnswer::Pairs(p) && query_pairs_post(
                    *state,
                    start_after,
                    limit,
                    Ok(p),
                ))
                &&& (r matches Err(e) ==> query_pairs_post(*state, start_after, limit, Err(e)))
            },
        },
{
    match msg {
        QueryMsg::Config {} => match query_config(state) {
            Ok(c) => Ok(QueryAnswer::Config(c)),
            Err(e) => Err(e),
        },
        QueryMsg::Pair { asset_infos } => match query_pair(state, asset_infos) {
            Ok(p) => Ok(QueryAnswer::Pair(p)),
            Err(e) => Err(e),
        },
        QueryMsg::Pairs { start_after, limit } => match query_pairs(state, start_after, limit) {
            Ok(p) => Ok(QueryAnswer::Pairs(p)),
            Err(e) => Err(e),
        },
    }
}

/// Version migration: a placeholder that transforms no state.
pub fn migrate(state: &mut FactoryState, _msg: MigrateMsg) -> (r: Result<Response, ContractError>)
    requires
        state_wf(*old(state)),
    ensures
        state_wf(*final(state)),
        *final(state) == *old(state),
        r matches Ok(resp) && resp.messages@.len() == 0 && resp.submessages@.len() == 0
            && resp.attributes@.len() == 0,
{
    Ok(empty_response())
}

} // verus!
