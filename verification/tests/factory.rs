//! The factory's behavior, exercised through its public entry points.

use terraswap_factory::asset::{AssetInfo, AssetInfoPair};
use terraswap_factory::contract::{execute, instantiate, migrate, query, query_pair, query_pairs,
    reply};
use terraswap_factory::error::ContractError;
use terraswap_factory::msgs::{ExecuteMsg, InstantiateMsg, MigrateMsg, QueryAnswer, QueryMsg,
    ReplyMsg, ReplyResult, Response, SubMsg, WasmAction};
use terraswap_factory::state::FactoryState;

fn native(denom: &str) -> AssetInfo {
    AssetInfo::NativeToken { denom: denom.to_string() }
}

fn token(addr: &str) -> AssetInfo {
    AssetInfo::Token { contract_addr: addr.to_string() }
}

fn pair(a: AssetInfo, b: AssetInfo) -> AssetInfoPair {
    AssetInfoPair { first: a, second: b }
}

/// The host's binary envelope reporting a created child: one
/// length-delimited field 1 carrying the contract address.
fn envelope(addr: &str) -> Vec<u8> {
    let mut v: Vec<u8> = vec![0x0a, addr.len() as u8];
    v.extend_from_slice(addr.as_bytes());
    v
}

fn success_reply(addr: &str) -> ReplyMsg {
    ReplyMsg { id: 1, result: ReplyResult::Success { data: Some(envelope(addr)) } }
}

fn init(deps: FactoryState) -> FactoryState {
    let mut state = deps;
    let msg = InstantiateMsg { pair_code_id: 321u64, token_code_id: 123u64 };
    let _res = instantiate(&mut state, "addr0000".to_string(), msg).unwrap();
    state
}

/// Runs a full create-and-acknowledge cycle for the given pair.
fn create_and_ack(state: &mut FactoryState, infos: AssetInfoPair, addr: &str, liquidity: &str) {
    execute(state, "anyone".to_string(), ExecuteMsg::CreatePair { asset_infos: infos }).unwrap();
    reply(state, success_reply(addr), liquidity.to_string()).unwrap();
}

#[test]
fn proper_initialization() {
    let mut deps = FactoryState::new();

    let msg = InstantiateMsg { pair_code_id: 321u64, token_code_id: 123u64 };

    // we can just call .unwrap() to assert this was a success
    let _res = instantiate(&mut deps, "addr0000".to_string(), msg).unwrap();

    let query_res = query(&deps, QueryMsg::Config {}).unwrap();
    match query_res {
        QueryAnswer::Config(config_res) => {
            assert_eq!(123u64, config_res.token_code_id);
            assert_eq!(321u64, config_res.pair_code_id);
            assert_eq!("addr0000".to_string(), config_res.owner);
        }
        _ => panic!("wrong answer variant"),
    }
}

#[test]
fn update_config() {
    let mut deps = FactoryState::new();

    let msg = InstantiateMsg { pair_code_id: 321u64, token_code_id: 123u64 };

    // we can just call .unwrap() to assert this was a success
    let _res = instantiate(&mut deps, "addr0000".to_string(), msg).unwrap();

    // update owner
    let msg = ExecuteMsg::UpdateConfig {
        owner: Some("addr0001".to_string()),
        pair_code_id: None,
        token_code_id: None,
    };

    let res = execute(&mut deps, "addr0000".to_string(), msg).unwrap();
    assert_eq!(0, res.messages.len());

    // it worked, let's query the state
    let query_res = query(&deps, QueryMsg::Config {}).unwrap();
    match query_res {
        QueryAnswer::Config(config_res) => {
            assert_eq!(123u64, config_res.token_code_id);
            assert_eq!(321u64, config_res.pair_code_id);
            assert_eq!("addr0001".to_string(), config_res.owner);
        }
        _ => panic!("wrong answer variant"),
    }

    // update left items
    let msg = ExecuteMsg::UpdateConfig {
        owner: None,
        pair_code_id: Some(100u64),
        token_code_id: Some(200u64),
    };

    let res = execute(&mut deps, "addr0001".to_string(), msg).unwrap();
    assert_eq!(0, res.messages.len());

    // it worked, let's query the state
    let query_res = query(&deps, QueryMsg::Config {}).unwrap();
    match query_res {
        QueryAnswer::Config(config_res) => {
            assert_eq!(200u64, config_res.token_code_id);
            assert_eq!(100u64, config_res.pair_code_id);
            assert_eq!("addr0001".to_string(), config_res.owner);
        }
        _ => panic!("wrong answer variant"),
    }

    // Unauthorized err
    let msg = ExecuteMsg::UpdateConfig { owner: None, pair_code_id: None, token_code_id: None };

    let res = execute(&mut deps, "addr0000".to_string(), msg);
    match res {
        Err(e) => assert_eq!(e.message(), "unauthorized"),
        _ => panic!("Must return unauthorized error"),
    }
}

#[test]
fn update_config_with_only_pair_code_id() {
    let mut deps = init(FactoryState::new());

    let msg = ExecuteMsg::UpdateConfig {
        owner: None,
        token_code_id: None,
        pair_code_id: Some(400u64),
    };
    execute(&mut deps, "addr0000".to_string(), msg).unwrap();

    match query(&deps, QueryMsg::Config {}).unwrap() {
        QueryAnswer::Config(config_res) => {
            assert_eq!("addr0000".to_string(), config_res.owner);
            assert_eq!(123u64, config_res.token_code_id);
            assert_eq!(400u64, config_res.pair_code_id);
        }
        _ => panic!("wrong answer variant"),
    }
}

#[test]
fn ack_with_invalid_liquidity_token_keeps_pending_record() {
    let mut state = init(FactoryState::new());

    execute(&mut state, "anyone".to_string(), ExecuteMsg::CreatePair {
        asset_infos: pair(native("uluna"), token("asset0001")),
    })
    .unwrap();

    let res = reply(&mut state, success_reply("pair0000"), "".to_string());
    assert_eq!(res, Err(ContractError::ValidationError));

    // nothing was consumed: the same acknowledgment with a proper
    // token still commits
    reply(&mut state, success_reply("pair0000"), "liquidity0000".to_string()).unwrap();
    let found = query_pair(&state, pair(native("uluna"), token("asset0001"))).unwrap();
    assert_eq!(found.liquidity_token, "liquidity0000");
}

#[test]
fn normal_migrate_pair() {
    let mut deps = FactoryState::new();
    deps = init(deps);

    let msg = ExecuteMsg::MigratePair { code_id: Some(123u64), contract: "contract0000".to_string() };

    assert_eq!(
        execute(&mut deps, "addr0000".to_string(), msg).unwrap(),
        Response {
            messages: vec![WasmAction::Migrate {
                contract_addr: "contract0000".to_string(),
                new_code_id: 123u64,
            }],
            submessages: vec![],
            attributes: vec![],
        },
    );
}

#[test]
fn normal_migrate_pair_with_none_code_id_will_config_code_id() {
    let mut deps = FactoryState::new();
    deps = init(deps);

    let msg = ExecuteMsg::MigratePair { code_id: None, contract: "contract0000".to_string() };

    assert_eq!(
        execute(&mut deps, "addr0000".to_string(), msg).unwrap(),
        Response {
            messages: vec![WasmAction::Migrate {
                contract_addr: "contract0000".to_string(),
                new_code_id: 321u64,
            }],
            submessages: vec![],
            attributes: vec![],
        },
    );
}

#[test]
fn failed_migrate_pair_with_no_admin() {
    let mut deps = FactoryState::new();
    deps = init(deps);

    let msg = ExecuteMsg::MigratePair { code_id: None, contract: "contract0000".to_string() };

    assert_eq!(
        execute(&mut deps, "noadmin".to_string(), msg),
        Err(ContractError::Unauthorized),
    );
}

#[test]
fn create_pair_dispatches_and_stages() {
    let mut state = init(FactoryState::new());

    let infos = pair(native("uluna"), token("asset0001"));
    let res = execute(&mut state, "anyone".to_string(), ExecuteMsg::CreatePair {
        asset_infos: infos,
    })
    .unwrap();

    assert_eq!(res.messages.len(), 0);
    assert_eq!(res.attributes.len(), 2);
    assert_eq!(res.attributes[0].key, "action");
    assert_eq!(res.attributes[0].value, "create_pair");
    assert_eq!(res.attributes[1].key, "pair");
    assert_eq!(res.attributes[1].value, "uluna-asset0001");
    assert_eq!(res.submessages.len(), 1);
    let sub: &SubMsg = &res.submessages[0];
    assert_eq!(sub.id, 1);
    assert!(sub.reply_on_success);
    match &sub.action {
        WasmAction::Instantiate { code_id, msg, label } => {
            assert_eq!(*code_id, 321u64);
            assert_eq!(msg.token_code_id, 123u64);
            assert_eq!(msg.asset_infos, pair(native("uluna"), token("asset0001")));
            assert_eq!(label, "");
        }
        _ => panic!("expected an instantiation"),
    }
}

#[test]
fn ack_commits_pair_under_staged_key() {
    let mut state = init(FactoryState::new());

    let infos = pair(native("uluna"), token("asset0001"));
    execute(&mut state, "anyone".to_string(), ExecuteMsg::CreatePair { asset_infos: infos })
        .unwrap();
    let res = reply(&mut state, success_reply("pair0000"), "liquidity0000".to_string()).unwrap();

    assert_eq!(res.attributes.len(), 2);
    assert_eq!(res.attributes[0].key, "pair_contract_addr");
    assert_eq!(res.attributes[0].value, "pair0000");
    assert_eq!(res.attributes[1].key, "liquidity_token_addr");
    assert_eq!(res.attributes[1].value, "liquidity0000");

    // the committed record is found under either descriptor order
    let found = query_pair(&state, pair(native("uluna"), token("asset0001"))).unwrap();
    assert_eq!(found.contract_addr, "pair0000");
    assert_eq!(found.liquidity_token, "liquidity0000");
    let found_swapped = query_pair(&state, pair(token("asset0001"), native("uluna"))).unwrap();
    assert_eq!(found_swapped.contract_addr, "pair0000");
}

#[test]
fn recreating_committed_pair_fails() {
    let mut state = init(FactoryState::new());

    create_and_ack(
        &mut state,
        pair(native("uluna"), token("asset0001")),
        "pair0000",
        "liquidity0000",
    );

    // the same unordered pair, in either order, is a duplicate
    let res = execute(&mut state, "anyone".to_string(), ExecuteMsg::CreatePair {
        asset_infos: pair(token("asset0001"), native("uluna")),
    });
    assert_eq!(res, Err(ContractError::AlreadyExists));
}

#[test]
fn unmatched_ack_is_a_protocol_violation() {
    let mut state = init(FactoryState::new());

    let res = reply(&mut state, success_reply("pair0000"), "liquidity0000".to_string());
    assert_eq!(res, Err(ContractError::ProtocolViolation));
}

#[test]
fn failure_ack_keeps_pending_record() {
    let mut state = init(FactoryState::new());

    execute(&mut state, "anyone".to_string(), ExecuteMsg::CreatePair {
        asset_infos: pair(native("uluna"), token("asset0001")),
    })
    .unwrap();

    let res = reply(
        &mut state,
        ReplyMsg { id: 1, result: ReplyResult::Failure },
        "liquidity0000".to_string(),
    );
    assert_eq!(res, Err(ContractError::SubMsgFailure));

    // the record is still staged: a success acknowledgment commits it
    reply(&mut state, success_reply("pair0000"), "liquidity0000".to_string()).unwrap();
    let found = query_pair(&state, pair(native("uluna"), token("asset0001"))).unwrap();
    assert_eq!(found.contract_addr, "pair0000");
}

#[test]
fn malformed_ack_payload_is_a_decoding_error() {
    let mut state = init(FactoryState::new());

    execute(&mut state, "anyone".to_string(), ExecuteMsg::CreatePair {
        asset_infos: pair(native("uluna"), token("asset0001")),
    })
    .unwrap();

    // a truncated envelope: the length prefix runs past the buffer
    let msg = ReplyMsg {
        id: 1,
        result: ReplyResult::Success { data: Some(vec![0x0a, 0x20, 0x61]) },
    };
    let res = reply(&mut state, msg, "liquidity0000".to_string());
    assert_eq!(res, Err(ContractError::DecodingError));

    // an absent payload is malformed too
    let msg = ReplyMsg { id: 1, result: ReplyResult::Success { data: None } };
    let res = reply(&mut state, msg, "liquidity0000".to_string());
    assert_eq!(res, Err(ContractError::DecodingError));
}

#[test]
fn ack_envelope_skips_unknown_fields() {
    let mut state = init(FactoryState::new());

    execute(&mut state, "anyone".to_string(), ExecuteMsg::CreatePair {
        asset_infos: pair(native("uluna"), token("asset0001")),
    })
    .unwrap();

    // field 2 (a varint) and field 3 (bytes) surround field 1
    let mut data: Vec<u8> = vec![0x10, 0x07];
    data.extend_from_slice(&envelope("pair0000"));
    data.extend_from_slice(&[0x1a, 0x02, 0xff, 0xff]);
    let msg = ReplyMsg { id: 1, result: ReplyResult::Success { data: Some(data) } };
    reply(&mut state, msg, "liquidity0000".to_string()).unwrap();

    let found = query_pair(&state, pair(native("uluna"), token("asset0001"))).unwrap();
    assert_eq!(found.contract_addr, "pair0000");
}

#[test]
fn create_pair_rejects_malformed_descriptor() {
    let mut state = init(FactoryState::new());

    let res = execute(&mut state, "anyone".to_string(), ExecuteMsg::CreatePair {
        asset_infos: pair(native(""), token("asset0001")),
    });
    assert_eq!(res, Err(ContractError::ValidationError));

    let res = execute(&mut state, "anyone".to_string(), ExecuteMsg::CreatePair {
        asset_infos: pair(native("ülüna"), token("asset0001")),
    });
    assert_eq!(res, Err(ContractError::ValidationError));
}

#[test]
fn update_config_rejects_malformed_owner() {
    let mut state = init(FactoryState::new());

    let res = execute(&mut state, "addr0000".to_string(), ExecuteMsg::UpdateConfig {
        owner: Some("".to_string()),
        token_code_id: None,
        pair_code_id: None,
    });
    assert_eq!(res, Err(ContractError::ValidationError));

    // the rejected update left the owner in place
    let res = execute(&mut state, "addr0000".to_string(), ExecuteMsg::UpdateConfig {
        owner: None,
        token_code_id: Some(7u64),
        pair_code_id: None,
    });
    assert!(res.is_ok());
}

#[test]
fn uninitialized_factory_reports_not_found() {
    let mut state = FactoryState::new();

    let res = execute(&mut state, "addr0000".to_string(), ExecuteMsg::UpdateConfig {
        owner: None,
        token_code_id: None,
        pair_code_id: None,
    });
    assert_eq!(res, Err(ContractError::NotFound));

    let res = query(&state, QueryMsg::Config {});
    assert_eq!(res, Err(ContractError::NotFound));
}

#[test]
fn query_missing_pair_reports_not_found() {
    let state = init(FactoryState::new());

    let res = query_pair(&state, pair(native("uluna"), token("asset0001")));
    assert_eq!(res, Err(ContractError::NotFound));
}

#[test]
fn native_and_token_with_same_text_are_distinct() {
    let mut state = init(FactoryState::new());

    create_and_ack(
        &mut state,
        pair(native("samename"), token("samename")),
        "pair0000",
        "liquidity0000",
    );

    // a pair of two natives with that text is a different pair
    let res = query_pair(&state, pair(native("samename"), native("samename")));
    assert_eq!(res, Err(ContractError::NotFound));
}

#[test]
fn pagination_is_stable() {
    let mut state = init(FactoryState::new());

    // five pairs, committed one cycle at a time
    for (i, denom) in ["uaaa", "ubbb", "uccc", "uddd", "ueee"].iter().enumerate() {
        create_and_ack(
            &mut state,
            pair(native(denom), token("asset0001")),
            &format!("pair000{}", i),
            &format!("liquidity000{}", i),
        );
    }

    let all = match query(&state, QueryMsg::Pairs { start_after: None, limit: Some(30u32) })
        .unwrap()
    {
        QueryAnswer::Pairs(resp) => resp.pairs,
        _ => panic!("wrong answer variant"),
    };
    assert_eq!(all.len(), 5);

    // pages of two: at most two each, no overlap, no gap
    let mut seen: Vec<terraswap_factory::store::PairInfo> = Vec::new();
    let mut cursor: Option<AssetInfoPair> = None;
    loop {
        let page = match query(&state, QueryMsg::Pairs {
            start_after: cursor.clone(),
            limit: Some(2u32),
        })
        .unwrap()
        {
            QueryAnswer::Pairs(resp) => resp.pairs,
            _ => panic!("wrong answer variant"),
        };
        assert!(page.len() <= 2);
        if page.is_empty() {
            break;
        }
        cursor = Some(page[page.len() - 1].asset_infos.clone());
        seen.extend(page);
    }
    assert_eq!(seen, all);

    // the default limit covers all five
    let defaulted = match query(&state, QueryMsg::Pairs { start_after: None, limit: None })
        .unwrap()
    {
        QueryAnswer::Pairs(resp) => resp.pairs,
        _ => panic!("wrong answer variant"),
    };
    assert_eq!(defaulted, all);
}

#[test]
fn query_pairs_limit_is_capped() {
    let mut state = init(FactoryState::new());

    create_and_ack(
        &mut state,
        pair(native("uluna"), token("asset0001")),
        "pair0000",
        "liquidity0000",
    );

    let res = query_pairs(&state, None, Some(1000u32)).unwrap();
    assert_eq!(res.pairs.len(), 1);

    let res = query_pairs(&state, None, Some(0u32)).unwrap();
    assert_eq!(res.pairs.len(), 0);
}

#[test]
fn migrate_is_a_no_op() {
    let mut state = init(FactoryState::new());

    let res = migrate(&mut state, MigrateMsg {}).unwrap();
    assert_eq!(res, Response { messages: vec![], submessages: vec![], attributes: vec![] });
}
