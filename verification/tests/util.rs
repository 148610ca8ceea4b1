//! The deadline guard and the canonical key deriver on concrete
//! values.

use terraswap_factory::asset::{AssetInfo, AssetInfoPair};
use terraswap_factory::error::ContractError;
use terraswap_factory::pair_key::pair_key;
use terraswap_factory::util::assert_deadline;

#[test]
fn test_assert_deadline_with_normal() {
    assert_deadline(5u64, Some(10u64)).unwrap();
}

#[test]
fn test_assert_deadline_with_expired() {
    let err = assert_deadline(10u64, Some(5u64)).unwrap_err();
    assert_eq!(err, ContractError::ExpiredDeadline);
    assert_eq!(err.message(), "Expired deadline")
}

#[test]
fn test_assert_deadline_with_same() {
    let err = assert_deadline(10u64, Some(10u64)).unwrap_err();
    assert_eq!(err, ContractError::ExpiredDeadline);
    assert_eq!(err.message(), "Expired deadline")
}

#[test]
fn test_assert_deadline_with_none() {
    assert_deadline(5u64, None).unwrap();
}

#[test]
fn pair_key_is_order_independent() {
    let a = AssetInfo::NativeToken { denom: "uluna".to_string() };
    let b = AssetInfo::Token { contract_addr: "asset0001".to_string() };

    let k1 = pair_key(&AssetInfoPair { first: a.clone(), second: b.clone() }).unwrap();
    let k2 = pair_key(&AssetInfoPair { first: b, second: a }).unwrap();
    assert_eq!(k1, k2);
}

#[test]
fn pair_key_rejects_malformed_descriptor() {
    let a = AssetInfo::NativeToken { denom: "".to_string() };
    let b = AssetInfo::Token { contract_addr: "asset0001".to_string() };

    let res = pair_key(&AssetInfoPair { first: a, second: b });
    assert_eq!(res, Err(ContractError::ValidationError));
}
